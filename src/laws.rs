use vstd::prelude::*;

use crate::classify::{needs_quoting, numeric_keywords};
use crate::driver::{output_line, run_outputs, RecordEvent};
use crate::format::{
    column_names, insert_statement, join_commas, sql_value, sql_values, Column,
};
use crate::schema::{
    leading_quotes, normalize_type, paren_index, trailing_quotes, trim_quotes,
};

verus! {

/// No column name and no field holds a comma.
pub open spec fn comma_free(columns: Seq<Column>, record: Seq<Seq<char>>) -> bool {
    forall|i: int|
        0 <= i < columns.len() ==> !(#[trigger] columns[i].name@).contains(',') && !record[
            i
        ].contains(',')
}

/// How many times `c` occurs in `s`.
pub open spec fn count_char(s: Seq<char>, c: char) -> nat
    decreases s.len(),
{
    if s.len() == 0 {
        0
    } else {
        count_char(s.drop_last(), c) + if s.last() == c {
            1nat
        } else {
            0nat
        }
    }
}

proof fn lemma_count_concat(a: Seq<char>, b: Seq<char>, c: char)
    ensures
        count_char(a + b, c) == count_char(a, c) + count_char(b, c),
    decreases b.len(),
{
    if b.len() == 0 {
        assert(a + b =~= a);
    } else {
        assert((a + b).drop_last() =~= a + b.drop_last());
        lemma_count_concat(a, b.drop_last(), c);
    }
}

proof fn lemma_leading_quotes_bound(s: Seq<char>)
    ensures
        leading_quotes(s) <= s.len(),
        leading_quotes(s) < s.len() ==> s[leading_quotes(s) as int] != '\'',
    decreases s.len(),
{
    if s.len() > 0 && s[0] == '\'' {
        lemma_leading_quotes_bound(s.drop_first());
    }
}

proof fn lemma_trailing_quotes_bound(s: Seq<char>)
    ensures
        trailing_quotes(s) <= s.len(),
        trailing_quotes(s) < s.len() ==> s[s.len() - 1 - trailing_quotes(s)] != '\'',
    decreases s.len(),
{
    if s.len() > 0 && s.last() == '\'' {
        lemma_trailing_quotes_bound(s.drop_last());
    }
}

proof fn lemma_paren_prefix(s: Seq<char>)
    ensures
        paren_index(s) <= s.len(),
        paren_index(s) < s.len() ==> s[paren_index(s) as int] == '(',
        forall|j: int| 0 <= j < paren_index(s) ==> s[j] != '(',
    decreases s.len(),
{
    if s.len() > 0 && s[0] != '(' {
        lemma_paren_prefix(s.drop_first());
        assert forall|j: int| 0 <= j < paren_index(s) implies s[j] != '(' by {
            if j > 0 {
                assert(s[j] == s.drop_first()[j - 1]);
            }
        }
    }
}

/// A normalized type never holds an opening parenthesis, and never starts or ends with
/// a single quote. It holds no closing parenthesis either where each one of the reported
/// type follows an opening one.
pub proof fn lemma_type_keyword_clean(raw: Seq<char>)
    ensures
        !normalize_type(raw).contains('('),
        normalize_type(raw).len() > 0 ==> normalize_type(raw)[0] != '\'',
        normalize_type(raw).len() > 0 ==> normalize_type(raw).last() != '\'',
        (forall|i: int|
            0 <= i < raw.len() && raw[i] == ')' ==> exists|j: int| 0 <= j < i && raw[j] == '(')
            ==> !normalize_type(raw).contains(')'),
{
    lemma_paren_prefix(raw);
    let head = raw.take(paren_index(raw) as int);
    lemma_leading_quotes_bound(head);
    let rest = head.skip(leading_quotes(head) as int);
    lemma_trailing_quotes_bound(rest);
    let t = normalize_type(raw);
    assert(t == trim_quotes(head));
    assert forall|k: int| 0 <= k < t.len() implies t[k] == raw[leading_quotes(head) + k] by {}
    assert(!t.contains('(')) by {
        if t.contains('(') {
            let k = choose|k: int| 0 <= k < t.len() && t[k] == '(';
            assert(raw[leading_quotes(head) + k] == '(');
        }
    }
    if (forall|i: int|
        0 <= i < raw.len() && raw[i] == ')' ==> exists|j: int| 0 <= j < i && raw[j] == '(') {
        if t.contains(')') {
            let k = choose|k: int| 0 <= k < t.len() && t[k] == ')';
            let i = leading_quotes(head) + k;
            assert(raw[i] == ')');
            let j = choose|j: int| 0 <= j < i && raw[j] == '(';
            assert(false);
        }
    }
}

/// A statement for a record with one field per column lists exactly as many names as
/// values, one per column; where no name or field holds a comma, each list holds one
/// comma fewer than there are columns.
pub proof fn lemma_statement_shape(
    db: Seq<char>,
    tb: Seq<char>,
    columns: Seq<Column>,
    record: Seq<Seq<char>>,
)
    requires
        record.len() == columns.len(),
    ensures
        insert_statement(db, tb, columns, record) == "INSERT INTO "@ + db + "."@ + tb + " ("@
            + join_commas(column_names(columns)) + ") VALUES("@ + join_commas(
            sql_values(columns, record),
        ) + ");"@,
        column_names(columns).len() == columns.len(),
        sql_values(columns, record).len() == columns.len(),
        columns.len() > 0 && comma_free(columns, record) ==> count_char(
            join_commas(column_names(columns)),
            ',',
        ) == columns.len() - 1 && count_char(join_commas(sql_values(columns, record)), ',')
            == columns.len() - 1,
{
    if columns.len() > 0 && comma_free(columns, record) {
        lemma_comma_free_counts(columns, record);
    }
}

proof fn lemma_comma_free_counts(columns: Seq<Column>, record: Seq<Seq<char>>)
    requires
        record.len() == columns.len(),
        columns.len() > 0,
        comma_free(columns, record),
    ensures
        count_char(join_commas(column_names(columns)), ',') == columns.len() - 1,
        count_char(join_commas(sql_values(columns, record)), ',') == columns.len() - 1,
{
    let names = column_names(columns);
    let values = sql_values(columns, record);
    assert forall|i: int| 0 <= i < names.len() implies !(#[trigger] names[i]).contains(',') by {
        assert(!columns[i].name@.contains(','));
    }
    assert forall|i: int| 0 <= i < values.len() implies !(#[trigger] values[i]).contains(',') by {
        assert(!columns[i].name@.contains(','));
        reveal_strlit("'");
        if values[i].contains(',') {
            let k = choose|k: int| 0 <= k < values[i].len() && values[i][k] == ',';
            if needs_quoting(columns[i].tpe@) {
                assert(values[i] == "'"@ + record[i] + "'"@);
                assert(record[i][k - 1] == ',');
            } else {
                assert(record[i][k] == ',');
            }
        }
    }
    lemma_join_commas_count(names);
    lemma_join_commas_count(values);
}

proof fn lemma_no_char_count(s: Seq<char>, c: char)
    requires
        !s.contains(c),
    ensures
        count_char(s, c) == 0,
    decreases s.len(),
{
    if s.len() > 0 {
        assert(!s.drop_last().contains(c)) by {
            if s.drop_last().contains(c) {
                let k = choose|k: int| 0 <= k < s.drop_last().len() && s.drop_last()[k] == c;
                assert(s[k] == c);
            }
        }
        lemma_no_char_count(s.drop_last(), c);
    }
}

proof fn lemma_join_commas_count(items: Seq<Seq<char>>)
    requires
        items.len() > 0,
        forall|i: int| 0 <= i < items.len() ==> !(#[trigger] items[i]).contains(','),
    ensures
        count_char(join_commas(items), ',') == items.len() - 1,
    decreases items.len(),
{
    reveal_strlit(",");
    if items.len() == 1 {
        lemma_no_char_count(items[0], ',');
    } else {
        let init = items.drop_last();
        assert forall|i: int| 0 <= i < init.len() implies !(#[trigger] init[i]).contains(',') by {
            assert(init[i] == items[i]);
        }
        lemma_join_commas_count(init);
        lemma_no_char_count(items.last(), ',');
        lemma_count_concat(join_commas(init) + ","@, items.last(), ',');
        lemma_count_concat(join_commas(init), ","@, ',');
        assert(","@.drop_last() =~= Seq::<char>::empty());
        assert(count_char(Seq::<char>::empty(), ',') == 0);
        assert(count_char(","@, ',') == 1);
    }
}

/// Formatting one record for one table twice gives the same statement.
pub proof fn lemma_format_idempotent(
    db: Seq<char>,
    tb: Seq<char>,
    columns: Seq<Column>,
    record: Seq<Seq<char>>,
    first: Seq<char>,
    second: Seq<char>,
)
    requires
        record.len() == columns.len(),
        first == insert_statement(db, tb, columns, record),
        second == insert_statement(db, tb, columns, record),
    ensures
        first == second,
{
}

/// A field is written between single quotes exactly when its column's type is not a
/// numeric keyword; otherwise it is written as it stands.
pub proof fn lemma_quoting(columns: Seq<Column>, record: Seq<Seq<char>>, i: int)
    requires
        record.len() == columns.len(),
        0 <= i < record.len(),
    ensures
        !numeric_keywords().contains(columns[i].tpe@) ==> sql_values(columns, record)[i]
            == "'"@ + record[i] + "'"@,
        numeric_keywords().contains(columns[i].tpe@) ==> sql_values(columns, record)[i]
            == record[i],
{
}

/// With a header row due, the first record prints nothing; every later record, and every
/// record when no header row is due, prints its own line.
pub proof fn lemma_header_skip(
    skip_headers: bool,
    db: Seq<char>,
    tb: Seq<char>,
    columns: Seq<Column>,
    events: Seq<RecordEvent>,
)
    ensures
        run_outputs(skip_headers, db, tb, columns, events).len() == events.len(),
        forall|i: int|
            0 <= i < events.len() ==> #[trigger] run_outputs(
                skip_headers,
                db,
                tb,
                columns,
                events,
            )[i] == if skip_headers && i == 0 {
                None
            } else {
                Some(output_line(db, tb, columns, events[i]))
            },
    decreases events.len(),
{
    if events.len() > 0 {
        lemma_header_skip(false, db, tb, columns, events.drop_first());
        let outs = run_outputs(skip_headers, db, tb, columns, events);
        let tail = run_outputs(false, db, tb, columns, events.drop_first());
        assert forall|i: int| 0 < i < events.len() implies outs[i] == tail[i - 1] by {}
    }
}

} // verus!

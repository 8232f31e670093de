use vstd::prelude::*;

use crate::classify::{is_str, needs_quoting};
use crate::text::{decimal, push_decimal};

verus! {

/// One column of the target table: its identifier and its normalized type keyword.
pub struct Column {
    pub name: String,
    pub tpe: String,
}

/// A record whose field count differs from the table's column count.
#[derive(Debug, PartialEq, Eq, Structural)]
pub enum RowError {
    FieldCountMismatch { expected: usize, found: usize },
}

/// The items joined by single commas.
pub open spec fn join_commas(items: Seq<Seq<char>>) -> Seq<char>
    decreases items.len(),
{
    if items.len() == 0 {
        Seq::empty()
    } else if items.len() == 1 {
        items[0]
    } else {
        join_commas(items.drop_last()) + ","@ + items.last()
    }
}

/// The texts of a sequence of strings.
pub open spec fn strings_view(v: Seq<String>) -> Seq<Seq<char>> {
    v.map_values(|s: String| s@)
}

/// The columns' names, in order.
pub open spec fn column_names(columns: Seq<Column>) -> Seq<Seq<char>> {
    columns.map_values(|c: Column| c.name@)
}

/// A field as it appears in the statement: quoted unless its column is numeric.
pub open spec fn sql_value(tpe: Seq<char>, field: Seq<char>) -> Seq<char> {
    if needs_quoting(tpe) {
        "'"@ + field + "'"@
    } else {
        field
    }
}

/// The record's fields as they appear in the statement, each by its column's type.
pub open spec fn sql_values(columns: Seq<Column>, record: Seq<Seq<char>>) -> Seq<Seq<char>> {
    Seq::new(record.len(), |i: int| sql_value(columns[i].tpe@, record[i]))
}

/// The statement that inserts `record` into `db.tb`.
pub open spec fn insert_statement(
    db: Seq<char>,
    tb: Seq<char>,
    columns: Seq<Column>,
    record: Seq<Seq<char>>,
) -> Seq<char> {
    "INSERT INTO "@ + db + "."@ + tb + " ("@ + join_commas(column_names(columns)) + ") VALUES("@
        + join_commas(sql_values(columns, record)) + ");"@
}

/// The diagnostic for a record with `found` fields where `expected` were due.
pub open spec fn mismatch_message(expected: nat, found: nat) -> Seq<char> {
    "record has "@ + decimal(found) + " fields but the table has "@ + decimal(expected)
        + " columns"@
}

impl RowError {
    /// The diagnostic printed in place of the record's statement.
    pub fn message(&self) -> (r: String)
        ensures
            match *self {
                RowError::FieldCountMismatch { expected, found } => r@ == mismatch_message(
                    expected as nat,
                    found as nat,
                ),
            },
    {
        match self {
            RowError::FieldCountMismatch { expected, found } => {
                let mut r = String::new();
                r.append("record has ");
                push_decimal(&mut r, *found);
                r.append(" fields but the table has ");
                push_decimal(&mut r, *expected);
                r.append(" columns");
                r
            },
        }
    }
}

proof fn lemma_join_push(items: Seq<Seq<char>>, i: int)
    requires
        0 <= i < items.len(),
    ensures
        join_commas(items.take(i + 1)) == if i == 0 {
            items[0]
        } else {
            join_commas(items.take(i)) + ","@ + items[i]
        },
{
    assert(items.take(i + 1).drop_last() =~= items.take(i));
}

/// Formats one record as an INSERT statement for `db.tb`.
pub fn format_insert(db: &str, tb: &str, columns: &Vec<Column>, record: &Vec<String>) -> (r:
    Result<String, RowError>)
    ensures
        record@.len() == columns@.len() ==> r is Ok && r->Ok_0@ == insert_statement(
            db@,
            tb@,
            columns@,
            strings_view(record@),
        ),
        record@.len() != columns@.len() ==> r == Err::<String, RowError>(
            RowError::FieldCountMismatch { expected: columns.len(), found: record.len() },
        ),
{
    if record.len() != columns.len() {
        return Err(RowError::FieldCountMismatch { expected: columns.len(), found: record.len() });
    }
    let ghost names_seq = column_names(columns@);
    let ghost values_seq = sql_values(columns@, strings_view(record@));
    let mut names = String::new();
    let mut values = String::new();
    let mut i: usize = 0;
    while i < record.len()
        invariant
            record@.len() == columns@.len(),
            names_seq == column_names(columns@),
            values_seq == sql_values(columns@, strings_view(record@)),
            i <= record@.len(),
            names@ == join_commas(names_seq.take(i as int)),
            values@ == join_commas(values_seq.take(i as int)),
        decreases record@.len() - i,
    {
        proof {
            lemma_join_push(names_seq, i as int);
            lemma_join_push(values_seq, i as int);
        }
        if i > 0 {
            names.append(",");
            values.append(",");
        }
        names.append(columns[i].name.as_str());
        if is_str(columns[i].tpe.as_str()) {
            values.append("'");
            values.append(record[i].as_str());
            values.append("'");
        } else {
            values.append(record[i].as_str());
        }
        i = i + 1;
    }
    assert(names_seq.take(i as int) =~= names_seq);
    assert(values_seq.take(i as int) =~= values_seq);
    let mut sql = String::new();
    sql.append("INSERT INTO ");
    sql.append(db);
    sql.append(".");
    sql.append(tb);
    sql.append(" (");
    sql.append(names.as_str());
    sql.append(") VALUES(");
    sql.append(values.as_str());
    sql.append(");");
    Ok(sql)
}

} // verus!

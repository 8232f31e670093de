use vstd::prelude::*;

use crate::config::Args;
use crate::format::Column;

verus! {

/// Number of characters of `s` before its first `(` (all of them if it has none).
pub open spec fn paren_index(s: Seq<char>) -> nat
    decreases s.len(),
{
    if s.len() == 0 || s[0] == '(' {
        0
    } else {
        1 + paren_index(s.drop_first())
    }
}

/// Number of single quotes at the start of `s`.
pub open spec fn leading_quotes(s: Seq<char>) -> nat
    decreases s.len(),
{
    if s.len() > 0 && s[0] == '\'' {
        1 + leading_quotes(s.drop_first())
    } else {
        0
    }
}

/// Number of single quotes at the end of `s`.
pub open spec fn trailing_quotes(s: Seq<char>) -> nat
    decreases s.len(),
{
    if s.len() > 0 && s.last() == '\'' {
        1 + trailing_quotes(s.drop_last())
    } else {
        0
    }
}

/// `s` without the single quotes at either end.
pub open spec fn trim_quotes(s: Seq<char>) -> Seq<char> {
    let rest = s.skip(leading_quotes(s) as int);
    rest.take(rest.len() - trailing_quotes(rest))
}

/// A reported type with its length or precision suffix cut off and its quotes trimmed.
pub open spec fn normalize_type(raw: Seq<char>) -> Seq<char> {
    trim_quotes(raw.take(paren_index(raw) as int))
}

/// A reported column name with each single quote turned into a backtick.
pub open spec fn normalize_name(raw: Seq<char>) -> Seq<char> {
    raw.map_values(|c: char| if c == '\'' { '`' } else { c })
}

proof fn lemma_paren_index(s: Seq<char>, k: int)
    requires
        0 <= k <= s.len(),
        k == s.len() || s[k] == '(',
        forall|j: int| 0 <= j < k ==> s[j] != '(',
    ensures
        paren_index(s) == k,
    decreases s.len(),
{
    if k > 0 {
        lemma_paren_index(s.drop_first(), k - 1);
    }
}

proof fn lemma_leading_quotes(s: Seq<char>, k: int)
    requires
        0 <= k <= s.len(),
        k == s.len() || s[k] != '\'',
        forall|j: int| 0 <= j < k ==> s[j] == '\'',
    ensures
        leading_quotes(s) == k,
    decreases s.len(),
{
    if k > 0 {
        lemma_leading_quotes(s.drop_first(), k - 1);
    }
}

proof fn lemma_trailing_quotes(s: Seq<char>, k: int)
    requires
        0 <= k <= s.len(),
        k == s.len() || s[s.len() - 1 - k] != '\'',
        forall|j: int| s.len() - k <= j < s.len() ==> s[j] == '\'',
    ensures
        trailing_quotes(s) == k,
    decreases s.len(),
{
    if k > 0 {
        lemma_trailing_quotes(s.drop_last(), k - 1);
    }
}

/// Normalizes a reported type: see `normalize_type`.
pub fn type_keyword(raw: &str) -> (r: String)
    ensures
        r@ == normalize_type(raw@),
{
    let n = raw.unicode_len();
    let mut cut: usize = 0;
    while cut < n && raw.get_char(cut) != '('
        invariant
            n == raw@.len(),
            cut <= n,
            forall|j: int| 0 <= j < cut ==> raw@[j] != '(',
        decreases n - cut,
    {
        cut = cut + 1;
    }
    proof {
        lemma_paren_index(raw@, cut as int);
    }
    let ghost head = raw@.take(cut as int);
    let mut start: usize = 0;
    while start < cut && raw.get_char(start) == '\''
        invariant
            n == raw@.len(),
            cut <= n,
            head == raw@.take(cut as int),
            start <= cut,
            forall|j: int| 0 <= j < start ==> head[j] == '\'',
        decreases cut - start,
    {
        start = start + 1;
    }
    proof {
        lemma_leading_quotes(head, start as int);
    }
    let ghost rest = head.skip(start as int);
    let mut end: usize = cut;
    while end > start && raw.get_char(end - 1) == '\''
        invariant
            n == raw@.len(),
            cut <= n,
            head == raw@.take(cut as int),
            rest == head.skip(start as int),
            start <= end <= cut,
            forall|j: int| end <= j < cut ==> raw@[j] == '\'',
        decreases end - start,
    {
        end = end - 1;
    }
    proof {
        lemma_trailing_quotes(rest, (cut - end) as int);
    }
    let r = String::from_str(raw.substring_char(start, end));
    assert(r@ =~= rest.take(rest.len() - (cut - end)));
    r
}

/// Normalizes a reported column name: see `normalize_name`.
pub fn column_name(raw: &str) -> (r: String)
    ensures
        r@ == normalize_name(raw@),
{
    let n = raw.unicode_len();
    let mut r = String::new();
    let mut i: usize = 0;
    while i < n
        invariant
            n == raw@.len(),
            i <= n,
            r@ == normalize_name(raw@.take(i as int)),
        decreases n - i,
    {
        if raw.get_char(i) == '\'' {
            r.append("`");
            proof {
                reveal_strlit("`");
            }
        } else {
            r.append(raw.substring_char(i, i + 1));
        }
        assert(normalize_name(raw@.take(i + 1)) =~= normalize_name(raw@.take(i as int))
            + normalize_name(raw@.subrange(i as int, i + 1)));
        assert(r@ =~= normalize_name(raw@.take(i + 1)));
        i = i + 1;
    }
    assert(raw@.take(n as int) =~= raw@);
    r
}

impl Column {
    /// The column described by one row of the table description.
    pub fn from_describe(raw_name: &str, raw_type: &str) -> (r: Column)
        ensures
            r.name@ == normalize_name(raw_name@),
            r.tpe@ == normalize_type(raw_type@),
    {
        Column { name: column_name(raw_name), tpe: type_keyword(raw_type) }
    }
}

/// The columns described by the rows of a table description, in row order.
pub fn columns_from_describe(rows: &Vec<(String, String)>) -> (r: Vec<Column>)
    ensures
        r@.len() == rows@.len(),
        forall|i: int|
            0 <= i < rows@.len() ==> (#[trigger] r@[i]).name@ == normalize_name(rows@[i].0@)
                && r@[i].tpe@ == normalize_type(rows@[i].1@),
{
    let mut r: Vec<Column> = Vec::new();
    let mut i: usize = 0;
    while i < rows.len()
        invariant
            i <= rows@.len(),
            r@.len() == i,
            forall|k: int|
                0 <= k < i ==> (#[trigger] r@[k]).name@ == normalize_name(rows@[k].0@)
                    && r@[k].tpe@ == normalize_type(rows@[k].1@),
        decreases rows@.len() - i,
    {
        let c = Column::from_describe(rows[i].0.as_str(), rows[i].1.as_str());
        r.push(c);
        i = i + 1;
    }
    r
}

/// The query that describes the configured table.
pub fn describe_query(args: &Args) -> (r: String)
    ensures
        r@ == "DESCRIBE "@ + args.db@ + "."@ + args.tb@,
{
    let mut r = String::new();
    r.append("DESCRIBE ");
    r.append(args.db.as_str());
    r.append(".");
    r.append(args.tb.as_str());
    r
}

} // verus!

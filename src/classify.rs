use vstd::prelude::*;

use crate::text::same_text;

verus! {

/// The type keywords whose values are written into SQL without quotes.
/// New numeric keywords are added here and nowhere else.
pub open spec fn numeric_keywords() -> Seq<Seq<char>> {
    seq![
        "tinyint"@,
        "smallint"@,
        "mediumint"@,
        "int"@,
        "integer"@,
        "bigint"@,
        "float"@,
        "double"@,
        "real"@,
        "decimal"@,
        "numeric"@,
    ]
}

/// A value of a column of this type is wrapped in single quotes.
pub open spec fn needs_quoting(tpe: Seq<char>) -> bool {
    !numeric_keywords().contains(tpe)
}

fn numeric_keyword_list() -> (r: Vec<&'static str>)
    ensures
        r@.len() == numeric_keywords().len(),
        forall|i: int| 0 <= i < r@.len() ==> (#[trigger] r@[i])@ == numeric_keywords()[i],
{
    vec![
        "tinyint",
        "smallint",
        "mediumint",
        "int",
        "integer",
        "bigint",
        "float",
        "double",
        "real",
        "decimal",
        "numeric",
    ]
}

/// Whether a value of a column whose normalized type is `tpe` must be quoted.
pub fn is_str(tpe: &str) -> (r: bool)
    ensures
        r == needs_quoting(tpe@),
{
    let keywords = numeric_keyword_list();
    let mut i: usize = 0;
    while i < keywords.len()
        invariant
            keywords@.len() == numeric_keywords().len(),
            forall|k: int| 0 <= k < keywords@.len() ==> (#[trigger] keywords@[k])@ == numeric_keywords()[k],
            i <= keywords@.len(),
            forall|k: int| 0 <= k < i ==> numeric_keywords()[k] != tpe@,
        decreases keywords@.len() - i,
    {
        if same_text(keywords[i], tpe) {
            assert(numeric_keywords()[i as int] == tpe@);
            return false;
        }
        i = i + 1;
    }
    true
}

} // verus!

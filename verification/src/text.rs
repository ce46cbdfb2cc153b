//! Text with every occurrence of a pattern replaced.

use vstd::prelude::*;

verus! {

/// `text` with every occurrence of `pattern` replaced by `with`, found from
/// the left, no occurrence overlapping another. An empty pattern leaves the
/// text as it is.
pub open spec fn replaced(text: Seq<char>, pattern: Seq<char>, with: Seq<char>) -> Seq<char>
    decreases text.len(),
{
    if pattern.len() == 0 || text.len() < pattern.len() {
        text
    } else if text.subrange(0, pattern.len() as int) == pattern {
        with + replaced(text.skip(pattern.len() as int), pattern, with)
    } else {
        seq![text[0]] + replaced(text.skip(1), pattern, with)
    }
}

/// `str::replace` of the standard library, for a pattern that is not empty:
/// a new string in which every match of the pattern is replaced. The
/// contract says so as [`replaced`].
#[verifier::external_body]
pub(crate) fn replace_all(text: &str, pattern: &str, with: &str) -> (result: String)
    requires
        pattern@.len() > 0,
    ensures
        result@ == replaced(text@, pattern@, with@),
{
    text.replace(pattern, with)
}

} // verus!

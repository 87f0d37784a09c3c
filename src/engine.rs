//! The regular-expression engine behind the pattern strategy. What it
//! accepts and what it produces are named here, not restated.

use vstd::prelude::*;

verus! {

#[verifier::external_type_specification]
#[verifier::external_body]
pub struct ExRegexError(regex::Error);

/// Whether the regex engine accepts `pattern`: valid syntax, and a compiled
/// program within the engine's default size limit.
pub uninterp spec fn pattern_compiles(pattern: Seq<char>) -> bool;

/// The text the regex engine produces from `text` when each leftmost-first,
/// non-overlapping match of `pattern` is replaced by `to`, taken verbatim.
pub uninterp spec fn regex_replaced(
    pattern: Seq<char>,
    to: Seq<char>,
    text: Seq<char>,
) -> Seq<char>;

/// Relies on `regex::Regex::new`, which returns an error exactly when the
/// engine rejects `pattern`, and on `Regex::replace_all` with
/// `regex::NoExpand`, which copies the text between matches and inserts `to`
/// without expanding `$` references at each match. The compiled regex does
/// not outlive this call.
#[verifier::external_body]
pub(crate) fn regex_replace_all(
    pattern: &str,
    to: &str,
    text: &str,
) -> (r: Result<String, regex::Error>)
    ensures
        r is Ok <==> pattern_compiles(pattern@),
        r matches Ok(s) ==> s@ == regex_replaced(pattern@, to@, text@),
{
    match regex::Regex::new(pattern) {
        Ok(re) => Ok(re.replace_all(text, regex::NoExpand(to)).into_owned()),
        Err(e) => Err(e),
    }
}

} // verus!

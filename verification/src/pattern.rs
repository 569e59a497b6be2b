//! Regular expressions, as far as the branch check needs them.

use vstd::prelude::*;

verus! {

#[verifier::external_type_specification]
#[verifier::external_body]
pub struct ExRegexError(regex::Error);

/// Whether `pattern` can be used as a regular expression: whether
/// `regex::Regex::new` gives a regex for it. It refuses a pattern that is
/// not well formed, and one whose compiled program is larger than the limit
/// that it sets itself; that size is counted in bytes, so the answer for a
/// pattern close to the limit belongs to the target that the library is built
/// for.
pub uninterp spec fn regex_compiles(pattern: Seq<char>) -> bool;

/// Whether the regular expression `pattern` has a match anywhere in `text`:
/// what `regex::Regex::is_match` answers for the regex that
/// `regex::Regex::new` makes of `pattern`. It says nothing of a pattern that
/// `regex::Regex::new` refuses.
pub uninterp spec fn regex_finds(pattern: Seq<char>, text: Seq<char>) -> bool;

/// Calls `regex::Regex::new` on `pattern` and, where that gives a regex,
/// `regex::Regex::is_match` on `text`. Not proved: that it succeeds exactly
/// on the patterns named by `regex_compiles`, and that the answer is then the
/// one named `regex_finds`. The error of `regex::Regex::new` is handed on as
/// it came.
#[verifier::external_body]
pub(crate) fn search_pattern(pattern: &str, text: &str) -> (found: Result<bool, regex::Error>)
    ensures
        found is Ok <==> regex_compiles(pattern@),
        found matches Ok(hit) ==> hit == regex_finds(pattern@, text@),
{
    let compiled = regex::Regex::new(pattern)?;
    Ok(compiled.is_match(text))
}

} // verus!

//! Texts in lower case.

use vstd::prelude::*;
use vstd::string::StringExecFns;

verus! {

/// The lower-case form of a text, as `str::to_lowercase` gives it.
pub uninterp spec fn lowercase_of(text: Seq<char>) -> Seq<char>;

/// Calls `str::to_lowercase`. The result is a function of the text alone;
/// the contract names it and says nothing more of it.
#[verifier::external_body]
pub(crate) fn lowercase(text: &str) -> (lowered: String)
    ensures
        lowered@ == lowercase_of(text@),
{
    text.to_lowercase()
}

/// Whether `text` is the word `word`, letter for letter.
pub fn is_word(text: &String, word: &str) -> (same: bool)
    ensures
        same == (text@ == word@),
{
    let word = String::from_str(word);
    *text == word
}

/// Whether `text` is the word `word` but for the case of its letters:
/// whether its lower-case form is `word`.
pub fn says(text: &str, word: &str) -> (same: bool)
    ensures
        same == (lowercase_of(text@) == word@),
{
    let lowered = lowercase(text);
    is_word(&lowered, word)
}

} // verus!

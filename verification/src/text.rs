//! Text handling shared by the rest of the crate: the two Unicode operations
//! that the standard library performs for us, and comparison against a fixed
//! word.

use vstd::prelude::*;
use vstd::string::StringExecFns;

verus! {

/// The characters that `str::trim` leaves of a text: the same text without
/// its leading and trailing Unicode white space.
pub uninterp spec fn trimmed(text: Seq<char>) -> Seq<char>;

/// The characters that `str::to_lowercase` produces for a text: its Unicode
/// lowercase form.
pub uninterp spec fn lowercased(text: Seq<char>) -> Seq<char>;

/// `str::trim` of the standard library. Trusted: the slice returned holds
/// exactly the characters named by [`trimmed`]; which characters count as
/// white space is left to the standard library.
pub assume_specification[ str::trim ](text: &str) -> (kept: &str)
    ensures
        kept@ == trimmed(text@),
;

/// `str::to_lowercase` of the standard library. Trusted: the string returned
/// holds exactly the characters named by [`lowercased`]; the case mapping
/// itself is left to the standard library.
pub assume_specification[ str::to_lowercase ](text: &str) -> (lowered: String)
    ensures
        lowered@ == lowercased(text@),
;

/// Whether `text` is, character for character, the given word.
pub fn is_word(text: &str, word: &str) -> (same: bool)
    ensures
        same == (text@ == word@),
{
    let left = text.to_owned();
    let right = word.to_owned();
    left == right
}

/// A name set between two fixed parts of a line.
pub open spec fn spec_around(before: Seq<char>, name: Seq<char>, after: Seq<char>) -> Seq<char> {
    before + name + after
}

/// A name set between two fixed parts of a line.
pub fn around(before: &str, name: &str, after: &str) -> (line: String)
    ensures
        line@ == spec_around(before@, name@, after@),
{
    let mut line = before.to_owned();
    line.append(name);
    line.append(after);
    line
}

} // verus!

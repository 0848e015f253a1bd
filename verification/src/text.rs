//! Texts and lists of texts, and the text primitives of the standard
//! library that the verifier has no specification for, each behind a contract
//! that is taken on trust.

use vstd::prelude::*;

verus! {

/// What `str::trim` leaves of a text.
pub uninterp spec fn trimmed(text: Seq<char>) -> Seq<char>;

/// What `str::to_lowercase` makes of a text.
pub uninterp spec fn lowercased(text: Seq<char>) -> Seq<char>;

/// `str::trim`: the text without the white space at its two ends. Which
/// characters count as white space is left to the standard library.
pub assume_specification[ str::trim ](text: &str) -> (rest: &str)
    ensures
        rest@ == trimmed(text@),
;

/// `str::to_lowercase`: the text in lower case. The mapping is left to the
/// standard library.
pub assume_specification[ str::to_lowercase ](text: &str) -> (lower: String)
    ensures
        lower@ == lowercased(text@),
;

/// Equality of two string slices, as `str`'s `PartialEq` decides it: the two
/// slices hold the same characters in the same order.
#[verifier::external_body]
pub(crate) fn same_text(left: &str, right: &str) -> (same: bool)
    ensures
        same == (left@ == right@),
{
    left == right
}

/// The characters of each text of a list of texts.
pub open spec fn lines_of(texts: Seq<String>) -> Seq<Seq<char>> {
    Seq::new(texts.len(), |i: int| texts[i]@)
}

/// A copy of a list of texts.
pub fn copy_lines(lines: &Vec<String>) -> (copy: Vec<String>)
    ensures
        lines_of(copy@) == lines_of(lines@),
{
    let mut copy: Vec<String> = Vec::new();
    let mut i: usize = 0;
    while i < lines.len()
        invariant
            i <= lines.len(),
            copy.len() == i,
            forall|j: int| 0 <= j < i ==> copy[j]@ == lines[j]@,
        decreases lines.len() - i,
    {
        copy.push(lines[i].clone());
        i += 1;
    }
    proof {
        assert(lines_of(copy@) =~= lines_of(lines@));
    }
    copy
}

} // verus!

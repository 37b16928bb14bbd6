//! Items of the standard library that the crate uses and that come without a
//! specification. Nothing in this file is proved: each item states what the
//! standard library's documentation says.

use vstd::prelude::*;

verus! {

/// `std::path::PathBuf`: a path in the file system, which this crate only
/// carries along.
#[verifier::external_type_specification]
#[verifier::external_body]
pub struct ExPathBuf(std::path::PathBuf);

/// What `str::to_lowercase` returns: the string in Unicode lower case.
pub uninterp spec fn lowercased(s: Seq<char>) -> Seq<char>;

/// `str::to_lowercase` is a function of the string, named [`lowercased`].
pub assume_specification[ str::to_lowercase ](s: &str) -> (r: String)
    ensures
        r@ == lowercased(s@),
;

/// `String::push` appends the character to the string.
pub assume_specification[ String::push ](s: &mut String, ch: char)
    ensures
        final(s)@ == old(s)@.push(ch),
;

} // verus!

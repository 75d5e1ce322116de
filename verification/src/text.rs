//! `smol_str::SmolStr` as the verified code sees it.

use smol_str::SmolStr;
use vstd::prelude::*;

verus! {

/// `smol_str::SmolStr`, an immutable string that is cheap to copy. Nothing
/// of its inside is known here; its characters are named by [`smol_text`].
#[verifier::external_type_specification]
#[verifier::external_body]
pub struct ExSmolStr(SmolStr);

/// The characters that a string holds, first to last.
pub uninterp spec fn smol_text(text: SmolStr) -> Seq<char>;

/// `SmolStr::as_str`: the string as a slice of the same characters.
#[verifier::external_body]
pub(crate) fn smol_as_str(text: &SmolStr) -> (slice: &str)
    ensures
        slice@ == smol_text(*text),
{
    text.as_str()
}

} // verus!

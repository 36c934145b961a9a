//! Base64, for carrying bytes across a boundary that only takes text.

use base64::Engine;
use vstd::prelude::*;

verus! {

/// The number of characters that standard base64 with padding makes of
/// `len` bytes: four for every three bytes, a last group of one or two bytes
/// counted as a whole one.
pub open spec fn base64_len(len: nat) -> nat {
    if len % 3 == 0 {
        len / 3 * 4
    } else {
        len / 3 * 4 + 4
    }
}

/// Says whether the base64 text of `len` bytes has a length that a `usize`
/// can hold.
pub fn fits(len: usize) -> (fits: bool)
    ensures
        fits == (base64_len(len as nat) <= usize::MAX),
{
    let groups = len / 3;
    if groups > usize::MAX / 4 {
        return false;
    }
    let whole = groups * 4;
    if len % 3 == 0 {
        true
    } else {
        whole <= usize::MAX - 4
    }
}

/// The standard base64 text of `bytes`: the alphabet with `+` and `/`,
/// padded with `=`.
pub uninterp spec fn base64_standard(bytes: Seq<u8>) -> Seq<char>;

/// `Engine::encode` of `base64::engine::general_purpose::STANDARD`. Taken on
/// trust: the result is [`base64_standard`] of the bytes and has
/// [`base64_len`] characters. The bytes must be few enough for that length
/// to be a `usize`.
#[verifier::external_body]
pub(crate) fn encode(bytes: &Vec<u8>) -> (text: String)
    requires
        base64_len(bytes@.len()) <= usize::MAX,
    ensures
        text@ == base64_standard(bytes@),
        text@.len() == base64_len(bytes@.len()),
{
    base64::engine::general_purpose::STANDARD.encode(bytes)
}

} // verus!

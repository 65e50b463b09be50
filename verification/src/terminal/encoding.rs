//! Binary data as text, for escape sequences that carry files.

use vstd::prelude::*;

verus! {

/// The standard base64 encoding of `data`, with padding, as `base64::encode`
/// computes it.
pub uninterp spec fn base64_encoded(data: Seq<u8>) -> Seq<char>;

/// Whether `base64::encode` can size its result for `len` bytes of input.
pub open spec fn base64_fits(len: nat) -> bool {
    len / 3 * 4 + 4 <= usize::MAX
}

/// Whether `len` bytes can be encoded.
pub fn can_encode(len: usize) -> (r: bool)
    ensures
        r == base64_fits(len as nat),
{
    len / 3 <= (usize::MAX - 4) / 4
}

/// The base64 encoding of `data`, by `base64::encode`.
///
/// `base64::encode` panics where the length of its result overflows `usize`;
/// the precondition leaves those inputs out.  The result has a name, and it is
/// assumed to hold ASCII characters only, which is what the base64 alphabet
/// consists of.
#[verifier::external_body]
pub(crate) fn encode(data: &[u8]) -> (r: String)
    requires
        base64_fits(data@.len()),
    ensures
        r@ == base64_encoded(data@),
        r.is_ascii(),
{
    base64::encode(data)
}

} // verus!

//! Points of the `blst` library as the point of a `GenericPublicKey`.

use crate::error::Error;
use crate::public_key::{TPublicKey, PUBLIC_KEY_BYTES_LEN};
use vstd::prelude::*;

verus! {

/// `blst::min_pk::PublicKey`: an affine point of the curve, opaque here.
#[verifier::external_type_specification]
#[verifier::external_body]
pub struct ExBlstPublicKey(blst::min_pk::PublicKey);

/// `blst::BLST_ERROR`: the error codes of the `blst` library, opaque here.
#[verifier::external_type_specification]
#[verifier::external_body]
pub struct ExBlstError(blst::BLST_ERROR);

/// Whether `blst::min_pk::PublicKey::key_validate` accepts `bytes`: they are the
/// encoding of a point of the curve, the point is not the identity, and it lies in the
/// subgroup G1.
pub uninterp spec fn blst_validates(bytes: Seq<u8>) -> bool;

/// Calls `blst::min_pk::PublicKey::key_validate`.
///
/// The contract claims only that the bytes alone decide whether it accepts them.
#[verifier::external_body]
fn key_validate(bytes: &[u8]) -> (res: Result<blst::min_pk::PublicKey, blst::BLST_ERROR>)
    ensures
        res is Ok <==> blst_validates(bytes@),
{
    blst::min_pk::PublicKey::key_validate(bytes)
}

/// The 48 bytes of `bytes` as an array.
fn to_array(bytes: &[u8]) -> (array: [u8; PUBLIC_KEY_BYTES_LEN])
    requires
        bytes@.len() == PUBLIC_KEY_BYTES_LEN,
    ensures
        array@ == bytes@,
{
    let mut array: [u8; PUBLIC_KEY_BYTES_LEN] = [0u8; PUBLIC_KEY_BYTES_LEN];
    let mut i: usize = 0;
    while i < PUBLIC_KEY_BYTES_LEN
        invariant
            i <= PUBLIC_KEY_BYTES_LEN,
            bytes@.len() == PUBLIC_KEY_BYTES_LEN,
            forall|j: int| 0 <= j < i ==> array@[j] == bytes@[j],
        decreases PUBLIC_KEY_BYTES_LEN - i,
    {
        array[i] = bytes[i];
        i += 1;
    }
    assert(array@ =~= bytes@);
    array
}

/// A public key that `blst` has validated.
///
/// It holds the compressed bytes that `blst` accepted rather than the point that
/// `blst` made of them: the bytes are all that a `GenericPublicKey` reads.
#[derive(Clone, Copy, Debug, PartialEq, Eq)]
pub struct BlstPoint {
    compressed: [u8; PUBLIC_KEY_BYTES_LEN],
}

impl BlstPoint {
    /// Only bytes that `blst` accepted are held.
    #[verifier::type_invariant]
    spec fn validated(self) -> bool {
        blst_validates(self.compressed@)
    }
}

impl TPublicKey for BlstPoint {
    closed spec fn canonical_bytes(&self) -> Seq<u8> {
        self.compressed@
    }

    open spec fn is_valid_encoding(bytes: Seq<u8>) -> bool {
        blst_validates(bytes)
    }

    proof fn clone_keeps_canonical_bytes(&self, copy: &Self) {
    }

    fn serialize(&self) -> (bytes: [u8; PUBLIC_KEY_BYTES_LEN]) {
        proof {
            use_type_invariant(self);
        }
        self.compressed
    }

    /// `blst` also accepts the 96 bytes of an uncompressed point, so the length is
    /// tested here, before `blst` sees the bytes.
    fn deserialize(bytes: &[u8]) -> (res: Result<Self, Error>) {
        if bytes.len() != PUBLIC_KEY_BYTES_LEN {
            return Err(Error::DecodeLengthError);
        }
        match key_validate(bytes) {
            Ok(_) => Ok(BlstPoint { compressed: to_array(bytes) }),
            Err(_) => Err(Error::DecodePointError),
        }
    }
}

} // verus!

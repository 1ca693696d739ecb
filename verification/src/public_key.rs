//! The key itself: the contract that a backend keeps, and the wrapper that derives every
//! other behaviour of a key from its compressed bytes.

use crate::error::Error;
use crate::hex_text::{
    is_lower_hex_digit, lemma_prefixed_hex_round_trip, lemma_prefixed_hex_shape,
    parse_prefixed_hex, prefixed_hex,
};
use crate::merkle::{merkle_root_of, BYTES_PER_CHUNK};
use std::hash::{Hash, Hasher};
use vstd::prelude::*;
use vstd::std_specs::cmp::{PartialEqSpec, PartialEqSpecImpl};

verus! {

/// The byte-length of a BLS public key when serialized in compressed form.
pub const PUBLIC_KEY_BYTES_LEN: usize = 48;

/// Implemented on some struct from a BLS library so it may be used as the `point` in a
/// `GenericPublicKey`.
///
/// A backend says which byte strings it takes for valid encodings and what the
/// compressed form of each of its points is. What is proved of a key rests on the
/// contracts below and on nothing else about the point.
pub trait TPublicKey: Sized + Clone {
    /// The compressed form of the point: the one identity of a key.
    spec fn canonical_bytes(&self) -> Seq<u8>;

    /// Whether `bytes` is the compressed form of a point of the prime-order subgroup.
    spec fn is_valid_encoding(bytes: Seq<u8>) -> bool;

    /// A clone is the same point: it has the compressed form of the point it was made of.
    proof fn clone_keeps_canonical_bytes(&self, copy: &Self)
        requires
            cloned(*self, *copy),
        ensures
            copy.canonical_bytes() == self.canonical_bytes(),
    ;

    /// Serialize `self` as compressed bytes.
    ///
    /// Cannot fail, and what it returns decodes again.
    fn serialize(&self) -> (bytes: [u8; PUBLIC_KEY_BYTES_LEN])
        ensures
            bytes@ == self.canonical_bytes(),
            Self::is_valid_encoding(bytes@),
    ;

    /// Deserialize `self` from compressed bytes.
    ///
    /// Succeeds exactly on the 48-byte inputs that are valid encodings, and then returns
    /// the point with those bytes as its compressed form. Any other length is a
    /// `DecodeLengthError`, and 48 bytes that are no valid encoding a `DecodePointError`.
    fn deserialize(bytes: &[u8]) -> (res: Result<Self, Error>)
        ensures
            match res {
                Ok(point) => {
                    &&& bytes@.len() == PUBLIC_KEY_BYTES_LEN
                    &&& Self::is_valid_encoding(bytes@)
                    &&& point.canonical_bytes() == bytes@
                },
                Err(e) => if bytes@.len() != PUBLIC_KEY_BYTES_LEN {
                    e == Error::DecodeLengthError
                } else {
                    e == Error::DecodePointError && !Self::is_valid_encoding(bytes@)
                },
            },
    ;
}

/// What decoding `bytes` gives: the compressed form of the decoded point, or the error.
pub open spec fn decoding<Pub: TPublicKey>(bytes: Seq<u8>) -> Result<Seq<u8>, Error> {
    if bytes.len() != PUBLIC_KEY_BYTES_LEN {
        Err(Error::DecodeLengthError)
    } else if !Pub::is_valid_encoding(bytes) {
        Err(Error::DecodePointError)
    } else {
        Ok(bytes)
    }
}

/// What decoding the hex text of a key gives: the compressed form of the decoded
/// point, or the error. The text is turned into bytes first, and the bytes are then
/// decoded as any bytes are.
pub open spec fn text_decoding<Pub: TPublicKey>(text: Seq<char>) -> Result<Seq<u8>, Error> {
    match parse_prefixed_hex(text) {
        Some(bytes) => decoding::<Pub>(bytes),
        None => Err(Error::DecodeHexError),
    }
}

/// The number of leaves that the compressed bytes of a key fill.
pub open spec fn minimum_chunk_count() -> nat {
    ((PUBLIC_KEY_BYTES_LEN + BYTES_PER_CHUNK - 1) / (BYTES_PER_CHUNK as int)) as nat
}

/// The Merkle root that commits to a key with the compressed form `bytes`.
pub open spec fn commitment(bytes: Seq<u8>) -> Seq<u8> {
    merkle_root_of(bytes, minimum_chunk_count())
}

/// A BLS aggregate public key that is generic across some BLS point (`Pub`).
///
/// Provides generic functionality whilst deferring all serious cryptographic operations to `Pub`.
pub struct GenericPublicKey<Pub> {
    /// The underlying point which performs *actual* cryptographic operations.
    point: Pub,
}

impl<Pub: TPublicKey> View for GenericPublicKey<Pub> {
    type V = Seq<u8>;

    /// A key is the compressed bytes of its point.
    open spec fn view(&self) -> Seq<u8> {
        self.spec_point().canonical_bytes()
    }
}

/// The result of decoding a key, with the key replaced by its compressed bytes.
pub open spec fn key_outcome<Pub: TPublicKey>(res: Result<GenericPublicKey<Pub>, Error>) -> Result<
    Seq<u8>,
    Error,
> {
    match res {
        Ok(key) => Ok(key@),
        Err(e) => Err(e),
    }
}

impl<Pub: TPublicKey> GenericPublicKey<Pub> {
    /// The point that the key holds.
    pub closed spec fn spec_point(&self) -> Pub {
        self.point
    }

    /// Whether the key holds a point that a backend has made: its compressed form has
    /// the length of a key and decodes. `serialize` shows it of every key at hand.
    pub open spec fn is_valid(&self) -> bool {
        &&& self@.len() == PUBLIC_KEY_BYTES_LEN
        &&& Pub::is_valid_encoding(self@)
    }

    /// Instantiates `Self` from a `point`.
    pub fn from_point(point: Pub) -> (key: Self)
        ensures
            key.spec_point() == point,
    {
        Self { point }
    }

    /// Returns a reference to the underlying BLS point.
    pub fn point(&self) -> (point: &Pub)
        ensures
            *point == self.spec_point(),
    {
        &self.point
    }

    /// Returns `self.serialize()` as a `0x`-prefixed hex string.
    ///
    /// The text is `0x` and then 96 lowercase hex digits.
    pub fn to_hex_string(&self) -> (text: String)
        ensures
            text@ == prefixed_hex(self@),
            text@.len() == 2 + 2 * PUBLIC_KEY_BYTES_LEN,
            text@[0] == '0',
            text@[1] == 'x',
            forall|i: int| 2 <= i < text@.len() ==> is_lower_hex_digit(#[trigger] text@[i]),
    {
        let bytes = self.serialize();
        proof {
            lemma_prefixed_hex_shape(bytes@);
        }
        crate::hex_text::encode(&bytes)
    }

    /// Serialize `self` as compressed bytes.
    pub fn serialize(&self) -> (bytes: [u8; PUBLIC_KEY_BYTES_LEN])
        ensures
            bytes@ == self@,
            self.is_valid(),
    {
        self.point.serialize()
    }

    /// Deserialize `self` from compressed bytes.
    ///
    /// This is the one way in for bytes that nobody has validated. It fails with
    /// `DecodeLengthError` on any length but 48 and with `DecodePointError` on 48 bytes
    /// that are no valid encoding, and never returns a key otherwise than for a valid one.
    pub fn deserialize(bytes: &[u8]) -> (res: Result<Self, Error>)
        ensures
            key_outcome(res) == decoding::<Pub>(bytes@),
    {
        match Pub::deserialize(bytes) {
            Ok(point) => Ok(Self { point }),
            Err(e) => Err(e),
        }
    }

    /// Reads a key from its `0x`-prefixed hex text, with digits of either case.
    ///
    /// Text that is not such hex fails with `DecodeHexError`; text that is fails as its
    /// bytes do in `deserialize`.
    pub fn from_hex_string(text: &str) -> (res: Result<Self, Error>)
        ensures
            key_outcome(res) == text_decoding::<Pub>(text@),
    {
        match crate::hex_text::decode(text) {
            Ok(bytes) => Self::deserialize(bytes.as_slice()),
            Err(e) => Err(e),
        }
    }

    /// Appends the fixed-length binary encoding of the key, which is `self.serialize()`,
    /// to `buf`.
    pub fn ssz_append(&self, buf: &mut Vec<u8>)
        ensures
            final(buf)@ == old(buf)@ + self@,
    {
        let bytes = self.serialize();
        buf.extend_from_slice(&bytes);
    }

    /// Decodes a key from its fixed-length binary encoding: tests the length, then
    /// decodes as `deserialize` does.
    pub fn from_ssz_bytes(bytes: &[u8]) -> (res: Result<Self, Error>)
        ensures
            key_outcome(res) == decoding::<Pub>(bytes@),
    {
        if bytes.len() != PUBLIC_KEY_BYTES_LEN {
            Err(Error::DecodeLengthError)
        } else {
            Self::deserialize(bytes)
        }
    }

    /// The root of the hash tree over the compressed bytes of the key, which fill two
    /// leaves.
    pub fn tree_hash_root(&self) -> (root: [u8; 32])
        ensures
            root@ == commitment(self@),
    {
        let minimum_chunk_count = (PUBLIC_KEY_BYTES_LEN + BYTES_PER_CHUNK - 1) / BYTES_PER_CHUNK;
        let bytes = self.serialize();
        crate::merkle::merkle_root(&bytes, minimum_chunk_count)
    }
}

impl<Pub: TPublicKey> Clone for GenericPublicKey<Pub> {
    /// The clone holds a clone of the point, so it is the same key.
    fn clone(&self) -> (res: Self)
        ensures
            cloned(self.spec_point(), res.spec_point()),
            res@ == self@,
    {
        let point = self.point.clone();
        proof {
            self.point.clone_keeps_canonical_bytes(&point);
        }
        Self { point }
    }
}

/// Whether two byte strings are the same.
fn same_bytes(a: &[u8], b: &[u8]) -> (same: bool)
    ensures
        same == (a@ == b@),
{
    if a.len() != b.len() {
        return false;
    }
    let mut i: usize = 0;
    while i < a.len()
        invariant
            i <= a.len(),
            a.len() == b.len(),
            forall|j: int| 0 <= j < i ==> a@[j] == b@[j],
        decreases a.len() - i,
    {
        if a[i] != b[i] {
            return false;
        }
        i += 1;
    }
    assert(a@ =~= b@);
    true
}

/// Two keys are equal when their compressed bytes are, whatever the points hold.
impl<Pub: TPublicKey> PartialEq for GenericPublicKey<Pub> {
    fn eq(&self, other: &Self) -> (res: bool) {
        let mine = self.serialize();
        let theirs = other.serialize();
        same_bytes(&mine, &theirs)
    }
}

impl<Pub: TPublicKey> PartialEqSpecImpl for GenericPublicKey<Pub> {
    open spec fn obeys_eq_spec() -> bool {
        true
    }

    open spec fn eq_spec(&self, other: &Self) -> bool {
        self@ == other@
    }
}

impl<Pub: TPublicKey + Eq> Eq for GenericPublicKey<Pub> {

}

/// Calls `Hash::hash` of a byte slice, which feeds the slice to `state`.
///
/// Nothing is claimed of what a hasher makes of it.
#[verifier::external_body]
fn hash_slice<H: Hasher>(bytes: &[u8], state: &mut H) {
    bytes.hash(state)
}

/// Hashes the `self.serialize()` bytes, and nothing else of the key.
impl<Pub: TPublicKey> Hash for GenericPublicKey<Pub> {
    fn hash<H: Hasher>(&self, state: &mut H) {
        let bytes = self.serialize();
        hash_slice(&bytes, state)
    }
}

/// Decoding a valid encoding gives a key that serializes to the same bytes.
pub proof fn law_decode_then_serialize<Pub: TPublicKey>(bytes: Seq<u8>)
    requires
        bytes.len() == PUBLIC_KEY_BYTES_LEN,
        Pub::is_valid_encoding(bytes),
    ensures
        decoding::<Pub>(bytes) == Ok::<Seq<u8>, Error>(bytes),
{
}

/// Serializing a key and decoding the bytes gives the same key.
pub proof fn law_serialize_then_decode<Pub: TPublicKey>(key: GenericPublicKey<Pub>)
    requires
        key.is_valid(),
    ensures
        decoding::<Pub>(key@) == Ok::<Seq<u8>, Error>(key@),
{
}

/// Two keys are equal exactly when they serialize to the same bytes.
pub proof fn law_equality_is_byte_equality<Pub: TPublicKey>(
    a: GenericPublicKey<Pub>,
    b: GenericPublicKey<Pub>,
)
    ensures
        PartialEqSpec::eq_spec(&a, &b) <==> a@ == b@,
{
}

/// Reading the hex text of a key gives the same key.
pub proof fn law_hex_text_round_trip<Pub: TPublicKey>(key: GenericPublicKey<Pub>)
    requires
        key.is_valid(),
    ensures
        text_decoding::<Pub>(prefixed_hex(key@)) == Ok::<Seq<u8>, Error>(key@),
{
    lemma_prefixed_hex_round_trip(key@);
}

/// Two keys that are equal commit to the same root.
pub proof fn law_equal_keys_commit_alike<Pub: TPublicKey>(
    a: GenericPublicKey<Pub>,
    b: GenericPublicKey<Pub>,
)
    requires
        PartialEqSpec::eq_spec(&a, &b),
    ensures
        commitment(a@) == commitment(b@),
{
}

} // verus!

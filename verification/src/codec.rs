//! The codec: deterministic, fixed-endianness conversion between a typed
//! value and its byte encoding.

use vstd::prelude::*;
use vstd::bytes::{
    lemma_auto_spec_u64_to_from_le_bytes, spec_u64_from_le_bytes, spec_u64_to_le_bytes,
    u64_from_le_bytes, u64_to_le_bytes,
};
use vstd::slice::slice_to_vec;
use vstd::utf8::{decode_utf8, encode_utf8, encode_utf8_decode_utf8, encode_utf8_valid_utf8,
    valid_utf8};

use crate::errors::DictError;

verus! {

/// A value that the store can hold: it encodes to a deterministic byte
/// sequence, and decoding accepts exactly the byte sequences that encoding
/// produces.
///
/// A store is meant to hold one value type; bytes written under another type
/// may decode to wrong content or fail, which this layer does not detect.
pub trait Codec: View + Sized {
    /// The canonical byte encoding of this value.
    spec fn encoding(&self) -> Seq<u8>;

    /// What a byte sequence decodes to, at the level of abstract values;
    /// `None` exactly when the bytes are malformed for this type.
    spec fn decoding(bytes: Seq<u8>) -> Option<Self::V>;

    /// Law: decoding inverts encoding.
    proof fn lemma_round_trip(&self)
        ensures
            Self::decoding(self.encoding()) == Some(self@),
    ;

    /// Encodes this value into its canonical byte sequence.
    fn encode(&self) -> (out: Vec<u8>)
        ensures
            out@ == self.encoding(),
    ;

    /// Decodes a byte sequence; fails with [`DictError::CodecError`] exactly
    /// when the bytes are malformed for this type.
    fn decode(bytes: &[u8]) -> (out: Result<Self, DictError>)
        ensures
            match out {
                Ok(v) => Self::decoding(bytes@) == Some(v@),
                Err(e) => Self::decoding(bytes@) is None && e == DictError::CodecError,
            },
    ;
}

/// Round trip: decoding any supported value's encoding yields that value.
pub proof fn lemma_codec_round_trip<V: Codec>(v: &V)
    ensures
        V::decoding(v.encoding()) == Some(v@),
{
    v.lemma_round_trip();
}

impl Codec for u64 {
    open spec fn encoding(&self) -> Seq<u8> {
        spec_u64_to_le_bytes(*self)
    }

    open spec fn decoding(bytes: Seq<u8>) -> Option<u64> {
        if bytes.len() == 8 {
            Some(spec_u64_from_le_bytes(bytes))
        } else {
            None
        }
    }

    proof fn lemma_round_trip(&self) {
        lemma_auto_spec_u64_to_from_le_bytes();
    }

    fn encode(&self) -> (out: Vec<u8>) {
        u64_to_le_bytes(*self)
    }

    fn decode(bytes: &[u8]) -> (out: Result<u64, DictError>) {
        if bytes.len() == 8 {
            Ok(u64_from_le_bytes(bytes))
        } else {
            Err(DictError::CodecError)
        }
    }
}

impl Codec for Vec<u8> {
    open spec fn encoding(&self) -> Seq<u8> {
        self@
    }

    open spec fn decoding(bytes: Seq<u8>) -> Option<Seq<u8>> {
        Some(bytes)
    }

    proof fn lemma_round_trip(&self) {
    }

    fn encode(&self) -> (out: Vec<u8>) {
        slice_to_vec(self.as_slice())
    }

    fn decode(bytes: &[u8]) -> (out: Result<Vec<u8>, DictError>) {
        Ok(slice_to_vec(bytes))
    }
}

/// Relies on `str::from_utf8`: succeeds exactly on valid UTF-8 input, and the
/// returned string's bytes are the input bytes.
#[verifier::external_body]
fn string_from_utf8(bytes: &[u8]) -> (out: Option<String>)
    ensures
        match out {
            Some(s) => valid_utf8(bytes@) && encode_utf8(s@) == bytes@,
            None => !valid_utf8(bytes@),
        },
{
    match core::str::from_utf8(bytes) {
        Ok(s) => Some(s.to_owned()),
        Err(_) => None,
    }
}

impl Codec for String {
    open spec fn encoding(&self) -> Seq<u8> {
        encode_utf8(self@)
    }

    open spec fn decoding(bytes: Seq<u8>) -> Option<Seq<char>> {
        if valid_utf8(bytes) {
            Some(decode_utf8(bytes))
        } else {
            None
        }
    }

    proof fn lemma_round_trip(&self) {
        encode_utf8_valid_utf8(self@);
        encode_utf8_decode_utf8(self@);
    }

    fn encode(&self) -> (out: Vec<u8>) {
        slice_to_vec(self.as_str().as_bytes())
    }

    fn decode(bytes: &[u8]) -> (out: Result<String, DictError>) {
        match string_from_utf8(bytes) {
            Some(s) => {
                proof {
                    encode_utf8_decode_utf8(s@);
                }
                Ok(s)
            },
            None => Err(DictError::CodecError),
        }
    }
}

} // verus!

//! The key-conversion contract: a key converts deterministically to a byte
//! sequence.

use vstd::prelude::*;
use vstd::bytes::{spec_u64_to_le_bytes, u64_to_le_bytes};
use vstd::slice::slice_to_vec;
use vstd::utf8::encode_utf8;

verus! {

/// A key of the store: it converts to a deterministic byte sequence, so equal
/// keys always convert to identical bytes. Distinct keys should, but need
/// not, convert to distinct bytes; where they do not, they alias one entry.
pub trait KeyBytes {
    /// The byte sequence this key converts to.
    spec fn key_bytes(&self) -> Seq<u8>;

    /// Converts this key to its byte sequence.
    fn to_key_bytes(&self) -> (out: Vec<u8>)
        ensures
            out@ == self.key_bytes(),
    ;
}

impl KeyBytes for String {
    open spec fn key_bytes(&self) -> Seq<u8> {
        encode_utf8(self@)
    }

    fn to_key_bytes(&self) -> (out: Vec<u8>) {
        slice_to_vec(self.as_str().as_bytes())
    }
}

impl KeyBytes for Vec<u8> {
    open spec fn key_bytes(&self) -> Seq<u8> {
        self@
    }

    fn to_key_bytes(&self) -> (out: Vec<u8>) {
        slice_to_vec(self.as_slice())
    }
}

impl KeyBytes for u64 {
    open spec fn key_bytes(&self) -> Seq<u8> {
        spec_u64_to_le_bytes(*self)
    }

    fn to_key_bytes(&self) -> (out: Vec<u8>) {
        u64_to_le_bytes(*self)
    }
}

} // verus!

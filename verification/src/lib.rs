//! A typed, persistent key-value map layered on an embedded byte-oriented
//! storage engine.
//!
//! Keys convert to byte sequences through [`KeyBytes`]; values convert to and
//! from byte sequences through [`Codec`]. The engine persists byte entries;
//! this crate proves how the typed operations relate to the engine's abstract
//! contents.

mod codec;
mod engine;
mod errors;
mod keys;
mod store;

pub use codec::Codec;
pub use codec::lemma_codec_round_trip;
pub use errors::DictError;
pub use errors::DictResult;
pub use keys::KeyBytes;
pub use store::DiskMap;
pub use store::StoreOptions;
pub use store::after_inserts;
pub use store::lemma_disjoint_inserts;
pub use store::lemma_disjoint_inserts_all;
pub use store::lemma_insert_get;
pub use store::lemma_previous_value;

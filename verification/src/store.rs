//! The typed map facade over the storage engine.

use vstd::prelude::*;

use crate::codec::Codec;
use crate::engine::{
    db_contents, db_first, db_flush, db_get, db_insert, db_open, db_size_on_disk,
};
use crate::errors::DictError;
use crate::keys::KeyBytes;

verus! {

/// Configuration recognized when opening a store.
pub struct StoreOptions {
    /// Whether the engine applies block compression to persisted pages; this
    /// changes only footprint and throughput, never the logical contents.
    pub compression_enabled: bool,
}

impl Default for StoreOptions {
    fn default() -> (out: Self)
        ensures
            !out.compression_enabled,
    {
        StoreOptions { compression_enabled: false }
    }
}

/// A typed map stored on disk.
///
/// The store owns one handle to the storage engine; keys convert to byte
/// sequences through [`KeyBytes`] and values through [`Codec`]. Its view is
/// the engine handle's abstract contents: the map from key bytes to value
/// bytes. One store is meant to hold one value type; bytes written under
/// another type may fail to decode, which reads report as
/// [`DictError::CodecError`].
#[verifier::reject_recursive_types(K)]
#[verifier::reject_recursive_types(V)]
pub struct DiskMap<K, V> {
    db: sled::Db,
    typed: core::marker::PhantomData<(K, V)>,
}

impl<K: KeyBytes, V: Codec> View for DiskMap<K, V> {
    type V = Map<Seq<u8>, Seq<u8>>;

    closed spec fn view(&self) -> Map<Seq<u8>, Seq<u8>> {
        db_contents(self.db)
    }
}

impl<K: KeyBytes, V: Codec> DiskMap<K, V> {
    /// Opens the store persisted at `path`, creating it if absent. Fails only
    /// when the engine cannot open the path (permissions, corruption, a lock
    /// held by another open handle).
    pub fn new(path: &str, options: StoreOptions) -> (out: Result<Self, DictError>)
        ensures
            match out {
                Ok(store) => true,
                Err(e) => e is IOError || e is EngineError,
            },
    {
        match db_open(path, options.compression_enabled) {
            Ok(db) => Ok(DiskMap { db, typed: core::marker::PhantomData }),
            Err(e) => Err(e),
        }
    }

    /// Strict emptiness check: true exactly when the store holds no entries,
    /// with an engine failure during the scan surfaced as an error.
    pub fn try_is_empty(&self) -> (out: Result<bool, DictError>)
        ensures
            match out {
                Ok(empty) => empty == self@.is_empty(),
                Err(e) => e is IOError || e is EngineError,
            },
    {
        match db_first(&self.db) {
            Ok(None) => Ok(true),
            Ok(Some(_)) => Ok(false),
            Err(e) => Err(e),
        }
    }

    /// Convenience emptiness check. A `true` answer is reliable: the store
    /// holds no entries. A `false` answer may also mask an engine failure
    /// during the scan, which [`Self::try_is_empty`] surfaces instead.
    pub fn is_empty(&self) -> (out: bool)
        ensures
            out ==> self@.is_empty(),
    {
        match self.try_is_empty() {
            Ok(empty) => empty,
            Err(_) => false,
        }
    }

    /// The total size in bytes of the store's persisted files; engine-level
    /// accounting that may lag the logical contents.
    pub fn size(&self) -> (out: Result<u64, DictError>)
        ensures
            match out {
                Ok(bytes) => true,
                Err(e) => e is IOError || e is EngineError,
            },
    {
        db_size_on_disk(&self.db)
    }

    /// Interprets the engine's answer to a lookup: an absent entry is
    /// [`DictError::KeyNotFound`], a present one decodes or is
    /// [`DictError::CodecError`].
    pub fn decode_entry(entry: Option<Vec<u8>>) -> (out: Result<V, DictError>)
        ensures
            match entry {
                None => out == Err::<V, DictError>(DictError::KeyNotFound),
                Some(bytes) => match V::decoding(bytes@) {
                    Some(vv) => out is Ok && out->Ok_0@ == vv,
                    None => out == Err::<V, DictError>(DictError::CodecError),
                },
            },
    {
        match entry {
            None => Err(DictError::KeyNotFound),
            Some(bytes) => V::decode(bytes.as_slice()),
        }
    }

    /// Strict lookup: the value stored under `key`.
    ///
    /// Succeeds exactly when the engine answers and the entry is present and
    /// decodable; [`DictError::KeyNotFound`] reports an absent key,
    /// [`DictError::CodecError`] an entry that does not decode as `V`, and an
    /// I/O or engine kind an engine failure.
    pub fn try_get(&self, key: K) -> (out: Result<V, DictError>)
        ensures
            match out {
                Ok(v) => self@.contains_key(key.key_bytes()) && V::decoding(
                    self@[key.key_bytes()],
                ) == Some(v@),
                Err(DictError::KeyNotFound) => !self@.contains_key(key.key_bytes()),
                Err(DictError::CodecError) => self@.contains_key(key.key_bytes()) && V::decoding(
                    self@[key.key_bytes()],
                ) is None,
                Err(DictError::IOError) => true,
                Err(DictError::EngineError) => true,
            },
    {
        let key_bytes = key.to_key_bytes();
        match db_get(&self.db, key_bytes.as_slice()) {
            Ok(entry) => Self::decode_entry(entry),
            Err(e) => Err(e),
        }
    }

    /// Convenience lookup: folds every failure of [`Self::try_get`] into
    /// `None`, for callers that treat "absent" and "unreadable" alike.
    pub fn get(&self, key: K) -> (out: Option<V>)
        ensures
            match out {
                Some(v) => self@.contains_key(key.key_bytes()) && V::decoding(
                    self@[key.key_bytes()],
                ) == Some(v@),
                None => true,
            },
            !self@.contains_key(key.key_bytes()) ==> out is None,
            self@.contains_key(key.key_bytes()) && V::decoding(self@[key.key_bytes()]) is None
                ==> out is None,
    {
        match self.try_get(key) {
            Ok(v) => Some(v),
            Err(_) => None,
        }
    }

    /// Strict insert: stores `value` under `key`, replacing any prior entry.
    ///
    /// On success the store's contents gain `value`'s encoding under `key`'s
    /// bytes, and the previous value is reported: `Ok(None)` when no prior
    /// entry existed, `Ok(Some(previous))` when one did and decoded. A prior
    /// entry that does not decode as `V` is reported as
    /// [`DictError::CodecError`]; the write itself has still happened. On an
    /// I/O or engine kind nothing is known of the contents.
    pub fn try_insert(&mut self, key: K, value: V) -> (out: Result<Option<V>, DictError>)
        ensures
            match out {
                Ok(previous) => {
                    &&& final(self)@ == old(self)@.insert(key.key_bytes(), value.encoding())
                    &&& match previous {
                        Some(p) => old(self)@.contains_key(key.key_bytes()) && V::decoding(
                            old(self)@[key.key_bytes()],
                        ) == Some(p@),
                        None => !old(self)@.contains_key(key.key_bytes()),
                    }
                },
                Err(DictError::CodecError) => {
                    &&& final(self)@ == old(self)@.insert(key.key_bytes(), value.encoding())
                    &&& old(self)@.contains_key(key.key_bytes())
                    &&& V::decoding(old(self)@[key.key_bytes()]) is None
                },
                Err(DictError::KeyNotFound) => false,
                Err(DictError::IOError) => true,
                Err(DictError::EngineError) => true,
            },
    {
        let key_bytes = key.to_key_bytes();
        let value_bytes = value.encode();
        match db_insert(&mut self.db, key_bytes.as_slice(), value_bytes.as_slice()) {
            Ok(None) => Ok(None),
            Ok(Some(previous_bytes)) => match V::decode(previous_bytes.as_slice()) {
                Ok(p) => Ok(Some(p)),
                Err(e) => Err(e),
            },
            Err(e) => Err(e),
        }
    }

    /// Convenience insert: folds every failure of [`Self::try_insert`] into
    /// `None`, which is then ambiguous with "no previous value".
    pub fn insert(&mut self, key: K, value: V) -> (out: Option<V>)
        ensures
            match out {
                Some(p) => {
                    &&& final(self)@ == old(self)@.insert(key.key_bytes(), value.encoding())
                    &&& old(self)@.contains_key(key.key_bytes())
                    &&& V::decoding(old(self)@[key.key_bytes()]) == Some(p@)
                },
                None => true,
            },
            !old(self)@.contains_key(key.key_bytes()) ==> out is None,
            old(self)@.contains_key(key.key_bytes()) && V::decoding(old(self)@[key.key_bytes()])
                is None ==> out is None,
    {
        match self.try_insert(key, value) {
            Ok(previous) => previous,
            Err(_) => None,
        }
    }

    /// Forces all buffered writes to durable storage; returns the number of
    /// bytes flushed. The contents are untouched.
    pub fn flush(&self) -> (out: Result<usize, DictError>)
        ensures
            match out {
                Ok(flushed) => true,
                Err(e) => e is IOError || e is EngineError,
            },
    {
        db_flush(&self.db)
    }

    /// Explicit close: a final flush whose failure the caller still sees,
    /// after which the handle is consumed. A new store may later reopen the
    /// same path. When a handle is instead dropped without `close`, the
    /// engine itself attempts a best-effort flush, whose failure reaches no
    /// caller; controlled shutdown should prefer `close`.
    pub fn close(self) -> (out: Result<usize, DictError>)
        ensures
            match out {
                Ok(flushed) => true,
                Err(e) => e is IOError || e is EngineError,
            },
    {
        self.flush()
    }
}

/// Insert/get consistency: after an insert of `value` under `key`, the
/// contents hold an entry for `key` that decodes to `value`, so any
/// successful lookup of `key` returns `value`.
pub proof fn lemma_insert_get<K: KeyBytes, V: Codec>(
    contents: Map<Seq<u8>, Seq<u8>>,
    key: &K,
    value: &V,
)
    ensures
        contents.insert(key.key_bytes(), value.encoding()).contains_key(key.key_bytes()),
        V::decoding(contents.insert(key.key_bytes(), value.encoding())[key.key_bytes()]) == Some(
            value@,
        ),
{
    value.lemma_round_trip();
}

/// Previous-value reporting: after an insert of `first` under `key`, the
/// contents hold `first`'s encoding there, which decodes to `first`, so a
/// successful insert of `second` over it reports `first` as the previous
/// value; after that second insert, the entry decodes to `second`.
pub proof fn lemma_previous_value<K: KeyBytes, V: Codec>(
    contents: Map<Seq<u8>, Seq<u8>>,
    key: &K,
    first: &V,
    second: &V,
)
    ensures
        V::decoding(contents.insert(key.key_bytes(), first.encoding())[key.key_bytes()]) == Some(
            first@,
        ),
        V::decoding(
            contents.insert(key.key_bytes(), first.encoding()).insert(
                key.key_bytes(),
                second.encoding(),
            )[key.key_bytes()],
        ) == Some(second@),
{
    first.lemma_round_trip();
    second.lemma_round_trip();
}

/// Disjoint-key safety: inserts under keys with distinct byte conversions do
/// not disturb one another; after both, each key's entry decodes to its own
/// value.
pub proof fn lemma_disjoint_inserts<K: KeyBytes, V: Codec>(
    contents: Map<Seq<u8>, Seq<u8>>,
    key1: &K,
    key2: &K,
    v1: &V,
    v2: &V,
)
    requires
        key1.key_bytes() != key2.key_bytes(),
    ensures
        V::decoding(
            contents.insert(key1.key_bytes(), v1.encoding()).insert(
                key2.key_bytes(),
                v2.encoding(),
            )[key1.key_bytes()],
        ) == Some(v1@),
        V::decoding(
            contents.insert(key1.key_bytes(), v1.encoding()).insert(
                key2.key_bytes(),
                v2.encoding(),
            )[key2.key_bytes()],
        ) == Some(v2@),
{
    v1.lemma_round_trip();
    v2.lemma_round_trip();
}

/// The contents after inserting each entry of `entries` in order: the
/// encoding of each value, under its key's bytes.
pub open spec fn after_inserts<K: KeyBytes, V: Codec>(
    contents: Map<Seq<u8>, Seq<u8>>,
    entries: Seq<(K, V)>,
) -> Map<Seq<u8>, Seq<u8>>
    decreases entries.len(),
{
    if entries.len() == 0 {
        contents
    } else {
        after_inserts(contents, entries.drop_last()).insert(
            entries.last().0.key_bytes(),
            entries.last().1.encoding(),
        )
    }
}

/// Disjoint-key safety, general form: after inserts of any number of entries
/// whose keys have pairwise-distinct byte conversions, every inserted key
/// holds an entry that decodes to its own value.
pub proof fn lemma_disjoint_inserts_all<K: KeyBytes, V: Codec>(
    contents: Map<Seq<u8>, Seq<u8>>,
    entries: Seq<(K, V)>,
)
    requires
        forall|i: int, j: int|
            0 <= i < j < entries.len() ==> (#[trigger] entries[i]).0.key_bytes() != (
            #[trigger] entries[j]).0.key_bytes(),
    ensures
        forall|i: int|
            0 <= i < entries.len() ==> {
                &&& after_inserts(contents, entries).contains_key(
                    (#[trigger] entries[i]).0.key_bytes(),
                )
                &&& V::decoding(after_inserts(contents, entries)[entries[i].0.key_bytes()])
                    == Some(entries[i].1@)
            },
    decreases entries.len(),
{
    if entries.len() > 0 {
        let prefix = entries.drop_last();
        let last = entries.last();
        lemma_disjoint_inserts_all(contents, prefix);
        last.1.lemma_round_trip();
        assert forall|i: int|
            0 <= i < entries.len() implies {
            &&& after_inserts(contents, entries).contains_key(
                (#[trigger] entries[i]).0.key_bytes(),
            )
            &&& V::decoding(after_inserts(contents, entries)[entries[i].0.key_bytes()]) == Some(
                entries[i].1@,
            )
        } by {
            if i < entries.len() - 1 {
                assert(prefix[i] == entries[i]);
                assert(entries[i].0.key_bytes() != last.0.key_bytes());
            }
        }
    }
}

} // verus!

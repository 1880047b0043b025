//! The boundary to the embedded storage engine.
//!
//! The engine persists a map from byte-sequence keys to byte-sequence values.
//! Its abstract contents are named by [`db_contents`]; each wrapper below
//! states, over that name, what the engine call it makes does.

use vstd::prelude::*;

use crate::errors::DictError;

verus! {

#[verifier::external_type_specification]
#[verifier::external_body]
pub struct ExDb(sled::Db);

#[verifier::external_type_specification]
#[verifier::external_body]
pub struct ExSledError(sled::Error);

/// The abstract contents of an engine handle: the map from key bytes to
/// value bytes that the handle currently holds.
pub uninterp spec fn db_contents(db: sled::Db) -> Map<Seq<u8>, Seq<u8>>;

/// Whether an engine error value carries a filesystem I/O failure, as opposed
/// to an engine-internal one.
pub uninterp spec fn sled_io_failure(error: sled::Error) -> bool;

/// Relies on `sled::Error`: the `Io` variant carries a filesystem failure and
/// becomes the I/O kind; every other variant reports an engine-internal
/// failure and becomes the engine kind.
#[verifier::external_body]
fn from_sled_error(error: sled::Error) -> (out: DictError)
    ensures
        out is IOError <==> sled_io_failure(error),
        out is IOError || out is EngineError,
{
    match error {
        sled::Error::Io(_) => DictError::IOError,
        _ => DictError::EngineError,
    }
}

/// Relies on `sled::Config::{default, use_compression, path}` and
/// `Config::open`: opens the store at `path`, creating it if absent; block
/// compression only changes the on-disk footprint, never the logical
/// contents. Whether the path can be opened depends on the disk, so nothing
/// is promised of the returned handle's contents.
#[verifier::external_body]
pub(crate) fn db_open(path: &str, compression: bool) -> (out: Result<sled::Db, DictError>)
    ensures
        match out {
            Ok(db) => true,
            Err(e) => e is IOError || e is EngineError,
        },
{
    match sled::Config::default().use_compression(compression).path(path).open() {
        Ok(db) => Ok(db),
        Err(e) => Err(from_sled_error(e)),
    }
}

/// Relies on `sled::Tree::get`: returns the value bytes stored under `key`,
/// or `None` if the key is absent.
#[verifier::external_body]
pub(crate) fn db_get(db: &sled::Db, key: &[u8]) -> (out: Result<Option<Vec<u8>>, DictError>)
    ensures
        match out {
            Ok(found) => match found {
                Some(v) => db_contents(*db).contains_key(key@) && v@ == db_contents(*db)[key@],
                None => !db_contents(*db).contains_key(key@),
            },
            Err(e) => e is IOError || e is EngineError,
        },
{
    match db.get(key) {
        Ok(Some(iv)) => Ok(Some(iv.to_vec())),
        Ok(None) => Ok(None),
        Err(e) => Err(from_sled_error(e)),
    }
}

/// Relies on `sled::Tree::insert`: stores `value` under `key` and returns the
/// bytes previously stored under `key`, if any. On failure nothing is known
/// of the handle's contents.
#[verifier::external_body]
pub(crate) fn db_insert(db: &mut sled::Db, key: &[u8], value: &[u8]) -> (out: Result<
    Option<Vec<u8>>,
    DictError,
>)
    ensures
        match out {
            Ok(previous) => {
                &&& db_contents(*final(db)) == db_contents(*old(db)).insert(key@, value@)
                &&& match previous {
                    Some(p) => db_contents(*old(db)).contains_key(key@) && p@ == db_contents(
                        *old(db),
                    )[key@],
                    None => !db_contents(*old(db)).contains_key(key@),
                }
            },
            Err(e) => e is IOError || e is EngineError,
        },
{
    match db.insert(key, value) {
        Ok(Some(iv)) => Ok(Some(iv.to_vec())),
        Ok(None) => Ok(None),
        Err(e) => Err(from_sled_error(e)),
    }
}

/// Relies on `sled::Tree::first`: scans for the first entry, surfacing a
/// failed page read as an error; `None` means the scan completed and the
/// handle holds no entries.
#[verifier::external_body]
pub(crate) fn db_first(db: &sled::Db) -> (out: Result<Option<Vec<u8>>, DictError>)
    ensures
        match out {
            Ok(found) => match found {
                Some(k) => db_contents(*db).contains_key(k@),
                None => db_contents(*db).is_empty(),
            },
            Err(e) => e is IOError || e is EngineError,
        },
{
    match db.first() {
        Ok(Some((key, _))) => Ok(Some(key.to_vec())),
        Ok(None) => Ok(None),
        Err(e) => Err(from_sled_error(e)),
    }
}

/// Relies on `sled::Tree::flush`: fsyncs all buffered writes, so that they
/// survive a crash; returns the number of bytes flushed. The contents are
/// untouched.
#[verifier::external_body]
pub(crate) fn db_flush(db: &sled::Db) -> (out: Result<usize, DictError>)
    ensures
        match out {
            Ok(flushed) => true,
            Err(e) => e is IOError || e is EngineError,
        },
{
    match db.flush() {
        Ok(n) => Ok(n),
        Err(e) => Err(from_sled_error(e)),
    }
}

/// Relies on `sled::Db::size_on_disk`: the total size in bytes of the store's
/// persisted files, an engine-level accounting that may lag the logical
/// contents.
#[verifier::external_body]
pub(crate) fn db_size_on_disk(db: &sled::Db) -> (out: Result<u64, DictError>)
    ensures
        match out {
            Ok(bytes) => true,
            Err(e) => e is IOError || e is EngineError,
        },
{
    match db.size_on_disk() {
        Ok(n) => Ok(n),
        Err(e) => Err(from_sled_error(e)),
    }
}

} // verus!

use disk_map::DictError;
use disk_map::DiskMap;
use disk_map::StoreOptions;

fn fresh_path(tag: &str) -> String {
    let nanos = std::time::SystemTime::now()
        .duration_since(std::time::UNIX_EPOCH)
        .unwrap()
        .as_nanos();
    format!("/tmp/disk_map_tests/{}_{}", tag, nanos)
}

fn open<K: disk_map::KeyBytes, V: disk_map::Codec>(path: &str) -> DiskMap<K, V> {
    DiskMap::new(path, StoreOptions::default()).unwrap()
}

#[test]
fn ready() {
    println!("it works!")
}

#[test]
fn main_test_files() {
    let path = fresh_path("sqlite");
    let mut file_db: DiskMap<String, String> = open(&path);
    let key = String::from("key");
    let value = String::from("value");
    file_db.insert(key, value);
    println!("{:?}", file_db.get(String::from("key")));
    assert_eq!(file_db.get(String::from("key")), Some(String::from("value")));
}

#[test]
fn fresh_store_lifecycle() {
    let path = fresh_path("lifecycle");
    let a = String::from("a");
    {
        let mut db: DiskMap<String, u64> = open(&path);
        assert!(db.is_empty());
        assert_eq!(db.try_is_empty(), Ok(true));
        assert_eq!(db.insert(a.clone(), 1), None);
        assert_eq!(db.get(a.clone()), Some(1));
        assert!(!db.is_empty());
        assert_eq!(db.try_is_empty(), Ok(false));
        assert_eq!(db.insert(a.clone(), 2), Some(1));
        assert_eq!(db.get(a.clone()), Some(2));
        assert_eq!(db.try_get(String::from("missing")), Err(DictError::KeyNotFound));
        assert!(db.flush().is_ok());
        assert!(db.close().is_ok());
    }
    let db: DiskMap<String, u64> = open(&path);
    assert_eq!(db.get(a.clone()), Some(2));
    assert!(!db.is_empty());
}

#[test]
fn strict_insert_reports_previous() {
    let mut db: DiskMap<String, u64> = open(&fresh_path("strict"));
    let k = String::from("counter");
    assert_eq!(db.try_insert(k.clone(), 10), Ok(None));
    assert_eq!(db.try_insert(k.clone(), 20), Ok(Some(10)));
    assert_eq!(db.try_get(k.clone()), Ok(20));
}

#[test]
fn absent_key() {
    let db: DiskMap<String, u64> = open(&fresh_path("absent"));
    let k = String::from("never inserted");
    assert_eq!(db.get(k.clone()), None);
    assert_eq!(db.try_get(k.clone()), Err(DictError::KeyNotFound));
}

#[test]
fn disjoint_keys_do_not_interfere() {
    let mut db: DiskMap<String, u64> = open(&fresh_path("disjoint"));
    let keys: Vec<String> = (0..16).map(|i| format!("key_{}", i)).collect();
    for (i, k) in keys.iter().enumerate() {
        assert_eq!(db.insert(k.clone(), i as u64), None);
    }
    for (i, k) in keys.iter().enumerate() {
        assert_eq!(db.get(k.clone()), Some(i as u64));
    }
}

#[test]
fn unicode_keys_and_values() {
    let mut db: DiskMap<String, String> = open(&fresh_path("unicode"));
    let k = String::from("clef \u{e9}\u{1F511}");
    let v = String::from("valeur \u{4e2d}\u{6587}");
    assert_eq!(db.insert(k.clone(), v.clone()), None);
    assert_eq!(db.get(k.clone()), Some(v));
}

#[test]
fn integer_and_byte_keys() {
    let path = fresh_path("keys");
    let mut by_num: DiskMap<u64, String> = open(&path);
    assert_eq!(by_num.insert(7, String::from("seven")), None);
    assert_eq!(by_num.get(7), Some(String::from("seven")));
    assert_eq!(by_num.get(8), None);
    drop(by_num);

    let mut by_bytes: DiskMap<Vec<u8>, Vec<u8>> = open(&fresh_path("bytekeys"));
    assert_eq!(by_bytes.insert(vec![1, 2, 3], vec![4, 5]), None);
    assert_eq!(by_bytes.get(vec![1, 2, 3]), Some(vec![4, 5]));
}

#[test]
fn mismatched_value_type_is_codec_error() {
    let path = fresh_path("mismatch");
    {
        let mut db: DiskMap<String, String> = open(&path);
        assert_eq!(db.insert(String::from("k"), String::from("value")), None);
        assert!(db.close().is_ok());
    }
    // "value" persists as five bytes, which is no u64 encoding.
    let db: DiskMap<String, u64> = open(&path);
    assert_eq!(db.try_get(String::from("k")), Err(DictError::CodecError));
    assert_eq!(db.get(String::from("k")), None);
}

#[test]
fn overwriting_undecodable_entry_reports_codec_error() {
    let path = fresh_path("overwrite");
    {
        let mut db: DiskMap<String, String> = open(&path);
        assert_eq!(db.insert(String::from("k"), String::from("old")), None);
        assert!(db.close().is_ok());
    }
    let mut db: DiskMap<String, u64> = open(&path);
    // The write happens, but the previous bytes do not decode as u64.
    assert_eq!(db.try_insert(String::from("k"), 5), Err(DictError::CodecError));
    assert_eq!(db.try_get(String::from("k")), Ok(5));
}

#[test]
fn size_on_disk_reports() {
    let mut db: DiskMap<String, u64> = open(&fresh_path("size"));
    db.insert(String::from("a"), 1);
    assert!(db.flush().is_ok());
    let size = db.size().unwrap();
    assert!(size > 0);
}

#[test]
fn double_open_is_engine_failure() {
    let path = fresh_path("locked");
    let held: DiskMap<String, u64> = open(&path);
    let second: Result<DiskMap<String, u64>, DictError> =
        DiskMap::new(&path, StoreOptions::default());
    match second {
        Err(DictError::IOError) | Err(DictError::EngineError) => {}
        other => panic!("expected an IO or engine failure, got {:?}", other.is_ok()),
    }
    assert!(held.close().is_ok());
}

#[test]
fn default_options_disable_compression() {
    let options = StoreOptions::default();
    assert!(!options.compression_enabled);
}

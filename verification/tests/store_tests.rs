use serder::codec::{round_trip, Codec};
use serder::errors::StoreError;
use serder::ron_codec::{RonCodec, Settings};
use serder::store::{check_filename, Serder};

fn test_store() -> Serder {
    Serder::from_base_dir("/tmp/serder_test".to_string())
}

fn sample() -> Settings {
    Settings::new(7, "player one".to_string(), true)
}

#[test]
fn codec_round_trip() {
    let v = sample();
    let w = round_trip(&RonCodec, &v).expect("round trip failed");
    assert_eq!(w.volume, 7);
    assert_eq!(w.name, "player one");
    assert!(w.enabled);
}

#[test]
fn encode_exact_text() {
    let bytes = RonCodec
        .encode(&Settings::new(3, "abc".to_string(), true))
        .expect("encode failed");
    assert_eq!(bytes, b"(3,\"abc\",true)".to_vec());
}

#[test]
fn never_written_yields_default() {
    let store = test_store();
    let empty: Vec<u8> = Vec::new();
    let v: Settings = store.deserialize_or_default(&RonCodec, &empty);
    assert_eq!(v.volume, 0);
    assert_eq!(v.name, "");
    assert!(!v.enabled);
}

#[test]
fn never_written_yields_fallback() {
    let store = test_store();
    let empty: Vec<u8> = Vec::new();
    let v = store.deserialize_or_value(&RonCodec, &empty, sample());
    assert_eq!(v.volume, 7);
    assert_eq!(v.name, "player one");
    assert!(v.enabled);
}

#[test]
fn corrupt_swallowed_by_lenient_loads() {
    let store = test_store();
    let garbage = b"not a ron tuple at all".to_vec();
    let d: Settings = store.deserialize_or_default(&RonCodec, &garbage);
    assert_eq!(d.volume, 0);
    assert_eq!(d.name, "");
    assert!(!d.enabled);
    let v = store.deserialize_or_value(&RonCodec, &garbage, sample());
    assert_eq!(v.volume, 7);
}

#[test]
fn corrupt_surfaced_by_strict_load() {
    let store = test_store();
    let garbage = b"not a ron tuple at all".to_vec();
    let r: Result<Settings, StoreError> = store.deserialize_or_err(&RonCodec, &garbage);
    assert_eq!(r.unwrap_err(), StoreError::Decode);
}

#[test]
fn empty_surfaced_by_strict_load() {
    let store = test_store();
    let empty: Vec<u8> = Vec::new();
    let r: Result<Settings, StoreError> = store.deserialize_or_err(&RonCodec, &empty);
    assert_eq!(r.unwrap_err(), StoreError::EmptyFile);
}

#[test]
fn save_is_idempotent() {
    let store = test_store();
    let b1 = store
        .serialize_and_save(&RonCodec, sample())
        .expect("first save failed");
    let b2 = store
        .serialize_and_save(&RonCodec, sample())
        .expect("second save failed");
    assert_eq!(b1, b2);
}

#[test]
fn save_then_strict_load_returns_value() {
    let store = test_store();
    let bytes = store
        .serialize_and_save(&RonCodec, sample())
        .expect("save failed");
    let r: Settings = store
        .deserialize_or_err(&RonCodec, &bytes)
        .expect("strict load failed");
    assert_eq!(r.volume, 7);
    assert_eq!(r.name, "player one");
    assert!(r.enabled);
}

#[test]
fn shared_save_matches_owned_save() {
    let store = test_store();
    let owned = store
        .serialize_and_save(&RonCodec, sample())
        .expect("owned save failed");
    let shared = store
        .serialize_arc_and_save(&RonCodec, std::sync::Arc::new(sample()))
        .expect("shared save failed");
    assert_eq!(owned, shared);
}

#[test]
fn first_run_then_save_then_load() {
    let store = Serder::new("acme".to_string()).expect("directory resolution failed");
    assert!(!store.base_dir().is_empty());
    let path = store.file_path("settings.cfg").expect("filename rejected");
    assert!(path.ends_with("/settings.cfg"));

    // First run: the file was never written, so its content is empty.
    let file: Vec<u8> = Vec::new();
    let first: Settings = store.deserialize_or_default(&RonCodec, &file);
    assert_eq!(first.volume, 0);
    assert_eq!(first.name, "");
    assert!(!first.enabled);

    // Save a custom value: the file's new content is the encoded bytes.
    let custom = Settings::new(11, "acme default profile".to_string(), true);
    let file = store
        .serialize_and_save(&RonCodec, custom)
        .expect("save failed");

    // A later lenient load of that content returns the custom value.
    let second: Settings = store.deserialize_or_default(&RonCodec, &file);
    assert_eq!(second.volume, 11);
    assert_eq!(second.name, "acme default profile");
    assert!(second.enabled);
}

#[test]
fn garbage_bytes_scenario() {
    let store = test_store();
    let file = b"\xFF\xFE not valid".to_vec();
    let lenient: Settings = store.deserialize_or_default(&RonCodec, &file);
    assert_eq!(lenient.volume, 0);
    assert_eq!(lenient.name, "");
    assert!(!lenient.enabled);
    let strict: Result<Settings, StoreError> = store.deserialize_or_err(&RonCodec, &file);
    assert_eq!(strict.unwrap_err(), StoreError::Decode);
}

#[test]
fn file_path_joins_under_base() {
    let store = test_store();
    let p = store.file_path("save.ron").expect("filename rejected");
    assert_eq!(p, "/tmp/serder_test/save.ron");
}

#[test]
fn file_path_rejects_traversal() {
    let store = test_store();
    assert!(store.file_path("").is_none());
    assert!(store.file_path(".").is_none());
    assert!(store.file_path("..").is_none());
    assert!(store.file_path("a/b").is_none());
    assert!(store.file_path("a\\b").is_none());
    assert!(store.file_path("/etc/passwd").is_none());
}

#[test]
fn filename_check_accepts_plain_names() {
    assert!(check_filename("settings.cfg"));
    assert!(check_filename("..twodots.ok"));
    assert!(check_filename("..."));
    assert!(!check_filename("nested/name"));
    assert!(!check_filename(".."));
}

#[test]
fn corrupt_name_with_escapes_round_trips() {
    let v = Settings::new(2, "a \"quoted\\\" name".to_string(), false);
    let bytes = RonCodec.encode(&v).expect("encode failed");
    let w = RonCodec.decode(&bytes).expect("decode failed");
    assert_eq!(w.volume, 2);
    assert_eq!(w.name, "a \"quoted\\\" name");
    assert!(!w.enabled);
}

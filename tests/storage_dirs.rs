use stdin_bootstrap::storage::{
    StorageError, StorageKeyResolver, checksum, derive_storage_dirs, hex_encode, join_dir,
};

const ABC_SHA256: &str = "ba7816bf8f01cfea414140de5dae2223b00361a396177a9cb410ff61f20015ad";
const EMPTY_SHA256: &str = "e3b0c44298fc1c149afbf4c8996fb92427ae41e4649b934ca495991b7852b855";

#[test]
fn hex_encoding_of_bytes() {
    assert_eq!(hex_encode(&vec![]), "");
    assert_eq!(hex_encode(&vec![0x00, 0x0f, 0xa0, 0xff, 0x5c]), "000fa0ff5c");
}

#[test]
fn checksum_is_hex_sha256() {
    assert_eq!(checksum("abc"), ABC_SHA256);
    assert_eq!(checksum(""), EMPTY_SHA256);
    assert_eq!(checksum("abc").len(), 64);
}

#[test]
fn joining_paths() {
    assert_eq!(join_dir("/data", "x"), "/data/x");
    assert_eq!(join_dir("/data/", "x"), "/data/x");
    assert_eq!(join_dir("", "x"), "x");
    assert_eq!(join_dir("/", "x"), "/x");
}

#[test]
fn resolver_keys() {
    let m = "file:///tmp/work/$deno$stdin.mts";
    assert_eq!(StorageKeyResolver::UseMainModule.resolve_storage_key(m), Some(m.to_string()));
    assert_eq!(StorageKeyResolver::Fixed(None).resolve_storage_key(m), None);
    assert_eq!(
        StorageKeyResolver::Fixed(Some("https://example.com".to_string())).resolve_storage_key(m),
        Some("https://example.com".to_string())
    );
}

#[test]
fn directories_from_key() {
    let d = derive_storage_dirs(&Some("abc".to_string()), &Some("/origin".to_string()), "/cache").unwrap();
    assert_eq!(d.origin_storage_dir, Some(format!("/origin/{ABC_SHA256}")));
    assert_eq!(d.cache_storage_dir, Some(format!("/cache/{ABC_SHA256}")));
}

#[test]
fn directories_are_deterministic() {
    let a = derive_storage_dirs(&Some("file:///x.ts".to_string()), &Some("/o".to_string()), "/c").unwrap();
    let b = derive_storage_dirs(&Some("file:///x.ts".to_string()), &Some("/o".to_string()), "/c").unwrap();
    assert_eq!(a.origin_storage_dir, b.origin_storage_dir);
    assert_eq!(a.cache_storage_dir, b.cache_storage_dir);
    let other = derive_storage_dirs(&Some("file:///y.ts".to_string()), &Some("/o".to_string()), "/c").unwrap();
    assert_ne!(a.origin_storage_dir, other.origin_storage_dir);
}

#[test]
fn no_key_no_directories() {
    let resolver = StorageKeyResolver::Fixed(None);
    let key = resolver.resolve_storage_key("file:///tmp/a.ts");
    let d = derive_storage_dirs(&key, &Some("/origin".to_string()), "/cache").unwrap();
    assert!(d.origin_storage_dir.is_none());
    assert!(d.cache_storage_dir.is_none());
    let d = derive_storage_dirs(&None, &None, "/cache").unwrap();
    assert!(d.origin_storage_dir.is_none());
    assert!(d.cache_storage_dir.is_none());
}

#[test]
fn key_without_origin_folder_is_refused() {
    let r = derive_storage_dirs(&Some("abc".to_string()), &None, "/cache");
    assert!(matches!(r, Err(StorageError::MissingOriginDataFolder)));
}

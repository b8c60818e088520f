use kv_bucket::errors::LocateError;
use kv_bucket::locate::get_kv_bucket;

#[test]
fn no_data_directory_is_directory_unavailable() {
    let r = get_kv_bucket(None, String::from("settings"), String::from("prefs"));
    assert_eq!(r.err(), Some(LocateError::DirectoryUnavailable));
}

#[test]
fn unusable_path_is_store_open_failed() {
    // A path under a device file cannot be created as a directory.
    let r = get_kv_bucket(
        Some(String::from("/dev/null")),
        String::from("ns"),
        String::from("b"),
    );
    assert!(matches!(r, Err(LocateError::StoreOpenFailed(_))));
}

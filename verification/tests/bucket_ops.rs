use kv_bucket::errors::ReadOutcome;
use kv_bucket::handle::get_state_json;
use kv_bucket::handle::remove_data;
use kv_bucket::handle::StateBucket;
use kv_bucket::locate::get_kv_bucket;
use kv_bucket::locate::join_path;
use kv_bucket::ops::flush_store;
use kv_bucket::ops::read_value;
use kv_bucket::ops::remove_and_flush;
use kv_bucket::ops::set_value;
use kv_bucket::store::StoreBucket;

fn open(dir: &str, namespace: &str, name: &str) -> StoreBucket {
    get_kv_bucket(
        Some(String::from(dir)),
        String::from(namespace),
        String::from(name),
    )
    .expect("bucket should open")
}

#[test]
fn join_path_is_dir_slash_namespace() {
    let p = join_path(&String::from("/data/app"), &String::from("settings"));
    assert_eq!(p, "/data/app/settings");
}

#[test]
fn remove_of_never_set_key_succeeds() {
    let mut bucket = open("/tmp/kv_bucket_tests/never_set", "ns", "b");
    let r = remove_and_flush(&mut bucket, &String::from("never-set-key"));
    assert!(r.is_ok());
    // The same through the synchronized handle.
    let handle = StateBucket::new(bucket);
    let r2 = remove_data(&handle, "another-never-set-key");
    assert!(r2.is_ok());
}

#[test]
fn set_then_read_before_flush() {
    let mut bucket = open("/tmp/kv_bucket_tests/set_read", "ns", "b");
    set_value(&mut bucket, &String::from("color"), &String::from("blue")).expect("set");
    let got = read_value(&bucket, &String::from("color"));
    assert_eq!(got, ReadOutcome::Found(String::from("blue")));
}

#[test]
fn set_returns_previous_value() {
    let mut bucket = open("/tmp/kv_bucket_tests/set_prev", "ns", "b");
    let key = String::from("k");
    remove_and_flush(&mut bucket, &key).expect("clean slate");
    let first = set_value(&mut bucket, &key, &String::from("one")).expect("set");
    assert_eq!(first, None);
    let second = set_value(&mut bucket, &key, &String::from("two")).expect("set again");
    assert_eq!(second, Some(String::from("one")));
}

#[test]
fn remove_flush_reopen_shows_key_absent() {
    let dir = "/tmp/kv_bucket_tests/remove_reopen";
    let mut bucket = open(dir, "ns", "b");
    let key = String::from("gone");
    set_value(&mut bucket, &key, &String::from("x")).expect("set");
    flush_store(&bucket).expect("flush");
    remove_and_flush(&mut bucket, &key).expect("remove and flush");
    drop(bucket);
    // A fresh open, as after a process restart.
    let reopened = open(dir, "ns", "b");
    assert_eq!(read_value(&reopened, &key), ReadOutcome::NotFound);
}

#[test]
fn two_locates_observe_committed_writes() {
    let dir = "/tmp/kv_bucket_tests/two_locates";
    let mut first = open(dir, "ns", "b");
    set_value(&mut first, &String::from("shared"), &String::from("yes")).expect("set");
    flush_store(&first).expect("flush");
    drop(first);
    let second = open(dir, "ns", "b");
    assert_eq!(
        read_value(&second, &String::from("shared")),
        ReadOutcome::Found(String::from("yes"))
    );
}

#[test]
fn distinct_key_removals_all_complete() {
    let mut bucket = open("/tmp/kv_bucket_tests/distinct_keys", "ns", "b");
    set_value(&mut bucket, &String::from("k1"), &String::from("a")).expect("set k1");
    set_value(&mut bucket, &String::from("k2"), &String::from("b")).expect("set k2");
    let handle = StateBucket::new(bucket);
    let other = handle.clone_handle();
    assert!(remove_data(&handle, "k1").is_ok());
    assert!(remove_data(&other, "k2").is_ok());
    assert_eq!(get_state_json(&handle, &String::from("k1")), ReadOutcome::NotFound);
    assert_eq!(get_state_json(&other, &String::from("k2")), ReadOutcome::NotFound);
}

#[test]
fn undecodable_value_is_failed_read_not_absence() {
    let dir = "/tmp/kv_bucket_tests/undecodable";
    {
        // Plant bytes that do not decode as a string value, through the
        // engine directly, at the same path the locator would use.
        let store = kv::Store::new(kv::Config::new("/tmp/kv_bucket_tests/undecodable/ns"))
            .expect("open store directly");
        let raw: kv::Bucket<String, Vec<u8>> = store.bucket(Some("b")).expect("raw bucket");
        raw.set(&String::from("bad"), &vec![0xff, 0xfe]).expect("set raw");
        raw.flush().expect("flush raw");
    }
    let bucket = open(dir, "ns", "b");
    let got = read_value(&bucket, &String::from("bad"));
    assert!(matches!(got, ReadOutcome::Failed(_)));
}

#[test]
fn settings_prefs_theme_survives_reopen() {
    let dir = "/tmp/kv_bucket_tests/theme";
    let mut bucket = open(dir, "settings", "prefs");
    set_value(&mut bucket, &String::from("theme"), &String::from("dark")).expect("set");
    flush_store(&bucket).expect("flush");
    drop(bucket);
    // A new process opens the same namespace and bucket.
    let handle = StateBucket::new(open(dir, "settings", "prefs"));
    assert_eq!(
        get_state_json(&handle, &String::from("theme")),
        ReadOutcome::Found(String::from("dark"))
    );
}

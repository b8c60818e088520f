use vstd::prelude::*;

verus! {

/// One open, typed bucket: string keys to string values inside one
/// namespace's store.  Verus refuses a declaration of the engine's own
/// bucket type (its generics are bound by the engine's traits), so the
/// bucket is held opaquely here and reached only through the trusted
/// functions below.  Holding it keeps the underlying store open.  At most
/// one handle per namespace and bucket name should be live in a process;
/// see the locator's notes.
#[verifier::external_body]
pub struct StoreBucket {
    bucket: kv::Bucket<'static, String, String>,
}

#[verifier::external_type_specification]
#[verifier::external_body]
pub struct ExStore(kv::Store);

/// The entries a bucket currently holds, as a map from key to value.
pub uninterp spec fn bucket_entries(b: StoreBucket) -> Map<Seq<char>, Seq<char>>;

/// Relies on kv::Store::new, on a configuration built by kv::Config::new
/// from the given path: opens, creating it if absent, the store rooted at
/// that path.  The error is the engine's own message.
#[verifier::external_body]
pub(crate) fn open_store(path: &String) -> (r: Result<kv::Store, String>) {
    match kv::Store::new(kv::Config::new(path.as_str())) {
        Ok(s) => Ok(s),
        Err(e) => Err(format!("{}", e)),
    }
}

/// Relies on kv::Store::bucket: opens, creating it if absent, the named
/// bucket of the store, typed to string keys and string values.  What the
/// bucket holds comes from disk, so nothing is stated of its entries.
#[verifier::external_body]
pub(crate) fn open_named_bucket(store: &kv::Store, name: &String) -> (r: Result<
    StoreBucket,
    String,
>) {
    match store.bucket::<String, String>(Some(name.as_str())) {
        Ok(b) => Ok(StoreBucket { bucket: b }),
        Err(e) => Err(format!("{}", e)),
    }
}

/// Relies on kv::Bucket::get: returns the value stored under the key, or
/// nothing when the key is absent; a failed lookup surfaces the engine's
/// message.
#[verifier::external_body]
pub(crate) fn kv_get(b: &StoreBucket, key: &String) -> (r: Result<
    Option<String>,
    String,
>)
    ensures
        (match r {
            Ok(Some(v)) => bucket_entries(*b).contains_key(key@) && v@ == bucket_entries(*b)[key@],
            Ok(None) => !bucket_entries(*b).contains_key(key@),
            Err(_) => true,
        }),
{
    match b.bucket.get(key) {
        Ok(v) => Ok(v),
        Err(e) => Err(format!("{}", e)),
    }
}

/// Relies on kv::Bucket::set: stores the value under the key and returns
/// the previously stored value, if any.  The engine writes one key: even
/// when decoding the previous value fails after the write, every other
/// entry is untouched.
#[verifier::external_body]
pub(crate) fn kv_set(
    b: &mut StoreBucket,
    key: &String,
    value: &String,
) -> (r: Result<Option<String>, String>)
    ensures
        r is Ok ==> bucket_entries(*final(b)) == bucket_entries(*old(b)).insert(key@, value@),
        r is Err ==> bucket_entries(*final(b)).remove(key@) == bucket_entries(*old(b)).remove(
            key@,
        ),
        (match r {
            Ok(Some(prev)) => bucket_entries(*old(b)).contains_key(key@) && prev@ == bucket_entries(
                *old(b),
            )[key@],
            Ok(None) => !bucket_entries(*old(b)).contains_key(key@),
            Err(_) => true,
        }),
{
    match b.bucket.set(key, value) {
        Ok(p) => Ok(p),
        Err(e) => Err(format!("{}", e)),
    }
}

/// Relies on kv::Bucket::remove: removes the entry under the key and
/// returns the removed value; removing an absent key succeeds with
/// nothing returned.  The engine touches one key: even when decoding the
/// removed value fails after the removal, every other entry is untouched.
#[verifier::external_body]
pub(crate) fn kv_remove(b: &mut StoreBucket, key: &String) -> (r: Result<
    Option<String>,
    String,
>)
    ensures
        r is Ok ==> bucket_entries(*final(b)) == bucket_entries(*old(b)).remove(key@),
        r is Err ==> bucket_entries(*final(b)).remove(key@) == bucket_entries(*old(b)).remove(
            key@,
        ),
        (match r {
            Ok(Some(prev)) => bucket_entries(*old(b)).contains_key(key@) && prev@ == bucket_entries(
                *old(b),
            )[key@],
            Ok(None) => !bucket_entries(*old(b)).contains_key(key@),
            Err(_) => true,
        }),
{
    match b.bucket.remove(key) {
        Ok(p) => Ok(p),
        Err(e) => Err(format!("{}", e)),
    }
}

/// Relies on kv::Bucket::flush: forces the bucket's buffered writes to
/// durable storage.  The entries themselves are untouched, which the
/// shared borrow already states.
#[verifier::external_body]
pub(crate) fn kv_flush(b: &StoreBucket) -> (r: Result<(), String>) {
    match b.bucket.flush() {
        Ok(_) => Ok(()),
        Err(e) => Err(format!("{}", e)),
    }
}

} // verus!

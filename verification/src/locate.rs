use vstd::prelude::*;
use vstd::string::StringExecFns;

use crate::errors::LocateError;
use crate::store::open_named_bucket;
use crate::store::open_store;
use crate::store::StoreBucket;

verus! {

/// Joins the application data directory and a namespace into the storage
/// path for that namespace: the directory, a separator, the namespace.
pub fn join_path(dir: &String, namespace: &String) -> (r: String)
    ensures
        r@ == dir@ + "/"@ + namespace@,
{
    let mut out: String = dir.clone();
    out.append("/");
    out.append(namespace.as_str());
    out
}

/// Locates and opens the named bucket of a namespace's store.
///
/// `app_data_dir` is the host's writable application data directory, or
/// nothing where the host could not resolve one.  The store lives in the
/// subdirectory of that directory named by `namespace`; the bucket is
/// created inside it if absent.  Opening is idempotent: reopening an
/// existing store and bucket loses no data (the engine's concern).  The
/// engine holds an exclusive lock on an open store, so while one located
/// bucket is live, locating the same namespace again fails; reopen after
/// the first handle is dropped.
///
/// The caller should construct at most one live bucket per namespace and
/// name pair in a process, and wrap it in a `StateBucket` for shared use:
/// the contracts over a bucket's entries speak of that one handle.
pub fn get_kv_bucket(app_data_dir: Option<String>, namespace: String, name: String) -> (r: Result<
    StoreBucket,
    LocateError,
>)
    requires
        namespace@.len() > 0,
        name@.len() > 0,
    ensures
        (app_data_dir is None) <==> (r matches Err(LocateError::DirectoryUnavailable)),
{
    let dir = match app_data_dir {
        Some(d) => d,
        None => { return Err(LocateError::DirectoryUnavailable) },
    };
    let storage_path = join_path(&dir, &namespace);
    let store = match open_store(&storage_path) {
        Ok(s) => s,
        Err(m) => { return Err(LocateError::StoreOpenFailed(m)) },
    };
    match open_named_bucket(&store, &name) {
        Ok(b) => Ok(b),
        Err(m) => Err(LocateError::BucketOpenFailed(m)),
    }
}

} // verus!

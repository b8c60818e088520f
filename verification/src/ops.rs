use vstd::prelude::*;

use crate::errors::BucketOpError;
use crate::errors::ReadOutcome;
use crate::store::bucket_entries;
use crate::store::kv_flush;
use crate::store::kv_get;
use crate::store::kv_remove;
use crate::store::kv_set;
use crate::store::StoreBucket;

verus! {

/// What a read outcome says of the entries it was drawn from: a present
/// key yields its stored value, an absent key yields `NotFound`, and
/// absence is never reported as a failure.
pub open spec fn read_reflects(
    entries: Map<Seq<char>, Seq<char>>,
    key: Seq<char>,
    r: ReadOutcome,
) -> bool {
    &&& (r matches ReadOutcome::Found(v) ==> entries.contains_key(key) && v@ == entries[key])
    &&& (r is NotFound ==> !entries.contains_key(key))
    &&& (entries.contains_key(key) ==> !(r is NotFound))
}

/// What a remove-then-flush outcome says of the entries before and after
/// it: on success, and on a failed flush alike, the entries are the old
/// ones without the key; on every outcome, success and failure alike,
/// entries under other keys are untouched.
pub open spec fn remove_reflects(
    before: Map<Seq<char>, Seq<char>>,
    after: Map<Seq<char>, Seq<char>>,
    key: Seq<char>,
    r: Result<(), BucketOpError>,
) -> bool {
    &&& (r is Ok ==> after == before.remove(key))
    &&& (r is Ok ==> !after.contains_key(key))
    &&& (r matches Err(BucketOpError::FlushFailed(_)) ==> after == before.remove(key))
    &&& after.remove(key) == before.remove(key)
}

/// Looks the key up in the bucket.  A present key yields its stored
/// value, an absent key yields `NotFound`, and only a failure of the
/// lookup itself yields `Failed`; absence is never reported as a failure.
pub fn read_value(b: &StoreBucket, key: &String) -> (r: ReadOutcome)
    ensures
        read_reflects(bucket_entries(*b), key@, r),
{
    match kv_get(b, key) {
        Ok(Some(v)) => ReadOutcome::Found(v),
        Ok(None) => ReadOutcome::NotFound,
        Err(m) => ReadOutcome::Failed(m),
    }
}

/// Stores the value under the key.  On success the bucket's entries are
/// the old entries with the key now bound to this value, and the previous
/// value, if the key was already bound, is returned.  On failure the
/// engine's message is returned.  Succeed or fail, no other key's entry
/// is touched.  The write is not durable until a flush.
pub fn set_value(b: &mut StoreBucket, key: &String, value: &String) -> (r: Result<
    Option<String>,
    String,
>)
    ensures
        (r is Ok ==> bucket_entries(*final(b)) == bucket_entries(*old(b)).insert(key@, value@)),
        (r matches Ok(Some(prev)) ==> bucket_entries(*old(b)).contains_key(key@) && prev@
            == bucket_entries(*old(b))[key@]),
        (r matches Ok(None) ==> !bucket_entries(*old(b)).contains_key(key@)),
        bucket_entries(*final(b)).remove(key@) == bucket_entries(*old(b)).remove(key@),
{
    let r = kv_set(b, key, value);
    proof {
        if r is Ok {
            assert(bucket_entries(*b).remove(key@) =~= bucket_entries(*old(b)).remove(key@));
        }
    }
    r
}

/// Forces the bucket's buffered writes to durable storage.  The entries
/// are unchanged; on failure the engine's message is returned.
pub fn flush_store(b: &StoreBucket) -> (r: Result<(), String>) {
    kv_flush(b)
}

/// Removes the entry under the key, then flushes the store, so that on
/// success the removal is durable.  Removing a key that is not bound
/// is not an error: the entries are then simply unchanged.  After any
/// outcome but a failed removal, the entries are the old entries without
/// the key; a failed flush reports so while the removal itself stands;
/// and whatever the outcome, no other key's entry is touched.
pub fn remove_and_flush(b: &mut StoreBucket, key: &String) -> (r: Result<(), BucketOpError>)
    ensures
        remove_reflects(bucket_entries(*old(b)), bucket_entries(*final(b)), key@, r),
{
    match kv_remove(b, key) {
        Ok(_) => (),
        Err(m) => { return Err(BucketOpError::RemoveFailed(m)) },
    }
    proof {
        assert(bucket_entries(*b).remove(key@) =~= bucket_entries(*old(b)).remove(key@));
    }
    match kv_flush(b) {
        Ok(_) => Ok(()),
        Err(m) => Err(BucketOpError::FlushFailed(m)),
    }
}

} // verus!

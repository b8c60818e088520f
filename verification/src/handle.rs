use vstd::prelude::*;
use vstd::rwlock::RwLock;

use crate::errors::BucketOpError;
use crate::errors::ReadOutcome;
use crate::ops::read_reflects;
use crate::ops::read_value;
use crate::ops::remove_and_flush;
use crate::ops::remove_reflects;
use crate::store::bucket_entries;
use crate::store::StoreBucket;

verus! {

/// Shared ownership of one open bucket behind a lock: any number of
/// holders, one at a time inside a write, readers together.  All holders
/// see the same underlying bucket, which lives as long as the longest
/// lived holder.  Lock order is acquisition order; the lock is held only
/// for the span of one operation.  The lock guards no invariant beyond
/// the bucket being a bucket, so its predicate accepts every value.
pub struct StateBucket {
    inner: std::sync::Arc<RwLock<StoreBucket, spec_fn(StoreBucket) -> bool>>,
}

/// Relies on std::sync::Arc::clone: a second owner of the same shared
/// lock; as a value it is the same lock.
#[verifier::external_body]
fn arc_clone(v: &std::sync::Arc<RwLock<StoreBucket, spec_fn(StoreBucket) -> bool>>) -> (r: std::sync::Arc<
    RwLock<StoreBucket, spec_fn(StoreBucket) -> bool>,
>)
    ensures
        r == *v,
{
    std::sync::Arc::clone(v)
}

impl StateBucket {
    /// Every bucket value satisfies the lock's predicate, so a write
    /// acquired from any handle can always be released.
    #[verifier::type_invariant]
    spec fn wf(self) -> bool {
        forall|b: StoreBucket| (*self.inner).inv(b)
    }

    /// Takes sole ownership of the bucket and makes it shareable under
    /// the lock.
    pub fn new(bucket: StoreBucket) -> (r: StateBucket) {
        let lock = RwLock::<StoreBucket, spec_fn(StoreBucket) -> bool>::new(
            bucket,
            Ghost(|b: StoreBucket| true),
        );
        StateBucket { inner: std::sync::Arc::new(lock) }
    }

    /// Another holder of the same bucket.
    pub fn clone_handle(&self) -> (r: StateBucket)
        ensures
            r == *self,
    {
        proof {
            use_type_invariant(self);
        }
        StateBucket { inner: arc_clone(&self.inner) }
    }
}

/// Reads the key under the lock: the outcome reflects the entries of the
/// shared bucket as they stood while the lock was held.  Absence is never
/// reported as a failure; only the engine's own failure is.
pub fn get_state_json(bucket_arc: &StateBucket, key: &String) -> (r: ReadOutcome)
    ensures
        exists|snapshot: StoreBucket| read_reflects(bucket_entries(snapshot), key@, r),
{
    let read_handle = bucket_arc.inner.acquire_read();
    let result = read_value(read_handle.borrow(), key);
    proof {
        assert(read_reflects(bucket_entries(read_handle.view()), key@, result));
    }
    read_handle.release_read();
    result
}

/// Removes the key and flushes the store under the lock, exclusively:
/// the entries of the shared bucket before and after the call are
/// related as `remove_and_flush` relates them — the key absent on
/// success and on a failed flush alike, every other key's entry
/// untouched on every outcome.  Removal of an absent key succeeds.
/// Blocks for the disk's and the lock's time; two callers on distinct
/// keys are serialized, never deadlocked.
pub fn remove_data(bucket_arc: &StateBucket, path: &str) -> (r: Result<(), BucketOpError>)
    ensures
        exists|before: StoreBucket, after: StoreBucket| remove_reflects(
            bucket_entries(before),
            bucket_entries(after),
            path@,
            r,
        ),
{
    proof {
        use_type_invariant(bucket_arc);
    }
    let key: String = path.to_owned();
    let (mut bucket, write_handle) = bucket_arc.inner.acquire_write();
    let ghost before = bucket;
    let result = remove_and_flush(&mut bucket, &key);
    proof {
        assert(remove_reflects(bucket_entries(before), bucket_entries(bucket), path@, result));
    }
    write_handle.release_write(bucket);
    result
}

} // verus!

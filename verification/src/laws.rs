use vstd::prelude::*;

verus! {

/// A value just set is read back before any flush: after a set binds the
/// key to the value in a bucket's entries, a lookup of that key on those
/// entries yields exactly that value.  Together with the contracts of
/// `set_value` and `read_value`, this carries to the executable pair.
pub proof fn lemma_set_then_read(entries: Map<Seq<char>, Seq<char>>, key: Seq<char>, value: Seq<
    char,
>)
    ensures
        entries.insert(key, value).contains_key(key),
        entries.insert(key, value)[key] == value,
{
}

/// Removing a key that was never set leaves the entries exactly as they
/// were, with the key absent as before: the layer treats such a removal
/// as success, not as an error.
pub proof fn lemma_remove_absent_key(entries: Map<Seq<char>, Seq<char>>, key: Seq<char>)
    requires
        !entries.contains_key(key),
    ensures
        entries.remove(key) =~= entries,
        !entries.remove(key).contains_key(key),
{
}

/// Removals of two distinct keys commute, and after both, both keys are
/// absent: two callers whose remove-and-flush calls the lock serializes
/// in either order leave the bucket in the same state, each key removed.
pub proof fn lemma_remove_distinct_keys(
    entries: Map<Seq<char>, Seq<char>>,
    k1: Seq<char>,
    k2: Seq<char>,
)
    requires
        k1 != k2,
    ensures
        !entries.remove(k1).remove(k2).contains_key(k1),
        !entries.remove(k1).remove(k2).contains_key(k2),
        entries.remove(k1).remove(k2) =~= entries.remove(k2).remove(k1),
{
}

} // verus!

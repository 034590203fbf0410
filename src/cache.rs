use vstd::prelude::*;

verus! {

/// Where the entry for content identifier `id` lives, under the per-user
/// cache root: one flat file per identifier.
pub open spec fn cache_entry_path(root: Seq<char>, id: Seq<char>) -> Seq<char> {
    root + "/spin/ai-models/"@ + id
}

/// The path of the cache entry for `id` under the cache root `root`.
pub fn locate(root: &str, id: &str) -> (r: String)
    ensures
        r@ == cache_entry_path(root@, id@),
{
    let mut r = root.to_owned();
    r.append("/spin/ai-models/");
    r.append(id);
    r
}

/// Distinct identifiers never share a cache entry.
pub proof fn lemma_entries_distinct(root: Seq<char>, id1: Seq<char>, id2: Seq<char>)
    requires
        id1 != id2,
    ensures
        cache_entry_path(root, id1) != cache_entry_path(root, id2),
{
    let p = root + "/spin/ai-models/"@;
    let a = cache_entry_path(root, id1);
    let b = cache_entry_path(root, id2);
    if a == b {
        assert(id1 =~= a.subrange(p.len() as int, a.len() as int));
        assert(id2 =~= b.subrange(p.len() as int, b.len() as int));
    }
}

} // verus!

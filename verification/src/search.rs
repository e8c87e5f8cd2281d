//! The store half of a search request: the expensive filesystem walk has
//! already happened outside, before any lock is taken; what remains is to
//! enrich its ordered matches, store them under a fresh handle, and hand
//! the handle back in the text form that crosses the request boundary.

use vstd::prelude::*;
use crate::cache::Cache;
use crate::handle::{handle_text, handle_to_string, parsed_handle};
use crate::items::{enrich_paths, file_info_of, FileInfo};

verus! {

/// `items` is `paths` enriched element by element, order and count kept.
pub open spec fn enrichment_of(paths: Seq<String>, items: Seq<FileInfo>) -> bool {
    &&& items.len() == paths.len()
    &&& forall|k: int| #![auto] 0 <= k < paths.len() ==> items[k]@ == file_info_of(paths[k]@)
}

/// Takes one finished enumeration's ordered matches, enriches each into a
/// [`FileInfo`], stores them under a freshly minted handle, and returns
/// the handle with its canonical text form, which parses back to that
/// very handle. `None` only on the vanishingly unlikely event that every
/// minted handle collided with a live entry — impossible on an empty
/// cache, where success is owed; the cache is then unchanged.
pub fn complete_search(cache: &mut Cache<FileInfo>, paths: Vec<String>) -> (r: Option<(u128, String)>)
    ensures
        old(cache)@ == Map::<u128, Seq<FileInfo>>::empty() ==> r is Some,
        r matches Some(p) ==> {
            &&& p.1@ == handle_text(p.0)
            &&& parsed_handle(p.1@) == Some(p.0)
            &&& !old(cache)@.contains_key(p.0)
            &&& final(cache)@.contains_key(p.0)
            &&& enrichment_of(paths@, final(cache)@[p.0])
            &&& final(cache)@ == old(cache)@.insert(p.0, final(cache)@[p.0])
        },
        r is None ==> final(cache)@ == old(cache)@,
{
    let items = enrich_paths(paths);
    match cache.store(items) {
        None => None,
        Some(h) => {
            let text = handle_to_string(h);
            Some((h, text))
        },
    }
}

} // verus!

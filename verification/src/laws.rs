//! The drain laws of the cache, proved over the same spec functions that
//! the exec contracts in [`crate::cache`] are stated with: what repeated
//! paging of one handle serves, how many calls it takes, and that handles
//! never interfere with one another.

use vstd::prelude::*;
use vstd::arithmetic::div_mod::{lemma_basic_div, lemma_div_plus_one};
use crate::cache::{
    page_done, page_items, page_map_after, page_result_done, page_result_items,
};

verus! {

/// The pages that repeated `page` calls with a fixed size `p` serve from a
/// stored buffer, in call order: whole-buffer final page, or a full first
/// page followed by the pages of the remainder.
pub open spec fn pages_of<T>(buf: Seq<T>, p: int) -> Seq<Seq<T>>
    decreases buf.len(),
    when p >= 1
{
    if buf.len() <= p {
        seq![buf]
    } else {
        seq![buf.take(p)] + pages_of(buf.skip(p), p)
    }
}

/// How many `page` calls draining an `n`-item buffer with fixed page size
/// `p` takes: one call even for an empty buffer, else the count of
/// `p`-sized pages rounded upward.
pub open spec fn drain_calls(n: int, p: int) -> int {
    if n == 0 {
        1
    } else {
        (n + p - 1) / p
    }
}

/// Each step of a drain is one `page` call: the first entry of `pages_of`
/// is exactly what `page` serves from the buffer, and when that call is
/// not the final one, the remaining entries are the pages of the stored
/// remainder — the state `page` leaves behind.
pub proof fn lemma_pages_of_step<T>(buf: Seq<T>, p: int)
    requires
        1 <= p,
    ensures
        pages_of(buf, p).len() >= 1,
        pages_of(buf, p).first() == page_items(buf, p),
        page_done(buf, p) ==> pages_of(buf, p) =~= seq![buf],
        !page_done(buf, p) ==> pages_of(buf, p).drop_first() =~= pages_of(buf.skip(p), p),
{
}

/// Drain completeness: for any stored buffer and any fixed page size of
/// at least one, the served pages concatenate back to the original buffer
/// — order preserved, nothing reordered or deduplicated — and draining
/// ends in exactly `drain_calls` page calls.
pub proof fn lemma_drain_completeness<T>(buf: Seq<T>, p: int)
    requires
        1 <= p,
    ensures
        pages_of(buf, p).flatten() == buf,
        pages_of(buf, p).len() == drain_calls(buf.len() as int, p),
    decreases buf.len(),
{
    let pages = pages_of(buf, p);
    let n = buf.len() as int;
    if buf.len() <= p {
        pages.lemma_flatten_one_element();
        if n > 0 {
            lemma_basic_div(n - 1, p);
            lemma_div_plus_one(n - 1, p);
        }
    } else {
        let rest = pages_of(buf.skip(p), p);
        assert(pages.drop_first() =~= rest);
        lemma_drain_completeness(buf.skip(p), p);
        assert(pages.flatten() == buf.take(p) + rest.flatten());
        assert(buf.take(p) + buf.skip(p) =~= buf);
        lemma_div_plus_one(n - 1, p);
        assert(drain_calls(n - p, p) + 1 == drain_calls(n, p));
    }
}

/// Post-drain absence: once a `page` call on `h` answers `done`, the
/// handle no longer resolves, so every further `page` call on it — with
/// any page size — serves an empty page, answers `done` again, and leaves
/// the cache untouched.
pub proof fn lemma_post_drain_absence<T>(m: Map<u128, Seq<T>>, h: u128, p: int, q: int)
    requires
        page_result_done(m, h, p),
    ensures
        !page_map_after(m, h, p).contains_key(h),
        page_result_items(page_map_after(m, h, p), h, q) == Seq::<T>::empty(),
        page_result_done(page_map_after(m, h, p), h, q),
        page_map_after(page_map_after(m, h, p), h, q) == page_map_after(m, h, p),
{
}

/// Isolation: a `page` call on handle `a` neither observes nor mutates
/// the entry of a different handle `b`, and a store under `b` neither
/// observes nor mutates the entry of `a`.
pub proof fn lemma_isolation<T>(m: Map<u128, Seq<T>>, a: u128, b: u128, p: int, items: Seq<T>)
    requires
        a != b,
    ensures
        page_map_after(m, a, p).contains_key(b) == m.contains_key(b),
        m.contains_key(b) ==> page_map_after(m, a, p)[b] == m[b],
        page_result_items(m.insert(b, items), a, p) == page_result_items(m, a, p),
        page_result_done(m.insert(b, items), a, p) == page_result_done(m, a, p),
        m.insert(b, items).contains_key(a) == m.contains_key(a),
        m.contains_key(a) ==> m.insert(b, items)[a] == m[a],
{
}

/// Zero-length store: a handle stored with an empty buffer answers its
/// very first `page` call with an empty page and `done`, and is removed
/// by that call.
pub proof fn lemma_zero_length_store<T>(m: Map<u128, Seq<T>>, h: u128, items: Seq<T>, p: int)
    requires
        items.len() == 0,
        1 <= p,
    ensures
        page_result_items(m.insert(h, items), h, p) == Seq::<T>::empty(),
        page_result_done(m.insert(h, items), h, p),
        !page_map_after(m.insert(h, items), h, p).contains_key(h),
{
    assert(items =~= Seq::<T>::empty());
}

/// Page-size boundary: a handle stored with exactly `p` items answers
/// `page` with size `p` in one call — all `p` items, `done` set, the
/// entry gone — leaving no phantom empty page behind.
pub proof fn lemma_page_size_boundary<T>(m: Map<u128, Seq<T>>, h: u128, items: Seq<T>, p: int)
    requires
        1 <= p,
        items.len() == p,
    ensures
        page_result_items(m.insert(h, items), h, p) == items,
        page_result_done(m.insert(h, items), h, p),
        !page_map_after(m.insert(h, items), h, p).contains_key(h),
        pages_of(items, p).len() == 1,
{
}

} // verus!

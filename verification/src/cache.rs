//! The paginated result cache: a mapping from opaque handles to ordered
//! result buffers, drained front-to-back in bounded-size pages.
//!
//! The cache never inspects item contents, so it is generic over the item
//! shape. An entry is created by storing a finished enumeration's output,
//! shrunk by each page request, and removed the moment the last items are
//! served: no handle ever maps to a zero-length residue for long, and a
//! drained handle is no longer resolvable.

use vstd::prelude::*;
use std::collections::HashMap;
use crate::handle::{mint_handle, parse_handle, parsed_handle};

verus! {

broadcast use vstd::std_specs::hash::group_hash_axioms;

/// How often `store` redraws a handle that happens to collide with a live
/// entry before giving up; a single collision is already vanishingly
/// unlikely among 128-bit random values.
pub const MINT_ATTEMPTS: usize = 16;

/// One page of results: the items served, and whether the handle is now
/// exhausted (and therefore no longer resolvable).
#[derive(Debug)]
pub struct PageResult<T> {
    pub items: Vec<T>,
    pub done: bool,
}

/// A caller error on a page request. A missing handle is *not* an error:
/// it is answered as "already drained".
#[derive(Clone, Copy, Debug, PartialEq, Eq, Structural)]
pub enum PageError {
    /// A page size of zero would never make progress; it is rejected at once.
    ZeroPageSize,
    /// The textual handle could not be parsed into the identifier type.
    MalformedHandle,
}

/// What a page request returns for the stored buffer `buf`: the whole
/// remainder when it fits in one page, else the first `p` items.
pub open spec fn page_items<T>(buf: Seq<T>, p: int) -> Seq<T> {
    if buf.len() <= p {
        buf
    } else {
        buf.take(p)
    }
}

/// Whether a page request on the stored buffer `buf` is the final one.
pub open spec fn page_done<T>(buf: Seq<T>, p: int) -> bool {
    buf.len() <= p
}

/// The items a page request on cache state `m` returns for `h`: empty when
/// the handle does not resolve, else a page of its buffer.
pub open spec fn page_result_items<T>(m: Map<u128, Seq<T>>, h: u128, p: int) -> Seq<T> {
    if m.contains_key(h) {
        page_items(m[h], p)
    } else {
        Seq::empty()
    }
}

/// The `done` flag a page request on cache state `m` returns for `h`.
pub open spec fn page_result_done<T>(m: Map<u128, Seq<T>>, h: u128, p: int) -> bool {
    !m.contains_key(h) || page_done(m[h], p)
}

/// The cache state after a page request: untouched for an absent handle,
/// the entry removed when the remainder fit in the page, else the entry
/// replaced by the remainder with the served head dropped.
pub open spec fn page_map_after<T>(m: Map<u128, Seq<T>>, h: u128, p: int) -> Map<u128, Seq<T>> {
    if !m.contains_key(h) {
        m
    } else if m[h].len() <= p {
        m.remove(h)
    } else {
        m.insert(h, m[h].skip(p))
    }
}

/// The paginated result cache. Its model is a map from handles to the
/// ordered sequences of items still waiting to be served.
pub struct Cache<T> {
    entries: HashMap<u128, Vec<T>>,
}

impl<T> View for Cache<T> {
    type V = Map<u128, Seq<T>>;

    closed spec fn view(&self) -> Map<u128, Seq<T>> {
        Map::new(
            |h: u128| self.entries@.contains_key(h),
            |h: u128| self.entries@[h]@,
        )
    }
}

impl<T> Cache<T> {
    /// An empty cache: no handle resolves.
    pub fn new() -> (c: Cache<T>)
        ensures
            c@ == Map::<u128, Seq<T>>::empty(),
    {
        let c = Cache { entries: HashMap::new() };
        proof {
            assert(c@ =~= Map::<u128, Seq<T>>::empty());
        }
        c
    }

    /// Whether `handle` currently resolves to a stored buffer.
    pub fn contains_handle(&self, handle: u128) -> (r: bool)
        ensures
            r == self@.contains_key(handle),
    {
        self.entries.contains_key(&handle)
    }

    /// Inserts a buffer under `handle` if, and only if, the handle is not
    /// already taken; an occupied handle leaves the cache untouched, so no
    /// stored buffer is ever overwritten.
    pub fn insert_fresh(&mut self, handle: u128, items: Vec<T>) -> (ok: bool)
        ensures
            ok == !old(self)@.contains_key(handle),
            ok ==> final(self)@ == old(self)@.insert(handle, items@),
            !ok ==> final(self)@ == old(self)@,
    {
        if self.entries.contains_key(&handle) {
            false
        } else {
            self.entries.insert(handle, items);
            proof {
                assert(self@ =~= old(self)@.insert(handle, items@));
            }
            true
        }
    }

    /// Stores one finished enumeration's output under a freshly minted
    /// random handle and returns that handle; no existing entry is touched.
    ///
    /// A minted handle that collides with a live entry is redrawn up to
    /// `MINT_ATTEMPTS` times; only if every draw collides — an internal
    /// invariant violation for 128-bit random values, not an expected
    /// outcome — is `None` returned and the cache left unchanged. On an
    /// empty cache no draw can collide, so storing there always succeeds.
    pub fn store(&mut self, items: Vec<T>) -> (r: Option<u128>)
        ensures
            old(self)@ == Map::<u128, Seq<T>>::empty() ==> r is Some,
            r matches Some(h) ==> !old(self)@.contains_key(h)
                && final(self)@ == old(self)@.insert(h, items@),
            r is None ==> final(self)@ == old(self)@,
    {
        let mut attempts: usize = MINT_ATTEMPTS;
        while attempts > 0
            invariant
                self@ == old(self)@,
                attempts < MINT_ATTEMPTS ==> old(self)@ != Map::<u128, Seq<T>>::empty(),
            decreases attempts,
        {
            let h = mint_handle();
            if !self.contains_handle(h) {
                let inserted = self.insert_fresh(h, items);
                proof {
                    assert(inserted);
                }
                return Some(h);
            }
            proof {
                assert(old(self)@.contains_key(h));
                assert(old(self)@ != Map::<u128, Seq<T>>::empty());
            }
            attempts = attempts - 1;
        }
        None
    }

    /// Serves one page for a handle given in its textual form, as it
    /// crosses the request boundary.
    ///
    /// Text that does not parse as a handle is a caller error, answered
    /// with `MalformedHandle` — unlike a well-formed handle that merely no
    /// longer resolves, which is served as already drained. A parsed
    /// handle is paged exactly as by [`Self::page`].
    pub fn page_by_id(&mut self, id: &str, page_size: usize) -> (r: Result<PageResult<T>, PageError>)
        ensures
            parsed_handle(id@) is None ==> (r matches Err(e) && e == PageError::MalformedHandle)
                && final(self)@ == old(self)@,
            parsed_handle(id@) matches Some(h) ==> {
                &&& (page_size == 0 <==> r is Err)
                &&& r matches Err(e) ==> e == PageError::ZeroPageSize && final(self)@ == old(self)@
                &&& r matches Ok(pr) ==> {
                    &&& pr.items@ == page_result_items(old(self)@, h, page_size as int)
                    &&& pr.done == page_result_done(old(self)@, h, page_size as int)
                    &&& final(self)@ == page_map_after(old(self)@, h, page_size as int)
                }
            },
    {
        match parse_handle(id) {
            None => Err(PageError::MalformedHandle),
            Some(h) => self.page(h, page_size),
        }
    }

    /// Serves one page of up to `page_size` items for `handle`.
    ///
    /// An absent handle is answered as already drained: an empty page with
    /// `done` set and the cache untouched. When the stored buffer fits in
    /// the page it is served whole, `done` is set, and the entry is removed;
    /// otherwise the first `page_size` items are served in order and only
    /// the remainder stays stored. A page size of zero is refused outright.
    pub fn page(&mut self, handle: u128, page_size: usize) -> (r: Result<PageResult<T>, PageError>)
        ensures
            page_size == 0 <==> r is Err,
            r matches Err(e) ==> e == PageError::ZeroPageSize && final(self)@ == old(self)@,
            r matches Ok(pr) ==> {
                &&& pr.items@ == page_result_items(old(self)@, handle, page_size as int)
                &&& pr.done == page_result_done(old(self)@, handle, page_size as int)
                &&& final(self)@ == page_map_after(old(self)@, handle, page_size as int)
            },
    {
        if page_size == 0 {
            return Err(PageError::ZeroPageSize);
        }
        match self.entries.remove(&handle) {
            None => {
                proof {
                    assert(self@ =~= old(self)@);
                }
                Ok(PageResult { items: Vec::new(), done: true })
            },
            Some(mut buf) => {
                if buf.len() <= page_size {
                    proof {
                        assert(self@ =~= page_map_after(old(self)@, handle, page_size as int));
                    }
                    Ok(PageResult { items: buf, done: true })
                } else {
                    let rest = buf.split_off(page_size);
                    self.entries.insert(handle, rest);
                    proof {
                        assert(self@ =~= page_map_after(old(self)@, handle, page_size as int));
                    }
                    Ok(PageResult { items: buf, done: false })
                }
            },
        }
    }
}

} // verus!

//! A paginated result cache: stores the ordered output of a finished
//! enumeration under a freshly minted opaque handle and serves it back in
//! bounded-size pages, reclaiming the entry once the last page is drained.

pub mod cache;
pub mod cmd;
pub mod handle;
pub mod items;
pub mod laws;
pub mod search;

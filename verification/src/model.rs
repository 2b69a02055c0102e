//! Searching and paging through lists.

use vstd::prelude::*;

verus! {

/// What a caller searches for: a text that a match has to hold.
#[derive(Debug, Clone)]
pub struct Query {
    pub q: String,
}

/// Which part of a list a caller wants: `limit` items after the first
/// `offset`, or all of them where `limit` is zero.
#[derive(Debug, Clone, Copy)]
pub struct Paginated {
    pub offset: u64,
    pub limit: u64,
}

/// A part of a list, with the length of the whole list.
#[derive(Debug, Clone)]
pub struct PaginatedResults<T> {
    pub items: Vec<T>,
    pub total: u64,
}

/// The part of `all` that a caller wants: nothing where the list has fewer
/// than `offset` items, else what follows the first `offset` items, cut down
/// to `limit` items where `limit` is not zero.
pub open spec fn page<T>(all: Seq<T>, offset: u64, limit: u64) -> Seq<T> {
    if all.len() < offset {
        Seq::empty()
    } else {
        let rest = all.skip(offset as int);
        if limit > 0 && rest.len() > limit {
            rest.take(limit as int)
        } else {
            rest
        }
    }
}

} // verus!

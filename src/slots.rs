//! The pool of user-plane slot indices, kept by `index_pool`.
use vstd::prelude::*;

use index_pool::IndexPool;

verus! {

#[verifier::external_type_specification]
#[verifier::external_body]
pub struct ExIndexPool(IndexPool);

/// The indices that a pool has handed out and not taken back.
pub uninterp spec fn pool_in_use(p: IndexPool) -> Set<usize>;

/// Relies on index_pool::IndexPool::new: an empty pool.
#[verifier::external_body]
pub(crate) fn pool_new() -> (r: IndexPool)
    ensures
        pool_in_use(r) == Set::<usize>::empty(),
{
    IndexPool::new()
}

/// Relies on index_pool::IndexPool::new_id: it takes the first index of the
/// first free range (the free list is ordered) or else the next unused index,
/// so the least index not in use. Its counters overflow only near usize::MAX.
#[verifier::external_body]
pub(crate) fn pool_new_id(p: &mut IndexPool) -> (r: usize)
    requires
        forall|i: usize| pool_in_use(*old(p)).contains(i) ==> i < 0x1_0000,
    ensures
        !pool_in_use(*old(p)).contains(r),
        forall|i: usize| i < r ==> pool_in_use(*old(p)).contains(i),
        pool_in_use(*final(p)) == pool_in_use(*old(p)).insert(r),
{
    p.new_id()
}

/// Relies on index_pool::IndexPool::request_id: it succeeds exactly when the
/// index is free, and then marks it used; it asserts that the index is below
/// usize::MAX.
#[verifier::external_body]
pub(crate) fn pool_request_id(p: &mut IndexPool, id: usize) -> (r: bool)
    requires
        id < usize::MAX,
    ensures
        r == !pool_in_use(*old(p)).contains(id),
        pool_in_use(*final(p)) == pool_in_use(*old(p)).insert(id),
{
    p.request_id(id).is_ok()
}

/// Relies on index_pool::IndexPool::return_id: it succeeds exactly when the
/// index is in use, and then frees it.
#[verifier::external_body]
pub(crate) fn pool_return_id(p: &mut IndexPool, id: usize) -> (r: bool)
    ensures
        r == pool_in_use(*old(p)).contains(id),
        pool_in_use(*final(p)) == pool_in_use(*old(p)).remove(id),
{
    p.return_id(id).is_ok()
}

} // verus!

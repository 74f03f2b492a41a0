//! Backend of every architecture that has none of its own: the atomic fences
//! of the language, which the compiler lowers for whatever the target is.

use vstd::prelude::*;
use crate::emission::{Emission, FenceOrder};

verus! {

/// Read barrier: the acquire fence.
#[inline(always)]
pub fn rmb_impl() -> (e: Emission)
    ensures
        e == Emission::AtomicFence(FenceOrder::Acquire),
{
    Emission::AtomicFence(FenceOrder::Acquire)
}

/// Write barrier: the release fence.
#[inline(always)]
pub fn wmb_impl() -> (e: Emission)
    ensures
        e == Emission::AtomicFence(FenceOrder::Release),
{
    Emission::AtomicFence(FenceOrder::Release)
}

/// Full barrier: the sequentially consistent fence.
#[inline(always)]
pub fn mb_impl() -> (e: Emission)
    ensures
        e == Emission::AtomicFence(FenceOrder::SeqCst),
{
    Emission::AtomicFence(FenceOrder::SeqCst)
}

/// Data-dependency barrier: nothing. Callers on this backend must not rely
/// on the order of dependent loads; the full barrier is what orders them.
#[inline(always)]
pub fn read_barrier_depends_impl() -> (e: Emission)
    ensures
        e == Emission::Nothing,
{
    Emission::Nothing
}

} // verus!

//! Backend of the x86 family, 32 and 64 bit.
//!
//! The hardware keeps loads in order with loads and stores in order with
//! stores, and keeps the order of dependent loads.

use vstd::prelude::*;
use crate::emission::{Emission, FenceOrder};

verus! {

/// Read barrier: the hardware already orders loads after loads, so only the
/// compiler is held back.
#[inline(always)]
pub fn rmb_impl() -> (e: Emission)
    ensures
        e == Emission::CompilerFence(FenceOrder::Acquire),
{
    Emission::CompilerFence(FenceOrder::Acquire)
}

/// Write barrier: the store fence, which also orders streaming stores.
#[inline(always)]
pub fn wmb_impl() -> (e: Emission)
    ensures
        e == Emission::Sfence,
{
    Emission::Sfence
}

/// Full barrier: the full fence.
#[inline(always)]
pub fn mb_impl() -> (e: Emission)
    ensures
        e == Emission::Mfence,
{
    Emission::Mfence
}

/// Data-dependency barrier: nothing, the hardware keeps dependent loads in order.
#[inline(always)]
pub fn read_barrier_depends_impl() -> (e: Emission)
    ensures
        e == Emission::Nothing,
{
    Emission::Nothing
}

} // verus!

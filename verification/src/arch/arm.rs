//! Backend of the 32-bit ARM family.
//!
//! Cores that have the `dmb` instruction use it; older cores reach the same
//! barriers through coprocessor 15, where every barrier is a full one.

use vstd::prelude::*;
use crate::emission::{Emission, FenceOrder};

verus! {

/// Read barrier: `dmb ld`, or the coprocessor's data memory barrier on a
/// core without `dmb`.
#[inline(always)]
pub fn rmb_impl(dmb: bool) -> (e: Emission)
    ensures
        e == if dmb { Emission::DmbLd } else { Emission::Cp15Dmb },
{
    if dmb {
        Emission::DmbLd
    } else {
        Emission::Cp15Dmb
    }
}

/// Write barrier: `dmb st`, or the coprocessor's data synchronization barrier
/// on a core without `dmb`.
#[inline(always)]
pub fn wmb_impl(dmb: bool) -> (e: Emission)
    ensures
        e == if dmb { Emission::DmbSt } else { Emission::Cp15Dsb },
{
    if dmb {
        Emission::DmbSt
    } else {
        Emission::Cp15Dsb
    }
}

/// Full barrier: `dmb sy`, or the coprocessor's data memory barrier on a core
/// without `dmb`.
#[inline(always)]
pub fn mb_impl(dmb: bool) -> (e: Emission)
    ensures
        e == if dmb { Emission::DmbSy } else { Emission::Cp15Dmb },
{
    if dmb {
        Emission::DmbSy
    } else {
        Emission::Cp15Dmb
    }
}

/// Data-dependency barrier: a light acquire fence. The hardware mostly keeps
/// dependent loads in order, but does not promise it.
#[inline(always)]
pub fn read_barrier_depends_impl() -> (e: Emission)
    ensures
        e == Emission::AtomicFence(FenceOrder::Acquire),
{
    Emission::AtomicFence(FenceOrder::Acquire)
}

} // verus!

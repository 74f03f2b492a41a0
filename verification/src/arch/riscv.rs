//! Backend of the RISC-V family, 32 and 64 bit: the `fence` instruction with
//! its predecessor and successor sets.

use vstd::prelude::*;
use crate::emission::Emission;

verus! {

/// Read barrier: `fence r,r`.
#[inline(always)]
pub fn rmb_impl() -> (e: Emission)
    ensures
        e == Emission::FenceRR,
{
    Emission::FenceRR
}

/// Write barrier: `fence w,w`.
#[inline(always)]
pub fn wmb_impl() -> (e: Emission)
    ensures
        e == Emission::FenceWW,
{
    Emission::FenceWW
}

/// Full barrier: `fence rw,rw`.
#[inline(always)]
pub fn mb_impl() -> (e: Emission)
    ensures
        e == Emission::FenceRwRw,
{
    Emission::FenceRwRw
}

/// Data-dependency barrier: `fence r,r`. The memory model is relaxed, so the
/// order of dependent loads needs an instruction.
#[inline(always)]
pub fn read_barrier_depends_impl() -> (e: Emission)
    ensures
        e == Emission::FenceRR,
{
    Emission::FenceRR
}

} // verus!

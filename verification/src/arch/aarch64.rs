//! Backend of the 64-bit ARM family: data synchronization barriers.

use vstd::prelude::*;
use crate::emission::Emission;

verus! {

/// Read barrier: `dsb` restricted to loads.
#[inline(always)]
pub fn rmb_impl() -> (e: Emission)
    ensures
        e == Emission::DsbLd,
{
    Emission::DsbLd
}

/// Write barrier: `dsb` restricted to stores.
#[inline(always)]
pub fn wmb_impl() -> (e: Emission)
    ensures
        e == Emission::DsbSt,
{
    Emission::DsbSt
}

/// Full barrier: `dsb` over the full system.
#[inline(always)]
pub fn mb_impl() -> (e: Emission)
    ensures
        e == Emission::DsbSy,
{
    Emission::DsbSy
}

/// Data-dependency barrier: this family has no separate one, the read barrier
/// stands in for it.
#[inline(always)]
pub fn read_barrier_depends_impl() -> (e: Emission)
    ensures
        e == Emission::DsbLd,
{
    rmb_impl()
}

} // verus!

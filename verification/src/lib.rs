//! Portable memory barriers.
//!
//! A barrier constrains the order in which the memory accesses of the calling
//! core take effect. Each operation of this crate stands for one slot of the
//! backend that the build was made for. [`arch`] holds the table of what
//! every architecture family emits in every slot, [`dispatch`] the rule that
//! leads from an operation to its emission, [`effect`] what an emission
//! orders, and [`message_passing`] the guarantee that the barriers exist for.
//!
//! The functions of this file run the generic backend, whose emissions are
//! fences of the language and need no machine instruction of a particular
//! architecture.

use vstd::prelude::*;

pub mod arch;
pub mod dispatch;
pub mod effect;
pub mod emission;
pub mod message_passing;

pub use crate::arch::generic::{mb_impl, read_barrier_depends_impl, rmb_impl, wmb_impl};
use crate::arch::Arch;
use crate::dispatch::{Operation, Target};
use crate::emission::issue;

verus! {

/// The backend that the functions of this file run.
pub const BACKEND: Arch = Arch::Generic;

/// Whether the functions of this file are built for more than one processor.
pub const SMP: bool = true;

/// Issues what `op` emits on the target of this file.
#[inline(always)]
fn perform(op: Operation) {
    let target = Target { arch: BACKEND, smp: SMP };
    issue(target.plan(op))
}

/// Read memory barrier: the loads before it take effect before the loads
/// after it.
#[inline(always)]
pub fn rmb() {
    perform(Operation::Rmb)
}

/// Write memory barrier: the stores before it take effect before the stores
/// after it.
#[inline(always)]
pub fn wmb() {
    perform(Operation::Wmb)
}

/// Full memory barrier: every access before it takes effect before every
/// access after it.
#[inline(always)]
pub fn mb() {
    perform(Operation::Mb)
}

/// Read barrier between processors: [`rmb`] where several processors run, a
/// compiler fence where one does.
#[inline(always)]
pub fn smp_rmb() {
    perform(Operation::SmpRmb)
}

/// Write barrier between processors: [`wmb`] where several processors run, a
/// compiler fence where one does.
#[inline(always)]
pub fn smp_wmb() {
    perform(Operation::SmpWmb)
}

/// Full barrier between processors: [`mb`] where several processors run, a
/// compiler fence where one does.
#[inline(always)]
pub fn smp_mb() {
    perform(Operation::SmpMb)
}

/// Read barrier before a condition whose inputs another processor may
/// change: the same as [`rmb`].
#[inline(always)]
pub fn rmb_before_conditional() {
    perform(Operation::RmbBeforeConditional)
}

/// Data-dependency barrier: orders a load before the loads whose address
/// depends on it, on the backends that have such a barrier.
#[inline(always)]
pub fn read_barrier_depends() {
    perform(Operation::ReadBarrierDepends)
}

/// Data-dependency barrier between processors: [`read_barrier_depends`]
/// where several processors run, nothing where one does.
#[inline(always)]
pub fn smp_read_barrier_depends() {
    perform(Operation::SmpReadBarrierDepends)
}

} // verus!

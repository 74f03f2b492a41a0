//! From an operation of the public surface and the target of the build to
//! the emission at the call site.

use vstd::prelude::*;
use crate::arch::{Arch, Barrier};
use crate::emission::{Emission, FenceOrder};

verus! {

/// The operations of the public surface.
#[derive(Clone, Copy, Debug, PartialEq, Eq, Structural)]
pub enum Operation {
    /// Read barrier.
    Rmb,
    /// Write barrier.
    Wmb,
    /// Full barrier.
    Mb,
    /// Read barrier where several processors run.
    SmpRmb,
    /// Write barrier where several processors run.
    SmpWmb,
    /// Full barrier where several processors run.
    SmpMb,
    /// Data-dependency barrier.
    ReadBarrierDepends,
    /// Data-dependency barrier where several processors run.
    SmpReadBarrierDepends,
    /// Read barrier before a condition that another processor may change.
    RmbBeforeConditional,
}

impl Operation {
    /// The backend slot that the operation stands for.
    pub open spec fn barrier(self) -> Barrier {
        match self {
            Operation::Rmb | Operation::SmpRmb | Operation::RmbBeforeConditional => Barrier::Read,
            Operation::Wmb | Operation::SmpWmb => Barrier::Write,
            Operation::Mb | Operation::SmpMb => Barrier::Full,
            Operation::ReadBarrierDepends | Operation::SmpReadBarrierDepends => {
                Barrier::DataDependency
            },
        }
    }

    /// The operation gives way to a compiler fence where only one processor
    /// runs.
    pub open spec fn smp_aware(self) -> bool {
        self is SmpRmb || self is SmpWmb || self is SmpMb || self is SmpReadBarrierDepends
    }

    /// Computes [`Operation::barrier`].
    #[inline(always)]
    pub fn slot(&self) -> (b: Barrier)
        ensures
            b == self.barrier(),
    {
        match self {
            Operation::Rmb => Barrier::Read,
            Operation::SmpRmb => Barrier::Read,
            Operation::RmbBeforeConditional => Barrier::Read,
            Operation::Wmb => Barrier::Write,
            Operation::SmpWmb => Barrier::Write,
            Operation::Mb => Barrier::Full,
            Operation::SmpMb => Barrier::Full,
            Operation::ReadBarrierDepends => Barrier::DataDependency,
            Operation::SmpReadBarrierDepends => Barrier::DataDependency,
        }
    }

    /// Computes [`Operation::smp_aware`].
    #[inline(always)]
    pub fn is_smp_aware(&self) -> (b: bool)
        ensures
            b == self.smp_aware(),
    {
        match self {
            Operation::SmpRmb => true,
            Operation::SmpWmb => true,
            Operation::SmpMb => true,
            Operation::SmpReadBarrierDepends => true,
            _ => false,
        }
    }
}

/// What a slot comes down to where only one processor runs: a core always
/// sees its own accesses in program order, so only the compiler is held back,
/// in the direction of the slot; dependent loads need nothing at all.
pub open spec fn uniprocessor(barrier: Barrier) -> Emission {
    match barrier {
        Barrier::Read => Emission::CompilerFence(FenceOrder::Acquire),
        Barrier::Write => Emission::CompilerFence(FenceOrder::Release),
        Barrier::Full => Emission::CompilerFence(FenceOrder::SeqCst),
        Barrier::DataDependency => Emission::Nothing,
    }
}

/// Computes [`uniprocessor`].
#[inline(always)]
pub fn uniprocessor_fence(barrier: Barrier) -> (e: Emission)
    ensures
        e == uniprocessor(barrier),
{
    match barrier {
        Barrier::Read => Emission::CompilerFence(FenceOrder::Acquire),
        Barrier::Write => Emission::CompilerFence(FenceOrder::Release),
        Barrier::Full => Emission::CompilerFence(FenceOrder::SeqCst),
        Barrier::DataDependency => Emission::Nothing,
    }
}

/// What a build is made for. Both parts are fixed before the first barrier
/// runs and never change.
#[derive(Clone, Copy, Debug, PartialEq, Eq, Structural)]
pub struct Target {
    /// The architecture family, which selects the backend.
    pub arch: Arch,
    /// Whether more than one processor may share the memory.
    pub smp: bool,
}

impl Target {
    /// What the operation emits on this target.
    pub open spec fn emits(self, op: Operation) -> Emission {
        match op {
            Operation::Rmb => self.arch.emits(Barrier::Read),
            Operation::Wmb => self.arch.emits(Barrier::Write),
            Operation::Mb => self.arch.emits(Barrier::Full),
            Operation::SmpRmb => if self.smp {
                self.arch.emits(Barrier::Read)
            } else {
                Emission::CompilerFence(FenceOrder::Acquire)
            },
            Operation::SmpWmb => if self.smp {
                self.arch.emits(Barrier::Write)
            } else {
                Emission::CompilerFence(FenceOrder::Release)
            },
            Operation::SmpMb => if self.smp {
                self.arch.emits(Barrier::Full)
            } else {
                Emission::CompilerFence(FenceOrder::SeqCst)
            },
            Operation::ReadBarrierDepends => self.arch.emits(Barrier::DataDependency),
            Operation::SmpReadBarrierDepends => if self.smp {
                self.arch.emits(Barrier::DataDependency)
            } else {
                Emission::Nothing
            },
            Operation::RmbBeforeConditional => self.arch.emits(Barrier::Read),
        }
    }

    /// Decides what the operation emits on this target.
    #[inline(always)]
    pub fn plan(&self, op: Operation) -> (e: Emission)
        ensures
            e == self.emits(op),
    {
        let barrier = op.slot();
        if op.is_smp_aware() && !self.smp {
            uniprocessor_fence(barrier)
        } else {
            self.arch.select(barrier)
        }
    }
}

/// A plain operation emits the entry of its slot in the backend's table,
/// whatever the number of processors; the read barrier before a condition
/// emits what the read barrier emits.
pub proof fn plain_operation_follows_table(target: Target, op: Operation)
    requires
        !op.smp_aware(),
    ensures
        target.emits(op) == target.arch.emits(op.barrier()),
        target.emits(Operation::RmbBeforeConditional) == target.emits(Operation::Rmb),
{
}

/// Built for several processors, each processor-aware operation emits what
/// the plain operation of its slot emits.
pub proof fn smp_build_matches_plain(target: Target)
    requires
        target.smp,
    ensures
        target.emits(Operation::SmpRmb) == target.emits(Operation::Rmb),
        target.emits(Operation::SmpWmb) == target.emits(Operation::Wmb),
        target.emits(Operation::SmpMb) == target.emits(Operation::Mb),
        target.emits(Operation::SmpReadBarrierDepends) == target.emits(
            Operation::ReadBarrierDepends,
        ),
{
}

/// Built for one processor, a processor-aware operation never emits a fence
/// instruction: it emits the compiler fence in the direction of its slot, and
/// nothing for dependent loads.
pub proof fn uniprocessor_build_spares_hardware(target: Target, op: Operation)
    requires
        !target.smp,
        op.smp_aware(),
    ensures
        target.emits(op) == uniprocessor(op.barrier()),
        target.emits(op).compiler_only(),
{
}

/// Where the backend fills the data-dependency slot with nothing, the two
/// data-dependency operations are there all the same, can be issued on every
/// target, and emit nothing.
pub proof fn empty_dependency_slot_stays_callable(target: Target)
    requires
        target.arch.emits(Barrier::DataDependency) is Nothing,
    ensures
        target.emits(Operation::ReadBarrierDepends) is Nothing,
        target.emits(Operation::SmpReadBarrierDepends) is Nothing,
        target.emits(Operation::ReadBarrierDepends).portable(),
        target.emits(Operation::SmpReadBarrierDepends).portable(),
{
}

/// Every operation can be carried out on every target: what it emits is
/// portable or belongs to the instruction set of the target's architecture.
pub proof fn operation_stays_in_family(target: Target, op: Operation)
    ensures
        target.emits(op).available_on(target.arch),
{
}

/// On the generic backend every operation is portable, whatever the number
/// of processors.
pub proof fn generic_backend_is_portable(smp: bool, op: Operation)
    ensures
        (Target { arch: Arch::Generic, smp }).emits(op).portable(),
{
}

} // verus!

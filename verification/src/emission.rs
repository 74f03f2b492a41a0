//! What a barrier slot emits: nothing, a fence of the language, or one machine
//! instruction; and the issuing of the emissions that need no machine instruction.

use vstd::prelude::*;
use core::sync::atomic::Ordering;
use crate::arch::Arch;

verus! {

/// Direction of a fence of the language.
#[derive(Clone, Copy, Debug, PartialEq, Eq, Structural)]
pub enum FenceOrder {
    /// Accesses after the fence stay after the loads before it.
    Acquire,
    /// Accesses before the fence stay before the stores after it.
    Release,
    /// Every access before the fence stays before every access after it.
    SeqCst,
}

/// What one barrier slot of one backend emits at the call site.
#[derive(Clone, Copy, Debug, PartialEq, Eq, Structural)]
pub enum Emission {
    /// No code at all.
    Nothing,
    /// A directive to the compiler only; no machine instruction.
    CompilerFence(FenceOrder),
    /// The atomic fence of the language, lowered by the compiler for the target.
    AtomicFence(FenceOrder),
    /// x86 `sfence`.
    Sfence,
    /// x86 `mfence`.
    Mfence,
    /// AArch64 `dsb ld`.
    DsbLd,
    /// AArch64 `dsb st`.
    DsbSt,
    /// AArch64 `dsb sy`.
    DsbSy,
    /// ARM `dmb ld`.
    DmbLd,
    /// ARM `dmb st`.
    DmbSt,
    /// ARM `dmb sy`.
    DmbSy,
    /// ARM `mcr p15, 0, r, c7, c10, 5`: the data memory barrier of cores without `dmb`.
    Cp15Dmb,
    /// ARM `mcr p15, 0, r, c7, c10, 4`: the data synchronization barrier of cores without `dmb`.
    Cp15Dsb,
    /// RISC-V `fence r,r`.
    FenceRR,
    /// RISC-V `fence w,w`.
    FenceWW,
    /// RISC-V `fence rw,rw`.
    FenceRwRw,
}

impl Emission {
    /// The emission needs no machine instruction of a particular architecture:
    /// it can be issued on every target.
    pub open spec fn portable(self) -> bool {
        self is Nothing || self is CompilerFence || self is AtomicFence
    }

    /// The emission constrains the compiler at most: no fence instruction
    /// reaches the hardware.
    pub open spec fn compiler_only(self) -> bool {
        self is Nothing || self is CompilerFence
    }

    /// The instruction set that the emission belongs to: a portable emission
    /// is at home everywhere, a machine instruction in its own family only.
    pub open spec fn available_on(self, arch: Arch) -> bool {
        match self {
            Emission::Nothing => true,
            Emission::CompilerFence(_) => true,
            Emission::AtomicFence(_) => true,
            Emission::Sfence => arch is X86,
            Emission::Mfence => arch is X86,
            Emission::DsbLd => arch is Aarch64,
            Emission::DsbSt => arch is Aarch64,
            Emission::DsbSy => arch is Aarch64,
            Emission::DmbLd => arch == (Arch::Arm { dmb: true }),
            Emission::DmbSt => arch == (Arch::Arm { dmb: true }),
            Emission::DmbSy => arch == (Arch::Arm { dmb: true }),
            Emission::Cp15Dmb => arch is Arm,
            Emission::Cp15Dsb => arch is Arm,
            Emission::FenceRR => arch is RiscV,
            Emission::FenceWW => arch is RiscV,
            Emission::FenceRwRw => arch is RiscV,
        }
    }

    /// Tells whether [`issue`] accepts the emission.
    #[inline(always)]
    pub fn is_portable(&self) -> (b: bool)
        ensures
            b == self.portable(),
    {
        match self {
            Emission::Nothing => true,
            Emission::CompilerFence(_) => true,
            Emission::AtomicFence(_) => true,
            _ => false,
        }
    }

    /// Tells whether the emission leaves the hardware alone.
    #[inline(always)]
    pub fn is_compiler_only(&self) -> (b: bool)
        ensures
            b == self.compiler_only(),
    {
        match self {
            Emission::Nothing => true,
            Emission::CompilerFence(_) => true,
            _ => false,
        }
    }
}

/// `core::sync::atomic::fence`: returns for every order but `Relaxed`, on which
/// it panics. Nothing is claimed of its effect on memory.
pub assume_specification[ core::sync::atomic::fence ](order: Ordering)
    requires
        !(order is Relaxed),
;

/// `core::sync::atomic::compiler_fence`: returns for every order but `Relaxed`,
/// on which it panics. Nothing is claimed of its effect on memory.
pub assume_specification[ core::sync::atomic::compiler_fence ](order: Ordering)
    requires
        !(order is Relaxed),
;

/// The order of the language that a fence of the given direction takes.
#[inline(always)]
fn atomic_order(order: FenceOrder) -> (o: Ordering)
    ensures
        o == match order {
            FenceOrder::Acquire => Ordering::Acquire,
            FenceOrder::Release => Ordering::Release,
            FenceOrder::SeqCst => Ordering::SeqCst,
        },
{
    match order {
        FenceOrder::Acquire => Ordering::Acquire,
        FenceOrder::Release => Ordering::Release,
        FenceOrder::SeqCst => Ordering::SeqCst,
    }
}

/// Issues a portable emission on the calling core: nothing, the compiler
/// fence, or the atomic fence of the given order.
///
/// A machine instruction is not portable and has to be issued by the code
/// that was built for its architecture.
#[inline(always)]
pub fn issue(e: Emission)
    requires
        e.portable(),
{
    match e {
        Emission::Nothing => {},
        Emission::CompilerFence(order) => core::sync::atomic::compiler_fence(atomic_order(order)),
        Emission::AtomicFence(order) => core::sync::atomic::fence(atomic_order(order)),
        _ => unreached(),
    }
}

} // verus!

//! The architecture families and the table of what each emits in each
//! barrier slot.

use vstd::prelude::*;
use vstd::string::StrSliceExecFns;
use crate::emission::{Emission, FenceOrder};

pub mod aarch64;
pub mod arm;
pub mod generic;
pub mod riscv;
pub mod x86;

verus! {

/// An architecture family. Exactly one is chosen for a build.
#[derive(Clone, Copy, Debug, PartialEq, Eq, Structural)]
pub enum Arch {
    /// x86 and x86-64: strongly ordered.
    X86,
    /// 64-bit ARM: weakly ordered.
    Aarch64,
    /// 32-bit ARM: weakly ordered. `dmb` tells whether the core has the
    /// `dmb` instruction.
    Arm { dmb: bool },
    /// RISC-V, 32 and 64 bit: weakly ordered.
    RiscV,
    /// Any other architecture.
    Generic,
}

/// The slots that every backend fills.
#[derive(Clone, Copy, Debug, PartialEq, Eq, Structural)]
pub enum Barrier {
    /// Loads before the barrier come before loads after it.
    Read,
    /// Stores before the barrier come before stores after it.
    Write,
    /// Every access before the barrier comes before every access after it.
    Full,
    /// A load comes before the loads whose address depends on it.
    DataDependency,
}

/// Tells whether two strings hold the same text.
fn same_text(a: &str, b: &str) -> (same: bool)
    ensures
        same == (a@ == b@),
{
    let n: usize = a.unicode_len();
    if n != b.unicode_len() {
        return false;
    }
    let mut i: usize = 0;
    while i < n
        invariant
            i <= n,
            n == a@.len(),
            n == b@.len(),
            forall|k: int| 0 <= k < i ==> a@[k] == b@[k],
        decreases n - i,
    {
        if a.get_char(i) != b.get_char(i) {
            return false;
        }
        i = i + 1;
    }
    assert(a@ =~= b@);
    true
}

impl Arch {
    /// The family that a target architecture of the given name belongs to.
    /// A name that no backend was written for belongs to the generic family.
    pub open spec fn family(name: Seq<char>, dmb: bool) -> Arch {
        if name == "x86"@ || name == "x86_64"@ {
            Arch::X86
        } else if name == "aarch64"@ {
            Arch::Aarch64
        } else if name == "arm"@ {
            Arch::Arm { dmb }
        } else if name == "riscv32"@ || name == "riscv64"@ {
            Arch::RiscV
        } else {
            Arch::Generic
        }
    }

    /// Selects the family for the target architecture `name`, as the build
    /// names it. `dmb` tells whether the core has the `dmb` instruction and
    /// matters for 32-bit ARM only. Every name is answered: one that no
    /// backend was written for gets the generic family.
    pub fn for_target(name: &str, dmb: bool) -> (arch: Arch)
        ensures
            arch == Arch::family(name@, dmb),
    {
        if same_text(name, "x86") || same_text(name, "x86_64") {
            Arch::X86
        } else if same_text(name, "aarch64") {
            Arch::Aarch64
        } else if same_text(name, "arm") {
            Arch::Arm { dmb }
        } else if same_text(name, "riscv32") || same_text(name, "riscv64") {
            Arch::RiscV
        } else {
            Arch::Generic
        }
    }

    /// The table: what this family emits in the given slot.
    pub open spec fn emits(self, barrier: Barrier) -> Emission {
        match (self, barrier) {
            (Arch::X86, Barrier::Read) => Emission::CompilerFence(FenceOrder::Acquire),
            (Arch::X86, Barrier::Write) => Emission::Sfence,
            (Arch::X86, Barrier::Full) => Emission::Mfence,
            (Arch::X86, Barrier::DataDependency) => Emission::Nothing,
            (Arch::Aarch64, Barrier::Read) => Emission::DsbLd,
            (Arch::Aarch64, Barrier::Write) => Emission::DsbSt,
            (Arch::Aarch64, Barrier::Full) => Emission::DsbSy,
            (Arch::Aarch64, Barrier::DataDependency) => Emission::DsbLd,
            (Arch::Arm { dmb: true }, Barrier::Read) => Emission::DmbLd,
            (Arch::Arm { dmb: true }, Barrier::Write) => Emission::DmbSt,
            (Arch::Arm { dmb: true }, Barrier::Full) => Emission::DmbSy,
            (Arch::Arm { dmb: false }, Barrier::Read) => Emission::Cp15Dmb,
            (Arch::Arm { dmb: false }, Barrier::Write) => Emission::Cp15Dsb,
            (Arch::Arm { dmb: false }, Barrier::Full) => Emission::Cp15Dmb,
            (Arch::Arm { .. }, Barrier::DataDependency) => Emission::AtomicFence(
                FenceOrder::Acquire,
            ),
            (Arch::RiscV, Barrier::Read) => Emission::FenceRR,
            (Arch::RiscV, Barrier::Write) => Emission::FenceWW,
            (Arch::RiscV, Barrier::Full) => Emission::FenceRwRw,
            (Arch::RiscV, Barrier::DataDependency) => Emission::FenceRR,
            (Arch::Generic, Barrier::Read) => Emission::AtomicFence(FenceOrder::Acquire),
            (Arch::Generic, Barrier::Write) => Emission::AtomicFence(FenceOrder::Release),
            (Arch::Generic, Barrier::Full) => Emission::AtomicFence(FenceOrder::SeqCst),
            (Arch::Generic, Barrier::DataDependency) => Emission::Nothing,
        }
    }

    /// Looks the slot up in the backend of this family.
    #[inline(always)]
    pub fn select(self, barrier: Barrier) -> (e: Emission)
        ensures
            e == self.emits(barrier),
    {
        match self {
            Arch::X86 => match barrier {
                Barrier::Read => x86::rmb_impl(),
                Barrier::Write => x86::wmb_impl(),
                Barrier::Full => x86::mb_impl(),
                Barrier::DataDependency => x86::read_barrier_depends_impl(),
            },
            Arch::Aarch64 => match barrier {
                Barrier::Read => aarch64::rmb_impl(),
                Barrier::Write => aarch64::wmb_impl(),
                Barrier::Full => aarch64::mb_impl(),
                Barrier::DataDependency => aarch64::read_barrier_depends_impl(),
            },
            Arch::Arm { dmb } => match barrier {
                Barrier::Read => arm::rmb_impl(dmb),
                Barrier::Write => arm::wmb_impl(dmb),
                Barrier::Full => arm::mb_impl(dmb),
                Barrier::DataDependency => arm::read_barrier_depends_impl(),
            },
            Arch::RiscV => match barrier {
                Barrier::Read => riscv::rmb_impl(),
                Barrier::Write => riscv::wmb_impl(),
                Barrier::Full => riscv::mb_impl(),
                Barrier::DataDependency => riscv::read_barrier_depends_impl(),
            },
            Arch::Generic => match barrier {
                Barrier::Read => generic::rmb_impl(),
                Barrier::Write => generic::wmb_impl(),
                Barrier::Full => generic::mb_impl(),
                Barrier::DataDependency => generic::read_barrier_depends_impl(),
            },
        }
    }
}

/// Every backend stays within its own instruction set: no slot of one
/// family emits a machine instruction of another.
pub proof fn backend_stays_in_family(arch: Arch, barrier: Barrier)
    ensures
        arch.emits(barrier).available_on(arch),
{
}

} // verus!

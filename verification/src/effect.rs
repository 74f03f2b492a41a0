//! What an emission orders.
//!
//! An emission stands between the accesses that its core makes before it and
//! those it makes after it. It orders an earlier and a later access when the
//! earlier one takes effect first for every observer: the compiler must not
//! move one across the other, and the hardware must not either. The hardware
//! of some families keeps some pairs in order by itself.

use vstd::prelude::*;
use crate::arch::{Arch, Barrier};
use crate::emission::{Emission, FenceOrder};

verus! {

/// The two kinds of memory access.
#[derive(Clone, Copy, Debug, PartialEq, Eq, Structural)]
pub enum Access {
    Load,
    Store,
}

impl FenceOrder {
    /// The pairs that a fence of this order keeps in order.
    pub open spec fn orders(self, earlier: Access, later: Access) -> bool {
        match self {
            FenceOrder::Acquire => earlier is Load,
            FenceOrder::Release => later is Store,
            FenceOrder::SeqCst => true,
        }
    }
}

impl Emission {
    /// The pairs that the compiler will not reorder across the emission. A
    /// machine instruction is opaque to the compiler, which moves no access
    /// across it.
    pub open spec fn holds_compiler(self, earlier: Access, later: Access) -> bool {
        match self {
            Emission::Nothing => false,
            Emission::CompilerFence(order) => order.orders(earlier, later),
            Emission::AtomicFence(order) => order.orders(earlier, later),
            _ => true,
        }
    }

    /// The pairs that the hardware will not reorder across the emission.
    pub open spec fn holds_hardware(self, earlier: Access, later: Access) -> bool {
        match self {
            Emission::Nothing => false,
            Emission::CompilerFence(_) => false,
            Emission::AtomicFence(order) => order.orders(earlier, later),
            Emission::Sfence => earlier is Store && later is Store,
            Emission::Mfence => true,
            Emission::DsbLd => earlier is Load,
            Emission::DsbSt => earlier is Store && later is Store,
            Emission::DsbSy => true,
            Emission::DmbLd => earlier is Load,
            Emission::DmbSt => earlier is Store && later is Store,
            Emission::DmbSy => true,
            Emission::Cp15Dmb => true,
            Emission::Cp15Dsb => true,
            Emission::FenceRR => earlier is Load && later is Load,
            Emission::FenceWW => earlier is Store && later is Store,
            Emission::FenceRwRw => true,
        }
    }
}

impl Arch {
    /// The pairs that the hardware of this family keeps in order without any
    /// barrier. The strongly ordered family lets only a load overtake an
    /// earlier store; of the others nothing is relied on.
    pub open spec fn keeps(self, earlier: Access, later: Access) -> bool {
        match self {
            Arch::X86 => !(earlier is Store && later is Load),
            _ => false,
        }
    }
}

/// `e`, issued on `arch` between an earlier and a later access, makes the
/// earlier one take effect first for every observer.
pub open spec fn orders(arch: Arch, e: Emission, earlier: Access, later: Access) -> bool {
    e.holds_compiler(earlier, later) && (e.holds_hardware(earlier, later) || arch.keeps(
        earlier,
        later,
    ))
}

/// `e`, issued on `arch` between a load and a load whose address depends on
/// it, makes the first one take effect first. The compiler cannot move a load
/// above the load that gives its address, so only the hardware matters.
pub open spec fn orders_dependent_loads(arch: Arch, e: Emission) -> bool {
    e.holds_hardware(Access::Load, Access::Load) || arch.keeps(Access::Load, Access::Load)
}

/// A run of emissions with no access between them orders a pair when one of
/// them does.
pub open spec fn run_orders(
    arch: Arch,
    run: Seq<Emission>,
    earlier: Access,
    later: Access,
) -> bool {
    exists|k: int| 0 <= k < run.len() && orders(arch, #[trigger] run[k], earlier, later)
}

/// A run of emissions orders dependent loads when one of them does.
pub open spec fn run_orders_dependent_loads(arch: Arch, run: Seq<Emission>) -> bool {
    exists|k: int| 0 <= k < run.len() && orders_dependent_loads(arch, #[trigger] run[k])
}

/// On every architecture the read barrier orders loads with loads.
pub proof fn read_barrier_orders_loads(arch: Arch)
    ensures
        orders(arch, arch.emits(Barrier::Read), Access::Load, Access::Load),
{
}

/// On every architecture the write barrier orders stores with stores.
pub proof fn write_barrier_orders_stores(arch: Arch)
    ensures
        orders(arch, arch.emits(Barrier::Write), Access::Store, Access::Store),
{
}

/// On every architecture the full barrier orders every pair of accesses, and
/// so whatever another slot of the same backend orders.
pub proof fn full_barrier_orders_everything(arch: Arch, earlier: Access, later: Access)
    ensures
        orders(arch, arch.emits(Barrier::Full), earlier, later),
{
}

/// On every architecture with a backend of its own, the data-dependency
/// barrier orders dependent loads. The generic backend promises nothing of
/// them.
pub proof fn dependency_barrier_orders_dependent_loads(arch: Arch)
    requires
        arch != Arch::Generic,
    ensures
        orders_dependent_loads(arch, arch.emits(Barrier::DataDependency)),
{
}

/// An emission that is nothing orders nothing: where the data-dependency
/// barrier is a no-op, calling it has no effect.
pub proof fn nothing_orders_nothing(arch: Arch, earlier: Access, later: Access)
    ensures
        !orders(arch, Emission::Nothing, earlier, later),
        !run_orders(arch, seq![Emission::Nothing], earlier, later),
{
}

/// Issuing an emission `n` times in a row, `n` at least one, orders exactly
/// what issuing it once orders.
pub proof fn repetition_orders_the_same(
    arch: Arch,
    e: Emission,
    n: nat,
    earlier: Access,
    later: Access,
)
    requires
        n >= 1,
    ensures
        run_orders(arch, Seq::new(n, |k: int| e), earlier, later) == orders(
            arch,
            e,
            earlier,
            later,
        ),
        run_orders_dependent_loads(arch, Seq::new(n, |k: int| e)) == orders_dependent_loads(
            arch,
            e,
        ),
{
    let run = Seq::new(n, |k: int| e);
    assert(run[0] == e);
}

} // verus!

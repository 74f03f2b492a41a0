//! The pattern that the barriers exist for: one core stores a value, issues
//! a write barrier and sets a flag; another core sees the flag set, issues a
//! read barrier and loads the value.
//!
//! A run of a core is its program together with the instant at which each of
//! its accesses takes effect for every observer. A load returns the value of
//! the last store to its location that took effect before it.

use vstd::prelude::*;
use crate::arch::{Arch, Barrier};
use crate::dispatch::{Operation, Target};
use crate::effect::{orders, Access};
use crate::emission::Emission;

verus! {

/// One step of a core's program.
pub enum Step {
    /// A load from a location.
    Load { loc: nat },
    /// A store of a value to a location.
    Store { loc: nat, val: int },
    /// A barrier, by what it emits.
    Barrier(Emission),
}

impl Step {
    /// The kind of access that the step makes, if it makes one.
    pub open spec fn access(self) -> Option<Access> {
        match self {
            Step::Load { .. } => Some(Access::Load),
            Step::Store { .. } => Some(Access::Store),
            Step::Barrier(_) => None,
        }
    }

    /// The step is a store to `loc`.
    pub open spec fn stores_to(self, loc: nat) -> bool {
        self matches Step::Store { loc: l, .. } && l == loc
    }

    /// The step is a barrier that orders the access `earlier` with the
    /// access `later` on `arch`.
    pub open spec fn separates(self, arch: Arch, earlier: Step, later: Step) -> bool {
        match (self, earlier.access(), later.access()) {
            (Step::Barrier(e), Some(a), Some(b)) => orders(arch, e, a, b),
            _ => false,
        }
    }
}

/// A run of one core: its program and, step by step, the instant at which
/// the access of that step takes effect.
pub struct Run {
    pub program: Seq<Step>,
    pub at: Seq<int>,
}

impl Run {
    /// Between the steps `i` and `j` stands a barrier that orders them.
    pub open spec fn fenced(self, arch: Arch, i: int, j: int) -> bool {
        exists|k: int|
            i < k < j && (#[trigger] self.program[k]).separates(
                arch,
                self.program[i],
                self.program[j],
            )
    }

    /// The run keeps what its barriers order: of two accesses with such a
    /// barrier between them, the earlier takes effect first. Nothing else is
    /// promised of the instants.
    pub open spec fn respects(self, arch: Arch) -> bool {
        &&& self.at.len() == self.program.len()
        &&& forall|i: int, j: int|
            0 <= i < j < self.program.len() && #[trigger] self.fenced(arch, i, j) ==> self.at[i]
                < self.at[j]
    }

    /// A load of `loc` that takes effect at the instant `t` may return `v`:
    /// `v` is what the last store of this run to `loc` before `t` stored, or
    /// it is the initial value and no store to `loc` took effect before `t`.
    pub open spec fn shows(self, loc: nat, t: int, initial: int, v: int) -> bool {
        ||| v == initial && forall|i: int|
            0 <= i < self.program.len() && (#[trigger] self.program[i]).stores_to(loc)
                ==> self.at[i] >= t
        ||| exists|i: int|
            0 <= i < self.program.len() && #[trigger] self.program[i] == (Step::Store {
                loc,
                val: v,
            }) && self.at[i] < t && forall|j: int|
                0 <= j < self.program.len() && (#[trigger] self.program[j]).stores_to(loc)
                    && self.at[j] < t ==> self.at[j] <= self.at[i]
    }
}

/// The location of the value that is handed over.
pub open spec fn data() -> nat {
    0
}

/// The location of the flag, which is 0 at first and 1 once set.
pub open spec fn flag() -> nat {
    1
}

/// The producer's program: store the value, barrier, set the flag.
pub open spec fn producer(v: int, between: Emission) -> Seq<Step> {
    seq![
        Step::Store { loc: data(), val: v },
        Step::Barrier(between),
        Step::Store { loc: flag(), val: 1 },
    ]
}

/// The consumer's program from the load that sees the flag: load the flag,
/// barrier, load the value.
pub open spec fn consumer(between: Emission) -> Seq<Step> {
    seq![Step::Load { loc: flag() }, Step::Barrier(between), Step::Load { loc: data() }]
}

/// Message passing with any two emissions of which the producer's orders
/// stores with stores and the consumer's orders loads with loads: once the
/// consumer has seen the flag set, it loads the value that was handed over.
pub proof fn message_passing_between(
    arch: Arch,
    write_side: Emission,
    read_side: Emission,
    v: int,
    initial: int,
    p: Run,
    c: Run,
    seen: int,
)
    requires
        orders(arch, write_side, Access::Store, Access::Store),
        orders(arch, read_side, Access::Load, Access::Load),
        p.program == producer(v, write_side),
        c.program == consumer(read_side),
        p.respects(arch),
        c.respects(arch),
        p.shows(flag(), c.at[0], 0, 1),
        p.shows(data(), c.at[2], initial, seen),
    ensures
        seen == v,
{
    // The value took effect before the flag did.
    assert(p.program[1].separates(arch, p.program[0], p.program[2]));
    assert(p.fenced(arch, 0, 2));
    // The flag was loaded before the value was.
    assert(c.program[1].separates(arch, c.program[0], c.program[2]));
    assert(c.fenced(arch, 0, 2));
    // So the store of the value took effect before its load, which cannot
    // have returned the initial value.
    assert(p.program[0].stores_to(data()));
}

/// Message passing on every architecture, for every value: with the write
/// barrier on the producer and the read barrier on the consumer, a consumer
/// that has seen the flag set loads exactly the value that the producer
/// stored. Any operation of the write or the full slot serves the producer,
/// any of the read or the full slot the consumer; a processor-aware one
/// serves in a build for several processors.
pub proof fn message_passing(
    target: Target,
    write_op: Operation,
    read_op: Operation,
    v: int,
    initial: int,
    p: Run,
    c: Run,
    seen: int,
)
    requires
        target.smp || !(write_op.smp_aware() || read_op.smp_aware()),
        write_op.barrier() is Write || write_op.barrier() is Full,
        read_op.barrier() is Read || read_op.barrier() is Full,
        p.program == producer(v, target.emits(write_op)),
        c.program == consumer(target.emits(read_op)),
        p.respects(target.arch),
        c.respects(target.arch),
        p.shows(flag(), c.at[0], 0, 1),
        p.shows(data(), c.at[2], initial, seen),
    ensures
        seen == v,
{
    message_passing_between(
        target.arch,
        target.emits(write_op),
        target.emits(read_op),
        v,
        initial,
        p,
        c,
        seen,
    );
}

/// Without the write barrier nothing is promised: on every architecture
/// there is a pair of runs that respect the remaining barrier, in which the
/// consumer sees the flag set and still loads the initial value. Such a run
/// need not occur; the guarantee is what is lost.
pub proof fn without_write_barrier(arch: Arch, v: int, initial: int) -> (runs: (Run, Run))
    ensures
        runs.0.program == producer(v, Emission::Nothing),
        runs.1.program == consumer(arch.emits(Barrier::Read)),
        runs.0.respects(arch),
        runs.1.respects(arch),
        runs.0.shows(flag(), runs.1.at[0], 0, 1),
        runs.0.shows(data(), runs.1.at[2], initial, initial),
{
    let p = Run { program: producer(v, Emission::Nothing), at: seq![3int, 0int, 0int] };
    let c = Run { program: consumer(arch.emits(Barrier::Read)), at: seq![1int, 1int, 2int] };
    assert forall|i: int, j: int| 0 <= i < j < 3 && #[trigger] p.fenced(arch, i, j) implies p.at[i]
        < p.at[j] by {
        let k = choose|k: int|
            i < k < j && (#[trigger] p.program[k]).separates(arch, p.program[i], p.program[j]);
        assert(k == 1);
    }
    assert forall|i: int, j: int| 0 <= i < j < 3 && #[trigger] c.fenced(arch, i, j) implies c.at[i]
        < c.at[j] by {
        let k = choose|k: int|
            i < k < j && (#[trigger] c.program[k]).separates(arch, c.program[i], c.program[j]);
        assert(k == 1);
    }
    assert(p.program[2] == (Step::Store { loc: flag(), val: 1 }));
    (p, c)
}

/// Without the read barrier nothing is promised either: on every
/// architecture there is a pair of runs that respect the remaining barrier,
/// in which the consumer sees the flag set and still loads the initial
/// value.
pub proof fn without_read_barrier(arch: Arch, v: int, initial: int) -> (runs: (Run, Run))
    ensures
        runs.0.program == producer(v, arch.emits(Barrier::Write)),
        runs.1.program == consumer(Emission::Nothing),
        runs.0.respects(arch),
        runs.1.respects(arch),
        runs.0.shows(flag(), runs.1.at[0], 0, 1),
        runs.0.shows(data(), runs.1.at[2], initial, initial),
{
    let p = Run { program: producer(v, arch.emits(Barrier::Write)), at: seq![1int, 1int, 2int] };
    let c = Run { program: consumer(Emission::Nothing), at: seq![3int, 0int, 0int] };
    assert forall|i: int, j: int| 0 <= i < j < 3 && #[trigger] p.fenced(arch, i, j) implies p.at[i]
        < p.at[j] by {
        let k = choose|k: int|
            i < k < j && (#[trigger] p.program[k]).separates(arch, p.program[i], p.program[j]);
        assert(k == 1);
    }
    assert forall|i: int, j: int| 0 <= i < j < 3 && #[trigger] c.fenced(arch, i, j) implies c.at[i]
        < c.at[j] by {
        let k = choose|k: int|
            i < k < j && (#[trigger] c.program[k]).separates(arch, c.program[i], c.program[j]);
        assert(k == 1);
    }
    assert(p.program[2] == (Step::Store { loc: flag(), val: 1 }));
    (p, c)
}

} // verus!

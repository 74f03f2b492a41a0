use mbarrier::arch::{Arch, Barrier};
use mbarrier::dispatch::{uniprocessor_fence, Operation, Target};
use mbarrier::emission::{issue, Emission, FenceOrder};
use mbarrier::{mb_impl, read_barrier_depends_impl, rmb_impl, wmb_impl, BACKEND, SMP};

const ARCHS: [Arch; 6] = [
    Arch::X86,
    Arch::Aarch64,
    Arch::Arm { dmb: true },
    Arch::Arm { dmb: false },
    Arch::RiscV,
    Arch::Generic,
];

const OPERATIONS: [Operation; 9] = [
    Operation::Rmb,
    Operation::Wmb,
    Operation::Mb,
    Operation::SmpRmb,
    Operation::SmpWmb,
    Operation::SmpMb,
    Operation::ReadBarrierDepends,
    Operation::SmpReadBarrierDepends,
    Operation::RmbBeforeConditional,
];

#[test]
fn operations_stand_for_their_slots() {
    assert_eq!(Operation::Rmb.slot(), Barrier::Read);
    assert_eq!(Operation::SmpRmb.slot(), Barrier::Read);
    assert_eq!(Operation::RmbBeforeConditional.slot(), Barrier::Read);
    assert_eq!(Operation::Wmb.slot(), Barrier::Write);
    assert_eq!(Operation::SmpWmb.slot(), Barrier::Write);
    assert_eq!(Operation::Mb.slot(), Barrier::Full);
    assert_eq!(Operation::SmpMb.slot(), Barrier::Full);
    assert_eq!(Operation::ReadBarrierDepends.slot(), Barrier::DataDependency);
    assert_eq!(Operation::SmpReadBarrierDepends.slot(), Barrier::DataDependency);
}

#[test]
fn four_operations_are_processor_aware() {
    let aware: Vec<Operation> =
        OPERATIONS.iter().copied().filter(|op| op.is_smp_aware()).collect();
    assert_eq!(
        aware,
        vec![
            Operation::SmpRmb,
            Operation::SmpWmb,
            Operation::SmpMb,
            Operation::SmpReadBarrierDepends
        ]
    );
}

#[test]
fn uniprocessor_fences_follow_the_direction_of_the_slot() {
    assert_eq!(uniprocessor_fence(Barrier::Read), Emission::CompilerFence(FenceOrder::Acquire));
    assert_eq!(uniprocessor_fence(Barrier::Write), Emission::CompilerFence(FenceOrder::Release));
    assert_eq!(uniprocessor_fence(Barrier::Full), Emission::CompilerFence(FenceOrder::SeqCst));
    assert_eq!(uniprocessor_fence(Barrier::DataDependency), Emission::Nothing);
}

#[test]
fn plain_operations_emit_the_table_entry() {
    for arch in ARCHS {
        for smp in [true, false] {
            let target = Target { arch, smp };
            assert_eq!(target.plan(Operation::Rmb), arch.select(Barrier::Read));
            assert_eq!(target.plan(Operation::Wmb), arch.select(Barrier::Write));
            assert_eq!(target.plan(Operation::Mb), arch.select(Barrier::Full));
            assert_eq!(
                target.plan(Operation::ReadBarrierDepends),
                arch.select(Barrier::DataDependency)
            );
            assert_eq!(target.plan(Operation::RmbBeforeConditional), target.plan(Operation::Rmb));
        }
    }
}

#[test]
fn smp_build_emits_what_the_plain_operation_emits() {
    for arch in ARCHS {
        let target = Target { arch, smp: true };
        assert_eq!(target.plan(Operation::SmpRmb), target.plan(Operation::Rmb));
        assert_eq!(target.plan(Operation::SmpWmb), target.plan(Operation::Wmb));
        assert_eq!(target.plan(Operation::SmpMb), target.plan(Operation::Mb));
        assert_eq!(
            target.plan(Operation::SmpReadBarrierDepends),
            target.plan(Operation::ReadBarrierDepends)
        );
    }
}

#[test]
fn uniprocessor_build_emits_compiler_fences_only() {
    for arch in ARCHS {
        let target = Target { arch, smp: false };
        assert_eq!(target.plan(Operation::SmpRmb), Emission::CompilerFence(FenceOrder::Acquire));
        assert_eq!(target.plan(Operation::SmpWmb), Emission::CompilerFence(FenceOrder::Release));
        assert_eq!(target.plan(Operation::SmpMb), Emission::CompilerFence(FenceOrder::SeqCst));
        assert_eq!(target.plan(Operation::SmpReadBarrierDepends), Emission::Nothing);
        for op in OPERATIONS {
            if op.is_smp_aware() {
                assert!(target.plan(op).is_compiler_only());
                assert!(target.plan(op).is_portable());
            }
        }
    }
}

#[test]
fn smp_x86_write_barrier_is_the_store_fence() {
    let target = Target { arch: Arch::X86, smp: true };
    assert_eq!(target.plan(Operation::SmpWmb), Emission::Sfence);
    assert_eq!(target.plan(Operation::SmpMb), Emission::Mfence);
    assert_eq!(target.plan(Operation::SmpRmb), Emission::CompilerFence(FenceOrder::Acquire));
    assert_eq!(target.plan(Operation::SmpReadBarrierDepends), Emission::Nothing);
}

#[test]
fn portable_emissions_are_the_fences_of_the_language() {
    assert!(Emission::Nothing.is_portable());
    for order in [FenceOrder::Acquire, FenceOrder::Release, FenceOrder::SeqCst] {
        assert!(Emission::CompilerFence(order).is_portable());
        assert!(Emission::AtomicFence(order).is_portable());
        assert!(Emission::CompilerFence(order).is_compiler_only());
        assert!(!Emission::AtomicFence(order).is_compiler_only());
    }
    assert!(Emission::Nothing.is_compiler_only());
    let instructions = [
        Emission::Sfence,
        Emission::Mfence,
        Emission::DsbLd,
        Emission::DsbSt,
        Emission::DsbSy,
        Emission::DmbLd,
        Emission::DmbSt,
        Emission::DmbSy,
        Emission::Cp15Dmb,
        Emission::Cp15Dsb,
        Emission::FenceRR,
        Emission::FenceWW,
        Emission::FenceRwRw,
    ];
    for e in instructions {
        assert!(!e.is_portable());
        assert!(!e.is_compiler_only());
    }
}

#[test]
fn generic_backend_is_portable_throughout() {
    for smp in [true, false] {
        let target = Target { arch: Arch::Generic, smp };
        for op in OPERATIONS {
            assert!(target.plan(op).is_portable());
        }
    }
}

#[test]
fn issue_returns_for_every_portable_emission() {
    issue(Emission::Nothing);
    for order in [FenceOrder::Acquire, FenceOrder::Release, FenceOrder::SeqCst] {
        issue(Emission::CompilerFence(order));
        issue(Emission::AtomicFence(order));
    }
}

#[test]
fn every_operation_of_the_crate_target_can_be_issued() {
    let target = Target { arch: BACKEND, smp: SMP };
    for op in OPERATIONS {
        let e = target.plan(op);
        assert!(e.is_portable());
        issue(e);
    }
}

#[test]
fn crate_runs_the_generic_backend_for_several_processors() {
    assert_eq!(BACKEND, Arch::Generic);
    assert!(SMP);
    assert_eq!(rmb_impl(), Emission::AtomicFence(FenceOrder::Acquire));
    assert_eq!(wmb_impl(), Emission::AtomicFence(FenceOrder::Release));
    assert_eq!(mb_impl(), Emission::AtomicFence(FenceOrder::SeqCst));
    assert_eq!(read_barrier_depends_impl(), Emission::Nothing);
}

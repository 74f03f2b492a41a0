use mbarrier::{
    mb, read_barrier_depends, rmb, rmb_before_conditional, smp_mb, smp_rmb,
    smp_read_barrier_depends, smp_wmb, wmb,
};
use std::sync::atomic::{AtomicBool, AtomicU64, Ordering};

#[test]
fn test_barriers_compile() {
    rmb();
    wmb();
    mb();
    smp_rmb();
    smp_wmb();
    smp_mb();
    rmb_before_conditional();
    read_barrier_depends();
    smp_read_barrier_depends();
}

#[test]
fn barriers_can_be_repeated() {
    for _ in 0..1000 {
        rmb();
        wmb();
        mb();
        smp_rmb();
        smp_wmb();
        smp_mb();
        rmb_before_conditional();
        read_barrier_depends();
        smp_read_barrier_depends();
    }
}

#[test]
fn barriers_leave_the_caller_s_values_alone() {
    let before = [1u64, 2, 3, u64::MAX];
    let mut values = before;
    rmb();
    values[0] += 0;
    wmb();
    mb();
    read_barrier_depends();
    smp_read_barrier_depends();
    assert_eq!(values, before);
}

#[test]
fn consumer_sees_the_value_that_the_producer_stored() {
    for v in [1u64, 42, 0xdead_beef, u64::MAX] {
        let data = AtomicU64::new(0);
        let flag = AtomicBool::new(false);

        data.store(v, Ordering::Relaxed);
        wmb();
        flag.store(true, Ordering::Relaxed);

        assert!(flag.load(Ordering::Relaxed));
        rmb();
        assert_eq!(data.load(Ordering::Relaxed), v);
    }
}

#[test]
fn consumer_sees_the_value_with_processor_aware_barriers() {
    for v in [7u64, 1 << 40] {
        let data = AtomicU64::new(0);
        let flag = AtomicBool::new(false);

        data.store(v, Ordering::Relaxed);
        smp_wmb();
        flag.store(true, Ordering::Relaxed);

        assert!(flag.load(Ordering::Relaxed));
        smp_rmb();
        assert_eq!(data.load(Ordering::Relaxed), v);
    }
}

#[test]
fn consumer_sees_the_value_with_full_barriers() {
    for v in [3u64, u64::MAX - 1] {
        let data = AtomicU64::new(0);
        let flag = AtomicBool::new(false);

        data.store(v, Ordering::Relaxed);
        mb();
        flag.store(true, Ordering::Relaxed);

        assert!(flag.load(Ordering::Relaxed));
        rmb_before_conditional();
        assert_eq!(data.load(Ordering::Relaxed), v);
    }
}

use state_machine::system::{Call, SystemPallet};

#[test]
fn counters_start_at_zero() {
    let system = SystemPallet::<u64>::new();
    assert_eq!(system.block_number(), 0);
    assert_eq!(system.get_nonce(&1), 0);
}

#[test]
fn block_number_counts_increments() {
    let mut system = SystemPallet::<u64>::new();
    for _ in 0..5 {
        system.inc_block_number();
    }
    assert_eq!(system.block_number(), 5);
}

#[test]
fn nonces_count_increments_independently() {
    let mut system = SystemPallet::<&'static str>::new();
    for _ in 0..3 {
        system.inc_nonce(&"alice");
    }
    system.inc_nonce(&"bob");
    assert_eq!(system.get_nonce(&"alice"), 3);
    assert_eq!(system.get_nonce(&"bob"), 1);
    assert_eq!(system.get_nonce(&"carol"), 0);
    assert_eq!(system.block_number(), 0);
}

#[test]
fn dispatch_increments_block_number_for_any_caller() {
    let mut system = SystemPallet::<u64>::new();
    assert_eq!(system.dispatch(1, Call::IncBlockNumber), Ok(()));
    assert_eq!(system.dispatch(99, Call::IncBlockNumber), Ok(()));
    assert_eq!(system.block_number(), 2);
    assert_eq!(system.get_nonce(&1), 0);
}

use setup_read_cleanup::locking::{Cleanup, Setup};
use setup_read_cleanup::lockings::{
    set_locking_of_cleanup_to_u8, set_locking_of_setup_to_u8, u8_to_locking_of_cleanup,
    u8_to_locking_of_setup, LOCKING_CLEANUP_BLOCKING, LOCKING_CLEANUP_NON_BLOCKING,
    LOCKING_CLEANUP_UNLOCK, LOCKING_SETUP_BLOCKING, LOCKING_SETUP_NON_BLOCKING,
    LOCKING_SETUP_UNLOCK,
};

#[test]
fn lockings_test_of_u8_to_locking_of_setup() {
    assert_eq!(u8_to_locking_of_setup(LOCKING_SETUP_UNLOCK), Setup::Unlock);

    assert_eq!(
        u8_to_locking_of_setup(LOCKING_SETUP_BLOCKING),
        Setup::Blocking
    );

    assert_eq!(
        u8_to_locking_of_setup(LOCKING_SETUP_NON_BLOCKING),
        Setup::NonBlocking
    );

    assert_eq!(u8_to_locking_of_setup(0b00_00_00_00), Setup::Unlock);

    assert_eq!(u8_to_locking_of_setup(0b11_11_11_01), Setup::Unlock);

    assert_eq!(u8_to_locking_of_setup(0b11_11_11_10), Setup::Blocking);

    assert_eq!(u8_to_locking_of_setup(0b11_11_11_11), Setup::NonBlocking);

    assert_eq!(u8_to_locking_of_setup(0b11_11_11_00), Setup::Unlock);
}

#[test]
fn test_of_set_locking_of_setup_to_u8() {
    assert_eq!(
        set_locking_of_setup_to_u8(0b00_00_00_00, LOCKING_SETUP_UNLOCK),
        0b00_00_00_01
    );
    assert_eq!(
        set_locking_of_setup_to_u8(0b11_11_11_11, LOCKING_SETUP_UNLOCK),
        0b11_11_11_01
    );

    assert_eq!(
        set_locking_of_setup_to_u8(0b00_00_00_00, LOCKING_SETUP_BLOCKING),
        0b00_00_00_10
    );
    assert_eq!(
        set_locking_of_setup_to_u8(0b11_11_11_11, LOCKING_SETUP_BLOCKING),
        0b11_11_11_10
    );

    assert_eq!(
        set_locking_of_setup_to_u8(0b00_00_00_00, LOCKING_SETUP_NON_BLOCKING),
        0b00_00_00_11
    );
    assert_eq!(
        set_locking_of_setup_to_u8(0b11_11_11_11, LOCKING_SETUP_NON_BLOCKING),
        0b11_11_11_11
    );
}

#[test]
fn lockings_test_of_u8_to_locking_of_cleanup() {
    assert_eq!(
        u8_to_locking_of_cleanup(LOCKING_CLEANUP_UNLOCK),
        Cleanup::Unlock
    );

    assert_eq!(
        u8_to_locking_of_cleanup(LOCKING_CLEANUP_BLOCKING),
        Cleanup::Blocking
    );

    assert_eq!(
        u8_to_locking_of_cleanup(LOCKING_CLEANUP_NON_BLOCKING),
        Cleanup::NonBlocking
    );

    assert_eq!(u8_to_locking_of_cleanup(0b00_00_00_00), Cleanup::Unlock);

    assert_eq!(u8_to_locking_of_cleanup(0b11_11_01_11), Cleanup::Unlock);

    assert_eq!(u8_to_locking_of_cleanup(0b11_11_10_11), Cleanup::Blocking);

    assert_eq!(
        u8_to_locking_of_cleanup(0b11_11_11_11),
        Cleanup::NonBlocking
    );

    assert_eq!(u8_to_locking_of_cleanup(0b11_11_00_11), Cleanup::Unlock);
}

#[test]
fn test_of_set_locking_of_cleanup_to_u8() {
    assert_eq!(
        set_locking_of_cleanup_to_u8(0b00_00_00_00, LOCKING_CLEANUP_UNLOCK),
        0b00_00_01_00
    );
    assert_eq!(
        set_locking_of_cleanup_to_u8(0b11_11_11_11, LOCKING_CLEANUP_UNLOCK),
        0b11_11_01_11
    );

    assert_eq!(
        set_locking_of_cleanup_to_u8(0b00_00_00_00, LOCKING_CLEANUP_BLOCKING),
        0b00_00_10_00
    );
    assert_eq!(
        set_locking_of_cleanup_to_u8(0b11_11_11_11, LOCKING_CLEANUP_BLOCKING),
        0b11_11_10_11
    );

    assert_eq!(
        set_locking_of_cleanup_to_u8(0b00_00_00_00, LOCKING_CLEANUP_NON_BLOCKING),
        0b00_00_11_00
    );
    assert_eq!(
        set_locking_of_cleanup_to_u8(0b11_11_11_11, LOCKING_CLEANUP_NON_BLOCKING),
        0b11_11_11_11
    );
}

#[test]
fn packing_one_strategy_keeps_the_other() {
    let bits = set_locking_of_setup_to_u8(0, LOCKING_SETUP_BLOCKING);
    let bits = set_locking_of_cleanup_to_u8(bits, LOCKING_CLEANUP_NON_BLOCKING);
    assert_eq!(bits, 0b00_00_11_10);
    assert_eq!(u8_to_locking_of_setup(bits), Setup::Blocking);
    assert_eq!(u8_to_locking_of_cleanup(bits), Cleanup::NonBlocking);
}

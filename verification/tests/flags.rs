use setup_read_cleanup::flags::{
    set_locking_of_cleanup_to_u8, set_locking_of_read_to_u8, set_locking_of_setup_to_u8,
    set_phase_code_to_u8, u8_to_locking_of_cleanup, u8_to_locking_of_read, u8_to_locking_of_setup,
    u8_to_phase, LOCKING_CLEANUP_BLOCKING, LOCKING_CLEANUP_NON_BLOCKING, LOCKING_CLEANUP_UNLOCK,
    LOCKING_READ_FAST, LOCKING_READ_GRACEFUL, LOCKING_SETUP_BLOCKING, LOCKING_SETUP_NON_BLOCKING,
    LOCKING_SETUP_UNLOCK,
};
use setup_read_cleanup::locking::{Cleanup, Read, Setup};
use setup_read_cleanup::phase::{
    PHASE_CLEANUP, PHASE_READ, PHASE_READ_TO_CLEANUP, PHASE_SETUP, PHASE_SETUP_TO_READ,
};
use setup_read_cleanup::Phase;

#[test]
fn test_of_u8_to_phase() {
    assert_eq!(u8_to_phase(PHASE_SETUP), Phase::Setup);
    assert_eq!(u8_to_phase(PHASE_READ), Phase::Read);
    assert_eq!(u8_to_phase(PHASE_CLEANUP), Phase::Cleanup);
    assert_eq!(u8_to_phase(PHASE_SETUP_TO_READ), Phase::Setup);
    assert_eq!(u8_to_phase(PHASE_READ_TO_CLEANUP), Phase::Cleanup);

    assert_eq!(u8_to_phase(0b00_0_00_101), Phase::Cleanup);
    assert_eq!(u8_to_phase(0b00_0_00_110), Phase::Cleanup);
    assert_eq!(u8_to_phase(0b00_0_00_111), Phase::Cleanup);

    assert_eq!(u8_to_phase(0b01_1_10_000), Phase::Setup);
    assert_eq!(u8_to_phase(0b10_0_01_001), Phase::Read);
    assert_eq!(u8_to_phase(0b11_1_10_010), Phase::Cleanup);
    assert_eq!(u8_to_phase(0b01_1_10_011), Phase::Setup);
    assert_eq!(u8_to_phase(0b10_0_01_100), Phase::Cleanup);
    assert_eq!(u8_to_phase(0b11_1_10_101), Phase::Cleanup);
    assert_eq!(u8_to_phase(0b11_1_11_110), Phase::Cleanup);
    assert_eq!(u8_to_phase(0b11_1_11_111), Phase::Cleanup);
}

#[test]
fn test_of_set_phase_code_to_u8() {
    assert_eq!(
        set_phase_code_to_u8(0b00_0_00_000, PHASE_SETUP),
        0b00_0_00_000
    );
    assert_eq!(
        set_phase_code_to_u8(0b11_1_11_111, PHASE_SETUP),
        0b11_1_11_000
    );
    assert_eq!(
        set_phase_code_to_u8(0b00_0_00_000, PHASE_READ),
        0b00_0_00_001
    );
    assert_eq!(
        set_phase_code_to_u8(0b11_1_11_111, PHASE_READ),
        0b11_1_11_001
    );
    assert_eq!(
        set_phase_code_to_u8(0b00_0_00_000, PHASE_CLEANUP),
        0b00_0_00_010
    );
    assert_eq!(
        set_phase_code_to_u8(0b11_1_11_111, PHASE_CLEANUP),
        0b11_1_11_010
    );
    assert_eq!(
        set_phase_code_to_u8(0b00_0_00_000, PHASE_SETUP_TO_READ),
        0b00_0_00_011
    );
    assert_eq!(
        set_phase_code_to_u8(0b11_1_11_111, PHASE_SETUP_TO_READ),
        0b11_1_11_011
    );
    assert_eq!(
        set_phase_code_to_u8(0b00_0_00_000, PHASE_READ_TO_CLEANUP),
        0b00_0_00_100
    );
    assert_eq!(
        set_phase_code_to_u8(0b11_1_11_111, PHASE_READ_TO_CLEANUP),
        0b11_1_11_100
    );
}

#[test]
fn test_phase_roundtrip() {
    // An arbitrary initial flag value.
    let initial_flags = 0b10101010;
    // Mask for non-phase flags.
    let non_phase_mask = 0b11_1_11_000;

    // Test roundtrip for PHASE_SETUP
    let flags_after_set_setup = set_phase_code_to_u8(initial_flags, PHASE_SETUP);
    assert_eq!(u8_to_phase(flags_after_set_setup), Phase::Setup);
    // Assert that other flags are not modified.
    assert_eq!(
        flags_after_set_setup & non_phase_mask,
        initial_flags & non_phase_mask
    );

    // Test roundtrip for PHASE_READ
    let flags_after_set_read = set_phase_code_to_u8(initial_flags, PHASE_READ);
    assert_eq!(u8_to_phase(flags_after_set_read), Phase::Read);
    // Assert that other flags are not modified.
    assert_eq!(
        flags_after_set_read & non_phase_mask,
        initial_flags & non_phase_mask
    );

    // Test roundtrip for PHASE_CLEANUP
    let flags_after_set_cleanup = set_phase_code_to_u8(initial_flags, PHASE_CLEANUP);
    assert_eq!(u8_to_phase(flags_after_set_cleanup), Phase::Cleanup);
    // Assert that other flags are not modified.
    assert_eq!(
        flags_after_set_cleanup & non_phase_mask,
        initial_flags & non_phase_mask
    );
}

#[test]
fn flags_test_of_u8_to_locking_of_setup() {
    assert_eq!(u8_to_locking_of_setup(LOCKING_SETUP_UNLOCK), Setup::Unlock);
    assert_eq!(
        u8_to_locking_of_setup(LOCKING_SETUP_BLOCKING),
        Setup::Blocking
    );
    assert_eq!(
        u8_to_locking_of_setup(LOCKING_SETUP_NON_BLOCKING),
        Setup::NonBlocking
    );

    assert_eq!(u8_to_locking_of_setup(0b11_0_00_000), Setup::Blocking);

    assert_eq!(u8_to_locking_of_setup(0b00_1_01_101), Setup::Unlock);
    assert_eq!(u8_to_locking_of_setup(0b01_0_10_010), Setup::Blocking);

    assert_eq!(u8_to_locking_of_setup(0b10_1_11_111), Setup::NonBlocking);

    assert_eq!(u8_to_locking_of_setup(0b11_1_10_101), Setup::Blocking);
}

#[test]
fn test_of_locking_of_setup_to_u8() {
    assert_eq!(
        set_locking_of_setup_to_u8(0b00_0_00_000, LOCKING_SETUP_UNLOCK),
        0b00_0_00_000
    );
    assert_eq!(
        set_locking_of_setup_to_u8(0b11_1_11_111, LOCKING_SETUP_UNLOCK),
        0b00_1_11_111
    );
    assert_eq!(
        set_locking_of_setup_to_u8(0b00_0_00_000, LOCKING_SETUP_BLOCKING),
        0b01_0_00_000
    );
    assert_eq!(
        set_locking_of_setup_to_u8(0b11_1_11_111, LOCKING_SETUP_BLOCKING),
        0b01_1_11_111
    );

    assert_eq!(
        set_locking_of_setup_to_u8(0b00_0_00_000, LOCKING_SETUP_NON_BLOCKING),
        0b10_0_00_000
    );
    assert_eq!(
        set_locking_of_setup_to_u8(0b11_1_11_111, LOCKING_SETUP_NON_BLOCKING),
        0b10_1_11_111
    );
}

#[test]
fn test_of_u8_to_locking_of_read() {
    assert_eq!(u8_to_locking_of_read(LOCKING_READ_FAST), Read::Fast);
    assert_eq!(u8_to_locking_of_read(LOCKING_READ_GRACEFUL), Read::Graceful);

    assert_eq!(u8_to_locking_of_read(0b01_0_01_001), Read::Fast);
    assert_eq!(u8_to_locking_of_read(0b10_1_10_101), Read::Graceful);
}

#[test]
fn test_of_locking_of_read_to_u8() {
    assert_eq!(
        set_locking_of_read_to_u8(0b00_0_00_000, LOCKING_READ_FAST),
        0b00_0_00_000
    );
    assert_eq!(
        set_locking_of_read_to_u8(0b00_0_00_000, LOCKING_READ_GRACEFUL),
        0b00_1_00_000
    );

    assert_eq!(
        set_locking_of_read_to_u8(0b11_1_11_111, LOCKING_READ_FAST),
        0b11_0_11_111
    );
    assert_eq!(
        set_locking_of_read_to_u8(0b11_1_11_111, LOCKING_READ_GRACEFUL),
        0b11_1_11_111
    );
}

#[test]
fn flags_test_of_u8_to_locking_of_cleanup() {
    assert_eq!(
        u8_to_locking_of_cleanup(LOCKING_CLEANUP_UNLOCK),
        Cleanup::Unlock
    );
    assert_eq!(
        u8_to_locking_of_cleanup(LOCKING_CLEANUP_BLOCKING),
        Cleanup::Blocking
    );

    assert_eq!(
        u8_to_locking_of_cleanup(LOCKING_CLEANUP_NON_BLOCKING),
        Cleanup::NonBlocking
    );

    assert_eq!(u8_to_locking_of_cleanup(0b00_0_11_000), Cleanup::Blocking);

    assert_eq!(u8_to_locking_of_cleanup(0b10_1_00_101), Cleanup::Unlock);
    assert_eq!(u8_to_locking_of_cleanup(0b01_0_01_010), Cleanup::Blocking);

    assert_eq!(
        u8_to_locking_of_cleanup(0b11_1_10_111),
        Cleanup::NonBlocking
    );

    assert_eq!(u8_to_locking_of_cleanup(0b11_0_11_101), Cleanup::Blocking);
}

#[test]
fn test_of_locking_of_cleanup_to_u8() {
    assert_eq!(
        set_locking_of_cleanup_to_u8(0b00_0_00_000, LOCKING_CLEANUP_UNLOCK),
        0b00_0_00_000
    );
    assert_eq!(
        set_locking_of_cleanup_to_u8(0b00_0_00_000, LOCKING_CLEANUP_BLOCKING),
        0b00_0_01_000
    );
    assert_eq!(
        set_locking_of_cleanup_to_u8(0b00_0_00_000, LOCKING_CLEANUP_NON_BLOCKING),
        0b00_0_10_000
    );

    assert_eq!(
        set_locking_of_cleanup_to_u8(0b11_1_11_111, LOCKING_CLEANUP_UNLOCK),
        0b11_1_00_111
    );
    assert_eq!(
        set_locking_of_cleanup_to_u8(0b11_1_11_111, LOCKING_CLEANUP_BLOCKING),
        0b11_1_01_111
    );
    assert_eq!(
        set_locking_of_cleanup_to_u8(0b11_1_11_111, LOCKING_CLEANUP_NON_BLOCKING),
        0b11_1_10_111
    );
}

#[test]
fn packing_one_value_keeps_the_others() {
    let mut flags = 0u8;
    flags = set_locking_of_setup_to_u8(flags, LOCKING_SETUP_NON_BLOCKING);
    flags = set_locking_of_read_to_u8(flags, LOCKING_READ_GRACEFUL);
    flags = set_locking_of_cleanup_to_u8(flags, LOCKING_CLEANUP_BLOCKING);
    flags = set_phase_code_to_u8(flags, PHASE_READ);
    assert_eq!(flags, 0b10_1_01_001);
    assert_eq!(u8_to_locking_of_setup(flags), Setup::NonBlocking);
    assert_eq!(u8_to_locking_of_read(flags), Read::Graceful);
    assert_eq!(u8_to_locking_of_cleanup(flags), Cleanup::Blocking);
    assert_eq!(u8_to_phase(flags), Phase::Read);
}

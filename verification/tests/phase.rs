use setup_read_cleanup::phase::{
    u8_to_phase, PHASE_CLEANUP, PHASE_READ, PHASE_READ_TO_CLEANUP, PHASE_SETUP,
    PHASE_SETUP_TO_CLEANUP, PHASE_SETUP_TO_READ,
};
use setup_read_cleanup::Phase;

#[test]
fn phase_test_debug() {
    assert_eq!(format!("{:?}", Phase::Setup), "Setup");
    assert_eq!(format!("{:?}", Phase::Read), "Read");
    assert_eq!(format!("{:?}", Phase::Cleanup), "Cleanup");
}

#[test]
fn phase_test_display() {
    assert_eq!(Phase::Setup.to_text(), "Setup");
    assert_eq!(Phase::Read.to_text(), "Read");
    assert_eq!(Phase::Cleanup.to_text(), "Cleanup");
}

#[test]
fn test_u8_to_phase() {
    assert_eq!(u8_to_phase(PHASE_SETUP), Phase::Setup);
    assert_eq!(u8_to_phase(PHASE_READ), Phase::Read);
    assert_eq!(u8_to_phase(PHASE_CLEANUP), Phase::Cleanup);
    assert_eq!(u8_to_phase(10), Phase::Cleanup);
}

#[test]
fn a_cell_in_transition_reports_setup_or_cleanup() {
    assert_eq!(u8_to_phase(PHASE_SETUP_TO_READ), Phase::Setup);
    assert_eq!(u8_to_phase(PHASE_READ_TO_CLEANUP), Phase::Cleanup);
    assert_eq!(u8_to_phase(PHASE_SETUP_TO_CLEANUP), Phase::Cleanup);
}

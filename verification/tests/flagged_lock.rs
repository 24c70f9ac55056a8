use setup_read_cleanup::lock::flagged_lock::PhasedLock;
use setup_read_cleanup::lock::PhasedErrorKind;
use setup_read_cleanup::locking::{Cleanup, Read, Setup};
use setup_read_cleanup::phase::{PHASE_CLEANUP, PHASE_READ, PHASE_SETUP_TO_READ};
use setup_read_cleanup::Phase;

#[test]
fn a_flagged_lock_is_read_in_the_read_phase_only() {
    for read in [Read::Fast, Read::Graceful] {
        let mut lock = PhasedLock::new(7, "i32", Setup::Unlock, read, Cleanup::NonBlocking);
        assert_eq!(lock.phase(), Phase::Setup);
        let e = lock.read_fast().unwrap_err();
        assert_eq!(e.phase, Phase::Setup);
        assert_eq!(
            e.kind,
            PhasedErrorKind::CannotCallOutOfReadPhase(
                "setup_read_cleanup::PhasedLock<i32>::read_fast".to_string()
            )
        );
        lock.set_phase_code(PHASE_SETUP_TO_READ);
        assert_eq!(lock.phase_exact(), Phase::Setup);
        let e = lock.read_exact().unwrap_err();
        assert_eq!(
            e.kind,
            PhasedErrorKind::CannotCallOutOfReadPhase(
                "setup_read_cleanup::PhasedLock<i32>::read_exact".to_string()
            )
        );
        lock.set_phase_code(PHASE_READ);
        assert_eq!(lock.phase_exact(), Phase::Read);
        assert_eq!(lock.read_fast().unwrap(), &7);
        assert_eq!(lock.read_exact().unwrap(), &7);
        lock.set_phase_code(PHASE_CLEANUP);
        assert_eq!(lock.phase(), Phase::Cleanup);
        assert!(lock.read_fast().is_err());
    }
}

#[test]
fn a_flagged_lock_with_a_mutex_has_nothing_to_read_in_the_open() {
    for setup in [Setup::Blocking, Setup::NonBlocking] {
        let mut lock = PhasedLock::new(7, "i32", setup, Read::Graceful, Cleanup::Unlock);
        lock.set_phase_code(PHASE_READ);
        let e = lock.read_fast().unwrap_err();
        assert_eq!(e.phase, Phase::Read);
        assert_eq!(e.kind, PhasedErrorKind::InternalDataIsEmpty);
    }
}

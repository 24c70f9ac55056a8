use setup_read_cleanup::phase::{
    PHASE_CLEANUP, PHASE_READ, PHASE_READ_TO_CLEANUP, PHASE_SETUP, PHASE_SETUP_TO_CLEANUP,
    PHASE_SETUP_TO_READ,
};
use setup_read_cleanup::transition::{
    brings_back, admit_lock, admit_mut, admit_read, change_phase, enter_cleanup, enter_read, read_slot,
    refuse_cleanup, refuse_read, settle_cleanup, settle_read, Lock, Outcome,
    Work,
};
use setup_read_cleanup::slots::Slots;
use setup_read_cleanup::{Phase, PhasedErrorKind};

#[test]
fn transitions_begin_only_where_they_may() {
    assert_eq!(enter_read(PHASE_SETUP), Some(PHASE_SETUP_TO_READ));
    assert_eq!(enter_cleanup(PHASE_SETUP), Some(PHASE_SETUP_TO_CLEANUP));
    assert_eq!(enter_cleanup(PHASE_READ), Some(PHASE_READ_TO_CLEANUP));
    assert_eq!(enter_read(PHASE_READ), None);
    for code in [
        PHASE_CLEANUP,
        PHASE_SETUP_TO_READ,
        PHASE_READ_TO_CLEANUP,
        PHASE_SETUP_TO_CLEANUP,
        77,
    ] {
        assert_eq!(enter_read(code), None);
        assert_eq!(enter_cleanup(code), None);
    }
}

#[test]
fn refusals_tell_why() {
    let kind = |code: u8| refuse_read::<()>(code).kind();
    assert_eq!(kind(PHASE_READ), PhasedErrorKind::PhaseIsAlreadyRead);
    assert_eq!(kind(PHASE_CLEANUP), PhasedErrorKind::PhaseIsAlreadyCleanup);
    assert_eq!(
        kind(PHASE_SETUP_TO_READ),
        PhasedErrorKind::DuringTransitionToRead
    );
    assert_eq!(
        kind(PHASE_READ_TO_CLEANUP),
        PhasedErrorKind::DuringTransitionToCleanup
    );
    assert_eq!(
        kind(PHASE_SETUP_TO_CLEANUP),
        PhasedErrorKind::DuringTransitionToCleanup
    );
    let kind = |code: u8| refuse_cleanup::<()>(code).kind();
    assert_eq!(kind(PHASE_CLEANUP), PhasedErrorKind::PhaseIsAlreadyCleanup);
    assert_eq!(
        kind(PHASE_SETUP_TO_READ),
        PhasedErrorKind::DuringTransitionToRead
    );
    assert_eq!(
        kind(PHASE_READ_TO_CLEANUP),
        PhasedErrorKind::DuringTransitionToCleanup
    );
    assert_eq!(refuse_cleanup::<()>(PHASE_SETUP_TO_READ).phase(), Phase::Setup);
}

#[test]
fn access_goes_by_the_phase() {
    for code in 0..6u8 {
        assert_eq!(admit_read(code, "read").is_ok(), code == PHASE_READ);
        assert_eq!(
            admit_mut(code, "lock").is_ok(),
            code == PHASE_SETUP || code == PHASE_CLEANUP
        );
    }
}

#[test]
fn a_phase_is_only_changed_from_the_expected_one() {
    assert_eq!(
        change_phase(PHASE_SETUP_TO_READ, PHASE_SETUP_TO_READ, PHASE_READ),
        PHASE_READ
    );
    assert_eq!(
        change_phase(PHASE_CLEANUP, PHASE_SETUP_TO_READ, PHASE_READ),
        PHASE_CLEANUP
    );
}

#[test]
fn the_lock_is_given_only_if_the_phase_still_allows_it() {
    let filled = |code: u8| Lock::Acquired { code, filled: true };
    assert!(admit_lock(PHASE_SETUP, filled(PHASE_SETUP), "lock").is_ok());
    assert!(admit_lock(PHASE_CLEANUP, filled(PHASE_CLEANUP), "lock").is_ok());

    let e = admit_lock(PHASE_READ, filled(PHASE_READ), "lock").unwrap_err();
    assert_eq!(e.kind(), PhasedErrorKind::CannotCallOnPhaseRead("lock"));
    let e = admit_lock(PHASE_SETUP, filled(PHASE_READ), "lock").unwrap_err();
    assert_eq!(e.phase(), Phase::Read);
    assert_eq!(e.kind(), PhasedErrorKind::CannotCallOnPhaseRead("lock"));
    let e = admit_lock(PHASE_SETUP, filled(PHASE_SETUP_TO_READ), "lock").unwrap_err();
    assert_eq!(e.kind(), PhasedErrorKind::DuringTransitionToRead);
    let e = admit_lock(PHASE_SETUP, filled(PHASE_SETUP_TO_CLEANUP), "lock").unwrap_err();
    assert_eq!(e.kind(), PhasedErrorKind::DuringTransitionToCleanup);
    let e = admit_lock(PHASE_SETUP, Lock::Poisoned, "lock").unwrap_err();
    assert_eq!(e.phase(), Phase::Setup);
    assert_eq!(e.kind(), PhasedErrorKind::InternalDataMutexIsPoisoned);
    let empty = Lock::Acquired {
        code: PHASE_CLEANUP,
        filled: false,
    };
    let e = admit_lock(PHASE_CLEANUP, empty, "lock").unwrap_err();
    assert_eq!(e.phase(), Phase::Cleanup);
    assert_eq!(e.kind(), PhasedErrorKind::InternalDataUnavailable);
}

#[test]
fn a_reader_needs_the_phase_and_the_data() {
    assert_eq!(read_slot(PHASE_READ, &Some(4), "read").unwrap(), &4);
    let e = read_slot(PHASE_READ, &None::<i32>, "read").unwrap_err();
    assert_eq!(e.phase(), Phase::Read);
    assert_eq!(e.kind(), PhasedErrorKind::InternalDataUnavailable);
    let e = read_slot(PHASE_SETUP, &Some(4), "read").unwrap_err();
    assert_eq!(e.kind(), PhasedErrorKind::CannotCallUnlessPhaseRead("read"));
}

#[test]
fn cleanups_are_settled() {
    let s = settle_cleanup(PHASE_READ, Work::Ran(Ok::<(), u8>(())));
    assert_eq!(
        (s.from, s.to, s.moves),
        (PHASE_READ_TO_CLEANUP, PHASE_CLEANUP, true)
    );
    assert!(matches!(s.outcome, Outcome::Returns(Ok(()))));

    let s = settle_cleanup(PHASE_READ, Work::<u8>::Panicked);
    assert_eq!((s.to, s.moves), (PHASE_CLEANUP, true));
    assert!(matches!(s.outcome, Outcome::Unwinds));

    let s = settle_cleanup(PHASE_SETUP, Work::<u8>::Poisoned);
    assert_eq!(
        (s.from, s.to, s.moves),
        (PHASE_SETUP_TO_CLEANUP, PHASE_CLEANUP, false)
    );
    match s.outcome {
        Outcome::Returns(Err(e)) => {
            assert_eq!(e.kind(), PhasedErrorKind::InternalDataMutexIsPoisoned)
        }
        _ => panic!(),
    }

    let s = settle_cleanup(PHASE_READ, Work::<u8>::Missing);
    assert!(!s.moves);
    match s.outcome {
        Outcome::Returns(Err(e)) => {
            assert_eq!(e.phase(), Phase::Cleanup);
            assert_eq!(e.kind(), PhasedErrorKind::InternalDataUnavailable);
        }
        _ => panic!(),
    }

    let s = settle_cleanup(PHASE_SETUP, Work::<u8>::Busy);
    assert_eq!((s.from, s.to), (PHASE_SETUP_TO_CLEANUP, PHASE_CLEANUP));
    let s = settle_cleanup(PHASE_READ, Work::<u8>::Busy);
    assert_eq!((s.from, s.to), (PHASE_READ_TO_CLEANUP, PHASE_CLEANUP));
    assert!(!s.moves);
    assert!(brings_back(PHASE_CLEANUP, false));
    assert!(!brings_back(PHASE_CLEANUP, true));
    assert!(!brings_back(PHASE_READ, false));
    let s = settle_cleanup(PHASE_SETUP, Work::Ran(Err(2u8)));
    assert_eq!((s.from, s.to), (PHASE_SETUP_TO_CLEANUP, PHASE_CLEANUP));
    match s.outcome {
        Outcome::Returns(Err(e)) => assert_eq!(e.source(), Some(&2)),
        _ => panic!(),
    }
}

#[test]
fn transitions_to_read_are_settled() {
    let s = settle_read(Work::Ran(Ok::<(), u8>(())));
    assert_eq!(
        (s.from, s.to, s.moves),
        (PHASE_SETUP_TO_READ, PHASE_READ, true)
    );
    assert!(matches!(s.outcome, Outcome::Returns(Ok(()))));
    for work in [
        Work::Poisoned,
        Work::Busy,
        Work::Missing,
        Work::Ran(Err(1u8)),
        Work::Panicked,
    ] {
        let s = settle_read(work);
        assert_eq!(
            (s.from, s.to, s.moves),
            (PHASE_SETUP_TO_READ, PHASE_SETUP, false)
        );
        assert!(!matches!(s.outcome, Outcome::Returns(Ok(()))));
    }
}

#[test]
fn slots_exchange_their_contents() {
    let mut slots = Slots {
        mutex: Some(1),
        cell: None,
    };
    slots.swap();
    assert_eq!(slots.mutex, None);
    assert_eq!(slots.cell, Some(1));
}

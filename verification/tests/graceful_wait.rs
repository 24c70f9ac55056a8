use setup_read_cleanup::graceful::transition::{
    look_for_read, notice_read, settle_caught_cleanup, settle_graceful_cleanup,
    settle_graceful_read, to_phased_kind, ReadLook,
};
use setup_read_cleanup::graceful::wait::{lower, next_wait_step, CountDown, WaitStep};
use setup_read_cleanup::graceful::{GracefulWaitAsync, GracefulWaitErrorKind, GracefulWaitSync};
use setup_read_cleanup::phase::{
    PHASE_CLEANUP, PHASE_READ, PHASE_READ_TO_CLEANUP, PHASE_SETUP, PHASE_SETUP_TO_CLEANUP,
    PHASE_SETUP_TO_READ,
};
use setup_read_cleanup::transition::{Outcome, Work};
use setup_read_cleanup::{Phase, PhasedErrorKind};
use std::time::Duration;

#[test]
fn a_wait_looks_until_no_reader_is_left_or_the_time_is_up() {
    assert_eq!(next_wait_step(0, 0, 0), WaitStep::Finished);
    assert_eq!(next_wait_step(0, 9, 5), WaitStep::Finished);
    assert_eq!(next_wait_step(2, 5, 5), WaitStep::TimedOut);
    assert_eq!(next_wait_step(2, 6, 5), WaitStep::TimedOut);
    assert_eq!(next_wait_step(1, 3, 5), WaitStep::Park(2));
    assert_eq!(lower(0), None);
    assert_eq!(lower(1), Some(0));
    assert_eq!(lower(usize::MAX), Some(usize::MAX - 1));
}

#[test]
fn readers_are_counted_in_and_out() {
    let second = Duration::from_secs(1);
    let mut wait = GracefulWaitSync::new();
    assert!(wait.wait_gracefully(second).is_ok());
    wait.count_up();
    wait.count_up();
    assert_eq!(wait.count(), 2);
    assert_eq!(
        wait.wait_gracefully(second).unwrap_err().kind,
        GracefulWaitErrorKind::TimedOut(second)
    );
    assert_eq!(wait.look(second, 1).unwrap(), Some(999_999_999));
    assert_eq!(
        wait.count_down(|| true),
        CountDown::Counted { wakes: false }
    );
    assert_eq!(wait.count_down(|| true), CountDown::Counted { wakes: true });
    assert_eq!(wait.count_down(|| true), CountDown::Excessive);
    assert!(wait.wait_gracefully(Duration::ZERO).is_ok());
    assert_eq!(wait.look(second, 1).unwrap(), None);
}

#[test]
fn the_last_reader_only_wakes_if_it_is_asked_to() {
    let mut wait = GracefulWaitSync::new();
    wait.count_up();
    assert_eq!(
        wait.count_down(|| false),
        CountDown::Counted { wakes: false }
    );
    wait.count_up();
    wait.poison();
    assert!(wait.is_poisoned());
    assert_eq!(
        wait.count_down(|| true),
        CountDown::Counted { wakes: false }
    );
    assert_eq!(
        wait.wait_gracefully(Duration::ZERO).unwrap_err().kind,
        GracefulWaitErrorKind::MutexIsPoisoned
    );
}

#[test]
fn tasks_are_counted_in_and_out() {
    let mut wait = GracefulWaitAsync::new();
    assert!(wait.wait_gracefully_async(Duration::ZERO).is_ok());
    wait.count_up();
    wait.count_up();
    assert_eq!(wait.count(), 2);
    assert_eq!(
        wait.wait_gracefully_async(Duration::from_secs(2))
            .unwrap_err()
            .kind,
        GracefulWaitErrorKind::TimedOut(Duration::from_secs(2))
    );
    assert_eq!(
        wait.count_down(|| true),
        CountDown::Counted { wakes: false }
    );
    assert_eq!(wait.count_down(|| true), CountDown::Counted { wakes: true });
    assert_eq!(wait.count_down(|| true), CountDown::Excessive);
    wait.count_up();
    assert_eq!(
        wait.count_down(|| false),
        CountDown::Counted { wakes: false }
    );
    assert!(wait.wait_gracefully_async(Duration::ZERO).is_ok());
}

#[test]
fn a_reader_is_told_whether_to_wait() {
    assert_eq!(look_for_read(PHASE_READ, false).unwrap(), ReadLook::Open);
    assert_eq!(
        look_for_read(PHASE_SETUP_TO_READ, false).unwrap(),
        ReadLook::Wait
    );
    assert_eq!(
        look_for_read(PHASE_READ, true).unwrap_err().kind(),
        PhasedErrorKind::GracefulWaitMutexIsPoisoned
    );
    let e = look_for_read(PHASE_READ_TO_CLEANUP, false).unwrap_err();
    assert_eq!(e.phase(), Phase::Cleanup);
    assert_eq!(e.kind(), PhasedErrorKind::CannotCallUnlessPhaseRead("read"));
}

#[test]
fn graceful_cleanups_are_settled() {
    let timeout = Some(PhasedErrorKind::GracefulWaitTimeout(Duration::from_secs(1)));

    let s = settle_graceful_cleanup(PHASE_READ, PHASE_SETUP_TO_READ, timeout, Work::Ran(Ok::<(), u8>(())));
    assert_eq!((s.from, s.to, s.moves), (PHASE_READ_TO_CLEANUP, PHASE_CLEANUP, true));
    match s.outcome {
        Outcome::Returns(Err(e)) => {
            assert_eq!(e.phase(), Phase::Cleanup);
            assert_eq!(Some(e.kind()), timeout);
        }
        _ => panic!(),
    }

    let s = settle_graceful_cleanup(PHASE_READ, PHASE_SETUP_TO_READ, timeout, Work::Ran(Err(3u8)));
    match s.outcome {
        Outcome::Returns(Err(e)) => assert_eq!(e.source(), Some(&3)),
        _ => panic!(),
    }

    let s = settle_graceful_cleanup(PHASE_READ, PHASE_SETUP_TO_READ, None, Work::<u8>::Missing);
    assert_eq!((s.from, s.to, s.moves), (PHASE_READ_TO_CLEANUP, PHASE_CLEANUP, false));
    match s.outcome {
        Outcome::Returns(Err(e)) => {
            assert_eq!(e.phase(), Phase::Setup);
            assert_eq!(e.kind(), PhasedErrorKind::InternalDataUnavailable);
        }
        _ => panic!(),
    }
    let s = settle_graceful_cleanup(PHASE_SETUP, PHASE_READ, None, Work::<u8>::Missing);
    match s.outcome {
        Outcome::Returns(Err(e)) => assert_eq!(e.phase(), Phase::Cleanup),
        _ => panic!(),
    }

    let s = settle_caught_cleanup(PHASE_READ, timeout, Work::<u8>::Panicked);
    assert_eq!((s.from, s.to), (PHASE_READ_TO_CLEANUP, PHASE_CLEANUP));
    assert!(matches!(s.outcome, Outcome::Unwinds));
    let s = settle_caught_cleanup(PHASE_READ, timeout, Work::Ran(Ok::<(), u8>(())));
    assert_eq!((s.from, s.to), (PHASE_READ_TO_CLEANUP, PHASE_CLEANUP));
    match s.outcome {
        Outcome::Returns(Err(e)) => assert_eq!(Some(e.kind()), timeout),
        _ => panic!(),
    }

    let s = settle_graceful_cleanup(PHASE_SETUP, PHASE_READ, None, Work::<u8>::Panicked);
    assert_eq!(
        (s.from, s.to, s.moves),
        (PHASE_SETUP_TO_CLEANUP, PHASE_SETUP_TO_CLEANUP, false)
    );
    assert!(matches!(s.outcome, Outcome::Unwinds));
}

#[test]
fn graceful_transitions_to_read_are_settled() {
    let s = settle_graceful_read(Work::<u8>::Panicked);
    assert_eq!(s.to, PHASE_SETUP_TO_READ);
    assert!(matches!(notice_read(s.outcome, false), Outcome::Unwinds));

    let s = settle_graceful_read(Work::Ran(Ok::<(), u8>(())));
    assert_eq!((s.to, s.moves), (PHASE_READ, true));
    match notice_read(s.outcome, false) {
        Outcome::Returns(Err(e)) => {
            assert_eq!(e.phase(), Phase::Setup);
            assert_eq!(e.kind(), PhasedErrorKind::GracefulWaitMutexIsPoisoned);
        }
        _ => panic!(),
    }

    let s = settle_graceful_read(Work::Ran(Err(1u8)));
    assert_eq!((s.to, s.moves), (PHASE_SETUP, false));
    match notice_read(s.outcome, true) {
        Outcome::Returns(Err(e)) => assert_eq!(e.source(), Some(&1)),
        _ => panic!(),
    }
    assert_eq!(
        to_phased_kind(GracefulWaitErrorKind::MutexIsPoisoned),
        PhasedErrorKind::GracefulWaitMutexIsPoisoned
    );
}

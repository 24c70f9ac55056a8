use setup_read_cleanup::graceful::{GracefulWaitError, GracefulWaitErrorKind};
use setup_read_cleanup::lock;
use setup_read_cleanup::lock::WaitStrategy;
use setup_read_cleanup::{Phase, PhasedError, PhasedErrorKind};
use std::time;

fn interrupted() -> std::io::Error {
    std::io::Error::new(std::io::ErrorKind::Interrupted, "oh no!")
}

#[test]
fn errors_test_new() {
    let e: lock::PhasedError =
        lock::PhasedError::new(Phase::Setup, lock::PhasedErrorKind::TransitionToReadFailed);
    assert_eq!(e.phase, Phase::Setup);
    assert_eq!(e.kind, lock::PhasedErrorKind::TransitionToReadFailed);
    assert!(e.source.is_none());

    let e: PhasedError = PhasedError::new(
        Phase::Setup,
        PhasedErrorKind::CannotCallUnlessPhaseRead("read"),
    );
    assert_eq!(e.phase(), Phase::Setup);
    assert_eq!(e.kind(), PhasedErrorKind::CannotCallUnlessPhaseRead("read"));
    assert!(e.source().is_none());

    let e = GracefulWaitError::new(GracefulWaitErrorKind::TimedOut(
        std::time::Duration::from_secs(1),
    ));
    assert_eq!(
        e.kind,
        GracefulWaitErrorKind::TimedOut(std::time::Duration::from_secs(1)),
    );
    assert!(e.source().is_none());
}

#[test]
fn errors_test_with_source() {
    let e = lock::PhasedError::with_source(
        Phase::Setup,
        lock::PhasedErrorKind::TransitionToCleanupTimeout(WaitStrategy::GracefulWait {
            timeout: time::Duration::from_secs(2),
        }),
        interrupted(),
    );
    assert_eq!(e.phase, Phase::Setup);
    if let lock::PhasedErrorKind::TransitionToCleanupTimeout(ws) = e.kind {
        if let WaitStrategy::GracefulWait { timeout } = ws {
            assert_eq!(timeout, time::Duration::from_secs(2));
        } else {
            panic!();
        }
    } else {
        panic!();
    }
    if let Some(e1) = e.source {
        assert_eq!(
            format!("{e1:?}"),
            "Custom { kind: Interrupted, error: \"oh no!\" }"
        );
    } else {
        panic!();
    }

    let e = PhasedError::with_source(
        Phase::Setup,
        PhasedErrorKind::CannotCallUnlessPhaseRead("read_relaxed"),
        interrupted(),
    );
    assert_eq!(e.phase(), Phase::Setup);
    assert_eq!(
        e.kind(),
        PhasedErrorKind::CannotCallUnlessPhaseRead("read_relaxed"),
    );
    match e.source() {
        Some(ioe) => {
            assert_eq!(ioe.kind(), std::io::ErrorKind::Interrupted);
        }
        None => panic!(),
    }
}

#[test]
fn test_debug_without_source() {
    let e: lock::PhasedError =
        lock::PhasedError::new(Phase::Read, lock::PhasedErrorKind::TransitionToCleanupFailed);
    assert_eq!(
        e.debug_text(""),
        "setup_read_cleanup::PhasedError { phased: Read, kind: TransitionToCleanupFailed }"
    );
}

#[test]
fn test_debug_with_source() {
    let e = lock::PhasedError::with_source(
        Phase::Setup,
        lock::PhasedErrorKind::TransitionToCleanupTimeout(WaitStrategy::GracefulWait {
            timeout: time::Duration::from_secs(2),
        }),
        interrupted(),
    );
    let source_text = format!("{:?}", interrupted());
    assert_eq!(e.debug_text(&source_text), "setup_read_cleanup::PhasedError { phased: Setup, kind: TransitionToCleanupTimeout(GracefulWait { timeout: 2s }), source: Custom { kind: Interrupted, error: \"oh no!\" } }");
}

#[test]
fn errors_test_debug() {
    let e: PhasedError = PhasedError::new(
        Phase::Setup,
        PhasedErrorKind::CannotCallUnlessPhaseRead("method"),
    );
    assert_eq!(e.debug_text(""), "setup_read_cleanup::PhasedError { phase: Setup, kind: CannotCallUnlessPhaseRead(\"method\") }");

    let e = PhasedError::with_source(
        Phase::Setup,
        PhasedErrorKind::CannotCallUnlessPhaseRead("lock_async"),
        interrupted(),
    );
    let source_text = format!("{:?}", e.source().unwrap());
    assert_eq!(e.debug_text(&source_text), "setup_read_cleanup::PhasedError { phase: Setup, kind: CannotCallUnlessPhaseRead(\"lock_async\"), source: Custom { kind: Interrupted, error: \"oh no!\" } }");

    let e = GracefulWaitError::new(GracefulWaitErrorKind::TimedOut(
        std::time::Duration::from_secs(12),
    ));
    assert_eq!(
        e.debug_text(),
        "setup_read_cleanup::graceful::GracefulWaitError { kind: TimedOut(12s) }"
    );
}

#[test]
fn errors_test_display() {
    let e: PhasedError = PhasedError::new(
        Phase::Setup,
        PhasedErrorKind::CannotCallUnlessPhaseRead("lock"),
    );
    assert_eq!(
        e.display_text(),
        "[Setup] CannotCallUnlessPhaseRead(\"lock\")"
    );

    let e = PhasedError::with_source(
        Phase::Setup,
        PhasedErrorKind::CannotCallUnlessPhaseRead("lock"),
        interrupted(),
    );
    assert_eq!(
        e.display_text(),
        "[Setup] CannotCallUnlessPhaseRead(\"lock\")"
    );

    let e = GracefulWaitError::new(GracefulWaitErrorKind::TimedOut(
        std::time::Duration::from_secs(12),
    ));
    assert_eq!(e.display_text(), "TimedOut(12s)");
}

#[test]
fn texts_of_all_kinds_match_their_debug_formatting() {
    let second = time::Duration::from_millis(1500);
    for kind in [
        PhasedErrorKind::CannotCallUnlessPhaseRead("a\"b"),
        PhasedErrorKind::CannotCallOnPhaseSetup("c\nd"),
        PhasedErrorKind::CannotCallOnPhaseRead("e"),
        PhasedErrorKind::InternalDataUnavailable,
        PhasedErrorKind::PhaseIsAlreadyRead,
        PhasedErrorKind::PhaseIsAlreadyCleanup,
        PhasedErrorKind::DuringTransitionToRead,
        PhasedErrorKind::DuringTransitionToCleanup,
        PhasedErrorKind::FailToRunClosureDuringTransitionToRead,
        PhasedErrorKind::FailToRunClosureDuringTransitionToCleanup,
        PhasedErrorKind::InternalDataMutexIsPoisoned,
        PhasedErrorKind::MutexTryLockFailed,
        PhasedErrorKind::GracefulWaitTimeout(second),
        PhasedErrorKind::GracefulWaitMutexIsPoisoned,
    ] {
        assert_eq!(kind.to_text(), format!("{kind:?}"));
    }
    assert_eq!(
        PhasedErrorKind::GracefulWaitTimeout(second).to_text(),
        "GracefulWaitTimeout(1.5s)"
    );
    for kind in [
        GracefulWaitErrorKind::TimedOut(second),
        GracefulWaitErrorKind::MutexIsPoisoned,
    ] {
        assert_eq!(kind.to_text(), format!("{kind:?}"));
    }
    for strategy in [
        WaitStrategy::NoWait,
        WaitStrategy::FixedWait(second),
        WaitStrategy::GracefulWait { timeout: second },
    ] {
        assert_eq!(strategy.to_text(), format!("{strategy:?}"));
    }
    for kind in [
        lock::PhasedErrorKind::MutexIsPoisoned,
        lock::PhasedErrorKind::StdMutexIsPoisoned,
        lock::PhasedErrorKind::TransitionToReadFailed,
        lock::PhasedErrorKind::PhaseIsAlreadyRead,
        lock::PhasedErrorKind::DuringTransitionToRead,
        lock::PhasedErrorKind::TransitionToCleanupFailed,
        lock::PhasedErrorKind::PhaseIsAlreadyCleanup,
        lock::PhasedErrorKind::DuringTransitionToCleanup,
        lock::PhasedErrorKind::TransitionToCleanupTimeout(WaitStrategy::NoWait),
        lock::PhasedErrorKind::FailToRunClosureDuringTransitionToRead,
        lock::PhasedErrorKind::InternalDataIsEmpty,
        lock::PhasedErrorKind::InternalDataUnavailable,
        lock::PhasedErrorKind::CannotCallInSetupPhase("a".to_string()),
        lock::PhasedErrorKind::CannotCallInReadPhase("b".to_string()),
        lock::PhasedErrorKind::CannotCallOutOfReadPhase("c".to_string()),
        lock::PhasedErrorKind::CannotCallOnPhaseSetup("d".to_string()),
        lock::PhasedErrorKind::CannotCallUnlessPhaseRead("e".to_string()),
        lock::PhasedErrorKind::CannotCallUnlessPhaseSetup("f".to_string()),
        lock::PhasedErrorKind::CannotCallUnlessPhaseCleanup("g".to_string()),
        lock::PhasedErrorKind::CannotCallUnlessSetupUnlock("h".to_string()),
        lock::PhasedErrorKind::CannotCallUnlessCleanupUnlock("i".to_string()),
        lock::PhasedErrorKind::CannotCallOnTokioRuntime("j".to_string()),
    ] {
        assert_eq!(kind.to_text(), format!("{kind:?}"));
    }
}

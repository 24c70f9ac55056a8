use setup_read_cleanup::graceful::wait::{CountDown, WaitStep};
use setup_read_cleanup::lock::guards::{
    PhasedMutexGuard, PhasedStdMutexGuard, PhasedTokioMutexGuard,
};
use setup_read_cleanup::lock::mutex_lock::PhasedLock;
use setup_read_cleanup::lock::{task_lock, PhasedErrorKind, WaitStrategy};
use setup_read_cleanup::Phase;
use std::time::Duration;

#[derive(Debug)]
struct MyError {}

fn reading(n: usize) -> PhasedLock<i32> {
    let mut lock = PhasedLock::new(1, "i32");
    lock.transition_to_read(|data| {
        *data += 1;
        Ok::<(), MyError>(())
    })
    .unwrap();
    for _i in 0..n {
        assert_eq!(lock.read_gracefully().unwrap(), &2);
    }
    lock
}

fn reading_async(n: usize) -> PhasedLock<i32> {
    let mut lock = PhasedLock::new_for_async(1, "i32");
    lock.transition_to_read_async(|data| {
        *data += 1;
        Ok::<(), MyError>(())
    })
    .unwrap();
    for _i in 0..n {
        assert_eq!(lock.read_gracefully().unwrap(), &2);
    }
    lock
}

fn text(method: &str) -> String {
    "setup_read_cleanup::PhasedLock<i32>::".to_string() + method
}

#[test]
fn a_lock_for_threads_goes_through_the_phases() {
    let mut lock = reading(0);
    assert_eq!(lock.phase_fast(), Phase::Read);
    assert_eq!(lock.read_fast().unwrap(), &2);
    let e = lock
        .transition_to_read(|_data| Ok::<(), MyError>(()))
        .unwrap_err();
    assert_eq!(e.phase, Phase::Read);
    assert_eq!(e.kind, PhasedErrorKind::PhaseIsAlreadyRead);
    lock.transition_to_cleanup(WaitStrategy::NoWait).unwrap();
    assert_eq!(lock.phase_exact(), Phase::Cleanup);
    let e = lock.read_fast().unwrap_err();
    assert_eq!(e.phase, Phase::Cleanup);
    assert_eq!(
        e.kind,
        PhasedErrorKind::CannotCallOutOfReadPhase(text("read_fast"))
    );
    let e = lock.read_gracefully().unwrap_err();
    assert_eq!(
        e.kind,
        PhasedErrorKind::CannotCallOutOfReadPhase(text("read_gracefully"))
    );
    let e = lock.transition_to_cleanup(WaitStrategy::NoWait).unwrap_err();
    assert_eq!(e.kind, PhasedErrorKind::PhaseIsAlreadyCleanup);

    let mut lock = PhasedLock::new(1, "i32");
    lock.transition_to_cleanup(WaitStrategy::FixedWait(Duration::ZERO))
        .unwrap();
    assert_eq!(lock.phase_exact(), Phase::Cleanup);
}

#[test]
fn blocking_methods_cannot_be_called_on_a_tokio_runtime() {
    let mut lock = PhasedLock::new(1, "i32");
    let runtime = tokio::runtime::Builder::new_current_thread()
        .build()
        .unwrap();
    {
        let _entered = runtime.enter();
        let e = lock
            .transition_to_read(|_data| Ok::<(), MyError>(()))
            .unwrap_err();
        assert_eq!(e.phase, Phase::Setup);
        assert_eq!(
            e.kind,
            PhasedErrorKind::CannotCallOnTokioRuntime(text("transition_to_read"))
        );
        let e = lock.transition_to_cleanup(WaitStrategy::NoWait).unwrap_err();
        assert_eq!(
            e.kind,
            PhasedErrorKind::CannotCallOnTokioRuntime(text("transition_to_cleanup"))
        );
    }
    assert_eq!(lock.phase_exact(), Phase::Setup);
    lock.transition_to_read(|_data| Ok::<(), MyError>(())).unwrap();
    assert_eq!(lock.phase_exact(), Phase::Read);

    let e = lock
        .transition_to_cleanup_unless(true, WaitStrategy::NoWait)
        .unwrap_err();
    assert_eq!(
        e.kind,
        PhasedErrorKind::CannotCallOnTokioRuntime(text("transition_to_cleanup"))
    );
    lock.transition_to_cleanup_unless(false, WaitStrategy::NoWait)
        .unwrap();
    let e = lock
        .transition_to_read_unless(true, |_data| Ok::<(), MyError>(()))
        .unwrap_err();
    assert_eq!(
        e.kind,
        PhasedErrorKind::CannotCallOnTokioRuntime(text("transition_to_read"))
    );
}

#[test]
fn a_poisoned_mutex_of_a_lock_rolls_back() {
    let mut lock = PhasedLock::new(1, "i32");
    lock.poison();
    let e = lock
        .transition_to_read(|_data| Ok::<(), MyError>(()))
        .unwrap_err();
    assert_eq!(e.phase, Phase::Setup);
    assert_eq!(e.kind, PhasedErrorKind::MutexIsPoisoned);
    assert_eq!(lock.phase_exact(), Phase::Setup);

    let mut lock = reading(1);
    lock.poison();
    let e = lock.transition_to_cleanup(WaitStrategy::NoWait).unwrap_err();
    assert_eq!(e.phase, Phase::Cleanup);
    assert_eq!(e.kind, PhasedErrorKind::MutexIsPoisoned);
    assert_eq!(lock.phase_exact(), Phase::Read);
    assert_eq!(lock.read_fast().unwrap(), &2);
    let e = lock
        .transition_to_cleanup(WaitStrategy::GracefulWait {
            timeout: Duration::ZERO,
        })
        .unwrap_err();
    assert_eq!(e.phase, Phase::Read);
    assert_eq!(e.kind, PhasedErrorKind::MutexIsPoisoned);

    let mut lock = reading(1);
    lock.begin_transition_to_cleanup_gracefully().unwrap();
    lock.poison();
    let e = lock
        .end_transition_to_cleanup_gracefully(false, Duration::ZERO)
        .unwrap_err();
    assert_eq!(e.phase, Phase::Cleanup);
    assert_eq!(e.kind, PhasedErrorKind::MutexIsPoisoned);
    let e = lock.transition_to_cleanup(WaitStrategy::NoWait).unwrap_err();
    assert_eq!(e.kind, PhasedErrorKind::DuringTransitionToCleanup);
}

#[test]
fn a_lock_for_threads_waits_for_its_readers() {
    let timeout = Duration::from_secs(2);
    let strategy = WaitStrategy::GracefulWait { timeout };
    let mut lock = reading(0);
    lock.transition_to_cleanup(strategy).unwrap();
    assert_eq!(lock.phase_exact(), Phase::Cleanup);

    let mut lock = reading(1);
    let e = lock.transition_to_cleanup(strategy).unwrap_err();
    assert_eq!(e.phase, Phase::Cleanup);
    assert_eq!(e.kind, PhasedErrorKind::TransitionToCleanupTimeout(strategy));
    assert_eq!(lock.phase_exact(), Phase::Cleanup);

    let mut lock = reading(1);
    lock.begin_transition_to_cleanup_gracefully().unwrap();
    assert_eq!(
        lock.wait_for_readers(timeout, 500_000_000),
        WaitStep::Park(1_500_000_000)
    );
    assert_eq!(
        lock.wait_for_readers(timeout, 2_000_000_000),
        WaitStep::TimedOut
    );
    lock.finish_reading_gracefully_async().unwrap();
    assert_eq!(lock.wait_for_readers(timeout, 0), WaitStep::Finished);
    assert!(lock
        .end_transition_to_cleanup_gracefully(true, timeout)
        .is_ok());

    let mut lock = PhasedLock::new(1, "i32");
    lock.transition_to_cleanup(strategy).unwrap();
    assert_eq!(lock.phase_exact(), Phase::Cleanup);
    let e = lock.transition_to_cleanup(strategy).unwrap_err();
    assert_eq!(e.kind, PhasedErrorKind::PhaseIsAlreadyCleanup);
}

#[test]
fn a_failed_transition_of_a_lock_for_threads_is_undone() {
    let mut lock = PhasedLock::new(1, "i32");
    let e = lock.transition_to_read(|_data| Err(MyError {})).unwrap_err();
    assert_eq!(e.phase, Phase::Setup);
    assert_eq!(
        e.kind,
        PhasedErrorKind::FailToRunClosureDuringTransitionToRead
    );
    assert!(e.source.is_some());
    assert_eq!(lock.phase_exact(), Phase::Setup);
    lock.begin_transition_to_read().unwrap();
    let e = lock
        .transition_to_read(|_data| Ok::<(), MyError>(()))
        .unwrap_err();
    assert_eq!(e.phase, Phase::Setup);
    assert_eq!(e.kind, PhasedErrorKind::DuringTransitionToRead);
    let e = lock.transition_to_cleanup(WaitStrategy::NoWait).unwrap_err();
    assert_eq!(e.kind, PhasedErrorKind::TransitionToCleanupFailed);
    lock.finish_transition_to_read(|_data| Ok::<(), MyError>(()))
        .unwrap();
    assert_eq!(lock.read_fast().unwrap(), &1);

    let mut lock = PhasedLock::new_for_async(1, "i32");
    let e = lock
        .transition_to_read(|_data| Ok::<(), MyError>(()))
        .unwrap_err();
    assert_eq!(e.kind, PhasedErrorKind::InternalDataIsEmpty);
    assert_eq!(lock.phase_exact(), Phase::Setup);
}

#[test]
fn a_lock_for_tasks_goes_through_the_phases() {
    let mut lock = PhasedLock::new_for_async(0, "i32");
    match lock.lock_for_update_async() {
        Ok(mut data) => *data = 5,
        Err(_) => panic!(),
    }
    lock.transition_to_read_async(|_data| Ok::<(), MyError>(()))
        .unwrap();
    assert_eq!(lock.read_fast().unwrap(), &5);
    match lock.lock_for_update_async() {
        Err(e) => {
            assert_eq!(e.phase, Phase::Read);
            assert_eq!(
                e.kind,
                PhasedErrorKind::CannotCallInReadPhase(text("lock_for_update"))
            );
        }
        Ok(_) => panic!(),
    }
    lock.transition_to_cleanup_async(WaitStrategy::NoWait)
        .unwrap();
    match lock.lock_for_update_async() {
        Ok(data) => assert_eq!(*data, 5),
        Err(_) => panic!(),
    }
    let e = lock
        .transition_to_read_async(|_data| Ok::<(), MyError>(()))
        .unwrap_err();
    assert_eq!(e.phase, Phase::Cleanup);
    assert_eq!(e.kind, PhasedErrorKind::TransitionToReadFailed);
}

#[test]
fn a_lock_for_tasks_waits_for_its_readers() {
    let timeout = Duration::from_secs(2);
    let strategy = WaitStrategy::GracefulWait { timeout };
    let mut lock = reading_async(2);
    let e = lock.transition_to_cleanup_async(strategy).unwrap_err();
    assert_eq!(e.kind, PhasedErrorKind::TransitionToCleanupTimeout(strategy));
    assert_eq!(lock.phase_exact(), Phase::Cleanup);
    assert!(lock.lock_for_update_async().is_ok());

    let mut lock = reading_async(1);
    lock.begin_transition_to_cleanup_async().unwrap();
    assert_eq!(
        lock.finish_reading_gracefully_async().unwrap(),
        CountDown::Counted { wakes: true }
    );
    assert_eq!(
        lock.finish_reading_gracefully_async().unwrap(),
        CountDown::Excessive
    );
    assert!(lock.end_transition_to_cleanup_async(Some(timeout)).is_ok());
    assert_eq!(lock.phase_exact(), Phase::Cleanup);

    let mut lock = PhasedLock::new_for_async(1, "i32");
    let e = lock.finish_reading_gracefully_async().unwrap_err();
    assert_eq!(e.phase, Phase::Setup);
    assert_eq!(
        e.kind,
        PhasedErrorKind::CannotCallInSetupPhase(text("finish_reading_gracefully"))
    );
    lock.begin_transition_to_read_async().unwrap();
    let e = lock.begin_transition_to_read_async().unwrap_err();
    assert_eq!(e.phase, Phase::Setup);
    assert_eq!(e.kind, PhasedErrorKind::DuringTransitionToRead);
    let e = lock
        .finish_transition_to_read_async(|_data| Err(MyError {}))
        .unwrap_err();
    assert!(e.source.is_some());
    assert_eq!(lock.phase_exact(), Phase::Setup);
}

#[test]
fn a_lock_for_tasks_without_data_is_read_as_empty() {
    let mut lock = PhasedLock::new(1, "i32");
    lock.transition_to_read_async(|_data| Ok::<(), MyError>(()))
        .unwrap();
    assert_eq!(lock.phase_exact(), Phase::Read);
    let e = lock.read_fast().unwrap_err();
    assert_eq!(e.phase, Phase::Read);
    assert_eq!(e.kind, PhasedErrorKind::InternalDataIsEmpty);
    let mut lock = PhasedLock::new(1, "i32");
    match lock.lock_for_update_async() {
        Err(e) => assert_eq!(e.kind, PhasedErrorKind::InternalDataIsEmpty),
        Ok(_) => panic!(),
    }
}

#[test]
fn new_static() {
    let lock = task_lock::PhasedLock::new(1, "i32");
    assert_eq!(lock.phase_fast(), Phase::Setup);
    assert_eq!(lock.phase_exact(), Phase::Setup);
}

#[test]
fn a_lock_only_for_tasks_goes_through_the_phases() {
    let mut lock = task_lock::PhasedLock::new(1, "i32");
    match lock.lock_for_update() {
        Ok(mut data) => *data += 1,
        Err(_) => panic!(),
    }
    let e = lock.finish_reading_gracefully().unwrap_err();
    assert_eq!(
        e.kind,
        PhasedErrorKind::CannotCallInSetupPhase(
            "setup_read_cleanup::tokio::PhasedLock<i32>::finish_reading_gracefully".to_string()
        )
    );
    lock.transition_to_read(|_data| Ok::<(), MyError>(())).unwrap();
    assert_eq!(lock.phase_fast(), Phase::Read);
    assert_eq!(lock.read_fast().unwrap(), &2);
    assert_eq!(lock.read_gracefully().unwrap(), &2);
    assert!(lock.lock_for_update().is_err());
    assert_eq!(
        lock.finish_reading_gracefully().unwrap(),
        CountDown::Counted { wakes: false }
    );
    lock.transition_to_cleanup(WaitStrategy::NoWait).unwrap();
    assert_eq!(lock.phase_fast(), Phase::Cleanup);
    match lock.lock_for_update() {
        Ok(data) => assert_eq!(*data, 2),
        Err(_) => panic!(),
    }
}

#[test]
fn guards_of_locks_read_and_change_what_is_guarded() {
    let mut guarded = Some(1);
    *PhasedStdMutexGuard::try_new(&mut guarded).unwrap() += 1;
    *PhasedTokioMutexGuard::try_new(&mut guarded).unwrap() += 10;
    *PhasedMutexGuard::try_new(&mut guarded).unwrap() += 100;
    assert_eq!(*PhasedStdMutexGuard::try_new(&mut guarded).unwrap(), 112);
    assert_eq!(guarded, Some(112));
    let mut nothing: Option<i32> = None;
    assert!(PhasedStdMutexGuard::try_new(&mut nothing).is_none());
    assert!(PhasedTokioMutexGuard::try_new(&mut nothing).is_none());
    assert!(PhasedMutexGuard::try_new(&mut nothing).is_none());
}

use setup_read_cleanup::graceful::transition::ReadLook;
use setup_read_cleanup::graceful::wait::CountDown;
use setup_read_cleanup::graceful::GracefulPhasedCellSync;
use setup_read_cleanup::{Phase, PhasedError, PhasedErrorKind};
use std::time;

struct MyStruct {
    vec: Vec<String>,
}
impl MyStruct {
    fn new() -> Self {
        Self { vec: Vec::new() }
    }
    fn add(&mut self, s: String) {
        self.vec.push(s);
    }
    fn clear(&mut self) {
        self.vec.clear();
    }
}

#[derive(Debug)]
struct MyError {}

fn text_of(e: &PhasedError<MyError>) -> String {
    e.debug_text(&format!("{:?}", e.source().unwrap()))
}

#[test]
fn phased_cell_sync_transition_from_setup_to_read_then_cleanup() {
    let mut cell = GracefulPhasedCellSync::new(MyStruct::new());
    assert_eq!(cell.phase_relaxed(), Phase::Setup);
    assert_eq!(cell.phase(), Phase::Setup);

    if let Err(e) = cell.transition_to_read(|_data| Ok::<(), MyError>(())) {
        panic!("{e:?}");
    }
    assert_eq!(cell.phase_relaxed(), Phase::Read);
    assert_eq!(cell.phase(), Phase::Read);

    if let Err(e) =
        cell.transition_to_cleanup(time::Duration::from_secs(5), |_data| Ok::<(), MyError>(()))
    {
        panic!("{e:?}");
    }
    assert_eq!(cell.phase_relaxed(), Phase::Cleanup);
    assert_eq!(cell.phase(), Phase::Cleanup);
}

#[test]
fn phased_cell_sync_transition_from_setup_to_cleanup() {
    let mut cell = GracefulPhasedCellSync::new(MyStruct::new());
    assert_eq!(cell.phase_relaxed(), Phase::Setup);
    assert_eq!(cell.phase(), Phase::Setup);

    if let Err(e) =
        cell.transition_to_cleanup(time::Duration::from_secs(5), |_data| Ok::<(), MyError>(()))
    {
        panic!("{e:?}");
    }
    assert_eq!(cell.phase_relaxed(), Phase::Cleanup);
    assert_eq!(cell.phase(), Phase::Cleanup);
}

#[test]
fn phased_cell_sync_fail_to_read_relaxed_if_phase_is_setup() {
    let mut cell = GracefulPhasedCellSync::new(MyStruct::new());
    assert_eq!(cell.phase_relaxed(), Phase::Setup);

    if let Err(e) = cell.read_relaxed() {
        assert_eq!(e.phase(), Phase::Setup);
        assert_eq!(
            e.kind(),
            PhasedErrorKind::CannotCallUnlessPhaseRead("read_relaxed"),
        );
    } else {
        panic!();
    }

    assert_eq!(cell.phase_relaxed(), Phase::Setup);
    assert_eq!(cell.phase(), Phase::Setup);
}

#[test]
fn phased_cell_sync_fail_to_read_relaxed_if_phase_is_cleanup() {
    let mut cell = GracefulPhasedCellSync::new(MyStruct::new());
    assert_eq!(cell.phase_relaxed(), Phase::Setup);

    if let Err(e) =
        cell.transition_to_cleanup(time::Duration::ZERO, |_data| Ok::<(), MyError>(()))
    {
        panic!("{e:?}");
    }

    if let Err(e) = cell.read_relaxed() {
        assert_eq!(e.phase(), Phase::Cleanup);
        assert_eq!(
            e.kind(),
            PhasedErrorKind::CannotCallUnlessPhaseRead("read_relaxed"),
        );
    } else {
        panic!();
    }

    assert_eq!(cell.phase_relaxed(), Phase::Cleanup);
    assert_eq!(cell.phase(), Phase::Cleanup);
}

#[test]
fn phased_cell_sync_fail_to_read_if_phase_is_setup() {
    let mut cell = GracefulPhasedCellSync::new(MyStruct::new());
    assert_eq!(cell.phase(), Phase::Setup);

    if let Err(e) = cell.read() {
        assert_eq!(e.phase(), Phase::Setup);
        assert_eq!(e.kind(), PhasedErrorKind::CannotCallUnlessPhaseRead("read"),);
    } else {
        panic!();
    }

    assert_eq!(cell.phase_relaxed(), Phase::Setup);
    assert_eq!(cell.phase(), Phase::Setup);
}

#[test]
fn phased_cell_sync_fail_to_read_if_phase_is_cleanup() {
    let mut cell = GracefulPhasedCellSync::new(MyStruct::new());
    assert_eq!(cell.phase(), Phase::Setup);

    if let Err(e) =
        cell.transition_to_cleanup(time::Duration::ZERO, |_data| Ok::<(), MyError>(()))
    {
        panic!("{e:?}");
    }

    if let Err(e) = cell.read() {
        assert_eq!(e.phase(), Phase::Cleanup);
        assert_eq!(e.kind(), PhasedErrorKind::CannotCallUnlessPhaseRead("read"),);
    } else {
        panic!();
    }

    assert_eq!(cell.phase_relaxed(), Phase::Cleanup);
    assert_eq!(cell.phase(), Phase::Cleanup);
}

#[test]
fn phased_cell_sync_fail_to_lock_if_phase_is_read() {
    let mut cell = GracefulPhasedCellSync::new(MyStruct::new());

    // Setup -> Read
    if let Err(e) = cell.transition_to_read(|_data| Ok::<(), MyError>(())) {
        panic!("{e:?}");
    }

    if let Err(e) = cell.lock() {
        assert_eq!(e.phase(), Phase::Read);
        assert_eq!(e.kind(), PhasedErrorKind::CannotCallOnPhaseRead("lock"),);
    } else {
        panic!();
    }

    assert_eq!(cell.phase_relaxed(), Phase::Read);
    assert_eq!(cell.phase(), Phase::Read);
}

#[test]
fn phased_cell_sync_fail_to_transition_to_read_if_phase_is_read() {
    let mut cell = GracefulPhasedCellSync::new(MyStruct::new());

    // Setup -> Read
    if let Err(e) = cell.transition_to_read(|_data| Ok::<(), MyError>(())) {
        panic!("{e:?}");
    }

    if let Err(e) = cell.transition_to_read(|_data| Ok::<(), MyError>(())) {
        assert_eq!(e.phase(), Phase::Read);
        assert_eq!(e.kind(), PhasedErrorKind::PhaseIsAlreadyRead);
    } else {
        panic!();
    }

    assert_eq!(cell.phase_relaxed(), Phase::Read);
    assert_eq!(cell.phase(), Phase::Read);
}

#[test]
fn phased_cell_sync_fail_to_transition_to_read_if_phase_is_cleanup() {
    let mut cell = GracefulPhasedCellSync::new(MyStruct::new());

    // Setup -> Read
    if let Err(e) = cell.transition_to_read(|_data| Ok::<(), MyError>(())) {
        panic!("{e:?}");
    }

    if let Err(e) =
        cell.transition_to_cleanup(time::Duration::ZERO, |_data| Ok::<(), MyError>(()))
    {
        panic!("{e:?}");
    }

    if let Err(e) = cell.transition_to_read(|_data| Ok::<(), MyError>(())) {
        assert_eq!(e.phase(), Phase::Cleanup);
        assert_eq!(e.kind(), PhasedErrorKind::PhaseIsAlreadyCleanup);
    } else {
        panic!();
    }

    assert_eq!(cell.phase_relaxed(), Phase::Cleanup);
    assert_eq!(cell.phase(), Phase::Cleanup);
}

#[test]
fn phased_cell_sync_fail_to_transition_to_cleanup_if_phase_is_cleanup() {
    let mut cell = GracefulPhasedCellSync::new(MyStruct::new());

    // Setup -> Read
    if let Err(e) = cell.transition_to_read(|_data| Ok::<(), MyError>(())) {
        panic!("{e:?}");
    }

    if let Err(e) =
        cell.transition_to_cleanup(time::Duration::ZERO, |_data| Ok::<(), MyError>(()))
    {
        panic!("{e:?}");
    }

    if let Err(e) =
        cell.transition_to_cleanup(time::Duration::ZERO, |_data| Ok::<(), MyError>(()))
    {
        assert_eq!(e.phase(), Phase::Cleanup);
        assert_eq!(e.kind(), PhasedErrorKind::PhaseIsAlreadyCleanup);
    } else {
        panic!();
    }

    assert_eq!(cell.phase_relaxed(), Phase::Cleanup);
    assert_eq!(cell.phase(), Phase::Cleanup);
}

#[test]
fn phased_cell_sync_transition_to_cleanup_from_setup_but_closure_failed() {
    let mut cell = GracefulPhasedCellSync::new(MyStruct::new());
    assert_eq!(cell.phase(), Phase::Setup);

    if let Err(e) = cell.transition_to_cleanup(time::Duration::ZERO, |_data| Err(MyError {})) {
        assert_eq!(text_of(&e), "setup_read_cleanup::PhasedError { phase: Cleanup, kind: FailToRunClosureDuringTransitionToCleanup, source: MyError }");
    } else {
        panic!();
    }
    assert_eq!(cell.phase(), Phase::Cleanup);
}

#[test]
fn phased_cell_sync_transition_to_cleanup_from_read_but_closure_failed() {
    let mut cell = GracefulPhasedCellSync::new(MyStruct::new());
    assert_eq!(cell.phase(), Phase::Setup);

    if let Err(e) = cell.transition_to_read(|_data| Ok::<(), MyError>(())) {
        panic!("{e:?}");
    }
    assert_eq!(cell.phase(), Phase::Read);

    if let Err(e) = cell.transition_to_cleanup(time::Duration::ZERO, |_data| Err(MyError {})) {
        assert_eq!(text_of(&e), "setup_read_cleanup::PhasedError { phase: Cleanup, kind: FailToRunClosureDuringTransitionToCleanup, source: MyError }");
    } else {
        panic!();
    }
    assert_eq!(cell.phase(), Phase::Cleanup);
}

#[test]
fn read_on_read_phase() {
    let mut cell = GracefulPhasedCellSync::new(MyStruct::new());
    cell.transition_to_read(|_| Ok::<(), MyError>(())).unwrap();
    assert_eq!(cell.phase(), Phase::Read);

    let data = cell.read().unwrap();
    assert_eq!(data.vec.len(), 0);
    cell.finish_reading();
}

fn reading(n: usize) -> GracefulPhasedCellSync<MyStruct> {
    let mut cell = GracefulPhasedCellSync::new(MyStruct::new());
    match cell.lock() {
        Ok(mut data) => data.add("Hello".to_string()),
        Err(e) => panic!("{e:?}"),
    }
    cell.transition_to_read(|data| {
        data.add("World".to_string());
        Ok::<(), MyError>(())
    })
    .unwrap();
    for _i in 0..n {
        let data = cell.read_relaxed().unwrap();
        assert_eq!(data.vec.as_slice().join(", "), "Hello, World");
    }
    cell
}

#[test]
fn a_cleanup_without_readers_succeeds_and_moves_the_data() {
    let mut cell = reading(0);
    cell.transition_to_cleanup(time::Duration::from_secs(5), |data| {
        assert_eq!(data.vec.as_slice().join(", "), "Hello, World");
        data.add("!!".to_string());
        Ok::<(), MyError>(())
    })
    .unwrap();
    assert_eq!(cell.phase_relaxed(), Phase::Cleanup);
    match cell.lock() {
        Ok(mut data) => {
            assert_eq!(data.vec.as_slice().join(", "), "Hello, World, !!");
            data.clear();
            assert_eq!(&data.vec, &[] as &[String]);
        }
        Err(e) => panic!("{e:?}"),
    };
}

#[test]
fn a_cleanup_with_readers_times_out_but_is_done() {
    let mut cell = reading(3);
    let e = cell
        .transition_to_cleanup(time::Duration::from_secs(1), |data| {
            data.add("!!".to_string());
            Ok::<(), MyError>(())
        })
        .unwrap_err();
    match e.kind() {
        PhasedErrorKind::GracefulWaitTimeout(tm) => {
            assert_eq!(tm, time::Duration::from_secs(1));
        }
        _ => panic!(),
    }
    assert_eq!(e.phase(), Phase::Cleanup);
    assert_eq!(cell.phase(), Phase::Cleanup);
    match cell.lock() {
        Ok(data) => assert_eq!(data.vec.as_slice().join(", "), "Hello, World, !!"),
        Err(e) => panic!("{e:?}"),
    };
}

#[test]
fn an_error_of_the_closure_comes_before_a_timeout() {
    let mut cell = reading(1);
    let e = cell
        .transition_to_cleanup(time::Duration::from_secs(1), |_data| Err(MyError {}))
        .unwrap_err();
    assert_eq!(
        e.kind(),
        PhasedErrorKind::FailToRunClosureDuringTransitionToCleanup
    );
    assert!(e.source().is_some());
}

#[test]
fn the_last_reader_wakes_one_that_waits_to_clean_up() {
    let second = time::Duration::from_secs(1);
    let mut cell = reading(2);
    cell.begin_transition_to_cleanup().unwrap();
    assert_eq!(
        cell.wait_for_cleanup_phase(second, 0).unwrap(),
        Some(1_000_000_000)
    );
    assert_eq!(cell.finish_reading(), CountDown::Counted { wakes: false });
    assert_eq!(
        cell.wait_for_cleanup_phase(second, 400_000_000).unwrap(),
        Some(600_000_000)
    );
    let e = cell
        .wait_for_cleanup_phase(second, 1_000_000_000)
        .unwrap_err();
    assert_eq!(e.phase(), Phase::Cleanup);
    assert_eq!(e.kind(), PhasedErrorKind::GracefulWaitTimeout(second));
    assert_eq!(cell.finish_reading(), CountDown::Counted { wakes: true });
    assert_eq!(
        cell.wait_for_cleanup_phase(second, 500_000_000).unwrap(),
        None
    );
    cell.finish_transition_to_cleanup(None, |_data| Ok::<(), MyError>(()))
        .unwrap();
    assert_eq!(cell.phase(), Phase::Cleanup);
    assert_eq!(cell.finish_reading(), CountDown::Excessive);
}

#[test]
fn a_reader_waits_for_a_transition_to_read() {
    let mut cell = GracefulPhasedCellSync::new(MyStruct::new());
    cell.begin_transition_to_read().unwrap();
    for _i in 0..3 {
        assert_eq!(cell.wait_for_read_phase().unwrap(), ReadLook::Wait);
        assert!(cell.read_or_wait().unwrap().is_none());
    }
    cell.finish_transition_to_read(|data| {
        data.add("left".to_string());
        Ok::<(), MyError>(())
    })
    .unwrap();
    assert_eq!(cell.wait_for_read_phase().unwrap(), ReadLook::Open);
    let data = cell.read_or_wait().unwrap().unwrap();
    assert_eq!(data.vec, vec!["left".to_string()]);
    assert_eq!(cell.read().map(|data| data.vec.len()).unwrap(), 1);
    assert_eq!(cell.finish_reading(), CountDown::Counted { wakes: false });
    assert_eq!(cell.finish_reading(), CountDown::Counted { wakes: false });
}

#[test]
fn a_reader_that_waits_is_told_when_the_transition_fails() {
    let mut cell = GracefulPhasedCellSync::new(MyStruct::new());
    cell.begin_transition_to_read().unwrap();
    assert!(cell
        .finish_transition_to_read(|_data| Err(MyError {}))
        .is_err());
    let e = cell.wait_for_read_phase().unwrap_err();
    assert_eq!(e.phase(), Phase::Setup);
    assert_eq!(e.kind(), PhasedErrorKind::CannotCallUnlessPhaseRead("read"));
    match cell.read_or_wait() {
        Err(e) => assert_eq!(e.kind(), PhasedErrorKind::CannotCallUnlessPhaseRead("read")),
        Ok(_) => panic!(),
    }
    assert_eq!(cell.phase(), Phase::Setup);
}

#[test]
fn locking_is_refused_in_transition() {
    let mut cell = GracefulPhasedCellSync::new(MyStruct::new());
    cell.begin_transition_to_read().unwrap();
    match cell.lock() {
        Err(e) => {
            assert_eq!(e.phase(), Phase::Setup);
            assert_eq!(e.kind(), PhasedErrorKind::DuringTransitionToRead);
        }
        Ok(_) => panic!(),
    }
    let mut cell = reading(0);
    cell.begin_transition_to_cleanup().unwrap();
    match cell.lock() {
        Err(e) => {
            assert_eq!(e.phase(), Phase::Cleanup);
            assert_eq!(e.kind(), PhasedErrorKind::DuringTransitionToCleanup);
        }
        Ok(_) => panic!(),
    }
    let e = cell
        .transition_to_cleanup(time::Duration::ZERO, |_data| Ok::<(), MyError>(()))
        .unwrap_err();
    assert_eq!(e.kind(), PhasedErrorKind::DuringTransitionToCleanup);
    let e = cell
        .transition_to_read(|_data| Ok::<(), MyError>(()))
        .unwrap_err();
    assert_eq!(e.kind(), PhasedErrorKind::DuringTransitionToCleanup);
}

#[test]
fn a_poisoned_data_mutex_is_reported() {
    let mut cell = GracefulPhasedCellSync::new(MyStruct::new());
    cell.poison();
    match cell.lock() {
        Err(e) => assert_eq!(e.kind(), PhasedErrorKind::InternalDataMutexIsPoisoned),
        Ok(_) => panic!(),
    }
    let e = cell
        .transition_to_read(|_data| Ok::<(), MyError>(()))
        .unwrap_err();
    assert_eq!(e.phase(), Phase::Setup);
    assert_eq!(e.kind(), PhasedErrorKind::InternalDataMutexIsPoisoned);
    let e = cell
        .transition_to_cleanup(time::Duration::ZERO, |_data| Ok::<(), MyError>(()))
        .unwrap_err();
    assert_eq!(e.phase(), Phase::Cleanup);
    assert_eq!(e.kind(), PhasedErrorKind::InternalDataMutexIsPoisoned);
    assert_eq!(cell.phase(), Phase::Cleanup);

    let mut cell = reading(0);
    cell.poison();
    let e = cell
        .transition_to_cleanup(time::Duration::ZERO, |_data| Ok::<(), MyError>(()))
        .unwrap_err();
    assert_eq!(e.phase(), Phase::Cleanup);
    assert_eq!(e.kind(), PhasedErrorKind::InternalDataMutexIsPoisoned);
}

#[test]
fn a_poisoned_wait_mutex_is_reported_after_the_transition() {
    let mut cell = GracefulPhasedCellSync::new(MyStruct::new());
    cell.poison_wait();
    let e = cell
        .transition_to_read(|_data| Ok::<(), MyError>(()))
        .unwrap_err();
    assert_eq!(e.phase(), Phase::Setup);
    assert_eq!(e.kind(), PhasedErrorKind::GracefulWaitMutexIsPoisoned);
    assert_eq!(cell.phase(), Phase::Read);

    let e = cell
        .transition_to_cleanup(time::Duration::from_secs(1), |_data| Ok::<(), MyError>(()))
        .unwrap_err();
    assert_eq!(e.phase(), Phase::Cleanup);
    assert_eq!(e.kind(), PhasedErrorKind::GracefulWaitMutexIsPoisoned);
    assert_eq!(cell.phase(), Phase::Cleanup);

    let mut cell = GracefulPhasedCellSync::new(MyStruct::new());
    cell.begin_transition_to_read().unwrap();
    cell.poison_wait();
    assert_eq!(
        cell.wait_for_read_phase().unwrap_err().kind(),
        PhasedErrorKind::GracefulWaitMutexIsPoisoned
    );
    assert!(cell.read_or_wait().is_err());
    match cell.read() {
        Err(e) => {
            assert_eq!(e.phase(), Phase::Setup);
            assert_eq!(e.kind(), PhasedErrorKind::GracefulWaitMutexIsPoisoned);
        }
        Ok(_) => panic!(),
    }
}

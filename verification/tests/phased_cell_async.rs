use setup_read_cleanup::guards::TokioMutexGuard;
use setup_read_cleanup::{Phase, PhasedCellAsync, PhasedErrorKind};

#[derive(Debug)]
struct MyError {}

fn in_read(data: i32) -> PhasedCellAsync<i32> {
    let mut cell = PhasedCellAsync::new(data);
    cell.transition_to_read_async(|_data| Ok::<(), MyError>(()))
        .unwrap();
    cell
}

#[test]
fn data_goes_through_the_phases() {
    let mut cell = PhasedCellAsync::new(vec!["Hello".to_string()]);
    assert_eq!(cell.phase(), Phase::Setup);
    match cell.lock_async() {
        Ok(mut data) => data.push("World".to_string()),
        Err(_) => panic!(),
    }
    cell.transition_to_read_async(|data| {
        data.push("!".to_string());
        Ok::<(), MyError>(())
    })
    .unwrap();
    assert_eq!(cell.phase_relaxed(), Phase::Read);
    assert_eq!(cell.read().unwrap().join(" "), "Hello World !");
    assert_eq!(cell.read_relaxed().unwrap().join(" "), "Hello World !");
    match cell.lock_async() {
        Err(e) => {
            assert_eq!(e.phase(), Phase::Read);
            assert_eq!(
                e.kind(),
                PhasedErrorKind::CannotCallOnPhaseRead("lock_async")
            );
        }
        Ok(_) => panic!(),
    }
    cell.transition_to_cleanup_async(|data| {
        data.clear();
        Ok::<(), MyError>(())
    })
    .unwrap();
    assert_eq!(cell.phase(), Phase::Cleanup);
    match cell.lock_async() {
        Ok(data) => assert!(data.is_empty()),
        Err(_) => panic!(),
    }
    assert_eq!(
        cell.read().unwrap_err().kind(),
        PhasedErrorKind::CannotCallUnlessPhaseRead("read")
    );
}

#[test]
fn data_can_be_forced_through_the_phases() {
    let mut cell = PhasedCellAsync::new(1);
    cell.force_to_read(|data| {
        *data = 2;
        Ok::<(), MyError>(())
    })
    .unwrap();
    assert_eq!(cell.phase(), Phase::Read);
    assert_eq!(cell.read().unwrap(), &2);
    cell.force_to_cleanup(|data| {
        *data = 3;
        Ok::<(), MyError>(())
    })
    .unwrap();
    assert_eq!(cell.phase(), Phase::Cleanup);
    match cell.lock_async() {
        Ok(data) => assert_eq!(*data, 3),
        Err(_) => panic!(),
    }

    let mut cell = PhasedCellAsync::new(1);
    cell.force_to_cleanup(|_data| Ok::<(), MyError>(())).unwrap();
    assert_eq!(cell.phase(), Phase::Cleanup);
    let e = cell
        .force_to_cleanup(|_data| Ok::<(), MyError>(()))
        .unwrap_err();
    assert_eq!(e.kind(), PhasedErrorKind::PhaseIsAlreadyCleanup);
    let e = cell
        .force_to_read(|_data| Ok::<(), MyError>(()))
        .unwrap_err();
    assert_eq!(e.kind(), PhasedErrorKind::PhaseIsAlreadyCleanup);
}

#[test]
fn a_held_mutex_keeps_a_forced_transition_to_read_in_setup() {
    let mut cell = PhasedCellAsync::new(1);
    cell.begin_transition_to_read().unwrap();
    let e = cell
        .finish_force_to_read(false, |_data| Ok::<(), MyError>(()))
        .unwrap_err();
    assert_eq!(e.phase(), Phase::Setup);
    assert_eq!(e.kind(), PhasedErrorKind::MutexTryLockFailed);
    assert_eq!(cell.phase(), Phase::Setup);
    cell.force_to_read(|_data| Ok::<(), MyError>(())).unwrap();
    assert_eq!(cell.phase(), Phase::Read);
}

#[test]
fn a_held_mutex_ends_a_forced_cleanup_from_read_without_the_closure() {
    let mut cell = in_read(1);
    cell.begin_transition_to_cleanup().unwrap();
    let e = cell
        .finish_force_to_cleanup(false, |_data| Ok::<(), MyError>(()))
        .unwrap_err();
    assert_eq!(e.phase(), Phase::Cleanup);
    assert_eq!(e.kind(), PhasedErrorKind::MutexTryLockFailed);
    assert_eq!(cell.phase(), Phase::Cleanup);
    let e = cell.begin_transition_to_cleanup().unwrap_err();
    assert_eq!(e.kind(), PhasedErrorKind::PhaseIsAlreadyCleanup);
    match cell.lock_async() {
        Ok(mut data) => {
            assert_eq!(*data, 1);
            *data = 5;
        }
        Err(_) => panic!(),
    }
    match cell.lock_async() {
        Ok(data) => assert_eq!(*data, 5),
        Err(_) => panic!(),
    }
}

#[test]
fn a_held_mutex_ends_a_forced_cleanup_from_setup_without_the_closure() {
    let mut cell = PhasedCellAsync::new(1);
    cell.begin_transition_to_cleanup().unwrap();
    let e = cell
        .finish_force_to_cleanup(false, |_data| Ok::<(), MyError>(()))
        .unwrap_err();
    assert_eq!(e.phase(), Phase::Cleanup);
    assert_eq!(e.kind(), PhasedErrorKind::MutexTryLockFailed);
    assert_eq!(cell.phase(), Phase::Cleanup);
    let e = cell.begin_transition_to_cleanup().unwrap_err();
    assert_eq!(e.kind(), PhasedErrorKind::PhaseIsAlreadyCleanup);
    match cell.lock_async() {
        Ok(data) => assert_eq!(*data, 1),
        Err(_) => panic!(),
    }
}

#[test]
fn failing_closures_are_the_source_of_the_error() {
    let mut cell = PhasedCellAsync::new(1);
    let e = cell
        .transition_to_read_async(|_data| Err(MyError {}))
        .unwrap_err();
    assert_eq!(e.phase(), Phase::Setup);
    assert_eq!(
        e.kind(),
        PhasedErrorKind::FailToRunClosureDuringTransitionToRead
    );
    assert_eq!(cell.phase(), Phase::Setup);
    let e = cell.force_to_read(|_data| Err(MyError {})).unwrap_err();
    assert!(e.source().is_some());
    assert_eq!(cell.phase(), Phase::Setup);

    let e = cell.force_to_cleanup(|_data| Err(MyError {})).unwrap_err();
    assert_eq!(e.phase(), Phase::Cleanup);
    assert_eq!(
        e.kind(),
        PhasedErrorKind::FailToRunClosureDuringTransitionToCleanup
    );
    assert_eq!(cell.phase(), Phase::Cleanup);

    let mut cell = in_read(1);
    let e = cell
        .transition_to_cleanup_async(|_data| Err(MyError {}))
        .unwrap_err();
    assert!(e.source().is_some());
    assert_eq!(cell.phase(), Phase::Cleanup);
}

#[test]
fn a_cell_in_transition_refuses_other_transitions() {
    let mut cell = PhasedCellAsync::new(1);
    cell.begin_transition_to_read().unwrap();
    let e = cell
        .transition_to_read_async(|_data| Ok::<(), MyError>(()))
        .unwrap_err();
    assert_eq!(e.kind(), PhasedErrorKind::DuringTransitionToRead);
    let e = cell
        .force_to_cleanup(|_data| Ok::<(), MyError>(()))
        .unwrap_err();
    assert_eq!(e.kind(), PhasedErrorKind::DuringTransitionToRead);
    match cell.lock_async() {
        Err(e) => assert_eq!(e.kind(), PhasedErrorKind::DuringTransitionToRead),
        Ok(_) => panic!(),
    }
    cell.finish_transition_to_read(|_data| Ok::<(), MyError>(()))
        .unwrap();
    let e = cell
        .force_to_read(|_data| Ok::<(), MyError>(()))
        .unwrap_err();
    assert_eq!(e.kind(), PhasedErrorKind::PhaseIsAlreadyRead);
    cell.begin_transition_to_cleanup().unwrap();
    let e = cell
        .transition_to_cleanup_async(|_data| Ok::<(), MyError>(()))
        .unwrap_err();
    assert_eq!(e.kind(), PhasedErrorKind::DuringTransitionToCleanup);
    match cell.lock_async() {
        Err(e) => assert_eq!(e.kind(), PhasedErrorKind::DuringTransitionToCleanup),
        Ok(_) => panic!(),
    }
    cell.finish_transition_to_cleanup(|data| {
        *data = 7;
        Ok::<(), MyError>(())
    })
    .unwrap();
    match cell.lock_async() {
        Ok(data) => assert_eq!(*data, 7),
        Err(_) => panic!(),
    }
}

#[test]
fn a_tokio_guard_reads_and_changes_what_is_guarded() {
    let mut guarded = Some(5);
    {
        let mut guard = TokioMutexGuard::try_new(&mut guarded).unwrap();
        *guard += 1;
        assert_eq!(*guard, 6);
    }
    assert_eq!(guarded, Some(6));
    let mut nothing: Option<i32> = None;
    assert!(TokioMutexGuard::try_new(&mut nothing).is_none());
}

use setup_read_cleanup::guards::StdMutexGuard;
use setup_read_cleanup::{Phase, PhasedCellSync, PhasedErrorKind};

#[derive(Debug)]
struct MyError {}

struct MyData {
    items: Vec<i32>,
}

#[test]
fn data_is_set_up_read_and_cleaned_up() {
    let mut cell = PhasedCellSync::new(MyData { items: Vec::new() });
    assert_eq!(cell.phase(), Phase::Setup);
    {
        let mut data = cell.lock().map_err(|e| e.kind()).ok().unwrap();
        data.items.push(10);
        data.items.push(20);
    }

    cell.transition_to_read(|data| {
        data.items.push(30);
        Ok::<(), std::io::Error>(())
    })
    .unwrap();
    assert_eq!(cell.phase(), Phase::Read);

    for _i in 0..3 {
        let data = cell.read().unwrap();
        assert_eq!(data.items, &[10, 20, 30]);
        let data = cell.read_relaxed().unwrap();
        assert_eq!(data.items, &[10, 20, 30]);
    }

    cell.transition_to_cleanup(|data| {
        assert_eq!(data.items.pop(), Some(30));
        Ok::<(), std::io::Error>(())
    })
    .unwrap();
    assert_eq!(cell.phase(), Phase::Cleanup);
    assert_eq!(cell.phase_relaxed(), Phase::Cleanup);
    match cell.lock() {
        Ok(data) => assert_eq!(data.items, &[10, 20]),
        Err(_) => panic!(),
    }
}

#[test]
fn data_can_be_cleaned_up_from_setup() {
    let mut cell = PhasedCellSync::new(1);
    cell.transition_to_cleanup(|data| {
        *data += 1;
        Ok::<(), MyError>(())
    })
    .unwrap();
    assert_eq!(cell.phase(), Phase::Cleanup);
    match cell.lock() {
        Ok(data) => assert_eq!(*data, 2),
        Err(_) => panic!(),
    }
}

#[test]
fn reading_and_locking_are_refused_outside_of_their_phases() {
    let mut cell = PhasedCellSync::new(1);
    let e = cell.read().unwrap_err();
    assert_eq!(e.phase(), Phase::Setup);
    assert_eq!(e.kind(), PhasedErrorKind::CannotCallUnlessPhaseRead("read"));
    let e = cell.read_relaxed().unwrap_err();
    assert_eq!(
        e.kind(),
        PhasedErrorKind::CannotCallUnlessPhaseRead("read_relaxed")
    );

    cell.begin_transition_to_read().unwrap();
    match cell.lock() {
        Err(e) => {
            assert_eq!(e.phase(), Phase::Setup);
            assert_eq!(e.kind(), PhasedErrorKind::DuringTransitionToRead);
        }
        Ok(_) => panic!(),
    }
    let e = cell.begin_transition_to_cleanup().unwrap_err();
    assert_eq!(e.kind(), PhasedErrorKind::DuringTransitionToRead);
    cell.finish_transition_to_read(|_data| Ok::<(), MyError>(()))
        .unwrap();
    match cell.lock() {
        Err(e) => {
            assert_eq!(e.phase(), Phase::Read);
            assert_eq!(e.kind(), PhasedErrorKind::CannotCallOnPhaseRead("lock"));
        }
        Ok(_) => panic!(),
    }
    let e = cell
        .transition_to_read(|_data| Ok::<(), MyError>(()))
        .unwrap_err();
    assert_eq!(e.phase(), Phase::Read);
    assert_eq!(e.kind(), PhasedErrorKind::PhaseIsAlreadyRead);

    cell.begin_transition_to_cleanup().unwrap();
    match cell.lock() {
        Err(e) => {
            assert_eq!(e.phase(), Phase::Cleanup);
            assert_eq!(e.kind(), PhasedErrorKind::DuringTransitionToCleanup);
        }
        Ok(_) => panic!(),
    }
    let e = cell.begin_transition_to_read().unwrap_err();
    assert_eq!(e.kind(), PhasedErrorKind::DuringTransitionToCleanup);
    cell.finish_transition_to_cleanup(|_data| Ok::<(), MyError>(()))
        .unwrap();
    let e = cell.begin_transition_to_cleanup().unwrap_err();
    assert_eq!(e.phase(), Phase::Cleanup);
    assert_eq!(e.kind(), PhasedErrorKind::PhaseIsAlreadyCleanup);
    let e = cell.begin_transition_to_read().unwrap_err();
    assert_eq!(e.kind(), PhasedErrorKind::PhaseIsAlreadyCleanup);
}

#[test]
fn a_failing_closure_undoes_a_transition_to_read_but_not_one_to_cleanup() {
    let mut cell = PhasedCellSync::new(1);
    let e = cell
        .transition_to_read(|data| {
            *data = 2;
            Err(MyError {})
        })
        .unwrap_err();
    assert_eq!(e.phase(), Phase::Setup);
    assert_eq!(
        e.kind(),
        PhasedErrorKind::FailToRunClosureDuringTransitionToRead
    );
    assert!(e.source().is_some());
    assert_eq!(cell.phase(), Phase::Setup);

    cell.transition_to_read(|_data| Ok::<(), MyError>(())).unwrap();
    let e = cell
        .transition_to_cleanup(|data| {
            *data = 3;
            Err(MyError {})
        })
        .unwrap_err();
    assert_eq!(e.phase(), Phase::Cleanup);
    assert_eq!(
        e.kind(),
        PhasedErrorKind::FailToRunClosureDuringTransitionToCleanup
    );
    assert_eq!(cell.phase(), Phase::Cleanup);
    match cell.lock() {
        Ok(data) => assert_eq!(*data, 3),
        Err(_) => panic!(),
    }
}

#[test]
fn a_poisoned_mutex_is_reported_by_every_operation_that_needs_it() {
    let mut cell = PhasedCellSync::new(1);
    cell.poison();
    match cell.lock() {
        Err(e) => {
            assert_eq!(e.phase(), Phase::Setup);
            assert_eq!(e.kind(), PhasedErrorKind::InternalDataMutexIsPoisoned);
        }
        Ok(_) => panic!(),
    }
    let e = cell
        .transition_to_read(|_data| Ok::<(), MyError>(()))
        .unwrap_err();
    assert_eq!(e.phase(), Phase::Setup);
    assert_eq!(e.kind(), PhasedErrorKind::InternalDataMutexIsPoisoned);
    assert_eq!(cell.phase(), Phase::Setup);

    let e = cell
        .transition_to_cleanup(|_data| Ok::<(), MyError>(()))
        .unwrap_err();
    assert_eq!(e.phase(), Phase::Cleanup);
    assert_eq!(e.kind(), PhasedErrorKind::InternalDataMutexIsPoisoned);
    assert_eq!(cell.phase(), Phase::Cleanup);

    let mut cell = PhasedCellSync::new(1);
    cell.transition_to_read(|_data| Ok::<(), MyError>(())).unwrap();
    cell.poison();
    assert_eq!(cell.read().unwrap(), &1);
    let e = cell
        .transition_to_cleanup(|_data| Ok::<(), MyError>(()))
        .unwrap_err();
    assert_eq!(e.kind(), PhasedErrorKind::InternalDataMutexIsPoisoned);
    match cell.lock() {
        Err(e) => {
            assert_eq!(e.phase(), Phase::Cleanup);
            assert_eq!(e.kind(), PhasedErrorKind::InternalDataMutexIsPoisoned);
        }
        Ok(_) => panic!(),
    }
}

#[test]
fn a_guard_reads_and_changes_what_is_guarded() {
    let mut guarded = Some(5);
    {
        let mut guard = StdMutexGuard::try_new(&mut guarded).unwrap();
        assert_eq!(*guard, 5);
        *guard = 6;
        assert_eq!(*guard, 6);
    }
    assert_eq!(guarded, Some(6));

    let mut nothing: Option<i32> = None;
    assert!(StdMutexGuard::try_new(&mut nothing).is_none());
}

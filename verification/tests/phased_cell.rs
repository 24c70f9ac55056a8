use setup_read_cleanup::{Phase, PhasedCell, PhasedError, PhasedErrorKind};

struct MyStruct {
    vec: Vec<String>,
}
impl MyStruct {
    fn new() -> Self {
        Self { vec: Vec::new() }
    }
    fn add(&mut self, s: String) {
        self.vec.push(s);
    }
    fn clear(&mut self) {
        self.vec.clear();
    }
}

#[derive(Debug)]
struct MyError {}

fn text_of(e: &PhasedError<MyError>) -> String {
    e.debug_text(&format!("{:?}", e.source().unwrap()))
}

#[test]
fn phased_cell_transition_from_setup_to_read_then_cleanup() {
    let mut cell = PhasedCell::new(MyStruct::new());
    assert_eq!(cell.phase_relaxed(), Phase::Setup);
    assert_eq!(cell.phase(), Phase::Setup);

    if let Err(e) = cell.transition_to_read(|_data| Ok::<(), MyError>(())) {
        panic!("{e:?}");
    }
    assert_eq!(cell.phase_relaxed(), Phase::Read);
    assert_eq!(cell.phase(), Phase::Read);

    if let Err(e) = cell.transition_to_cleanup(|_data| Ok::<(), MyError>(())) {
        panic!("{e:?}");
    }
    assert_eq!(cell.phase_relaxed(), Phase::Cleanup);
    assert_eq!(cell.phase(), Phase::Cleanup);
}

#[test]
fn phased_cell_transition_from_setup_to_cleanup() {
    let mut cell = PhasedCell::new(MyStruct::new());
    assert_eq!(cell.phase_relaxed(), Phase::Setup);
    assert_eq!(cell.phase(), Phase::Setup);

    if let Err(e) = cell.transition_to_cleanup(|_data| Ok::<(), MyError>(())) {
        panic!("{e:?}");
    }
    assert_eq!(cell.phase_relaxed(), Phase::Cleanup);
    assert_eq!(cell.phase(), Phase::Cleanup);
}

#[test]
fn phased_cell_update_internal_data_in_setup_and_cleanup_phases() {
    let mut cell = PhasedCell::new(MyStruct::new());
    assert_eq!(cell.phase_relaxed(), Phase::Setup);
    assert_eq!(cell.phase(), Phase::Setup);

    match cell.get_mut_unlocked() {
        Ok(data) => data.add("Hello".to_string()),
        Err(e) => panic!("{e:?}"),
    }

    // Setup -> Read
    if let Err(e) = cell.transition_to_read(|data| {
        data.add("World".to_string());
        Ok::<(), MyError>(())
    }) {
        panic!("{e:?}");
    }
    assert_eq!(cell.phase_relaxed(), Phase::Read);
    assert_eq!(cell.phase(), Phase::Read);

    if let Ok(data) = cell.read_relaxed() {
        assert_eq!(&data.vec, &["Hello".to_string(), "World".to_string()]);
    } else {
        panic!();
    }

    // Read -> Cleanup
    if let Err(e) = cell.transition_to_cleanup(|_data| Ok::<(), MyError>(())) {
        panic!("{e:?}");
    }
    assert_eq!(cell.phase_relaxed(), Phase::Cleanup);
    assert_eq!(cell.phase(), Phase::Cleanup);

    if let Ok(data) = cell.get_mut_unlocked() {
        data.add("!".to_string());
        assert_eq!(
            &data.vec,
            &["Hello".to_string(), "World".to_string(), "!".to_string()]
        );
        data.clear();
        assert_eq!(&data.vec, &[] as &[String]);
    } else {
        panic!();
    }
}

#[test]
fn phased_cell_fail_to_read_relaxed_if_phase_is_setup() {
    let mut cell = PhasedCell::new(MyStruct::new());
    assert_eq!(cell.phase_relaxed(), Phase::Setup);

    if let Err(e) = cell.read_relaxed() {
        assert_eq!(e.phase(), Phase::Setup);
        assert_eq!(
            e.kind(),
            PhasedErrorKind::CannotCallUnlessPhaseRead("read_relaxed"),
        );
    } else {
        panic!();
    }

    assert_eq!(cell.phase_relaxed(), Phase::Setup);
    assert_eq!(cell.phase(), Phase::Setup);
}

#[test]
fn phased_cell_fail_to_read_relaxed_if_phase_is_cleanup() {
    let mut cell = PhasedCell::new(MyStruct::new());
    assert_eq!(cell.phase_relaxed(), Phase::Setup);

    if let Err(e) = cell.transition_to_cleanup(|_data| Ok::<(), MyError>(())) {
        panic!("{e:?}");
    }

    if let Err(e) = cell.read_relaxed() {
        assert_eq!(e.phase(), Phase::Cleanup);
        assert_eq!(
            e.kind(),
            PhasedErrorKind::CannotCallUnlessPhaseRead("read_relaxed")
        );
    } else {
        panic!();
    }

    assert_eq!(cell.phase_relaxed(), Phase::Cleanup);
    assert_eq!(cell.phase(), Phase::Cleanup);
}

#[test]
fn phased_cell_fail_to_read_if_phase_is_setup() {
    let mut cell = PhasedCell::new(MyStruct::new());
    assert_eq!(cell.phase(), Phase::Setup);

    if let Err(e) = cell.read() {
        assert_eq!(e.phase(), Phase::Setup);
        assert_eq!(e.kind(), PhasedErrorKind::CannotCallUnlessPhaseRead("read"));
    } else {
        panic!();
    }

    assert_eq!(cell.phase_relaxed(), Phase::Setup);
    assert_eq!(cell.phase(), Phase::Setup);
}

#[test]
fn phased_cell_fail_to_read_if_phase_is_cleanup() {
    let mut cell = PhasedCell::new(MyStruct::new());
    assert_eq!(cell.phase(), Phase::Setup);

    if let Err(e) = cell.transition_to_cleanup(|_data| Ok::<(), MyError>(())) {
        panic!("{e:?}");
    }

    if let Err(e) = cell.read() {
        assert_eq!(e.phase(), Phase::Cleanup);
        assert_eq!(e.kind(), PhasedErrorKind::CannotCallUnlessPhaseRead("read"));
    } else {
        panic!();
    }

    assert_eq!(cell.phase_relaxed(), Phase::Cleanup);
    assert_eq!(cell.phase(), Phase::Cleanup);
}

#[test]
fn fail_to_get_mut_unlocked_if_phase_is_read() {
    let mut cell = PhasedCell::new(MyStruct::new());

    // Setup -> Read
    if let Err(e) = cell.transition_to_read(|_data| Ok::<(), MyError>(())) {
        panic!("{e:?}");
    }

    if let Err(e) = cell.get_mut_unlocked() {
        assert_eq!(e.phase(), Phase::Read);
        assert_eq!(
            e.kind(),
            PhasedErrorKind::CannotCallOnPhaseRead("get_mut_unlocked"),
        );
    } else {
        panic!();
    }

    assert_eq!(cell.phase_relaxed(), Phase::Read);
    assert_eq!(cell.phase(), Phase::Read);
}

#[test]
fn phased_cell_fail_to_transition_to_read_if_phase_is_read() {
    let mut cell = PhasedCell::new(MyStruct::new());

    // Setup -> Read
    if let Err(e) = cell.transition_to_read(|_data| Ok::<(), MyError>(())) {
        panic!("{e:?}");
    }

    if let Err(e) = cell.transition_to_read(|_data| Ok::<(), MyError>(())) {
        assert_eq!(e.phase(), Phase::Read);
        assert_eq!(e.kind(), PhasedErrorKind::PhaseIsAlreadyRead);
    } else {
        panic!();
    }

    assert_eq!(cell.phase_relaxed(), Phase::Read);
    assert_eq!(cell.phase(), Phase::Read);
}

#[test]
fn phased_cell_fail_to_transition_to_read_if_phase_is_cleanup() {
    let mut cell = PhasedCell::new(MyStruct::new());

    // Setup -> Read
    if let Err(e) = cell.transition_to_read(|_data| Ok::<(), MyError>(())) {
        panic!("{e:?}");
    }

    if let Err(e) = cell.transition_to_cleanup(|_data| Ok::<(), MyError>(())) {
        panic!("{e:?}");
    }

    if let Err(e) = cell.transition_to_read(|_data| Ok::<(), MyError>(())) {
        assert_eq!(e.phase(), Phase::Cleanup);
        assert_eq!(e.kind(), PhasedErrorKind::PhaseIsAlreadyCleanup);
    } else {
        panic!();
    }

    assert_eq!(cell.phase_relaxed(), Phase::Cleanup);
    assert_eq!(cell.phase(), Phase::Cleanup);
}

#[test]
fn phased_cell_fail_to_transition_to_cleanup_if_phase_is_cleanup() {
    let mut cell = PhasedCell::new(MyStruct::new());

    // Setup -> Read
    if let Err(e) = cell.transition_to_read(|_data| Ok::<(), MyError>(())) {
        panic!("{e:?}");
    }

    if let Err(e) = cell.transition_to_cleanup(|_data| Ok::<(), MyError>(())) {
        panic!("{e:?}");
    }

    if let Err(e) = cell.transition_to_cleanup(|_data| Ok::<(), MyError>(())) {
        assert_eq!(e.phase(), Phase::Cleanup);
        assert_eq!(e.kind(), PhasedErrorKind::PhaseIsAlreadyCleanup);
    } else {
        panic!();
    }

    assert_eq!(cell.phase_relaxed(), Phase::Cleanup);
    assert_eq!(cell.phase(), Phase::Cleanup);
}

#[test]
fn phased_cell_transition_to_cleanup_from_setup_but_closure_failed() {
    let mut cell = PhasedCell::new(MyStruct::new());
    assert_eq!(cell.phase(), Phase::Setup);

    if let Err(e) = cell.transition_to_cleanup(|_data| Err(MyError {})) {
        assert_eq!(text_of(&e), "setup_read_cleanup::PhasedError { phase: Cleanup, kind: FailToRunClosureDuringTransitionToCleanup, source: MyError }");
    } else {
        panic!();
    }
    assert_eq!(cell.phase(), Phase::Cleanup);
}

#[test]
fn phased_cell_transition_to_cleanup_from_read_but_closure_failed() {
    let mut cell = PhasedCell::new(MyStruct::new());
    assert_eq!(cell.phase(), Phase::Setup);

    if let Err(e) = cell.transition_to_read(|_data| Ok::<(), MyError>(())) {
        panic!("{e:?}");
    }
    assert_eq!(cell.phase(), Phase::Read);

    if let Err(e) = cell.transition_to_cleanup(|_data| Err(MyError {})) {
        assert_eq!(text_of(&e), "setup_read_cleanup::PhasedError { phase: Cleanup, kind: FailToRunClosureDuringTransitionToCleanup, source: MyError }");
    } else {
        panic!();
    }
    assert_eq!(cell.phase(), Phase::Cleanup);
}

#[test]
fn a_cell_refuses_everything_during_a_transition_to_read() {
    let mut cell = PhasedCell::new(MyStruct::new());
    cell.begin_transition_to_read().unwrap();
    assert_eq!(cell.phase(), Phase::Setup);
    assert_eq!(cell.phase_relaxed(), Phase::Setup);

    let e = cell.begin_transition_to_read().unwrap_err();
    assert_eq!(e.phase(), Phase::Setup);
    assert_eq!(e.kind(), PhasedErrorKind::DuringTransitionToRead);

    let e = cell
        .transition_to_cleanup(|_data| Ok::<(), MyError>(()))
        .unwrap_err();
    assert_eq!(e.phase(), Phase::Setup);
    assert_eq!(e.kind(), PhasedErrorKind::DuringTransitionToRead);

    match cell.get_mut_unlocked() {
        Err(e) => {
            assert_eq!(e.phase(), Phase::Setup);
            assert_eq!(e.kind(), PhasedErrorKind::DuringTransitionToRead);
        }
        Ok(_) => panic!(),
    }
    match cell.read() {
        Err(e) => {
            assert_eq!(e.phase(), Phase::Setup);
            assert_eq!(e.kind(), PhasedErrorKind::CannotCallUnlessPhaseRead("read"));
        }
        Ok(_) => panic!(),
    }

    cell.finish_transition_to_read(|data| {
        data.add("x".to_string());
        Ok::<(), MyError>(())
    })
    .unwrap();
    assert_eq!(cell.phase(), Phase::Read);
    assert_eq!(cell.read().map(|data| data.vec.len()).unwrap(), 1);
}

#[test]
fn a_cell_refuses_everything_during_a_transition_to_cleanup() {
    for from_read in [false, true] {
        let mut cell = PhasedCell::new(MyStruct::new());
        if from_read {
            cell.transition_to_read(|_data| Ok::<(), MyError>(())).unwrap();
        }
        cell.begin_transition_to_cleanup().unwrap();
        assert_eq!(cell.phase(), Phase::Cleanup);

        let e = cell
            .transition_to_read(|_data| Ok::<(), MyError>(()))
            .unwrap_err();
        assert_eq!(e.phase(), Phase::Cleanup);
        assert_eq!(e.kind(), PhasedErrorKind::DuringTransitionToCleanup);

        let e = cell.begin_transition_to_cleanup().unwrap_err();
        assert_eq!(e.phase(), Phase::Cleanup);
        assert_eq!(e.kind(), PhasedErrorKind::DuringTransitionToCleanup);

        match cell.get_mut_unlocked() {
            Err(e) => {
                assert_eq!(e.phase(), Phase::Cleanup);
                assert_eq!(e.kind(), PhasedErrorKind::DuringTransitionToCleanup);
            }
            Ok(_) => panic!(),
        }
        assert!(cell.read_relaxed().is_err());

        cell.finish_transition_to_cleanup(|_data| Ok::<(), MyError>(()))
            .unwrap();
        assert_eq!(cell.phase(), Phase::Cleanup);
        assert!(cell.get_mut_unlocked().is_ok());
    }
}

#[test]
fn a_failed_transition_to_read_is_undone_and_can_be_repeated() {
    let mut cell = PhasedCell::new(MyStruct::new());
    let e = cell
        .transition_to_read(|data| {
            data.add("first".to_string());
            Err(MyError {})
        })
        .unwrap_err();
    assert_eq!(text_of(&e), "setup_read_cleanup::PhasedError { phase: Setup, kind: FailToRunClosureDuringTransitionToRead, source: MyError }");
    assert_eq!(cell.phase(), Phase::Setup);

    cell.transition_to_read(|data| {
        data.add("second".to_string());
        Ok::<(), MyError>(())
    })
    .unwrap();
    assert_eq!(cell.phase(), Phase::Read);
    assert_eq!(
        cell.read().map(|data| data.vec.clone()).unwrap(),
        vec!["first".to_string(), "second".to_string()]
    );
}

#[test]
fn all_readers_see_what_the_transition_left() {
    let mut cell = PhasedCell::new(MyStruct::new());
    cell.transition_to_read(|data| {
        data.add("left".to_string());
        Ok::<(), MyError>(())
    })
    .unwrap();
    for _i in 0..3 {
        assert!(cell.get_mut_unlocked().is_err());
        assert!(cell
            .transition_to_read(|data| {
                data.add("right".to_string());
                Ok::<(), MyError>(())
            })
            .is_err());
        let data = cell.read().unwrap();
        assert_eq!(&data.vec, &["left".to_string()]);
        let data = cell.read_relaxed().unwrap();
        assert_eq!(&data.vec, &["left".to_string()]);
    }
}

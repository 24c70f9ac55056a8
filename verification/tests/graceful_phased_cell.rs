use setup_read_cleanup::graceful::transition::ReadLook;
use setup_read_cleanup::graceful::wait::CountDown;
use setup_read_cleanup::graceful::GracefulPhasedCell;
use setup_read_cleanup::{Phase, PhasedErrorKind};
use std::time::Duration;

#[derive(Debug)]
struct MyError {}

fn reading(n: usize) -> GracefulPhasedCell<Vec<String>> {
    let mut cell = GracefulPhasedCell::new(Vec::new());
    for i in 0..3 {
        cell.get_mut_unlocked()
            .unwrap()
            .push("A-".to_string() + &i.to_string());
    }
    cell.transition_to_read(|data| {
        data.push("B".to_string());
        Ok::<(), MyError>(())
    })
    .unwrap();
    for _i in 0..n {
        let data = cell.read_relaxed().unwrap();
        assert_eq!(data.join(", "), "A-0, A-1, A-2, B");
    }
    cell
}

#[test]
fn data_goes_through_the_phases_of_a_graceful_cell() {
    let mut cell = reading(10);
    for _i in 0..10 {
        assert_eq!(cell.finish_reading(), CountDown::Counted { wakes: false });
    }
    cell.transition_to_cleanup(Duration::from_secs(5), |data| {
        data.push("C".to_string());
        Ok::<(), MyError>(())
    })
    .unwrap();
    for i in 0..4 {
        cell.get_mut_unlocked()
            .unwrap()
            .push("D-".to_string() + &i.to_string());
    }
    let data = cell.get_mut_unlocked().unwrap();
    assert_eq!(
        data.join(", "),
        "A-0, A-1, A-2, B, C, D-0, D-1, D-2, D-3"
    );
    data.clear();
    assert!(data.is_empty());
}

#[test]
fn a_graceful_cell_waits_for_its_readers_and_times_out() {
    let mut cell = reading(2);
    let e = cell
        .transition_to_cleanup(Duration::from_millis(20), |_data| Ok::<(), MyError>(()))
        .unwrap_err();
    assert_eq!(e.phase(), Phase::Cleanup);
    assert_eq!(
        e.kind(),
        PhasedErrorKind::GracefulWaitTimeout(Duration::from_millis(20))
    );
    assert_eq!(cell.phase(), Phase::Cleanup);

    let mut cell = reading(1);
    cell.begin_transition_to_cleanup().unwrap();
    assert_eq!(cell.phase_relaxed(), Phase::Cleanup);
    assert_eq!(
        cell.wait_for_cleanup_phase(Duration::from_millis(20), 5_000_000)
            .unwrap(),
        Some(15_000_000)
    );
    assert_eq!(cell.finish_reading(), CountDown::Counted { wakes: true });
    assert_eq!(
        cell.wait_for_cleanup_phase(Duration::from_millis(20), 5_000_000)
            .unwrap(),
        None
    );
    let e = cell
        .finish_transition_to_cleanup(None, |_data| Err(MyError {}))
        .unwrap_err();
    assert_eq!(
        e.kind(),
        PhasedErrorKind::FailToRunClosureDuringTransitionToCleanup
    );
    assert_eq!(cell.phase(), Phase::Cleanup);
}

#[test]
fn a_cleanup_from_setup_does_not_wait() {
    let mut cell = GracefulPhasedCell::new(1);
    cell.transition_to_cleanup(Duration::ZERO, |data| {
        *data = 2;
        Ok::<(), MyError>(())
    })
    .unwrap();
    assert_eq!(cell.get_mut_unlocked().unwrap(), &2);
    let e = cell.begin_transition_to_read().unwrap_err();
    assert_eq!(e.kind(), PhasedErrorKind::PhaseIsAlreadyCleanup);
    assert_eq!(
        cell.read().unwrap_err().kind(),
        PhasedErrorKind::CannotCallUnlessPhaseRead("read")
    );
}

#[test]
fn a_graceful_read_waits_for_a_transition() {
    let mut cell = GracefulPhasedCell::new(1);
    cell.begin_transition_to_read().unwrap();
    assert_eq!(cell.wait_for_read_phase().unwrap(), ReadLook::Wait);
    assert_eq!(cell.read_or_wait().unwrap(), None);
    assert_eq!(
        cell.read_relaxed().unwrap_err().kind(),
        PhasedErrorKind::CannotCallUnlessPhaseRead("read_relaxed")
    );
    assert_eq!(
        cell.get_mut_unlocked().unwrap_err().kind(),
        PhasedErrorKind::DuringTransitionToRead
    );
    cell.finish_transition_to_read(|data| {
        *data = 3;
        Ok::<(), MyError>(())
    })
    .unwrap();
    assert_eq!(cell.wait_for_read_phase().unwrap(), ReadLook::Open);
    assert_eq!(cell.read_or_wait().unwrap(), Some(&3));
    assert_eq!(cell.read().unwrap(), &3);
    assert_eq!(cell.finish_reading(), CountDown::Counted { wakes: false });
    assert_eq!(
        cell.get_mut_unlocked().unwrap_err().kind(),
        PhasedErrorKind::CannotCallOnPhaseRead("get_mut_unlocked")
    );
    assert_eq!(cell.finish_reading(), CountDown::Counted { wakes: false });
    assert_eq!(cell.finish_reading(), CountDown::Excessive);
}

#[test]
fn a_poisoned_wait_of_a_graceful_cell_is_reported() {
    let mut cell = GracefulPhasedCell::new(1);
    cell.poison_wait();
    let e = cell
        .transition_to_read(|_data| Ok::<(), MyError>(()))
        .unwrap_err();
    assert_eq!(e.phase(), Phase::Setup);
    assert_eq!(e.kind(), PhasedErrorKind::GracefulWaitMutexIsPoisoned);
    assert_eq!(cell.phase(), Phase::Read);
    let e = cell
        .transition_to_cleanup(Duration::ZERO, |_data| Ok::<(), MyError>(()))
        .unwrap_err();
    assert_eq!(e.phase(), Phase::Cleanup);
    assert_eq!(e.kind(), PhasedErrorKind::GracefulWaitMutexIsPoisoned);
}

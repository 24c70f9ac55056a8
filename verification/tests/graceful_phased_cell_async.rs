use setup_read_cleanup::graceful::transition::ReadLook;
use setup_read_cleanup::graceful::wait::CountDown;
use setup_read_cleanup::graceful::GracefulPhasedCellAsync;
use setup_read_cleanup::{Phase, PhasedErrorKind};
use std::time::Duration;

#[derive(Debug)]
struct MyError {}

fn reading(n: usize) -> GracefulPhasedCellAsync<i32> {
    let mut cell = GracefulPhasedCellAsync::new(1);
    cell.transition_to_read_async(|data| {
        *data += 1;
        Ok::<(), MyError>(())
    })
    .unwrap();
    for _i in 0..n {
        assert_eq!(cell.read().unwrap(), &2);
    }
    cell
}

#[test]
fn data_goes_through_the_phases_of_a_graceful_async_cell() {
    let mut cell = GracefulPhasedCellAsync::new(5);
    assert_eq!(cell.phase(), Phase::Setup);
    assert_eq!(
        cell.read().unwrap_err().kind(),
        PhasedErrorKind::CannotCallUnlessPhaseRead("read")
    );
    match cell.lock_async() {
        Ok(mut data) => *data = 6,
        Err(_) => panic!(),
    }
    cell.transition_to_read_async(|_data| Ok::<(), MyError>(()))
        .unwrap();
    assert_eq!(cell.phase_relaxed(), Phase::Read);
    assert_eq!(cell.read_relaxed().unwrap(), &6);
    assert_eq!(cell.read_async().unwrap(), &6);
    assert_eq!(cell.finish_reading(), CountDown::Counted { wakes: false });
    assert_eq!(cell.finish_reading(), CountDown::Counted { wakes: false });
    assert_eq!(cell.finish_reading(), CountDown::Excessive);
    match cell.lock_async() {
        Err(e) => assert_eq!(
            e.kind(),
            PhasedErrorKind::CannotCallOnPhaseRead("lock_async")
        ),
        Ok(_) => panic!(),
    }
    cell.transition_to_cleanup_async(Duration::from_secs(1), |data| {
        *data = 7;
        Ok::<(), MyError>(())
    })
    .unwrap();
    assert_eq!(cell.phase(), Phase::Cleanup);
    match cell.lock_async() {
        Ok(data) => assert_eq!(*data, 7),
        Err(_) => panic!(),
    }
    let e = cell
        .transition_to_cleanup_async(Duration::ZERO, |_data| Ok::<(), MyError>(()))
        .unwrap_err();
    assert_eq!(e.kind(), PhasedErrorKind::PhaseIsAlreadyCleanup);
    let e = cell
        .transition_to_read_async(|_data| Ok::<(), MyError>(()))
        .unwrap_err();
    assert_eq!(e.kind(), PhasedErrorKind::PhaseIsAlreadyCleanup);
}

#[test]
fn a_graceful_async_cell_times_out_but_is_cleaned_up() {
    let mut cell = reading(2);
    let e = cell
        .transition_to_cleanup_async(Duration::from_secs(3), |data| {
            *data = 9;
            Ok::<(), MyError>(())
        })
        .unwrap_err();
    assert_eq!(e.phase(), Phase::Cleanup);
    assert_eq!(
        e.kind(),
        PhasedErrorKind::GracefulWaitTimeout(Duration::from_secs(3))
    );
    match cell.lock_async() {
        Ok(data) => assert_eq!(*data, 9),
        Err(_) => panic!(),
    }
}

#[test]
fn the_last_reader_of_an_async_cell_wakes_the_cleanup() {
    let second = Duration::from_secs(1);
    let mut cell = reading(1);
    cell.begin_transition_to_cleanup().unwrap();
    assert_eq!(
        cell.wait_for_cleanup_phase(second, 250_000_000).unwrap(),
        Some(750_000_000)
    );
    let e = cell
        .wait_for_cleanup_phase(second, 1_000_000_001)
        .unwrap_err();
    assert_eq!(e.phase(), Phase::Cleanup);
    assert_eq!(e.kind(), PhasedErrorKind::GracefulWaitTimeout(second));
    assert_eq!(cell.finish_reading(), CountDown::Counted { wakes: true });
    assert_eq!(cell.wait_for_cleanup_phase(second, 0).unwrap(), None);
    let e = cell
        .finish_transition_to_cleanup(None, |_data| Err(MyError {}))
        .unwrap_err();
    assert_eq!(
        e.kind(),
        PhasedErrorKind::FailToRunClosureDuringTransitionToCleanup
    );
    assert_eq!(cell.phase(), Phase::Cleanup);
}

#[test]
fn an_async_read_waits_for_a_transition_but_a_plain_one_does_not() {
    let mut cell = GracefulPhasedCellAsync::new(1);
    cell.begin_transition_to_read().unwrap();
    assert_eq!(
        cell.read().unwrap_err().kind(),
        PhasedErrorKind::CannotCallUnlessPhaseRead("read")
    );
    assert_eq!(cell.wait_for_read_phase().unwrap(), ReadLook::Wait);
    assert_eq!(cell.read_or_wait().unwrap(), None);
    let e = cell
        .finish_transition_to_read(|_data| Err(MyError {}))
        .unwrap_err();
    assert_eq!(e.phase(), Phase::Setup);
    assert_eq!(
        e.kind(),
        PhasedErrorKind::FailToRunClosureDuringTransitionToRead
    );
    assert_eq!(
        cell.wait_for_read_phase().unwrap_err().kind(),
        PhasedErrorKind::CannotCallUnlessPhaseRead("read")
    );
    assert!(cell.read_or_wait().is_err());
    assert_eq!(
        cell.read_async().unwrap_err().kind(),
        PhasedErrorKind::CannotCallUnlessPhaseRead("read")
    );
    let e = cell.begin_transition_to_cleanup();
    assert!(e.is_ok());
    let e = cell
        .transition_to_read_async(|_data| Ok::<(), MyError>(()))
        .unwrap_err();
    assert_eq!(e.kind(), PhasedErrorKind::DuringTransitionToCleanup);
    match cell.lock_async() {
        Err(e) => assert_eq!(e.kind(), PhasedErrorKind::DuringTransitionToCleanup),
        Ok(_) => panic!(),
    }
}

use setup_read_cleanup::wait::{next_pause_step, PauseStep, Wait};
use std::time::Duration;

#[test]
fn a_zero_pause_is_over_at_once() {
    assert_eq!(next_pause_step(Wait::Zero, false, 5, 0), PauseStep::Over(Ok(())));
}

#[test]
fn a_fixed_pause_sleeps_once_whoever_reads() {
    let wait = Wait::Fixed(Duration::from_secs(1));
    assert_eq!(
        next_pause_step(wait, false, 5, 0),
        PauseStep::Sleep(Duration::from_secs(1))
    );
    assert_eq!(next_pause_step(wait, true, 5, 0), PauseStep::Over(Ok(())));
}

#[test]
fn a_graceful_pause_lasts_as_long_as_someone_reads() {
    let wait = Wait::Graceful {
        timeout: Duration::from_nanos(1023),
    };
    assert_eq!(next_pause_step(wait, false, 0, 0), PauseStep::Over(Ok(())));
    assert_eq!(next_pause_step(wait, false, 1, 0), PauseStep::Nap(1023));
    assert_eq!(next_pause_step(wait, true, 1, 1), PauseStep::Nap(1022));
    assert_eq!(next_pause_step(wait, true, 0, 1), PauseStep::Over(Ok(())));
    assert_eq!(next_pause_step(wait, true, 1, 1022), PauseStep::Nap(1));
    assert_eq!(next_pause_step(wait, true, 1, 1023), PauseStep::Over(Err(wait)));
    assert_eq!(next_pause_step(wait, true, 0, 1023), PauseStep::Over(Ok(())));
}

#[test]
fn a_graceful_pause_without_time_fails_at_once_if_someone_reads() {
    let wait = Wait::Graceful {
        timeout: Duration::from_secs(0),
    };
    assert_eq!(next_pause_step(wait, false, 0, 0), PauseStep::Over(Ok(())));
    assert_eq!(next_pause_step(wait, false, 1, 0), PauseStep::Over(Err(wait)));
}

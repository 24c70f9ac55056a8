use setup_read_cleanup::graceful::wait::{CountDown, WaitStep};
use setup_read_cleanup::lock::{PhasedErrorKind, PhasedLock, WaitStrategy};
use setup_read_cleanup::locking::{Cleanup, Setup};
use setup_read_cleanup::Phase;
use std::time;

const MY_STRUCT: &str = "setup_read_cleanup::lock::setup_unlock_and_cleanup_unlock_test::MyStruct";

#[derive(Debug)]
struct MyStruct {
    vec: Vec<String>,
}
impl MyStruct {
    fn new() -> Self {
        Self { vec: Vec::new() }
    }
    fn add(&mut self, s: String) {
        self.vec.push(s);
    }
    fn clear(&mut self) {
        self.vec.clear();
    }
}

#[derive(Debug)]
struct MyError {}

#[test]
fn test_setup_read_cleanup_simply() {
    let mut lock = PhasedLock::new(MyStruct::new(), MY_STRUCT, Setup::Unlock, Cleanup::Unlock);
    assert_eq!(lock.phase_fast(), Phase::Setup);
    assert_eq!(lock.phase_exact(), Phase::Setup);

    if let Ok(data) = lock.get_mut_for_setup() {
        data.add("Hello".to_string());
    } else {
        panic!();
    }

    if let Err(e) = lock.read_fast() {
        assert_eq!(e.phase, Phase::Setup);
        assert_eq!(
            e.kind,
            PhasedErrorKind::CannotCallUnlessPhaseRead("setup_read_cleanup::PhasedLock<setup_read_cleanup::lock::setup_unlock_and_cleanup_unlock_test::MyStruct>::read_fast".to_string())
        );
    } else {
        panic!();
    }

    if let Err(e) = lock.read_gracefully() {
        assert_eq!(e.phase, Phase::Setup);
        assert_eq!(
            e.kind,
            PhasedErrorKind::CannotCallUnlessPhaseRead("setup_read_cleanup::PhasedLock<setup_read_cleanup::lock::setup_unlock_and_cleanup_unlock_test::MyStruct>::read_gracefully".to_string())
        );
    } else {
        panic!();
    }

    if let Err(e) = lock.finish_reading_gracefully() {
        assert_eq!(e.phase, Phase::Setup);
        assert_eq!(
            e.kind,
            PhasedErrorKind::CannotCallOnPhaseSetup("setup_read_cleanup::PhasedLock<setup_read_cleanup::lock::setup_unlock_and_cleanup_unlock_test::MyStruct>::finish_reading_gracefully".to_string())
        );
    } else {
        panic!();
    }

    if let Err(e) = lock.get_mut_for_cleanup() {
        assert_eq!(e.phase, Phase::Setup);
        assert_eq!(
            e.kind,
            PhasedErrorKind::CannotCallUnlessPhaseCleanup("setup_read_cleanup::PhasedLock<setup_read_cleanup::lock::setup_unlock_and_cleanup_unlock_test::MyStruct>::get_mut_for_cleanup".to_string())
        );
    } else {
        panic!();
    }

    // Setup -> Read
    if let Err(e) = lock.transition_to_read(|data| {
        data.add("World".to_string());
        Ok::<(), MyError>(())
    }) {
        panic!("{e:?}");
    }
    if let Err(e) = lock.transition_to_read(|data| {
        data.add("XXX".to_string());
        Ok::<(), MyError>(())
    }) {
        assert_eq!(e.phase, Phase::Read);
        assert_eq!(e.kind, PhasedErrorKind::PhaseIsAlreadyRead);
    } else {
        panic!();
    }

    assert_eq!(lock.phase_fast(), Phase::Read);
    assert_eq!(lock.phase_exact(), Phase::Read);

    if let Err(e) = lock.get_mut_for_setup() {
        assert_eq!(e.phase, Phase::Read);
        assert_eq!(
            e.kind,
            PhasedErrorKind::CannotCallUnlessPhaseSetup("setup_read_cleanup::PhasedLock<setup_read_cleanup::lock::setup_unlock_and_cleanup_unlock_test::MyStruct>::get_mut_for_setup".to_string())
        );
    } else {
        panic!();
    }

    match lock.read_fast() {
        Ok(data) => {
            //data.add("World".to_string()); // ERROR: `data` is a `&` reference, so the data it refers to cannot be borrowed as mutable

            assert_eq!(data.vec, &["Hello".to_string(), "World".to_string()]);
        }
        Err(e) => panic!("{e:?}"),
    }

    match lock.read_gracefully() {
        Ok(data) => {
            //data.add("World".to_string()); // ERROR: `data` is a `&` reference, so the data it refers to cannot be borrowed as mutable

            assert_eq!(data.vec, &["Hello".to_string(), "World".to_string()]);
        }
        Err(e) => panic!("{e:?}"),
    }

    match lock.read_gracefully() {
        Ok(data) => {
            //data.add("World".to_string()); // ERROR: `data` is a `&` reference, so the data it refers to cannot be borrowed as mutable

            assert_eq!(data.vec, &["Hello".to_string(), "World".to_string()]);
        }
        Err(e) => panic!("{e:?}"),
    }

    if let Err(e) = lock.finish_reading_gracefully() {
        panic!("{e:?}");
    }

    if let Err(e) = lock.finish_reading_gracefully() {
        panic!("{e:?}");
    }

    if let Err(e) = lock.get_mut_for_cleanup() {
        assert_eq!(e.phase, Phase::Read);
        assert_eq!(
            e.kind,
            PhasedErrorKind::CannotCallUnlessPhaseCleanup("setup_read_cleanup::PhasedLock<setup_read_cleanup::lock::setup_unlock_and_cleanup_unlock_test::MyStruct>::get_mut_for_cleanup".to_string())
        );
    } else {
        panic!();
    }

    // Read -> Cleanup
    if let Err(e) = lock.transition_to_cleanup(WaitStrategy::NoWait) {
        panic!("{e:?}");
    }

    assert_eq!(lock.phase_fast(), Phase::Cleanup);
    assert_eq!(lock.phase_exact(), Phase::Cleanup);

    if let Err(e) = lock.get_mut_for_setup() {
        assert_eq!(e.phase, Phase::Cleanup);
        assert_eq!(
            e.kind,
            PhasedErrorKind::CannotCallUnlessPhaseSetup("setup_read_cleanup::PhasedLock<setup_read_cleanup::lock::setup_unlock_and_cleanup_unlock_test::MyStruct>::get_mut_for_setup".to_string())
        );
    } else {
        panic!();
    }

    if let Err(e) = lock.read_fast() {
        assert_eq!(e.phase, Phase::Cleanup);
        assert_eq!(
            e.kind,
            PhasedErrorKind::CannotCallUnlessPhaseRead("setup_read_cleanup::PhasedLock<setup_read_cleanup::lock::setup_unlock_and_cleanup_unlock_test::MyStruct>::read_fast".to_string())
        );
    } else {
        panic!();
    }

    if let Err(e) = lock.read_fast() {
        assert_eq!(e.phase, Phase::Cleanup);
        assert_eq!(
            e.kind,
            PhasedErrorKind::CannotCallUnlessPhaseRead("setup_read_cleanup::PhasedLock<setup_read_cleanup::lock::setup_unlock_and_cleanup_unlock_test::MyStruct>::read_fast".to_string())
        );
    } else {
        panic!();
    }

    if let Err(e) = lock.read_gracefully() {
        assert_eq!(e.phase, Phase::Cleanup);
        assert_eq!(
            e.kind,
            PhasedErrorKind::CannotCallUnlessPhaseRead("setup_read_cleanup::PhasedLock<setup_read_cleanup::lock::setup_unlock_and_cleanup_unlock_test::MyStruct>::read_gracefully".to_string())
        );
    } else {
        panic!();
    }

    if let Err(e) = lock.finish_reading_gracefully() {
        panic!("{e:?}");
    }

    if let Ok(data) = lock.get_mut_for_cleanup() {
        data.clear();
        assert_eq!(data.vec, &[] as &[String]);
    } else {
        panic!();
    }

    if let Err(e) = lock.transition_to_cleanup(WaitStrategy::NoWait) {
        assert_eq!(e.phase, Phase::Cleanup);
        assert_eq!(e.kind, PhasedErrorKind::PhaseIsAlreadyCleanup);
    } else {
        panic!();
    }
}

#[test]
fn test_setup_read_cleanup_fixed_wait() {
    let mut lock = PhasedLock::new(MyStruct::new(), MY_STRUCT, Setup::Unlock, Cleanup::Unlock);
    assert_eq!(lock.phase_fast(), Phase::Setup);
    assert_eq!(lock.phase_exact(), Phase::Setup);

    if let Ok(data) = lock.get_mut_for_setup() {
        data.add("Hello".to_string());
    } else {
        panic!();
    }

    if let Err(e) = lock.read_fast() {
        assert_eq!(e.phase, Phase::Setup);
        assert_eq!(
            e.kind,
            PhasedErrorKind::CannotCallUnlessPhaseRead("setup_read_cleanup::PhasedLock<setup_read_cleanup::lock::setup_unlock_and_cleanup_unlock_test::MyStruct>::read_fast".to_string())
        );
    } else {
        panic!();
    }

    if let Err(e) = lock.read_gracefully() {
        assert_eq!(e.phase, Phase::Setup);
        assert_eq!(
            e.kind,
            PhasedErrorKind::CannotCallUnlessPhaseRead("setup_read_cleanup::PhasedLock<setup_read_cleanup::lock::setup_unlock_and_cleanup_unlock_test::MyStruct>::read_gracefully".to_string())
        );
    } else {
        panic!();
    }

    if let Err(e) = lock.finish_reading_gracefully() {
        assert_eq!(e.phase, Phase::Setup);
        assert_eq!(
            e.kind,
            PhasedErrorKind::CannotCallOnPhaseSetup("setup_read_cleanup::PhasedLock<setup_read_cleanup::lock::setup_unlock_and_cleanup_unlock_test::MyStruct>::finish_reading_gracefully".to_string())
        );
    } else {
        panic!();
    }

    if let Err(e) = lock.get_mut_for_cleanup() {
        assert_eq!(e.phase, Phase::Setup);
        assert_eq!(
            e.kind,
            PhasedErrorKind::CannotCallUnlessPhaseCleanup("setup_read_cleanup::PhasedLock<setup_read_cleanup::lock::setup_unlock_and_cleanup_unlock_test::MyStruct>::get_mut_for_cleanup".to_string())
        );
    } else {
        panic!();
    }

    // Setup -> Read
    if let Err(e) = lock.transition_to_read(|data| {
        data.add("World".to_string());
        Ok::<(), MyError>(())
    }) {
        panic!("{e:?}");
    }

    assert_eq!(lock.phase_fast(), Phase::Read);
    assert_eq!(lock.phase_exact(), Phase::Read);

    if let Err(e) = lock.get_mut_for_setup() {
        assert_eq!(e.phase, Phase::Read);
        assert_eq!(
            e.kind,
            PhasedErrorKind::CannotCallUnlessPhaseSetup("setup_read_cleanup::PhasedLock<setup_read_cleanup::lock::setup_unlock_and_cleanup_unlock_test::MyStruct>::get_mut_for_setup".to_string())
        );
    } else {
        panic!();
    }

    match lock.read_fast() {
        Ok(data) => {
            // data.add("World".to_string()); // ERROR: `data` is a `&` reference, so the data it refers to cannot be borrowed as mutable

            assert_eq!(data.vec, &["Hello".to_string(), "World".to_string()]);
        }
        Err(e) => panic!("{e:?}"),
    }

    match lock.read_gracefully() {
        Ok(data) => {
            //data.add("World".to_string()); // ERROR: `data` is a `&` reference, so the data it refers to cannot be borrowed as mutable

            assert_eq!(data.vec, &["Hello".to_string(), "World".to_string()]);
        }
        Err(e) => panic!("{e:?}"),
    }

    match lock.read_gracefully() {
        Ok(data) => {
            //data.add("World".to_string()); // ERROR: `data` is a `&` reference, so the data it refers to cannot be borrowed as mutable

            assert_eq!(data.vec, &["Hello".to_string(), "World".to_string()]);
        }
        Err(e) => panic!("{e:?}"),
    }

    if let Err(e) = lock.finish_reading_gracefully() {
        panic!("{e:?}");
    }

    if let Err(e) = lock.finish_reading_gracefully() {
        panic!("{e:?}");
    }

    if let Err(e) = lock.get_mut_for_cleanup() {
        assert_eq!(e.phase, Phase::Read);
        assert_eq!(
            e.kind,
            PhasedErrorKind::CannotCallUnlessPhaseCleanup("setup_read_cleanup::PhasedLock<setup_read_cleanup::lock::setup_unlock_and_cleanup_unlock_test::MyStruct>::get_mut_for_cleanup".to_string())
        );
    } else {
        panic!();
    }

    // Read -> Cleanup
    if let Err(e) =
        lock.transition_to_cleanup(WaitStrategy::FixedWait(time::Duration::from_secs(1)))
    {
        panic!("{e:?}");
    }

    assert_eq!(lock.phase_fast(), Phase::Cleanup);
    assert_eq!(lock.phase_exact(), Phase::Cleanup);

    if let Err(e) = lock.get_mut_for_setup() {
        assert_eq!(e.phase, Phase::Cleanup);
        assert_eq!(
            e.kind,
            PhasedErrorKind::CannotCallUnlessPhaseSetup("setup_read_cleanup::PhasedLock<setup_read_cleanup::lock::setup_unlock_and_cleanup_unlock_test::MyStruct>::get_mut_for_setup".to_string())
        );
    } else {
        panic!();
    }

    if let Err(e) = lock.read_fast() {
        assert_eq!(e.phase, Phase::Cleanup);
        assert_eq!(
            e.kind,
            PhasedErrorKind::CannotCallUnlessPhaseRead("setup_read_cleanup::PhasedLock<setup_read_cleanup::lock::setup_unlock_and_cleanup_unlock_test::MyStruct>::read_fast".to_string())
        );
    } else {
        panic!();
    }

    if let Err(e) = lock.read_fast() {
        assert_eq!(e.phase, Phase::Cleanup);
        assert_eq!(
            e.kind,
            PhasedErrorKind::CannotCallUnlessPhaseRead("setup_read_cleanup::PhasedLock<setup_read_cleanup::lock::setup_unlock_and_cleanup_unlock_test::MyStruct>::read_fast".to_string())
        );
    } else {
        panic!();
    }

    if let Err(e) = lock.read_gracefully() {
        assert_eq!(e.phase, Phase::Cleanup);
        assert_eq!(
            e.kind,
            PhasedErrorKind::CannotCallUnlessPhaseRead("setup_read_cleanup::PhasedLock<setup_read_cleanup::lock::setup_unlock_and_cleanup_unlock_test::MyStruct>::read_gracefully".to_string())
        );
    } else {
        panic!();
    }

    if let Err(e) = lock.finish_reading_gracefully() {
        panic!("{e:?}");
    }

    if let Ok(data) = lock.get_mut_for_cleanup() {
        data.clear();
        assert_eq!(data.vec, &[] as &[String]);
    } else {
        panic!();
    }

    if let Err(e) = lock.transition_to_cleanup(WaitStrategy::FixedWait(
        time::Duration::from_secs(1),
    )) {
        assert_eq!(e.phase, Phase::Cleanup);
        assert_eq!(e.kind, PhasedErrorKind::PhaseIsAlreadyCleanup);
    } else {
        panic!();
    }
}

#[test]
fn test_setup_read_cleanup_graceful_wait() {
    let mut lock = PhasedLock::new(MyStruct::new(), MY_STRUCT, Setup::Unlock, Cleanup::Unlock);
    assert_eq!(lock.phase_fast(), Phase::Setup);
    assert_eq!(lock.phase_exact(), Phase::Setup);

    if let Ok(data) = lock.get_mut_for_setup() {
        data.add("Hello".to_string());
    } else {
        panic!();
    }

    if let Err(e) = lock.read_fast() {
        assert_eq!(e.phase, Phase::Setup);
        assert_eq!(
            e.kind,
            PhasedErrorKind::CannotCallUnlessPhaseRead("setup_read_cleanup::PhasedLock<setup_read_cleanup::lock::setup_unlock_and_cleanup_unlock_test::MyStruct>::read_fast".to_string())
        );
    } else {
        panic!();
    }

    if let Err(e) = lock.read_gracefully() {
        assert_eq!(e.phase, Phase::Setup);
        assert_eq!(
            e.kind,
            PhasedErrorKind::CannotCallUnlessPhaseRead("setup_read_cleanup::PhasedLock<setup_read_cleanup::lock::setup_unlock_and_cleanup_unlock_test::MyStruct>::read_gracefully".to_string())
        );
    } else {
        panic!();
    }

    if let Err(e) = lock.finish_reading_gracefully() {
        assert_eq!(e.phase, Phase::Setup);
        assert_eq!(
            e.kind,
            PhasedErrorKind::CannotCallOnPhaseSetup("setup_read_cleanup::PhasedLock<setup_read_cleanup::lock::setup_unlock_and_cleanup_unlock_test::MyStruct>::finish_reading_gracefully".to_string())
        );
    } else {
        panic!();
    }

    if let Err(e) = lock.get_mut_for_cleanup() {
        assert_eq!(e.phase, Phase::Setup);
        assert_eq!(
            e.kind,
            PhasedErrorKind::CannotCallUnlessPhaseCleanup("setup_read_cleanup::PhasedLock<setup_read_cleanup::lock::setup_unlock_and_cleanup_unlock_test::MyStruct>::get_mut_for_cleanup".to_string())
        );
    } else {
        panic!();
    }

    // Setup -> Read
    if let Err(e) = lock.transition_to_read(|data| {
        data.add("World".to_string());
        Ok::<(), MyError>(())
    }) {
        panic!("{e:?}");
    }

    assert_eq!(lock.phase_fast(), Phase::Read);
    assert_eq!(lock.phase_exact(), Phase::Read);

    if let Err(e) = lock.get_mut_for_setup() {
        assert_eq!(e.phase, Phase::Read);
        assert_eq!(
            e.kind,
            PhasedErrorKind::CannotCallUnlessPhaseSetup("setup_read_cleanup::PhasedLock<setup_read_cleanup::lock::setup_unlock_and_cleanup_unlock_test::MyStruct>::get_mut_for_setup".to_string())
        );
    } else {
        panic!();
    }

    match lock.read_fast() {
        Ok(data) => {
            // data.add("World".to_string()); // ERROR: `data` is a `&` reference, so the data it refers to cannot be borrowed as mutable

            assert_eq!(data.vec, &["Hello".to_string(), "World".to_string()]);
        }
        Err(e) => panic!("{e:?}"),
    }

    match lock.read_gracefully() {
        Ok(data) => {
            //data.add("World".to_string()); // ERROR: `data` is a `&` reference, so the data it refers to cannot be borrowed as mutable

            assert_eq!(data.vec, &["Hello".to_string(), "World".to_string()]);
        }
        Err(e) => panic!("{e:?}"),
    }

    match lock.read_gracefully() {
        Ok(data) => {
            //data.add("World".to_string()); // ERROR: `data` is a `&` reference, so the data it refers to cannot be borrowed as mutable

            assert_eq!(data.vec, &["Hello".to_string(), "World".to_string()]);
        }
        Err(e) => panic!("{e:?}"),
    }

    if let Err(e) = lock.finish_reading_gracefully() {
        panic!("{e:?}");
    }

    if let Err(e) = lock.finish_reading_gracefully() {
        panic!("{e:?}");
    }

    if let Err(e) = lock.get_mut_for_cleanup() {
        assert_eq!(e.phase, Phase::Read);
        assert_eq!(
            e.kind,
            PhasedErrorKind::CannotCallUnlessPhaseCleanup("setup_read_cleanup::PhasedLock<setup_read_cleanup::lock::setup_unlock_and_cleanup_unlock_test::MyStruct>::get_mut_for_cleanup".to_string())
        );
    } else {
        panic!();
    }

    // Read -> Cleanup
    if let Err(e) = lock.transition_to_cleanup(WaitStrategy::GracefulWait {
        timeout: time::Duration::from_secs(1),
    }) {
        panic!("{e:?}");
    }

    assert_eq!(lock.phase_fast(), Phase::Cleanup);
    assert_eq!(lock.phase_exact(), Phase::Cleanup);

    if let Err(e) = lock.get_mut_for_setup() {
        assert_eq!(e.phase, Phase::Cleanup);
        assert_eq!(
            e.kind,
            PhasedErrorKind::CannotCallUnlessPhaseSetup("setup_read_cleanup::PhasedLock<setup_read_cleanup::lock::setup_unlock_and_cleanup_unlock_test::MyStruct>::get_mut_for_setup".to_string())
        );
    } else {
        panic!();
    }

    if let Err(e) = lock.read_fast() {
        assert_eq!(e.phase, Phase::Cleanup);
        assert_eq!(
            e.kind,
            PhasedErrorKind::CannotCallUnlessPhaseRead("setup_read_cleanup::PhasedLock<setup_read_cleanup::lock::setup_unlock_and_cleanup_unlock_test::MyStruct>::read_fast".to_string())
        );
    } else {
        panic!();
    }

    if let Err(e) = lock.read_fast() {
        assert_eq!(e.phase, Phase::Cleanup);
        assert_eq!(
            e.kind,
            PhasedErrorKind::CannotCallUnlessPhaseRead("setup_read_cleanup::PhasedLock<setup_read_cleanup::lock::setup_unlock_and_cleanup_unlock_test::MyStruct>::read_fast".to_string())
        );
    } else {
        panic!();
    }

    if let Err(e) = lock.read_gracefully() {
        assert_eq!(e.phase, Phase::Cleanup);
        assert_eq!(
            e.kind,
            PhasedErrorKind::CannotCallUnlessPhaseRead("setup_read_cleanup::PhasedLock<setup_read_cleanup::lock::setup_unlock_and_cleanup_unlock_test::MyStruct>::read_gracefully".to_string())
        );
    } else {
        panic!();
    }

    if let Err(e) = lock.finish_reading_gracefully() {
        panic!("{e:?}");
    }

    if let Ok(data) = lock.get_mut_for_cleanup() {
        data.clear();
        assert_eq!(data.vec, &[] as &[String]);
    } else {
        panic!();
    }

    if let Err(e) = lock.transition_to_cleanup(WaitStrategy::GracefulWait {
        timeout: time::Duration::from_secs(1),
    }) {
        assert_eq!(e.phase, Phase::Cleanup);
        assert_eq!(e.kind, PhasedErrorKind::PhaseIsAlreadyCleanup);
    } else {
        panic!();
    }
}

#[test]
fn test_setup_cleanup() {
    let mut lock = PhasedLock::new(MyStruct::new(), MY_STRUCT, Setup::Unlock, Cleanup::Unlock);
    assert_eq!(lock.phase_fast(), Phase::Setup);
    assert_eq!(lock.phase_exact(), Phase::Setup);

    if let Ok(data) = lock.get_mut_for_setup() {
        data.add("Hello".to_string());
    } else {
        panic!();
    }

    if let Err(e) = lock.read_fast() {
        assert_eq!(e.phase, Phase::Setup);
        assert_eq!(
            e.kind,
            PhasedErrorKind::CannotCallUnlessPhaseRead("setup_read_cleanup::PhasedLock<setup_read_cleanup::lock::setup_unlock_and_cleanup_unlock_test::MyStruct>::read_fast".to_string())
        );
    } else {
        panic!();
    }

    if let Err(e) = lock.read_gracefully() {
        assert_eq!(e.phase, Phase::Setup);
        assert_eq!(
            e.kind,
            PhasedErrorKind::CannotCallUnlessPhaseRead("setup_read_cleanup::PhasedLock<setup_read_cleanup::lock::setup_unlock_and_cleanup_unlock_test::MyStruct>::read_gracefully".to_string())
        );
    } else {
        panic!();
    }

    if let Err(e) = lock.finish_reading_gracefully() {
        assert_eq!(e.phase, Phase::Setup);
        assert_eq!(
            e.kind,
            PhasedErrorKind::CannotCallOnPhaseSetup("setup_read_cleanup::PhasedLock<setup_read_cleanup::lock::setup_unlock_and_cleanup_unlock_test::MyStruct>::finish_reading_gracefully".to_string())
        );
    } else {
        panic!();
    }

    if let Err(e) = lock.get_mut_for_cleanup() {
        assert_eq!(e.phase, Phase::Setup);
        assert_eq!(
            e.kind,
            PhasedErrorKind::CannotCallUnlessPhaseCleanup("setup_read_cleanup::PhasedLock<setup_read_cleanup::lock::setup_unlock_and_cleanup_unlock_test::MyStruct>::get_mut_for_cleanup".to_string())
        );
    } else {
        panic!();
    }

    // Setup -> Cleanup
    if let Err(e) = lock.transition_to_cleanup(WaitStrategy::GracefulWait {
        timeout: time::Duration::from_secs(1),
    }) {
        panic!("{e:?}");
    }

    assert_eq!(lock.phase_fast(), Phase::Cleanup);
    assert_eq!(lock.phase_exact(), Phase::Cleanup);

    if let Err(e) = lock.get_mut_for_setup() {
        assert_eq!(e.phase, Phase::Cleanup);
        assert_eq!(
            e.kind,
            PhasedErrorKind::CannotCallUnlessPhaseSetup("setup_read_cleanup::PhasedLock<setup_read_cleanup::lock::setup_unlock_and_cleanup_unlock_test::MyStruct>::get_mut_for_setup".to_string())
        );
    } else {
        panic!();
    }

    if let Err(e) = lock.read_fast() {
        assert_eq!(e.phase, Phase::Cleanup);
        assert_eq!(
            e.kind,
            PhasedErrorKind::CannotCallUnlessPhaseRead("setup_read_cleanup::PhasedLock<setup_read_cleanup::lock::setup_unlock_and_cleanup_unlock_test::MyStruct>::read_fast".to_string())
        );
    } else {
        panic!();
    }

    if let Err(e) = lock.read_fast() {
        assert_eq!(e.phase, Phase::Cleanup);
        assert_eq!(
            e.kind,
            PhasedErrorKind::CannotCallUnlessPhaseRead("setup_read_cleanup::PhasedLock<setup_read_cleanup::lock::setup_unlock_and_cleanup_unlock_test::MyStruct>::read_fast".to_string())
        );
    } else {
        panic!();
    }

    if let Err(e) = lock.read_gracefully() {
        assert_eq!(e.phase, Phase::Cleanup);
        assert_eq!(
            e.kind,
            PhasedErrorKind::CannotCallUnlessPhaseRead("setup_read_cleanup::PhasedLock<setup_read_cleanup::lock::setup_unlock_and_cleanup_unlock_test::MyStruct>::read_gracefully".to_string())
        );
    } else {
        panic!();
    }

    if let Err(e) = lock.finish_reading_gracefully() {
        panic!("{e:?}");
    }

    match lock.get_mut_for_cleanup() {
        Ok(data) => {
            data.clear();
            assert_eq!(data.vec, &[] as &[String]);
        }
        Err(e) => {
            panic!("{e:?}");
        }
    }
}

fn reading(n: usize) -> PhasedLock<MyStruct> {
    let mut lock = PhasedLock::new(MyStruct::new(), MY_STRUCT, Setup::Unlock, Cleanup::Unlock);
    lock.transition_to_read(|_data| Ok::<(), MyError>(())).unwrap();
    for _i in 0..n {
        assert!(lock.read_gracefully().is_ok());
    }
    lock
}

#[test]
fn a_graceful_cleanup_of_a_lock_times_out_but_is_done() {
    let timeout = time::Duration::from_secs(1);
    let mut lock = reading(2);
    let e = lock
        .transition_to_cleanup(WaitStrategy::GracefulWait { timeout })
        .unwrap_err();
    assert_eq!(e.phase, Phase::Cleanup);
    assert_eq!(
        e.kind,
        PhasedErrorKind::TransitionToCleanupTimeout(WaitStrategy::GracefulWait { timeout })
    );
    assert_eq!(lock.phase_exact(), Phase::Cleanup);
    assert!(lock.get_mut_for_cleanup().is_ok());
}

#[test]
fn the_last_reader_of_a_lock_tells_the_one_that_waits() {
    let timeout = time::Duration::from_secs(1);
    let mut lock = reading(1);
    lock.begin_transition_to_cleanup_gracefully().unwrap();
    assert_eq!(
        lock.wait_for_readers(1, timeout, 400_000_000).unwrap(),
        WaitStep::Park(600_000_000)
    );
    assert_eq!(
        lock.finish_reading_gracefully().unwrap(),
        CountDown::Counted { wakes: true }
    );
    assert_eq!(
        lock.wait_for_readers(1, timeout, 400_000_000).unwrap(),
        WaitStep::Finished
    );
    assert!(lock
        .end_transition_to_cleanup_gracefully(false, timeout)
        .is_ok());
    assert_eq!(lock.phase_exact(), Phase::Cleanup);
}

#[test]
fn a_timeout_is_no_error_where_the_readers_finished_after_all() {
    let timeout = time::Duration::from_secs(1);
    let mut lock = reading(1);
    lock.begin_transition_to_cleanup_gracefully().unwrap();
    assert_eq!(
        lock.wait_for_readers(1, timeout, 1_000_000_000).unwrap(),
        WaitStep::TimedOut
    );
    lock.finish_reading_gracefully().unwrap();
    assert!(lock
        .end_transition_to_cleanup_gracefully(true, timeout)
        .is_ok());
}

#[test]
fn transitions_of_a_lock_that_cannot_begin_tell_why() {
    let mut lock = reading(0);
    lock.begin_transition_to_cleanup_gracefully().unwrap();
    let e = lock.transition_to_cleanup(WaitStrategy::NoWait).unwrap_err();
    assert_eq!(e.phase, Phase::Cleanup);
    assert_eq!(e.kind, PhasedErrorKind::DuringTransitionToCleanup);
    let e = lock
        .transition_to_read(|_data| Ok::<(), MyError>(()))
        .unwrap_err();
    assert_eq!(e.kind, PhasedErrorKind::TransitionToReadFailed);

    let mut lock = PhasedLock::new(MyStruct::new(), MY_STRUCT, Setup::Unlock, Cleanup::Unlock);
    lock.begin_transition_to_read().unwrap();
    let e = lock
        .transition_to_read(|_data| Ok::<(), MyError>(()))
        .unwrap_err();
    assert_eq!(e.phase, Phase::Setup);
    assert_eq!(e.kind, PhasedErrorKind::DuringTransitionToRead);
    let e = lock.transition_to_cleanup(WaitStrategy::NoWait).unwrap_err();
    assert_eq!(e.kind, PhasedErrorKind::TransitionToCleanupFailed);
    let e = lock
        .finish_transition_to_read(|_data| Err(MyError {}))
        .unwrap_err();
    assert_eq!(
        e.kind,
        PhasedErrorKind::FailToRunClosureDuringTransitionToRead
    );
    assert!(e.source.is_some());
    assert_eq!(lock.phase_exact(), Phase::Setup);
}

#[test]
fn a_poisoned_wait_of_a_lock_is_reported() {
    let timeout = time::Duration::from_secs(1);
    let mut lock = reading(1);
    lock.poison();
    let e = lock
        .transition_to_cleanup(WaitStrategy::GracefulWait { timeout })
        .unwrap_err();
    assert_eq!(e.phase, Phase::Read);
    assert_eq!(e.kind, PhasedErrorKind::StdMutexIsPoisoned);
    assert_eq!(lock.phase_exact(), Phase::Read);
    let e = lock.finish_reading_gracefully().unwrap_err();
    assert_eq!(e.phase, Phase::Read);
    assert_eq!(e.kind, PhasedErrorKind::StdMutexIsPoisoned);
    assert_eq!(
        lock.wait_for_readers(1, timeout, 0).unwrap_err().kind,
        PhasedErrorKind::StdMutexIsPoisoned
    );
}

#[test]
fn a_lock_is_cleaned_up_from_setup_by_every_strategy() {
    let second = time::Duration::from_secs(1);
    for strategy in [
        WaitStrategy::NoWait,
        WaitStrategy::FixedWait(second),
        WaitStrategy::GracefulWait { timeout: second },
    ] {
        let mut lock = PhasedLock::new(1, "i32", Setup::Unlock, Cleanup::Unlock);
        lock.transition_to_cleanup(strategy).unwrap();
        assert_eq!(lock.phase_exact(), Phase::Cleanup);
        *lock.get_mut_for_cleanup().unwrap() += 1;
        assert_eq!(lock.get_mut_for_cleanup().unwrap(), &2);
        let e = lock.transition_to_cleanup_simply().unwrap_err();
        assert_eq!(e.phase, Phase::Cleanup);
        assert_eq!(e.kind, PhasedErrorKind::PhaseIsAlreadyCleanup);
    }
}

#[test]
fn the_strategy_for_setup_decides_where_the_data_is() {
    let mut lock = PhasedLock::new(1, "i32", Setup::Blocking, Cleanup::NonBlocking);
    let e = lock.get_mut_for_setup().unwrap_err();
    assert_eq!(
        e.kind,
        PhasedErrorKind::CannotCallUnlessSetupUnlock(
            "setup_read_cleanup::PhasedLock<i32>::get_mut_for_setup".to_string()
        )
    );
    let e = lock.get_mut_for_cleanup().unwrap_err();
    assert_eq!(
        e.kind,
        PhasedErrorKind::CannotCallUnlessCleanupUnlock(
            "setup_read_cleanup::PhasedLock<i32>::get_mut_for_cleanup".to_string()
        )
    );
    let e = lock
        .transition_to_read(|_data| Ok::<(), MyError>(()))
        .unwrap_err();
    assert_eq!(e.phase, Phase::Setup);
    assert_eq!(e.kind, PhasedErrorKind::InternalDataUnavailable);
    assert_eq!(lock.phase_exact(), Phase::Setup);
    assert!(lock.begin_transition_to_read().is_ok());
}

use setup_read_cleanup::graceful::GracefulPhasedCell;
use setup_read_cleanup::{Phase, PhasedCell};
use std::rc::Rc;
use std::time::Duration;

#[test]
fn conditional_data_send_sync_impl_test_test_single_threaded_with_non_sync_data() {
    let mut cell = PhasedCell::new(Rc::new(String::from("hello")));

    cell.get_mut_unlocked()
        .map(|rc_str| *Rc::get_mut(rc_str).unwrap() = String::from("setup"))
        .unwrap();

    cell.transition_to_read(|rc_str: &mut Rc<String>| {
        *Rc::get_mut(rc_str).unwrap() = String::from("read");
        Ok::<(), std::io::Error>(())
    })
    .unwrap();

    let data = cell.read().unwrap();
    assert_eq!(**data, "read");

    cell.transition_to_cleanup(|rc_str: &mut Rc<String>| {
        *Rc::get_mut(rc_str).unwrap() = String::from("cleanup");
        Ok::<(), std::io::Error>(())
    })
    .unwrap();
    assert_eq!(cell.phase(), Phase::Cleanup);

    let mut_data_cleanup = cell.get_mut_unlocked().unwrap();
    *Rc::get_mut(mut_data_cleanup).unwrap() = String::from("final");

    let final_data = cell.get_mut_unlocked().unwrap();
    assert_eq!(*Rc::get_mut(final_data).unwrap(), "final");

    let mut cell = GracefulPhasedCell::new(Rc::new(vec![10, 20]));

    cell.get_mut_unlocked()
        .map(|rc_vec| *Rc::get_mut(rc_vec).unwrap() = vec![1, 2, 3])
        .unwrap();
    assert_eq!(**cell.get_mut_unlocked().unwrap(), vec![1, 2, 3]);

    cell.transition_to_read(|_v: &mut Rc<Vec<i32>>| Ok::<(), std::io::Error>(()))
        .unwrap();

    let data = cell.read().unwrap();
    assert_eq!(**data, vec![1, 2, 3]);
    cell.finish_reading();

    cell.transition_to_cleanup(Duration::ZERO, |rc_vec: &mut Rc<Vec<i32>>| {
        *Rc::get_mut(rc_vec).unwrap() = vec![4, 5, 6];
        Ok::<(), std::io::Error>(())
    })
    .unwrap();
    assert_eq!(cell.phase(), Phase::Cleanup);

    let mut_data_cleanup = cell.get_mut_unlocked().unwrap();
    *Rc::get_mut(mut_data_cleanup).unwrap() = vec![7, 8, 9];

    let final_data = cell.get_mut_unlocked().unwrap();
    assert_eq!(*Rc::get_mut(final_data).unwrap(), vec![7, 8, 9]);
}

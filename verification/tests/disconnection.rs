use std::sync::{Arc, Barrier};
use warqueen::disconnection::not_on_the_main_thread;
use warqueen::DisconnectionHandle;

#[test]
fn only_a_definite_no_warns() {
    assert!(not_on_the_main_thread(Some(false)));
    assert!(!not_on_the_main_thread(Some(true)));
    assert!(!not_on_the_main_thread(None));
}

#[test]
fn waiting_without_barrier_returns() {
    DisconnectionHandle::without_barrier().wait_for_proper_disconnection_while_not_on_the_main_thread();
    DisconnectionHandle::without_barrier().wait_for_proper_disconnection();
}

#[test]
fn waiting_on_a_passed_barrier_returns() {
    let barrier = Arc::new(Barrier::new(1));
    DisconnectionHandle::with_barrier(Arc::clone(&barrier)).wait_for_proper_disconnection_while_not_on_the_main_thread();
    DisconnectionHandle::with_barrier(barrier).wait_for_proper_disconnection();
}

#[test]
fn waiting_records_it() {
    let mut handle = DisconnectionHandle::without_barrier();
    handle.actually_wait_for_proper_disconnection();
    handle.actually_wait_for_proper_disconnection();
    drop(handle);
}

#[test]
fn dropping_an_unwaited_handle_waits() {
    let handle = DisconnectionHandle::with_barrier(Arc::new(Barrier::new(1)));
    drop(handle);
}

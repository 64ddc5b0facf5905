use netcon::threadpool::error::decimal_string;
use netcon::threadpool::ThreadPoolError;
use std::sync::mpsc;
use std::sync::PoisonError;

#[test]
fn size_too_low_is_reported_with_the_requested_size() {
    let error = ThreadPoolError::SizeTooLow(0);
    assert_eq!(error.to_string(), "size of ThreadPool must be at least 1, was 0");
}

#[test]
fn each_error_is_reported_with_its_origin_and_description() {
    assert_eq!(
        ThreadPoolError::Sender(String::from("sending on a closed channel")).to_string(),
        "Sender Error: sending on a closed channel"
    );
    assert_eq!(
        ThreadPoolError::Receiver(String::from("receiving on a closed channel")).to_string(),
        "Receiver Error: receiving on a closed channel"
    );
    assert_eq!(
        ThreadPoolError::Poison(String::from("poisoned lock")).to_string(),
        "Poison Error: poisoned lock"
    );
    assert_eq!(ThreadPoolError::Poison(String::new()).to_string(), "Poison Error: ");
    assert_eq!(
        ThreadPoolError::SizeTooLow(4096).to_string(),
        "size of ThreadPool must be at least 1, was 4096"
    );
}

#[test]
fn numbers_are_written_in_decimal() {
    assert_eq!(decimal_string(0), "0");
    assert_eq!(decimal_string(7), "7");
    assert_eq!(decimal_string(9), "9");
    assert_eq!(decimal_string(10), "10");
    assert_eq!(decimal_string(101), "101");
    assert_eq!(decimal_string(1234567890), "1234567890");
    assert_eq!(decimal_string(usize::MAX), format!("{}", usize::MAX));
}

#[test]
fn a_failed_send_becomes_a_sender_error() {
    let (sender, receiver) = mpsc::channel::<u8>();
    drop(receiver);
    let failure = sender.send(1).unwrap_err();
    let description = failure.to_string();
    match ThreadPoolError::from(failure) {
        ThreadPoolError::Sender(text) => assert_eq!(text, description),
        other => panic!("{:?}", other),
    }
}

#[test]
fn a_failed_receive_becomes_a_receiver_error() {
    let (sender, receiver) = mpsc::channel::<u8>();
    drop(sender);
    let failure = receiver.recv().unwrap_err();
    let description = failure.to_string();
    match ThreadPoolError::from(failure) {
        ThreadPoolError::Receiver(text) => assert_eq!(text, description),
        other => panic!("{:?}", other),
    }
}

#[test]
fn a_poisoned_lock_becomes_a_poison_error() {
    let failure = PoisonError::new(0_u8);
    let description = failure.to_string();
    match ThreadPoolError::from(failure) {
        ThreadPoolError::Poison(text) => assert_eq!(text, description),
        other => panic!("{:?}", other),
    }
}

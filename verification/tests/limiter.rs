use async_lock::Semaphore;
use oneoneseven::limiter::{acquire_slot, slot_or_reply};

#[test]
fn requests_over_the_limit_are_told_to_slow_down() {
    let limiter = Semaphore::new(2);
    let first = acquire_slot(&limiter);
    let second = acquire_slot(&limiter);
    assert!(first.is_ok());
    assert!(second.is_ok());
    let reply = acquire_slot(&limiter).err().expect("a third slot");
    assert_eq!(reply.status, 429);
    assert_eq!(reply.content_type, None);
    assert_eq!(&reply.body[..], b"Slow down cowboy");
    drop(first);
    assert!(acquire_slot(&limiter).is_ok());
}

#[test]
fn without_a_permit_there_is_no_slot() {
    assert_eq!(slot_or_reply(None).err().expect("a slot").status, 429);
    let limiter = Semaphore::new(1);
    assert!(slot_or_reply(limiter.try_acquire()).is_ok());
}

//! The limit on how many requests are served at once.

use crate::reply::{text_reply, Reply, ReplyModel, TOO_MANY_REQUESTS};
use async_lock::{Semaphore, SemaphoreGuard};
use vstd::prelude::*;

verus! {

/// The reply to a request over the limit.
pub open spec fn too_many_requests() -> ReplyModel {
    text_reply(TOO_MANY_REQUESTS, "Slow down cowboy"@)
}

/// A counting semaphore.
#[verifier::external_type_specification]
#[verifier::external_body]
pub struct ExSemaphore(Semaphore);

/// A permit of a semaphore, which is given back when it is dropped.
#[verifier::external_type_specification]
#[verifier::external_body]
pub struct ExSemaphoreGuard<'a>(SemaphoreGuard<'a>);

/// Calls `Semaphore::try_acquire`. Whether there is a permit left depends on the requests
/// that are being served, so nothing is stated of it.
#[verifier::external_body]
fn try_acquire<'a>(limiter: &'a Semaphore) -> (permit: Option<SemaphoreGuard<'a>>)
{
    limiter.try_acquire()
}

/// Whether `permit` is what an attempt to get a permit of `limiter` came to: a value that
/// `try_acquire` returned for it.
pub closed spec fn is_attempt<'a>(limiter: &'a Semaphore, permit: Option<SemaphoreGuard<'a>>) -> bool {
    call_ensures(try_acquire, (limiter,), permit)
}

/// An attempt comes to what `try_acquire` returns, and to nothing else.
proof fn law_attempts<'a>(limiter: &'a Semaphore, permit: Option<SemaphoreGuard<'a>>)
    ensures
        is_attempt(limiter, permit) <==> call_ensures(try_acquire, (limiter,), permit),
{
}

/// Lets a request in that holds a permit, and has a reply for one that holds none.
pub fn slot_or_reply<'a>(permit: Option<SemaphoreGuard<'a>>) -> (slot: Result<SemaphoreGuard<'a>, Reply>)
    ensures
        match permit {
            Some(permit) => slot == Ok::<SemaphoreGuard<'a>, Reply>(permit),
            None => slot matches Err(reply) && reply@ == too_many_requests(),
        },
{
    match permit {
        Some(permit) => Ok(permit),
        None => Err(Reply::text(TOO_MANY_REQUESTS, "Slow down cowboy")),
    }
}

/// Lets a request in if the limiter has a permit left, which the request keeps while it is
/// served, and has a reply for it otherwise.
pub fn acquire_slot<'a>(limiter: &'a Semaphore) -> (slot: Result<SemaphoreGuard<'a>, Reply>)
    ensures
        slot matches Err(reply) ==> reply@ == too_many_requests(),
        match slot {
            Ok(permit) => is_attempt(limiter, Some(permit)),
            Err(_) => is_attempt(limiter, None),
        },
{
    slot_or_reply(try_acquire(limiter))
}

} // verus!

//! Lets only one client state machine at a time ask for a new channel: several devices on
//! one bus receive the new-client clear-to-send at almost the same moment.

use std::sync::Arc;
use std::sync::atomic::AtomicBool;
use std::sync::atomic::Ordering;
use vstd::prelude::*;

verus! {

/// Calls `Arc::clone`, which the documentation describes as making another pointer to the
/// same allocation; the contract states that the result is the same shared value.
#[verifier::external_body]
fn share_flag(flag: &Arc<AtomicBool>) -> (r: Arc<AtomicBool>)
    ensures
        r == *flag,
{
    Arc::clone(flag)
}

/// Hands out one allocation token at a time.
#[derive(Debug)]
pub struct ChannelAllocatorBroker {
    active_token: Arc<AtomicBool>,
}

/// The right to allocate a channel; the broker is free again once it is dropped.
#[derive(Debug)]
pub struct AllocatorToken {
    inner: Arc<AtomicBool>,
}

impl ChannelAllocatorBroker {
    /// The shared flag that is set while a token is out.
    pub closed spec fn flag(&self) -> Arc<AtomicBool> {
        self.active_token
    }

    /// A broker with no token out.
    pub fn new() -> (b: Self) {
        Self { active_token: Arc::new(AtomicBool::new(false)) }
    }

    /// A token, if none is out: the flag is set from false to true in one atomic step.
    /// Whether that succeeds depends on the other holders of the broker; a token that
    /// comes back guards this broker's flag.
    pub fn try_allocate(&self) -> (r: Option<AllocatorToken>)
        ensures
            r matches Some(t) ==> t.flag() == self.flag(),
    {
        match self.active_token.compare_exchange(false, true, Ordering::SeqCst, Ordering::SeqCst) {
            Ok(_) => Some(AllocatorToken { inner: share_flag(&self.active_token) }),
            Err(_) => None,
        }
    }
}

impl AllocatorToken {
    /// The flag that this token clears when it is dropped.
    pub closed spec fn flag(&self) -> Arc<AtomicBool> {
        self.inner
    }

    /// Gives the token back; dropping it clears the broker's flag.
    pub fn release(self) {
    }
}

impl Drop for AllocatorToken {
    /// Calls `AtomicBool::store` to clear the broker's flag.
    #[verifier::external_body]
    fn drop(&mut self)
        opens_invariants none
        no_unwind
    {
        self.inner.store(false, Ordering::SeqCst);
    }
}

} // verus!

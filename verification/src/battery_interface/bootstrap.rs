//! The one connection to a service that a process makes, and keeps.

use vstd::prelude::*;
use crate::battery_interface::upower::utils::retry_result_with_delay;
use crate::error::BatteryError;

verus! {

/// The connection of a process to a service. It is made at most once: what
/// the first request settles, a handle or a failure, is what every later
/// request gets.
pub enum Bootstrap<H, E> {
    /// No request has been made yet.
    Uninitialized,
    /// The service was reached; this is the handle to it.
    Ready(H),
    /// The service was not reached within the retry budget; this is the
    /// error of the last attempt.
    PermanentlyFailed(E),
}

impl<H, E> Bootstrap<H, E> {
    /// The state after a request during which connecting, with its retries,
    /// ended in `outcome`. Only a state in which nothing was settled yet
    /// takes the outcome; a settled state stays as it is.
    pub open spec fn after(self, outcome: Result<H, E>) -> Bootstrap<H, E> {
        match self {
            Bootstrap::Uninitialized => match outcome {
                Ok(handle) => Bootstrap::Ready(handle),
                Err(error) => Bootstrap::PermanentlyFailed(error),
            },
            settled => settled,
        }
    }

    /// What a request is answered with in this state.
    pub open spec fn answer(&self) -> Result<&H, BatteryError> {
        match self {
            Bootstrap::Ready(handle) => Ok(handle),
            _ => Err(BatteryError::ConnectionUnavailable),
        }
    }

    /// The error that the failure kept, in the failed state.
    pub open spec fn cause(&self) -> Option<&E> {
        match self {
            Bootstrap::PermanentlyFailed(error) => Some(error),
            _ => None,
        }
    }

    pub fn new() -> (state: Self)
        ensures
            state is Uninitialized,
    {
        Bootstrap::Uninitialized
    }

    /// Settles the state, if it is not settled yet, by connecting with
    /// retries. In a settled state neither `connect` nor `pause` is called:
    /// nothing is asked of them there, so no call of them could be made.
    pub fn initialize<const DURATION_MS: u64>(
        &mut self,
        connect: impl Fn() -> Result<H, E>,
        pause: impl Fn(u64),
    )
        requires
            *old(self) is Uninitialized ==> call_requires(connect, ()) && call_requires(
                pause,
                (DURATION_MS,),
            ),
        ensures
            !(*final(self) is Uninitialized),
            *old(self) is Uninitialized ==> exists|outcome: Result<H, E>|
                call_ensures(connect, (), outcome) && *final(self) == #[trigger] (*old(self)).after(
                    outcome,
                ),
            !(*old(self) is Uninitialized) ==> *final(self) == *old(self),
    {
        if let Bootstrap::Uninitialized = self {
            let outcome = retry_result_with_delay::<H, E, DURATION_MS>(connect, pause);
            proof {
                assert(call_ensures(connect, (), outcome));
            }
            let ghost settled = (*old(self)).after(outcome);
            match outcome {
                Ok(handle) => {
                    *self = Bootstrap::Ready(handle);
                },
                Err(error) => {
                    *self = Bootstrap::PermanentlyFailed(error);
                },
            }
            assert(*self == settled);
        }
    }

    /// The handle, if the service was reached.
    pub fn handle(&self) -> (result: Result<&H, BatteryError>)
        ensures
            result == self.answer(),
    {
        match self {
            Bootstrap::Ready(handle) => Ok(handle),
            _ => Err(BatteryError::ConnectionUnavailable),
        }
    }

    /// The error of the last attempt, if the service was not reached.
    pub fn last_error(&self) -> (error: Option<&E>)
        ensures
            error == self.cause(),
    {
        match self {
            Bootstrap::PermanentlyFailed(error) => Some(error),
            _ => None,
        }
    }

    /// A failure is permanent: in the failed state a request leaves the state
    /// as it is, whatever connecting would end in, and so do all requests
    /// after it. Each is answered with `ConnectionUnavailable`, and the error
    /// that the failure kept stays the same.
    pub proof fn lemma_failure_is_permanent(
        state: Bootstrap<H, E>,
        first: Result<H, E>,
        second: Result<H, E>,
    )
        requires
            state is PermanentlyFailed,
        ensures
            state.after(first) == state,
            state.after(first).after(second) == state,
            state.after(first).answer() == Err::<&H, BatteryError>(
                BatteryError::ConnectionUnavailable,
            ),
            state.after(first).after(second).answer() == state.after(first).answer(),
            state.after(first).after(second).cause() == state.cause(),
    {
    }

    /// A first request whose retries are spent leaves the failed state, which
    /// keeps the error of the last attempt.
    pub proof fn lemma_spent_retries_fail(error: E)
        ensures
            Bootstrap::<H, E>::Uninitialized.after(Err(error)) == Bootstrap::<
                H,
                E,
            >::PermanentlyFailed(error),
    {
    }

    /// A handle, once there, stays the answer.
    pub proof fn lemma_ready_is_kept(state: Bootstrap<H, E>, outcome: Result<H, E>)
        requires
            state is Ready,
        ensures
            state.after(outcome) == state,
    {
    }
}

} // verus!

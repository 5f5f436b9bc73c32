//! Reconciling the two countdowns of a snapshot, and retrying a fallible step.

use vstd::prelude::*;
use crate::battery_info::time_until::time_to_empty_key;
use crate::battery_info::time_until::time_to_full_key;
use crate::battery_info::time_until::TimeUntil;
use crate::battery_info::BatteryInfo;
use crate::battery_info::BatteryInfoProperties;
use crate::error::BatteryError;
use crate::text::same_text;

verus! {

/// What a snapshot's countdown becomes when one more countdown arrives under
/// `key`, given the countdown `stored` so far.
///
/// The first countdown is stored as it comes. A second one under the same
/// label is a duplicate. Of two countdowns under different labels exactly one
/// may be running: the running one is kept, whichever came first.
pub open spec fn reconcile(stored: Option<TimeUntil>, key: Seq<char>, value: i64) -> Result<
    Option<TimeUntil>,
    BatteryError,
> {
    match stored {
        None => if value < 0 {
            Err(BatteryError::NegativeSeconds)
        } else {
            Ok(Some(TimeUntil::of(key, value as u64)))
        },
        Some(t) => if key == t.label() {
            Err(BatteryError::DuplicateTimeKey)
        } else if t.secs() == 0 && value == 0 {
            Err(BatteryError::BothZero)
        } else if t.secs() != 0 && value != 0 {
            Err(BatteryError::BothNonZero)
        } else if value == 0 {
            Ok(stored)
        } else if value < 0 {
            Err(BatteryError::NegativeSeconds)
        } else {
            Ok(Some(TimeUntil::of(key, value as u64)))
        },
    }
}

/// Takes one countdown into the snapshot. On an error the snapshot is left
/// as it was.
pub fn handle_time(key: &str, value: i64, batt_info: &mut BatteryInfo) -> (result: Result<
    (),
    BatteryError,
>)
    ensures
        match reconcile(old(batt_info).time_until, key@, value) {
            Ok(time_until) => result is Ok && *final(batt_info) == (BatteryInfo {
                time_until,
                ..*old(batt_info)
            }),
            Err(e) => result == Err::<(), BatteryError>(e) && *final(batt_info) == *old(batt_info),
        },
{
    if let Some(t) = &batt_info.time_until {
        let seconds: u64 = **t;
        let current_dur_is_zero = seconds == 0;
        if same_text(key, t.as_str()) {
            return Err(BatteryError::DuplicateTimeKey);
        }
        if current_dur_is_zero && value == 0 {
            return Err(BatteryError::BothZero);
        }
        if !current_dur_is_zero && value != 0 {
            return Err(BatteryError::BothNonZero);
        }
        if !current_dur_is_zero && value == 0 {
            return Ok(());
        }
    }
    if value < 0 {
        return Err(BatteryError::NegativeSeconds);
    }
    batt_info.set_propertry(BatteryInfoProperties::TimeUntil(TimeUntil::from((key, value as u64))));
    Ok(())
}

/// What two countdowns that arrive one after the other leave, starting from
/// a snapshot without a countdown.
pub open spec fn reconcile_pair(
    first_key: Seq<char>,
    first: i64,
    second_key: Seq<char>,
    second: i64,
) -> Result<Option<TimeUntil>, BatteryError> {
    match reconcile(None, first_key, first) {
        Ok(stored) => reconcile(stored, second_key, second),
        Err(e) => Err(e),
    }
}

/// Of the two countdowns of a device, of which exactly one is running, the
/// running one is what is stored, in whichever order the two arrive.
pub proof fn lemma_running_countdown_wins(to_empty: i64, to_full: i64)
    requires
        to_empty >= 0,
        to_full >= 0,
        (to_empty == 0) != (to_full == 0),
    ensures
        reconcile_pair(time_to_empty_key(), to_empty, time_to_full_key(), to_full)
            == reconcile_pair(time_to_full_key(), to_full, time_to_empty_key(), to_empty),
        to_empty != 0 ==> reconcile_pair(time_to_empty_key(), to_empty, time_to_full_key(), to_full)
            == Ok::<Option<TimeUntil>, BatteryError>(Some(TimeUntil::Empty(to_empty as u64))),
        to_full != 0 ==> reconcile_pair(time_to_empty_key(), to_empty, time_to_full_key(), to_full)
            == Ok::<Option<TimeUntil>, BatteryError>(Some(TimeUntil::Full(to_full as u64))),
{
    TimeUntil::lemma_labels_differ();
}

/// Two countdowns that contradict one another are refused in either order:
/// both at zero, or both running.
pub proof fn lemma_contradicting_countdowns_fail(to_empty: i64, to_full: i64)
    requires
        to_empty >= 0,
        to_full >= 0,
        (to_empty == 0) == (to_full == 0),
    ensures
        reconcile_pair(time_to_empty_key(), to_empty, time_to_full_key(), to_full)
            == reconcile_pair(time_to_full_key(), to_full, time_to_empty_key(), to_empty),
        to_empty == 0 ==> reconcile_pair(time_to_empty_key(), to_empty, time_to_full_key(), to_full)
            == Err::<Option<TimeUntil>, BatteryError>(BatteryError::BothZero),
        to_empty != 0 ==> reconcile_pair(time_to_empty_key(), to_empty, time_to_full_key(), to_full)
            == Err::<Option<TimeUntil>, BatteryError>(BatteryError::BothNonZero),
{
    TimeUntil::lemma_labels_differ();
}

/// A countdown that arrives under the label of the stored one is a
/// duplicate, whatever the two hold.
pub proof fn lemma_same_label_is_duplicate(stored: TimeUntil, value: i64)
    ensures
        reconcile(Some(stored), stored.label(), value) == Err::<Option<TimeUntil>, BatteryError>(
            BatteryError::DuplicateTimeKey,
        ),
{
}

/// What is stored after a countdown was taken in is one countdown whose
/// seconds were reported as they are stored, and only a countdown at rest is
/// ever given up for another.
pub proof fn lemma_reconcile_keeps_one(stored: Option<TimeUntil>, key: Seq<char>, value: i64)
    requires
        reconcile(stored, key, value) is Ok,
    ensures
        reconcile(stored, key, value)->Ok_0 is Some,
        reconcile(stored, key, value)->Ok_0 == stored || (reconcile(stored, key, value)->Ok_0
            == Some(TimeUntil::of(key, value as u64)) && value >= 0),
        stored is Some && stored->0.secs() != 0 ==> reconcile(stored, key, value)->Ok_0 == stored,
{
}

/// How often a step that failed is tried again before its failure stands.
pub const MAX_RETRIES: u32 = 10;

/// What follows an attempt.
#[derive(Debug, Clone, Copy, PartialEq, Eq, Structural)]
pub enum RetryStep {
    /// The outcome of the attempt stands.
    Return,
    /// Wait for the delay, then try once more.
    PauseThenRetry,
}

/// What follows an attempt that `succeeded` or not, after `retries` earlier
/// retries: a success stands at once, a failure stands once the retries are
/// spent.
pub open spec fn step_after(succeeded: bool, retries: u32) -> RetryStep {
    if succeeded || retries >= MAX_RETRIES {
        RetryStep::Return
    } else {
        RetryStep::PauseThenRetry
    }
}

pub fn after_attempt(succeeded: bool, retries: u32) -> (step: RetryStep)
    ensures
        step == step_after(succeeded, retries),
{
    if succeeded || retries >= MAX_RETRIES {
        RetryStep::Return
    } else {
        RetryStep::PauseThenRetry
    }
}

/// Runs `closure` until it succeeds or its retries are spent, and hands out
/// what its last run returned together with the number of retries made.
/// Before each retry `pause` is called with the delay `DURATION_MS`, and
/// with nothing else. A failure is handed out only once all retries are
/// spent.
pub fn retry_result_counted<T, E, const DURATION_MS: u64>(
    closure: impl Fn() -> Result<T, E>,
    pause: impl Fn(u64),
) -> (outcome: (Result<T, E>, u32))
    requires
        call_requires(closure, ()),
        call_requires(pause, (DURATION_MS,)),
    ensures
        call_ensures(closure, (), outcome.0),
        outcome.1 <= MAX_RETRIES,
        outcome.0 is Ok || outcome.1 == MAX_RETRIES,
{
    let mut output = closure();
    let mut retries: u32 = 0;
    loop
        invariant
            retries <= MAX_RETRIES,
            call_requires(closure, ()),
            call_requires(pause, (DURATION_MS,)),
            call_ensures(closure, (), output),
        decreases MAX_RETRIES - retries,
    {
        match after_attempt(output.is_ok(), retries) {
            RetryStep::Return => {
                return (output, retries);
            },
            RetryStep::PauseThenRetry => {
                pause(DURATION_MS);
                output = closure();
                retries += 1;
            },
        }
    }
}

/// Runs `closure` until it succeeds or its retries are spent, and hands out
/// what its last run returned. Before each retry `pause` is called with the
/// delay `DURATION_MS`, and with nothing else.
pub fn retry_result_with_delay<T, E, const DURATION_MS: u64>(
    closure: impl Fn() -> Result<T, E>,
    pause: impl Fn(u64),
) -> (result: Result<T, E>)
    requires
        call_requires(closure, ()),
        call_requires(pause, (DURATION_MS,)),
    ensures
        call_ensures(closure, (), result),
{
    let (result, _) = retry_result_counted::<T, E, DURATION_MS>(closure, pause);
    result
}

} // verus!

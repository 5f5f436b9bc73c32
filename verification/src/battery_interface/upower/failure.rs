//! When building a snapshot from a whole bag fails.

use vstd::prelude::*;
use crate::battery_info::time_until::time_to_empty_key;
use crate::battery_info::time_until::time_to_full_key;
use crate::battery_info::time_until::TimeUntil;
use crate::battery_info::BatteryInfo;
use crate::battery_interface::upower::asks_another_type;
use crate::battery_interface::upower::decode_entries;
use crate::battery_interface::upower::decode_entry;
use crate::battery_interface::upower::expected_kind;
use crate::battery_interface::upower::lemma_when_an_entry_fails;
use crate::dynamic_value::DynamicValue;
use crate::dynamic_value::ValueKind;

verus! {

/// No key occurs twice in the bag.
pub open spec fn keys_differ(entries: Seq<(String, DynamicValue)>) -> bool {
    forall|i: int, j: int| 0 <= i < j < entries.len() ==> entries[i].0@ != entries[j].0@
}

/// Whether an entry holds `seconds` as a 64-bit integer under `key`.
pub open spec fn holds_countdown(
    entry: (String, DynamicValue),
    key: Seq<char>,
    seconds: i64,
) -> bool {
    entry.0@ == key && match entry.1 {
        DynamicValue::Int64(s, _) => s == seconds,
        _ => false,
    }
}

/// Whether the bag holds `seconds` as a 64-bit integer under `key`.
pub open spec fn countdown_of(
    entries: Seq<(String, DynamicValue)>,
    key: Seq<char>,
    seconds: i64,
) -> bool {
    exists|i: int| 0 <= i < entries.len() && #[trigger] holds_countdown(entries[i], key, seconds)
}

/// No countdown in the bag is below zero.
pub open spec fn countdowns_nonnegative(entries: Seq<(String, DynamicValue)>) -> bool {
    forall|i: int, seconds: i64|
        0 <= i < entries.len() && expected_kind(entries[i].0@) == Some(ValueKind::Int64)
            && #[trigger] holds_countdown(entries[i], entries[i].0@, seconds) ==> seconds >= 0
}

/// Some key of the bag asks for a type that its value does not have.
pub open spec fn has_wrong_type(entries: Seq<(String, DynamicValue)>) -> bool {
    exists|i: int|
        0 <= i < entries.len() && asks_another_type((#[trigger] entries[i]).0@, entries[i].1)
}

/// The bag holds both countdowns, and either both are at zero or both are
/// running.
pub open spec fn countdowns_contradict(entries: Seq<(String, DynamicValue)>) -> bool {
    exists|to_empty: i64, to_full: i64|
        #![trigger countdown_of(entries, time_to_empty_key(), to_empty), countdown_of(entries, time_to_full_key(), to_full)]
        countdown_of(entries, time_to_empty_key(), to_empty) && countdown_of(
            entries,
            time_to_full_key(),
            to_full,
        ) && (to_empty == 0) == (to_full == 0)
}

/// The bag holds a countdown that contradicts the stored one: both at zero,
/// or both running.
spec fn contradicts_stored(stored: TimeUntil, entries: Seq<(String, DynamicValue)>) -> bool {
    exists|i: int, seconds: i64|
        0 <= i < entries.len() && expected_kind(entries[i].0@) == Some(ValueKind::Int64)
            && #[trigger] holds_countdown(entries[i], entries[i].0@, seconds) && (stored.secs()
            == 0) == (seconds == 0)
}

/// What a bag can contradict, given the countdown stored before it.
spec fn contradicts(stored: Option<TimeUntil>, entries: Seq<(String, DynamicValue)>) -> bool {
    match stored {
        None => countdowns_contradict(entries),
        Some(t) => contradicts_stored(t, entries),
    }
}

/// The countdown stored before a bag came from a key that the bag does not
/// hold again.
spec fn stored_fits(stored: Option<TimeUntil>, entries: Seq<(String, DynamicValue)>) -> bool {
    match stored {
        None => true,
        Some(t) => !(t is Unknown) && forall|i: int|
            0 <= i < entries.len() ==> (#[trigger] entries[i]).0@ != t.label(),
    }
}

/// The two countdown keys are the keys that ask for a 64-bit integer, and
/// they differ.
proof fn lemma_countdown_keys()
    ensures
        time_to_empty_key() != time_to_full_key(),
        forall|key: Seq<char>| #[trigger]
            expected_kind(key) == Some(ValueKind::Int64) <==> key == time_to_empty_key() || key
                == time_to_full_key(),
{
    reveal_strlit("BatteryLevel");
    reveal_strlit("IconName");
    reveal_strlit("Type");
    reveal_strlit("TimeToEmpty");
    reveal_strlit("TimeToFull");
    assert("BatteryLevel"@.len() == 12);
    assert("IconName"@.len() == 8);
    assert("Type"@.len() == 4);
    assert("TimeToEmpty"@.len() == 11);
    assert("TimeToFull"@.len() == 10);
}

/// A bag holds a countdown in its first entry or in the entries after it.
proof fn lemma_countdown_of_split(
    entries: Seq<(String, DynamicValue)>,
    key: Seq<char>,
    seconds: i64,
)
    requires
        entries.len() > 0,
    ensures
        countdown_of(entries, key, seconds) <==> holds_countdown(entries[0], key, seconds)
            || countdown_of(entries.skip(1), key, seconds),
{
    let rest = entries.skip(1);
    if countdown_of(entries, key, seconds) {
        let i = choose|i: int|
            0 <= i < entries.len() && #[trigger] holds_countdown(entries[i], key, seconds);
        if i > 0 {
            assert(rest[i - 1] == entries[i]);
        }
    }
    if countdown_of(rest, key, seconds) {
        let j = choose|j: int| 0 <= j < rest.len() && #[trigger] holds_countdown(rest[j], key, seconds);
        assert(entries[j + 1] == rest[j]);
    }
}

/// A bag has a wrong type in its first entry or in the entries after it.
proof fn lemma_wrong_type_split(entries: Seq<(String, DynamicValue)>)
    requires
        entries.len() > 0,
    ensures
        has_wrong_type(entries) <==> asks_another_type(entries[0].0@, entries[0].1)
            || has_wrong_type(entries.skip(1)),
{
    let rest = entries.skip(1);
    if has_wrong_type(entries) {
        let i = choose|i: int|
            0 <= i < entries.len() && asks_another_type((#[trigger] entries[i]).0@, entries[i].1);
        if i > 0 {
            assert(rest[i - 1] == entries[i]);
        }
    }
    if has_wrong_type(rest) {
        let j = choose|j: int|
            0 <= j < rest.len() && asks_another_type((#[trigger] rest[j]).0@, rest[j].1);
        assert(entries[j + 1] == rest[j]);
    }
}

/// What holds of a bag holds of the entries after its first, none of which
/// has the first entry's key.
proof fn lemma_rest_of_bag(entries: Seq<(String, DynamicValue)>)
    requires
        entries.len() > 0,
        keys_differ(entries),
        countdowns_nonnegative(entries),
    ensures
        keys_differ(entries.skip(1)),
        countdowns_nonnegative(entries.skip(1)),
        forall|j: int|
            0 <= j < entries.skip(1).len() ==> (#[trigger] entries.skip(1)[j]).0@ != entries[0].0@,
{
    let rest = entries.skip(1);
    assert forall|i: int, j: int| 0 <= i < j < rest.len() implies rest[i].0@ != rest[j].0@ by {
        assert(rest[i] == entries[i + 1]);
        assert(rest[j] == entries[j + 1]);
    }
    assert forall|i: int, seconds: i64|
        0 <= i < rest.len() && expected_kind(rest[i].0@) == Some(ValueKind::Int64)
            && #[trigger] holds_countdown(rest[i], rest[i].0@, seconds) implies seconds >= 0 by {
        assert(rest[i] == entries[i + 1]);
    }
    assert forall|j: int| 0 <= j < rest.len() implies (#[trigger] rest[j]).0@ != entries[0].0@ by {
        assert(rest[j] == entries[j + 1]);
    }
}

/// Nothing after the first entry of a bag is a countdown, once both
/// countdown keys are used up: one by the stored countdown, one by the first
/// entry.
proof fn lemma_no_countdown_left(
    stored: TimeUntil,
    entries: Seq<(String, DynamicValue)>,
)
    requires
        entries.len() > 0,
        keys_differ(entries),
        countdowns_nonnegative(entries),
        stored_fits(Some(stored), entries),
        expected_kind(entries[0].0@) == Some(ValueKind::Int64),
    ensures
        forall|j: int|
            0 <= j < entries.skip(1).len() ==> expected_kind((#[trigger] entries.skip(1)[j]).0@)
                != Some(ValueKind::Int64),
{
    let rest = entries.skip(1);
    lemma_countdown_keys();
    lemma_rest_of_bag(entries);
    TimeUntil::lemma_labels_differ();
    assert(entries[0].0@ != stored.label());
    assert forall|j: int| 0 <= j < rest.len() implies expected_kind((#[trigger] rest[j]).0@)
        != Some(ValueKind::Int64) by {
        assert(rest[j] == entries[j + 1]);
        assert(entries[j + 1].0@ != stored.label());
        assert(rest[j].0@ != entries[0].0@);
    }
}

/// When a bag fails that is taken into a snapshot whose countdown came from
/// a key that the bag does not hold again.
proof fn lemma_bag_fails_from(info: BatteryInfo, entries: Seq<(String, DynamicValue)>)
    requires
        keys_differ(entries),
        countdowns_nonnegative(entries),
        stored_fits(info.time_until, entries),
    ensures
        decode_entries(info, entries) is Err <==> has_wrong_type(entries) || contradicts(
            info.time_until,
            entries,
        ),
    decreases entries.len(),
{
    lemma_countdown_keys();
    TimeUntil::lemma_labels_differ();
    if entries.len() == 0 {
        assert(!has_wrong_type(entries));
        assert(!contradicts(info.time_until, entries)) by {
            assert(forall|key: Seq<char>, seconds: i64| !countdown_of(entries, key, seconds));
        }
    } else {
        let key = entries[0].0;
        let value = entries[0].1;
        let rest = entries.skip(1);
        lemma_rest_of_bag(entries);
        lemma_wrong_type_split(entries);
        lemma_when_an_entry_fails(info, key, value);
        if asks_another_type(key@, value) {
        } else if expected_kind(key@) == Some(ValueKind::Int64) {
            let seconds = value->Int64_0;
            assert(holds_countdown(entries[0], key@, seconds));
            assert(seconds >= 0);
            match info.time_until {
                None => {
                    let first = TimeUntil::of(key@, seconds as u64);
                    let next = BatteryInfo { time_until: Some(first), ..info };
                    assert(decode_entry(info, key, value) == Ok::<
                        BatteryInfo,
                        crate::error::BatteryError,
                    >(next));
                    assert(first.label() == key@);
                    lemma_bag_fails_from(next, rest);
                    lemma_first_countdown(entries, first, seconds);
                },
                Some(stored) => {
                    assert(key@ != stored.label());
                    if (stored.secs() == 0) == (seconds == 0) {
                        assert(contradicts_stored(stored, entries));
                    } else {
                        let next = decode_entry(info, key, value)->Ok_0;
                        let kept = next.time_until->0;
                        assert(kept == stored || kept == TimeUntil::of(key@, seconds as u64));
                        lemma_no_countdown_left(stored, entries);
                        assert(stored_fits(next.time_until, rest)) by {
                            assert forall|j: int| 0 <= j < rest.len() implies (
                            #[trigger] rest[j]).0@ != kept.label() by {
                                assert(rest[j] == entries[j + 1]);
                            }
                        }
                        lemma_bag_fails_from(next, rest);
                        assert(!contradicts_stored(kept, rest));
                        assert(!contradicts_stored(stored, entries)) by {
                            if contradicts_stored(stored, entries) {
                                let (i, s) = choose|i: int, s: i64|
                                    0 <= i < entries.len() && expected_kind(entries[i].0@) == Some(
                                        ValueKind::Int64,
                                    ) && #[trigger] holds_countdown(entries[i], entries[i].0@, s)
                                        && (stored.secs() == 0) == (s == 0);
                                if i > 0 {
                                    assert(rest[i - 1] == entries[i]);
                                }
                            }
                        }
                    }
                },
            }
        } else {
            let next = decode_entry(info, key, value)->Ok_0;
            assert(next.time_until == info.time_until);
            assert(stored_fits(next.time_until, rest)) by {
                if let Some(stored) = info.time_until {
                    assert forall|j: int| 0 <= j < rest.len() implies (#[trigger] rest[j]).0@
                        != stored.label() by {
                        assert(rest[j] == entries[j + 1]);
                    }
                }
            }
            lemma_bag_fails_from(next, rest);
            lemma_plain_entry_contradicts_nothing(info.time_until, entries);
        }
    }
}

/// After the first countdown of a bag is stored, the bag contradicts itself
/// exactly when the entries after it contradict what is stored.
proof fn lemma_first_countdown(
    entries: Seq<(String, DynamicValue)>,
    first: TimeUntil,
    seconds: i64,
)
    requires
        entries.len() > 0,
        keys_differ(entries),
        countdowns_nonnegative(entries),
        expected_kind(entries[0].0@) == Some(ValueKind::Int64),
        holds_countdown(entries[0], entries[0].0@, seconds),
        seconds >= 0,
        first == TimeUntil::of(entries[0].0@, seconds as u64),
    ensures
        countdowns_contradict(entries) <==> contradicts_stored(first, entries.skip(1)),
{
    let rest = entries.skip(1);
    let key = entries[0].0@;
    lemma_countdown_keys();
    lemma_rest_of_bag(entries);
    TimeUntil::lemma_labels_differ();
    let other = if key == time_to_empty_key() {
        time_to_full_key()
    } else {
        time_to_empty_key()
    };
    assert(first.secs() == seconds);
    if countdowns_contradict(entries) {
        let (e, f) = choose|e: i64, f: i64|
            #![trigger countdown_of(entries, time_to_empty_key(), e), countdown_of(entries, time_to_full_key(), f)]
            countdown_of(entries, time_to_empty_key(), e) && countdown_of(
                entries,
                time_to_full_key(),
                f,
            ) && (e == 0) == (f == 0);
        lemma_countdown_of_split(entries, time_to_empty_key(), e);
        lemma_countdown_of_split(entries, time_to_full_key(), f);
        let (mine, theirs) = if key == time_to_empty_key() {
            (e, f)
        } else {
            (f, e)
        };
        assert(!countdown_of(rest, key, mine)) by {
            if countdown_of(rest, key, mine) {
                let j = choose|j: int|
                    0 <= j < rest.len() && #[trigger] holds_countdown(rest[j], key, mine);
                assert(rest[j].0@ != entries[0].0@);
            }
        }
        assert(mine == seconds);
        assert(countdown_of(rest, other, theirs));
        let j = choose|j: int| 0 <= j < rest.len() && #[trigger] holds_countdown(rest[j], other, theirs);
        assert(holds_countdown(rest[j], rest[j].0@, theirs));
        assert(contradicts_stored(first, rest));
    }
    if contradicts_stored(first, rest) {
        let (j, s) = choose|j: int, s: i64|
            0 <= j < rest.len() && expected_kind(rest[j].0@) == Some(ValueKind::Int64)
                && #[trigger] holds_countdown(rest[j], rest[j].0@, s) && (first.secs() == 0) == (s
                == 0);
        assert(rest[j].0@ != entries[0].0@);
        assert(rest[j].0@ == other);
        assert(entries[j + 1] == rest[j]);
        assert(holds_countdown(entries[j + 1], other, s));
        assert(countdown_of(entries, other, s));
        assert(holds_countdown(entries[0], key, seconds));
        assert(countdown_of(entries, key, seconds));
        if key == time_to_empty_key() {
            assert(countdown_of(entries, time_to_empty_key(), seconds) && countdown_of(
                entries,
                time_to_full_key(),
                s,
            ) && (seconds == 0) == (s == 0));
        } else {
            assert(countdown_of(entries, time_to_empty_key(), s) && countdown_of(
                entries,
                time_to_full_key(),
                seconds,
            ) && (s == 0) == (seconds == 0));
        }
    }
}

/// A first entry that is no countdown takes no part in a contradiction.
proof fn lemma_plain_entry_contradicts_nothing(
    stored: Option<TimeUntil>,
    entries: Seq<(String, DynamicValue)>,
)
    requires
        entries.len() > 0,
        expected_kind(entries[0].0@) != Some(ValueKind::Int64),
    ensures
        contradicts(stored, entries) <==> contradicts(stored, entries.skip(1)),
{
    let rest = entries.skip(1);
    lemma_countdown_keys();
    match stored {
        None => {
            assert forall|key: Seq<char>, seconds: i64|
                key == time_to_empty_key() || key == time_to_full_key() implies (countdown_of(
                entries,
                key,
                seconds,
            ) <==> #[trigger] countdown_of(rest, key, seconds)) by {
                lemma_countdown_of_split(entries, key, seconds);
            }
            if countdowns_contradict(entries) {
                let (e, f) = choose|e: i64, f: i64|
                    #![trigger countdown_of(entries, time_to_empty_key(), e), countdown_of(entries, time_to_full_key(), f)]
                    countdown_of(entries, time_to_empty_key(), e) && countdown_of(
                        entries,
                        time_to_full_key(),
                        f,
                    ) && (e == 0) == (f == 0);
                lemma_countdown_of_split(entries, time_to_empty_key(), e);
                lemma_countdown_of_split(entries, time_to_full_key(), f);
                assert(countdown_of(rest, time_to_empty_key(), e) && countdown_of(
                    rest,
                    time_to_full_key(),
                    f,
                ));
            }
            if countdowns_contradict(rest) {
                let (e, f) = choose|e: i64, f: i64|
                    #![trigger countdown_of(rest, time_to_empty_key(), e), countdown_of(rest, time_to_full_key(), f)]
                    countdown_of(rest, time_to_empty_key(), e) && countdown_of(
                        rest,
                        time_to_full_key(),
                        f,
                    ) && (e == 0) == (f == 0);
                lemma_countdown_of_split(entries, time_to_empty_key(), e);
                lemma_countdown_of_split(entries, time_to_full_key(), f);
                assert(countdown_of(entries, time_to_empty_key(), e) && countdown_of(
                    entries,
                    time_to_full_key(),
                    f,
                ));
            }
        },
        Some(t) => {
            if contradicts_stored(t, entries) {
                let (i, s) = choose|i: int, s: i64|
                    0 <= i < entries.len() && expected_kind(entries[i].0@) == Some(ValueKind::Int64)
                        && #[trigger] holds_countdown(entries[i], entries[i].0@, s) && (t.secs()
                        == 0) == (s == 0);
                assert(i > 0);
                assert(rest[i - 1] == entries[i]);
                assert(holds_countdown(rest[i - 1], rest[i - 1].0@, s));
            }
            if contradicts_stored(t, rest) {
                let (j, s) = choose|j: int, s: i64|
                    0 <= j < rest.len() && expected_kind(rest[j].0@) == Some(ValueKind::Int64)
                        && #[trigger] holds_countdown(rest[j], rest[j].0@, s) && (t.secs() == 0)
                        == (s == 0);
                assert(entries[j + 1] == rest[j]);
                assert(holds_countdown(entries[j + 1], entries[j + 1].0@, s));
            }
        },
    }
}

/// When building a snapshot from a bag fails. For a bag in which no key
/// occurs twice and no countdown is below zero, the pass fails exactly when
/// some key holds a value of another type than it asks for, or when both
/// countdowns are there and either both are at zero or both are running.
/// Nothing else in a bag makes the pass fail.
pub proof fn lemma_when_a_bag_fails(entries: Seq<(String, DynamicValue)>)
    requires
        keys_differ(entries),
        countdowns_nonnegative(entries),
    ensures
        decode_entries(BatteryInfo::empty(), entries) is Err <==> has_wrong_type(entries)
            || countdowns_contradict(entries),
{
    lemma_bag_fails_from(BatteryInfo::empty(), entries);
}

} // verus!

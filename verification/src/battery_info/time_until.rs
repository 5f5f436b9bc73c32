//! What a device is counting down to, and how many seconds are left.

use vstd::prelude::*;
use vstd::std_specs::convert::FromSpecImpl;
use crate::text::same_text;

verus! {

/// One countdown: to a full battery, to an empty one, or to something that
/// the key it came under does not name. Each holds the seconds that are left.
#[derive(Debug, Clone, Copy, PartialEq, Eq, Structural)]
pub enum TimeUntil {
    Full(u64),
    Empty(u64),
    Unknown(u64),
}

/// The key under which the seconds until full are reported.
pub open spec fn time_to_full_key() -> Seq<char> {
    "TimeToFull"@
}

/// The key under which the seconds until empty are reported.
pub open spec fn time_to_empty_key() -> Seq<char> {
    "TimeToEmpty"@
}

/// The label of a countdown that neither key names.
pub open spec fn unknown_label() -> Seq<char> {
    "Unknown"@
}

impl TimeUntil {
    /// The countdown that a key and a number of seconds stand for.
    pub open spec fn of(key: Seq<char>, seconds: u64) -> TimeUntil {
        if key == time_to_full_key() {
            TimeUntil::Full(seconds)
        } else if key == time_to_empty_key() {
            TimeUntil::Empty(seconds)
        } else {
            TimeUntil::Unknown(seconds)
        }
    }

    /// The key that names a countdown.
    pub open spec fn label(self) -> Seq<char> {
        match self {
            TimeUntil::Full(_) => time_to_full_key(),
            TimeUntil::Empty(_) => time_to_empty_key(),
            TimeUntil::Unknown(_) => unknown_label(),
        }
    }

    /// The seconds that are left.
    pub open spec fn secs(self) -> u64 {
        match self {
            TimeUntil::Full(s) => s,
            TimeUntil::Empty(s) => s,
            TimeUntil::Unknown(s) => s,
        }
    }

    /// The key that names this countdown.
    pub fn as_str(&self) -> (label: &str)
        ensures
            label@ == self.label(),
    {
        match self {
            TimeUntil::Full(_) => "TimeToFull",
            TimeUntil::Empty(_) => "TimeToEmpty",
            TimeUntil::Unknown(_) => "Unknown",
        }
    }

    /// The three labels differ from one another.
    pub proof fn lemma_labels_differ()
        ensures
            time_to_full_key() != time_to_empty_key(),
            time_to_full_key() != unknown_label(),
            time_to_empty_key() != unknown_label(),
    {
        reveal_strlit("TimeToFull");
        reveal_strlit("TimeToEmpty");
        reveal_strlit("Unknown");
        assert(time_to_full_key().len() == 10);
        assert(time_to_empty_key().len() == 11);
        assert(unknown_label().len() == 7);
    }

    /// A countdown is the one that its own label and seconds stand for.
    pub proof fn lemma_of_label(t: TimeUntil)
        ensures
            Self::of(t.label(), t.secs()) == t,
    {
        Self::lemma_labels_differ();
    }

    /// Building a countdown keeps the seconds, and keeps the key as its label
    /// exactly when the key is one of the three labels.
    pub proof fn lemma_label_of(key: Seq<char>, seconds: u64)
        ensures
            Self::of(key, seconds).secs() == seconds,
            Self::of(key, seconds).label() == key <==> (key == time_to_full_key() || key
                == time_to_empty_key() || key == unknown_label()),
    {
        Self::lemma_labels_differ();
    }
}

impl std::ops::Deref for TimeUntil {
    type Target = u64;

    /// The seconds that are left.
    fn deref(&self) -> (seconds: &u64)
        ensures
            *seconds == self.secs(),
    {
        match self {
            TimeUntil::Full(s) => s,
            TimeUntil::Empty(s) => s,
            TimeUntil::Unknown(s) => s,
        }
    }
}

impl<'a> From<(&'a str, u64)> for TimeUntil {
    fn from(value: (&'a str, u64)) -> (t: Self)
        ensures
            t == Self::of(value.0@, value.1),
    {
        let (key, seconds) = value;
        if same_text(key, "TimeToFull") {
            Self::Full(seconds)
        } else if same_text(key, "TimeToEmpty") {
            Self::Empty(seconds)
        } else {
            Self::Unknown(seconds)
        }
    }
}

impl<'a> FromSpecImpl<(&'a str, u64)> for TimeUntil {
    open spec fn obeys_from_spec() -> bool {
        true
    }

    open spec fn from_spec(value: (&'a str, u64)) -> Self {
        Self::of(value.0@, value.1)
    }
}

} // verus!

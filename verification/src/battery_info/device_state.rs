//! What a device's battery is doing: charging, discharging, or at rest.

use vstd::prelude::*;
use vstd::std_specs::convert::FromSpecImpl;

verus! {

#[derive(Debug, Clone, Copy, PartialEq, Eq, Structural)]
pub enum DeviceState {
    Unknown,
    Charging,
    Discharging,
    Empty,
    FullyCharged,
    PendingCharge,
    PendingDischarge,
}

/// The largest code that names a state.
pub const DEVICE_STATE_MAX: u32 = 6;

impl DeviceState {
    /// The state that a code stands for; every code without a state of its
    /// own stands for `Unknown`.
    pub open spec fn decode(code: u32) -> DeviceState {
        match code {
            1 => DeviceState::Charging,
            2 => DeviceState::Discharging,
            3 => DeviceState::Empty,
            4 => DeviceState::FullyCharged,
            5 => DeviceState::PendingCharge,
            6 => DeviceState::PendingDischarge,
            _ => DeviceState::Unknown,
        }
    }

    /// The code of a state; `Unknown` has code 0.
    pub open spec fn code(self) -> u32 {
        match self {
            DeviceState::Unknown => 0,
            DeviceState::Charging => 1,
            DeviceState::Discharging => 2,
            DeviceState::Empty => 3,
            DeviceState::FullyCharged => 4,
            DeviceState::PendingCharge => 5,
            DeviceState::PendingDischarge => 6,
        }
    }

    /// Every state once, in the order of the codes `0..=6`.
    pub open spec fn all() -> Seq<DeviceState> {
        Seq::new((DEVICE_STATE_MAX + 1) as nat, |i: int| Self::decode(i as u32))
    }

    /// Every state paired with its code, in the order of the codes.
    pub open spec fn table() -> Seq<(u32, DeviceState)> {
        Seq::new((DEVICE_STATE_MAX + 1) as nat, |i: int| (i as u32, Self::decode(i as u32)))
    }

    /// A fresh enumeration of all states, starting at code 0.
    pub fn iter_levels() -> (iter: DeviceStateIter)
        ensures
            iter.remaining() == Self::all(),
    {
        let iter = DeviceStateIter { index: 0 };
        assert(iter.remaining() =~= Self::all());
        iter
    }

    /// The whole code table, built by running one enumeration to its end.
    pub fn enumerate() -> (pairs: Vec<(u32, DeviceState)>)
        ensures
            pairs@ == Self::table(),
    {
        let mut iter = Self::iter_levels();
        let mut pairs: Vec<(u32, DeviceState)> = Vec::new();
        loop
            invariant
                pairs@.len() + iter.remaining().len() == DEVICE_STATE_MAX + 1,
                iter.remaining() == Self::all().skip(pairs@.len() as int),
                pairs@ == Self::table().take(pairs@.len() as int),
            decreases iter.remaining().len(),
        {
            match iter.next() {
                None => {
                    assert(pairs@ =~= Self::table());
                    return pairs;
                },
                Some(item) => {
                    let ghost n = pairs@.len() as int;
                    let pair = <(u32, DeviceState)>::from(item);
                    pairs.push(pair);
                    proof {
                        assert(item == Self::all()[n]);
                        assert(iter.remaining() =~= Self::all().skip(n + 1));
                        assert(pairs@ =~= Self::table().take(n + 1));
                    }
                },
            }
        }
    }

    /// Decoding a code in `0..=6` and encoding the state gives the code back.
    pub proof fn lemma_code_of_decode(code: u32)
        requires
            code <= DEVICE_STATE_MAX,
        ensures
            Self::decode(code).code() == code,
    {
    }

    /// A code above 6 decodes to `Unknown`, which encodes to 0 and not to the
    /// code that came in.
    pub proof fn lemma_decode_out_of_range(code: u32)
        requires
            code > DEVICE_STATE_MAX,
        ensures
            Self::decode(code) == DeviceState::Unknown,
            Self::decode(code).code() == 0,
            Self::decode(code).code() != code,
    {
    }

    /// Encoding a state and decoding the code gives it back, and the
    /// code lies in `0..=6`.
    pub proof fn lemma_decode_of_code(value: DeviceState)
        ensures
            value.code() <= DEVICE_STATE_MAX,
            Self::decode(value.code()) == value,
    {
    }

    /// The table holds the codes `0..=6` in ascending order, each once, each
    /// beside the state it stands for.
    pub proof fn lemma_table_complete()
        ensures
            Self::table().len() == DEVICE_STATE_MAX + 1,
            forall|i: int|
                0 <= i < Self::table().len() ==> (#[trigger] Self::table()[i]).0 == i,
            forall|i: int|
                0 <= i < Self::table().len() ==> (#[trigger] Self::table()[i]).1.code() == i,
            forall|i: int, j: int|
                0 <= i < j < Self::table().len() ==> (#[trigger] Self::table()[i]).1 != (
                #[trigger] Self::table()[j]).1,
    {
    }
}

impl From<u32> for DeviceState {
    fn from(value: u32) -> (decoded: Self)
        ensures
            decoded == Self::decode(value),
    {
        match value {
            1 => DeviceState::Charging,
            2 => DeviceState::Discharging,
            3 => DeviceState::Empty,
            4 => DeviceState::FullyCharged,
            5 => DeviceState::PendingCharge,
            6 => DeviceState::PendingDischarge,
            _ => DeviceState::Unknown,
        }
    }
}

impl FromSpecImpl<u32> for DeviceState {
    open spec fn obeys_from_spec() -> bool {
        true
    }

    open spec fn from_spec(value: u32) -> Self {
        Self::decode(value)
    }
}

impl From<DeviceState> for u32 {
    fn from(value: DeviceState) -> (code: Self)
        ensures
            code == value.code(),
    {
        match value {
            DeviceState::Charging => 1,
            DeviceState::Discharging => 2,
            DeviceState::Empty => 3,
            DeviceState::FullyCharged => 4,
            DeviceState::PendingCharge => 5,
            DeviceState::PendingDischarge => 6,
            DeviceState::Unknown => 0,
        }
    }
}

impl FromSpecImpl<DeviceState> for u32 {
    open spec fn obeys_from_spec() -> bool {
        true
    }

    open spec fn from_spec(value: DeviceState) -> Self {
        value.code()
    }
}

impl From<DeviceState> for (u32, DeviceState) {
    fn from(value: DeviceState) -> (pair: Self)
        ensures
            pair == (value.code(), value),
    {
        let num: u32 = u32::from(value);
        (num, value)
    }
}

impl FromSpecImpl<DeviceState> for (u32, DeviceState) {
    open spec fn obeys_from_spec() -> bool {
        true
    }

    open spec fn from_spec(value: DeviceState) -> Self {
        (value.code(), value)
    }
}

/// An enumeration of the states in the order of their codes. It stands at a
/// code; what it still hands out are the states from that code to the last.
pub struct DeviceStateIter {
    index: u32,
}

impl DeviceStateIter {
    /// The states that are still to come, next one first.
    pub closed spec fn remaining(&self) -> Seq<DeviceState> {
        if self.index > DEVICE_STATE_MAX {
            Seq::empty()
        } else {
            Seq::new(
                (DEVICE_STATE_MAX + 1 - self.index) as nat,
                |i: int| DeviceState::decode((self.index + i) as u32),
            )
        }
    }

    /// Hands out the next state, or `None` once all have been handed out.
    pub fn next(&mut self) -> (item: Option<DeviceState>)
        ensures
            old(self).remaining().len() == 0 ==> item is None,
            old(self).remaining().len() == 0 ==> final(self).remaining() == old(self).remaining(),
            old(self).remaining().len() > 0 ==> item == Some(old(self).remaining()[0]),
            old(self).remaining().len() > 0 ==> final(self).remaining()
                == old(self).remaining().skip(1),
    {
        if self.index > DEVICE_STATE_MAX {
            return None;
        }
        let item: DeviceState = DeviceState::from(self.index);
        self.index += 1;
        proof {
            assert(final(self).remaining() =~= old(self).remaining().skip(1));
        }
        Some(item)
    }
}

} // verus!

//! Coarse battery level, as the service reports it for devices without a
//! percentage.

use vstd::prelude::*;
use vstd::std_specs::convert::FromSpecImpl;

verus! {

#[derive(Debug, Clone, Copy, PartialEq, Eq, Structural)]
pub enum BatteryLevel {
    Unknown,
    NotApplicable,
    Low,
    Critical,
    Normal,
    High,
    Full,
}

/// The largest code that names a level.
pub const BATTERY_LEVEL_MAX: u32 = 6;

impl BatteryLevel {
    /// The level that a code stands for; every code without a level of its
    /// own stands for `Unknown`.
    pub open spec fn decode(code: u32) -> BatteryLevel {
        match code {
            1 => BatteryLevel::NotApplicable,
            2 => BatteryLevel::Low,
            3 => BatteryLevel::Critical,
            4 => BatteryLevel::Normal,
            5 => BatteryLevel::High,
            6 => BatteryLevel::Full,
            _ => BatteryLevel::Unknown,
        }
    }

    /// The code of a level; `Unknown` has code 0.
    pub open spec fn code(self) -> u32 {
        match self {
            BatteryLevel::Unknown => 0,
            BatteryLevel::NotApplicable => 1,
            BatteryLevel::Low => 2,
            BatteryLevel::Critical => 3,
            BatteryLevel::Normal => 4,
            BatteryLevel::High => 5,
            BatteryLevel::Full => 6,
        }
    }

    /// Every level once, in the order of the codes `0..=6`.
    pub open spec fn all() -> Seq<BatteryLevel> {
        Seq::new((BATTERY_LEVEL_MAX + 1) as nat, |i: int| Self::decode(i as u32))
    }

    /// Every level paired with its code, in the order of the codes.
    pub open spec fn table() -> Seq<(u32, BatteryLevel)> {
        Seq::new((BATTERY_LEVEL_MAX + 1) as nat, |i: int| (i as u32, Self::decode(i as u32)))
    }

    /// A fresh enumeration of all levels, starting at code 0.
    pub fn iter_levels() -> (iter: BatteryLevelIter)
        ensures
            iter.remaining() == Self::all(),
    {
        let iter = BatteryLevelIter { index: 0 };
        assert(iter.remaining() =~= Self::all());
        iter
    }

    /// The whole code table, built by running one enumeration to its end.
    pub fn enumerate() -> (pairs: Vec<(u32, BatteryLevel)>)
        ensures
            pairs@ == Self::table(),
    {
        let mut iter = Self::iter_levels();
        let mut pairs: Vec<(u32, BatteryLevel)> = Vec::new();
        loop
            invariant
                pairs@.len() + iter.remaining().len() == BATTERY_LEVEL_MAX + 1,
                iter.remaining() == Self::all().skip(pairs@.len() as int),
                pairs@ == Self::table().take(pairs@.len() as int),
            decreases iter.remaining().len(),
        {
            match iter.next() {
                None => {
                    assert(pairs@ =~= Self::table());
                    return pairs;
                },
                Some(level) => {
                    let ghost n = pairs@.len() as int;
                    let pair = <(u32, BatteryLevel)>::from(level);
                    pairs.push(pair);
                    proof {
                        assert(level == Self::all()[n]);
                        assert(iter.remaining() =~= Self::all().skip(n + 1));
                        assert(pairs@ =~= Self::table().take(n + 1));
                    }
                },
            }
        }
    }

    /// Decoding a code in `0..=6` and encoding the level gives the code back.
    pub proof fn lemma_code_of_decode(code: u32)
        requires
            code <= BATTERY_LEVEL_MAX,
        ensures
            Self::decode(code).code() == code,
    {
    }

    /// A code above 6 decodes to `Unknown`, which encodes to 0 and not to the
    /// code that came in.
    pub proof fn lemma_decode_out_of_range(code: u32)
        requires
            code > BATTERY_LEVEL_MAX,
        ensures
            Self::decode(code) == BatteryLevel::Unknown,
            Self::decode(code).code() == 0,
            Self::decode(code).code() != code,
    {
    }

    /// Encoding a level and decoding the code gives the level back, and the
    /// code lies in `0..=6`.
    pub proof fn lemma_decode_of_code(level: BatteryLevel)
        ensures
            level.code() <= BATTERY_LEVEL_MAX,
            Self::decode(level.code()) == level,
    {
    }

    /// The table holds the codes `0..=6` in ascending order, each once, each
    /// beside the level it stands for.
    pub proof fn lemma_table_complete()
        ensures
            Self::table().len() == BATTERY_LEVEL_MAX + 1,
            forall|i: int|
                0 <= i < Self::table().len() ==> (#[trigger] Self::table()[i]).0 == i,
            forall|i: int|
                0 <= i < Self::table().len() ==> (#[trigger] Self::table()[i]).1.code() == i,
            forall|i: int, j: int|
                0 <= i < j < Self::table().len() ==> (#[trigger] Self::table()[i]).1 != (
                #[trigger] Self::table()[j]).1,
    {
    }
}

impl From<u32> for BatteryLevel {
    fn from(value: u32) -> (level: Self)
        ensures
            level == Self::decode(value),
    {
        match value {
            1 => BatteryLevel::NotApplicable,
            2 => BatteryLevel::Low,
            3 => BatteryLevel::Critical,
            4 => BatteryLevel::Normal,
            5 => BatteryLevel::High,
            6 => BatteryLevel::Full,
            _ => BatteryLevel::Unknown,
        }
    }
}

impl FromSpecImpl<u32> for BatteryLevel {
    open spec fn obeys_from_spec() -> bool {
        true
    }

    open spec fn from_spec(value: u32) -> Self {
        Self::decode(value)
    }
}

impl From<BatteryLevel> for u32 {
    fn from(value: BatteryLevel) -> (code: Self)
        ensures
            code == value.code(),
    {
        match value {
            BatteryLevel::NotApplicable => 1,
            BatteryLevel::Low => 2,
            BatteryLevel::Critical => 3,
            BatteryLevel::Normal => 4,
            BatteryLevel::High => 5,
            BatteryLevel::Full => 6,
            BatteryLevel::Unknown => 0,
        }
    }
}

impl FromSpecImpl<BatteryLevel> for u32 {
    open spec fn obeys_from_spec() -> bool {
        true
    }

    open spec fn from_spec(value: BatteryLevel) -> Self {
        value.code()
    }
}

impl From<BatteryLevel> for (u32, BatteryLevel) {
    fn from(value: BatteryLevel) -> (pair: Self)
        ensures
            pair == (value.code(), value),
    {
        let num: u32 = u32::from(value);
        (num, value)
    }
}

impl FromSpecImpl<BatteryLevel> for (u32, BatteryLevel) {
    open spec fn obeys_from_spec() -> bool {
        true
    }

    open spec fn from_spec(value: BatteryLevel) -> Self {
        (value.code(), value)
    }
}

/// An enumeration of the levels in the order of their codes. It stands at a
/// code; what it still hands out are the levels from that code to the last.
pub struct BatteryLevelIter {
    index: u32,
}

impl BatteryLevelIter {
    /// The levels that are still to come, next one first.
    pub closed spec fn remaining(&self) -> Seq<BatteryLevel> {
        if self.index > BATTERY_LEVEL_MAX {
            Seq::empty()
        } else {
            Seq::new(
                (BATTERY_LEVEL_MAX + 1 - self.index) as nat,
                |i: int| BatteryLevel::decode((self.index + i) as u32),
            )
        }
    }

    /// Hands out the next level, or `None` once all have been handed out.
    pub fn next(&mut self) -> (item: Option<BatteryLevel>)
        ensures
            old(self).remaining().len() == 0 ==> item is None,
            old(self).remaining().len() == 0 ==> final(self).remaining() == old(self).remaining(),
            old(self).remaining().len() > 0 ==> item == Some(old(self).remaining()[0]),
            old(self).remaining().len() > 0 ==> final(self).remaining()
                == old(self).remaining().skip(1),
    {
        if self.index > BATTERY_LEVEL_MAX {
            return None;
        }
        let item: BatteryLevel = BatteryLevel::from(self.index);
        self.index += 1;
        proof {
            assert(final(self).remaining() =~= old(self).remaining().skip(1));
        }
        Some(item)
    }
}

} // verus!

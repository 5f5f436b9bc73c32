//! How urgently a device's charge asks for attention.

use vstd::prelude::*;
use vstd::std_specs::convert::FromSpecImpl;

verus! {

#[derive(Debug, Clone, Copy, PartialEq, Eq, Structural)]
pub enum WarningLevel {
    Unknown,
    NoWarning,
    Discharging,
    Low,
    Critical,
    Action,
}

/// The largest code that names a warning.
pub const WARNING_LEVEL_MAX: u32 = 5;

impl WarningLevel {
    /// The warning that a code stands for; every code without a warning of its
    /// own stands for `Unknown`.
    pub open spec fn decode(code: u32) -> WarningLevel {
        match code {
            1 => WarningLevel::NoWarning,
            2 => WarningLevel::Discharging,
            3 => WarningLevel::Low,
            4 => WarningLevel::Critical,
            5 => WarningLevel::Action,
            _ => WarningLevel::Unknown,
        }
    }

    /// The code of a warning; `Unknown` has code 0.
    pub open spec fn code(self) -> u32 {
        match self {
            WarningLevel::Unknown => 0,
            WarningLevel::NoWarning => 1,
            WarningLevel::Discharging => 2,
            WarningLevel::Low => 3,
            WarningLevel::Critical => 4,
            WarningLevel::Action => 5,
        }
    }

    /// Every warning once, in the order of the codes `0..=5`.
    pub open spec fn all() -> Seq<WarningLevel> {
        Seq::new((WARNING_LEVEL_MAX + 1) as nat, |i: int| Self::decode(i as u32))
    }

    /// Every warning paired with its code, in the order of the codes.
    pub open spec fn table() -> Seq<(u32, WarningLevel)> {
        Seq::new((WARNING_LEVEL_MAX + 1) as nat, |i: int| (i as u32, Self::decode(i as u32)))
    }

    /// A fresh enumeration of all warnings, starting at code 0.
    pub fn iter_levels() -> (iter: WarningLevelIter)
        ensures
            iter.remaining() == Self::all(),
    {
        let iter = WarningLevelIter { index: 0 };
        assert(iter.remaining() =~= Self::all());
        iter
    }

    /// The whole code table, built by running one enumeration to its end.
    pub fn enumerate() -> (pairs: Vec<(u32, WarningLevel)>)
        ensures
            pairs@ == Self::table(),
    {
        let mut iter = Self::iter_levels();
        let mut pairs: Vec<(u32, WarningLevel)> = Vec::new();
        loop
            invariant
                pairs@.len() + iter.remaining().len() == WARNING_LEVEL_MAX + 1,
                iter.remaining() == Self::all().skip(pairs@.len() as int),
                pairs@ == Self::table().take(pairs@.len() as int),
            decreases iter.remaining().len(),
        {
            match iter.next() {
                None => {
                    assert(pairs@ =~= Self::table());
                    return pairs;
                },
                Some(item) => {
                    let ghost n = pairs@.len() as int;
                    let pair = <(u32, WarningLevel)>::from(item);
                    pairs.push(pair);
                    proof {
                        assert(item == Self::all()[n]);
                        assert(iter.remaining() =~= Self::all().skip(n + 1));
                        assert(pairs@ =~= Self::table().take(n + 1));
                    }
                },
            }
        }
    }

    /// Decoding a code in `0..=5` and encoding the warning gives the code back.
    pub proof fn lemma_code_of_decode(code: u32)
        requires
            code <= WARNING_LEVEL_MAX,
        ensures
            Self::decode(code).code() == code,
    {
    }

    /// A code above 5 decodes to `Unknown`, which encodes to 0 and not to the
    /// code that came in.
    pub proof fn lemma_decode_out_of_range(code: u32)
        requires
            code > WARNING_LEVEL_MAX,
        ensures
            Self::decode(code) == WarningLevel::Unknown,
            Self::decode(code).code() == 0,
            Self::decode(code).code() != code,
    {
    }

    /// Encoding a warning and decoding the code gives it back, and the
    /// code lies in `0..=5`.
    pub proof fn lemma_decode_of_code(value: WarningLevel)
        ensures
            value.code() <= WARNING_LEVEL_MAX,
            Self::decode(value.code()) == value,
    {
    }

    /// The table holds the codes `0..=5` in ascending order, each once, each
    /// beside the warning it stands for.
    pub proof fn lemma_table_complete()
        ensures
            Self::table().len() == WARNING_LEVEL_MAX + 1,
            forall|i: int|
                0 <= i < Self::table().len() ==> (#[trigger] Self::table()[i]).0 == i,
            forall|i: int|
                0 <= i < Self::table().len() ==> (#[trigger] Self::table()[i]).1.code() == i,
            forall|i: int, j: int|
                0 <= i < j < Self::table().len() ==> (#[trigger] Self::table()[i]).1 != (
                #[trigger] Self::table()[j]).1,
    {
    }
}

impl From<u32> for WarningLevel {
    fn from(value: u32) -> (decoded: Self)
        ensures
            decoded == Self::decode(value),
    {
        match value {
            1 => WarningLevel::NoWarning,
            2 => WarningLevel::Discharging,
            3 => WarningLevel::Low,
            4 => WarningLevel::Critical,
            5 => WarningLevel::Action,
            _ => WarningLevel::Unknown,
        }
    }
}

impl FromSpecImpl<u32> for WarningLevel {
    open spec fn obeys_from_spec() -> bool {
        true
    }

    open spec fn from_spec(value: u32) -> Self {
        Self::decode(value)
    }
}

impl From<WarningLevel> for u32 {
    fn from(value: WarningLevel) -> (code: Self)
        ensures
            code == value.code(),
    {
        match value {
            WarningLevel::NoWarning => 1,
            WarningLevel::Discharging => 2,
            WarningLevel::Low => 3,
            WarningLevel::Critical => 4,
            WarningLevel::Action => 5,
            WarningLevel::Unknown => 0,
        }
    }
}

impl FromSpecImpl<WarningLevel> for u32 {
    open spec fn obeys_from_spec() -> bool {
        true
    }

    open spec fn from_spec(value: WarningLevel) -> Self {
        value.code()
    }
}

impl From<WarningLevel> for (u32, WarningLevel) {
    fn from(value: WarningLevel) -> (pair: Self)
        ensures
            pair == (value.code(), value),
    {
        let num: u32 = u32::from(value);
        (num, value)
    }
}

impl FromSpecImpl<WarningLevel> for (u32, WarningLevel) {
    open spec fn obeys_from_spec() -> bool {
        true
    }

    open spec fn from_spec(value: WarningLevel) -> Self {
        (value.code(), value)
    }
}

/// An enumeration of the warnings in the order of their codes. It stands at a
/// code; what it still hands out are the warnings from that code to the last.
pub struct WarningLevelIter {
    index: u32,
}

impl WarningLevelIter {
    /// The warnings that are still to come, next one first.
    pub closed spec fn remaining(&self) -> Seq<WarningLevel> {
        if self.index > WARNING_LEVEL_MAX {
            Seq::empty()
        } else {
            Seq::new(
                (WARNING_LEVEL_MAX + 1 - self.index) as nat,
                |i: int| WarningLevel::decode((self.index + i) as u32),
            )
        }
    }

    /// Hands out the next warning, or `None` once all have been handed out.
    pub fn next(&mut self) -> (item: Option<WarningLevel>)
        ensures
            old(self).remaining().len() == 0 ==> item is None,
            old(self).remaining().len() == 0 ==> final(self).remaining() == old(self).remaining(),
            old(self).remaining().len() > 0 ==> item == Some(old(self).remaining()[0]),
            old(self).remaining().len() > 0 ==> final(self).remaining()
                == old(self).remaining().skip(1),
    {
        if self.index > WARNING_LEVEL_MAX {
            return None;
        }
        let item: WarningLevel = WarningLevel::from(self.index);
        self.index += 1;
        proof {
            assert(final(self).remaining() =~= old(self).remaining().skip(1));
        }
        Some(item)
    }
}

} // verus!

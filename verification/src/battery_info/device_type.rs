//! The kind of device that a power source belongs to.

use vstd::prelude::*;
use vstd::std_specs::convert::FromSpecImpl;

verus! {

#[derive(Debug, Clone, Copy, PartialEq, Eq, Structural)]
pub enum DeviceType {
    Unknown,
    LinePower,
    Battery,
    Ups,
    Monitor,
    Mouse,
    Keyboard,
    Pda,
    Phone,
    MediaPlayer,
    Tablet,
    Computer,
    GamingInput,
    Pen,
    Touchpad,
    Modem,
    Network,
    Headset,
    Speakers,
    Headphones,
    Video,
    OtherAudio,
    RemoteControl,
    Printer,
    Scanner,
    Camera,
    Wearable,
    Toy,
    BluetoothGenreic,
}

/// The largest code that names a type.
pub const DEVICE_TYPE_MAX: u32 = 28;

impl DeviceType {
    /// The type that a code stands for; every code without a type of its
    /// own stands for `Unknown`.
    pub open spec fn decode(code: u32) -> DeviceType {
        match code {
            1 => DeviceType::LinePower,
            2 => DeviceType::Battery,
            3 => DeviceType::Ups,
            4 => DeviceType::Monitor,
            5 => DeviceType::Mouse,
            6 => DeviceType::Keyboard,
            7 => DeviceType::Pda,
            8 => DeviceType::Phone,
            9 => DeviceType::MediaPlayer,
            10 => DeviceType::Tablet,
            11 => DeviceType::Computer,
            12 => DeviceType::GamingInput,
            13 => DeviceType::Pen,
            14 => DeviceType::Touchpad,
            15 => DeviceType::Modem,
            16 => DeviceType::Network,
            17 => DeviceType::Headset,
            18 => DeviceType::Speakers,
            19 => DeviceType::Headphones,
            20 => DeviceType::Video,
            21 => DeviceType::OtherAudio,
            22 => DeviceType::RemoteControl,
            23 => DeviceType::Printer,
            24 => DeviceType::Scanner,
            25 => DeviceType::Camera,
            26 => DeviceType::Wearable,
            27 => DeviceType::Toy,
            28 => DeviceType::BluetoothGenreic,
            _ => DeviceType::Unknown,
        }
    }

    /// The code of a type; `Unknown` has code 0.
    pub open spec fn code(self) -> u32 {
        match self {
            DeviceType::Unknown => 0,
            DeviceType::LinePower => 1,
            DeviceType::Battery => 2,
            DeviceType::Ups => 3,
            DeviceType::Monitor => 4,
            DeviceType::Mouse => 5,
            DeviceType::Keyboard => 6,
            DeviceType::Pda => 7,
            DeviceType::Phone => 8,
            DeviceType::MediaPlayer => 9,
            DeviceType::Tablet => 10,
            DeviceType::Computer => 11,
            DeviceType::GamingInput => 12,
            DeviceType::Pen => 13,
            DeviceType::Touchpad => 14,
            DeviceType::Modem => 15,
            DeviceType::Network => 16,
            DeviceType::Headset => 17,
            DeviceType::Speakers => 18,
            DeviceType::Headphones => 19,
            DeviceType::Video => 20,
            DeviceType::OtherAudio => 21,
            DeviceType::RemoteControl => 22,
            DeviceType::Printer => 23,
            DeviceType::Scanner => 24,
            DeviceType::Camera => 25,
            DeviceType::Wearable => 26,
            DeviceType::Toy => 27,
            DeviceType::BluetoothGenreic => 28,
        }
    }

    /// Every type once, in the order of the codes `0..=28`.
    pub open spec fn all() -> Seq<DeviceType> {
        Seq::new((DEVICE_TYPE_MAX + 1) as nat, |i: int| Self::decode(i as u32))
    }

    /// Every type paired with its code, in the order of the codes.
    pub open spec fn table() -> Seq<(u32, DeviceType)> {
        Seq::new((DEVICE_TYPE_MAX + 1) as nat, |i: int| (i as u32, Self::decode(i as u32)))
    }

    /// A fresh enumeration of all types, starting at code 0.
    pub fn iter_types() -> (iter: DeviceTypeIter)
        ensures
            iter.remaining() == Self::all(),
    {
        let iter = DeviceTypeIter { index: 0 };
        assert(iter.remaining() =~= Self::all());
        iter
    }

    /// The whole code table, built by running one enumeration to its end.
    pub fn enumerate() -> (pairs: Vec<(u32, DeviceType)>)
        ensures
            pairs@ == Self::table(),
    {
        let mut iter = Self::iter_types();
        let mut pairs: Vec<(u32, DeviceType)> = Vec::new();
        loop
            invariant
                pairs@.len() + iter.remaining().len() == DEVICE_TYPE_MAX + 1,
                iter.remaining() == Self::all().skip(pairs@.len() as int),
                pairs@ == Self::table().take(pairs@.len() as int),
            decreases iter.remaining().len(),
        {
            match iter.next() {
                None => {
                    assert(pairs@ =~= Self::table());
                    return pairs;
                },
                Some(item) => {
                    let ghost n = pairs@.len() as int;
                    let pair = <(u32, DeviceType)>::from(item);
                    pairs.push(pair);
                    proof {
                        assert(item == Self::all()[n]);
                        assert(iter.remaining() =~= Self::all().skip(n + 1));
                        assert(pairs@ =~= Self::table().take(n + 1));
                    }
                },
            }
        }
    }

    /// Decoding a code in `0..=28` and encoding the type gives the code back.
    pub proof fn lemma_code_of_decode(code: u32)
        requires
            code <= DEVICE_TYPE_MAX,
        ensures
            Self::decode(code).code() == code,
    {
    }

    /// A code above 28 decodes to `Unknown`, which encodes to 0 and not to the
    /// code that came in.
    pub proof fn lemma_decode_out_of_range(code: u32)
        requires
            code > DEVICE_TYPE_MAX,
        ensures
            Self::decode(code) == DeviceType::Unknown,
            Self::decode(code).code() == 0,
            Self::decode(code).code() != code,
    {
    }

    /// Encoding a type and decoding the code gives it back, and the
    /// code lies in `0..=28`.
    pub proof fn lemma_decode_of_code(value: DeviceType)
        ensures
            value.code() <= DEVICE_TYPE_MAX,
            Self::decode(value.code()) == value,
    {
    }

    /// The table holds the codes `0..=28` in ascending order, each once, each
    /// beside the type it stands for.
    pub proof fn lemma_table_complete()
        ensures
            Self::table().len() == DEVICE_TYPE_MAX + 1,
            forall|i: int|
                0 <= i < Self::table().len() ==> (#[trigger] Self::table()[i]).0 == i,
            forall|i: int|
                0 <= i < Self::table().len() ==> (#[trigger] Self::table()[i]).1.code() == i,
            forall|i: int, j: int|
                0 <= i < j < Self::table().len() ==> (#[trigger] Self::table()[i]).1 != (
                #[trigger] Self::table()[j]).1,
    {
    }
}

impl From<u32> for DeviceType {
    fn from(value: u32) -> (decoded: Self)
        ensures
            decoded == Self::decode(value),
    {
        match value {
            1 => DeviceType::LinePower,
            2 => DeviceType::Battery,
            3 => DeviceType::Ups,
            4 => DeviceType::Monitor,
            5 => DeviceType::Mouse,
            6 => DeviceType::Keyboard,
            7 => DeviceType::Pda,
            8 => DeviceType::Phone,
            9 => DeviceType::MediaPlayer,
            10 => DeviceType::Tablet,
            11 => DeviceType::Computer,
            12 => DeviceType::GamingInput,
            13 => DeviceType::Pen,
            14 => DeviceType::Touchpad,
            15 => DeviceType::Modem,
            16 => DeviceType::Network,
            17 => DeviceType::Headset,
            18 => DeviceType::Speakers,
            19 => DeviceType::Headphones,
            20 => DeviceType::Video,
            21 => DeviceType::OtherAudio,
            22 => DeviceType::RemoteControl,
            23 => DeviceType::Printer,
            24 => DeviceType::Scanner,
            25 => DeviceType::Camera,
            26 => DeviceType::Wearable,
            27 => DeviceType::Toy,
            28 => DeviceType::BluetoothGenreic,
            _ => DeviceType::Unknown,
        }
    }
}

impl FromSpecImpl<u32> for DeviceType {
    open spec fn obeys_from_spec() -> bool {
        true
    }

    open spec fn from_spec(value: u32) -> Self {
        Self::decode(value)
    }
}

impl From<DeviceType> for u32 {
    fn from(value: DeviceType) -> (code: Self)
        ensures
            code == value.code(),
    {
        match value {
            DeviceType::LinePower => 1,
            DeviceType::Battery => 2,
            DeviceType::Ups => 3,
            DeviceType::Monitor => 4,
            DeviceType::Mouse => 5,
            DeviceType::Keyboard => 6,
            DeviceType::Pda => 7,
            DeviceType::Phone => 8,
            DeviceType::MediaPlayer => 9,
            DeviceType::Tablet => 10,
            DeviceType::Computer => 11,
            DeviceType::GamingInput => 12,
            DeviceType::Pen => 13,
            DeviceType::Touchpad => 14,
            DeviceType::Modem => 15,
            DeviceType::Network => 16,
            DeviceType::Headset => 17,
            DeviceType::Speakers => 18,
            DeviceType::Headphones => 19,
            DeviceType::Video => 20,
            DeviceType::OtherAudio => 21,
            DeviceType::RemoteControl => 22,
            DeviceType::Printer => 23,
            DeviceType::Scanner => 24,
            DeviceType::Camera => 25,
            DeviceType::Wearable => 26,
            DeviceType::Toy => 27,
            DeviceType::BluetoothGenreic => 28,
            DeviceType::Unknown => 0,
        }
    }
}

impl FromSpecImpl<DeviceType> for u32 {
    open spec fn obeys_from_spec() -> bool {
        true
    }

    open spec fn from_spec(value: DeviceType) -> Self {
        value.code()
    }
}

impl From<DeviceType> for (u32, DeviceType) {
    fn from(value: DeviceType) -> (pair: Self)
        ensures
            pair == (value.code(), value),
    {
        let num: u32 = u32::from(value);
        (num, value)
    }
}

impl FromSpecImpl<DeviceType> for (u32, DeviceType) {
    open spec fn obeys_from_spec() -> bool {
        true
    }

    open spec fn from_spec(value: DeviceType) -> Self {
        (value.code(), value)
    }
}

/// An enumeration of the types in the order of their codes. It stands at a
/// code; what it still hands out are the types from that code to the last.
pub struct DeviceTypeIter {
    index: u32,
}

impl DeviceTypeIter {
    /// The types that are still to come, next one first.
    pub closed spec fn remaining(&self) -> Seq<DeviceType> {
        if self.index > DEVICE_TYPE_MAX {
            Seq::empty()
        } else {
            Seq::new(
                (DEVICE_TYPE_MAX + 1 - self.index) as nat,
                |i: int| DeviceType::decode((self.index + i) as u32),
            )
        }
    }

    /// Hands out the next type, or `None` once all have been handed out.
    pub fn next(&mut self) -> (item: Option<DeviceType>)
        ensures
            old(self).remaining().len() == 0 ==> item is None,
            old(self).remaining().len() == 0 ==> final(self).remaining() == old(self).remaining(),
            old(self).remaining().len() > 0 ==> item == Some(old(self).remaining()[0]),
            old(self).remaining().len() > 0 ==> final(self).remaining()
                == old(self).remaining().skip(1),
    {
        if self.index > DEVICE_TYPE_MAX {
            return None;
        }
        let item: DeviceType = DeviceType::from(self.index);
        self.index += 1;
        proof {
            assert(final(self).remaining() =~= old(self).remaining().skip(1));
        }
        Some(item)
    }
}

} // verus!

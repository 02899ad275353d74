//! Keys and chord types, and the codes that stand for them.

use vstd::prelude::*;
use vstd::std_specs::convert::TryFromSpecImpl;
use crate::error::{Cause, DecodeError, Policy};

verus! {

/// The twelve keys.
#[derive(Clone, Copy, Debug, PartialEq, Eq, Hash, Structural)]
pub enum Key {
    /// C.
    C,
    /// C sharp.
    Cs,
    /// D.
    D,
    /// E flat.
    Eb,
    /// E.
    E,
    /// F.
    F,
    /// F sharp.
    Fs,
    /// G.
    G,
    /// G sharp.
    Gs,
    /// A.
    A,
    /// B flat.
    Bb,
    /// B.
    B,
}

impl Key {
    /// The code of this key: `0x00` for C, up to `0x0B` for B.
    pub open spec fn spec_code(self) -> u8 {
        match self {
            Key::C => 0x00,
            Key::Cs => 0x01,
            Key::D => 0x02,
            Key::Eb => 0x03,
            Key::E => 0x04,
            Key::F => 0x05,
            Key::Fs => 0x06,
            Key::G => 0x07,
            Key::Gs => 0x08,
            Key::A => 0x09,
            Key::Bb => 0x0A,
            Key::B => 0x0B,
        }
    }

    /// The key that `code` stands for, if it stands for one.
    pub open spec fn of_code(code: u8) -> Option<Key> {
        match code {
            0x00 => Some(Key::C),
            0x01 => Some(Key::Cs),
            0x02 => Some(Key::D),
            0x03 => Some(Key::Eb),
            0x04 => Some(Key::E),
            0x05 => Some(Key::F),
            0x06 => Some(Key::Fs),
            0x07 => Some(Key::G),
            0x08 => Some(Key::Gs),
            0x09 => Some(Key::A),
            0x0A => Some(Key::Bb),
            0x0B => Some(Key::B),
            _ => None,
        }
    }

    /// What decoding `code` gives. A code that stands for no key is an error
    /// under the strict policy, and gives the default key under the lenient
    /// one.
    pub open spec fn decoded(code: u8, policy: Policy) -> Result<Key, DecodeError> {
        match Key::of_code(code) {
            Some(key) => Ok(key),
            None => if policy.is_strict() {
                Err(DecodeError::bare(Cause::UnknownCode))
            } else {
                Ok(Key::C)
            },
        }
    }

    /// The code of this key.
    #[verifier::when_used_as_spec(spec_code)]
    pub fn code(self) -> (code: u8)
        ensures
            code == self.spec_code(),
            code < 12,
    {
        match self {
            Key::C => 0x00,
            Key::Cs => 0x01,
            Key::D => 0x02,
            Key::Eb => 0x03,
            Key::E => 0x04,
            Key::F => 0x05,
            Key::Fs => 0x06,
            Key::G => 0x07,
            Key::Gs => 0x08,
            Key::A => 0x09,
            Key::Bb => 0x0A,
            Key::B => 0x0B,
        }
    }
}

/// The default key is C, the key of code `0x00`.
impl Default for Key {
    fn default() -> (key: Key)
        ensures
            key == Key::C,
    {
        Key::C
    }
}

impl TryFromSpecImpl<(u8, Policy)> for Key {
    open spec fn obeys_try_from_spec() -> bool {
        true
    }

    open spec fn try_from_spec(value: (u8, Policy)) -> Result<Key, DecodeError> {
        Key::decoded(value.0, value.1)
    }
}

impl TryFrom<(u8, Policy)> for Key {
    type Error = DecodeError;

    /// Decodes a key from its code.
    fn try_from(value: (u8, Policy)) -> (key: Result<Key, DecodeError>)
        ensures
            key == Key::decoded(value.0, value.1),
    {
        let (code, policy) = value;
        match code {
            0x00 => Ok(Key::C),
            0x01 => Ok(Key::Cs),
            0x02 => Ok(Key::D),
            0x03 => Ok(Key::Eb),
            0x04 => Ok(Key::E),
            0x05 => Ok(Key::F),
            0x06 => Ok(Key::Fs),
            0x07 => Ok(Key::G),
            0x08 => Ok(Key::Gs),
            0x09 => Ok(Key::A),
            0x0A => Ok(Key::Bb),
            0x0B => Ok(Key::B),
            _ => match policy {
                Policy::Strict => Err(DecodeError::new(Cause::UnknownCode)),
                Policy::Lenient => Ok(Key::default()),
            },
        }
    }
}

/// The chord types.
#[derive(Clone, Copy, Debug, PartialEq, Eq, Hash, Structural)]
pub enum Chord {
    Maj,
    Maj6,
    Maj7,
    Maj7s11,
    Maj9,
    Maj7_9,
    Maj6_9,
    Aug,
    Min,
    Min6,
    Min7,
    Min7b5,
    Min9,
    Min7_9,
    Min7_11,
    MinMaj7,
    MinMaj7_9,
    Dim,
    Dim7,
    Seven,
    SevenSus4,
    SevenB5,
    Seven9,
    SevenS11,
    Seven13,
    SevenB9,
    SevenB13,
    SevenS9,
    Maj7aug,
    SevenAug,
    OnePlusEight,
    OnePlusFive,
    Sus4,
    OnePlusTwoPlus5,
    Cancel,
    SpecialAutostart,
    SpecialPercussion,
}

impl Chord {
    /// The chord type that `code` stands for, if it stands for one. The
    /// codes run from `0x00` to `0x22`; the two special chord types have no
    /// code.
    pub open spec fn of_code(code: u8) -> Option<Chord> {
        match code {
            0x00 => Some(Chord::Maj),
            0x01 => Some(Chord::Maj6),
            0x02 => Some(Chord::Maj7),
            0x03 => Some(Chord::Maj7s11),
            0x04 => Some(Chord::Maj9),
            0x05 => Some(Chord::Maj7_9),
            0x06 => Some(Chord::Maj6_9),
            0x07 => Some(Chord::Aug),
            0x08 => Some(Chord::Min),
            0x09 => Some(Chord::Min6),
            0x0A => Some(Chord::Min7),
            0x0B => Some(Chord::Min7b5),
            0x0C => Some(Chord::Min9),
            0x0D => Some(Chord::Min7_9),
            0x0E => Some(Chord::Min7_11),
            0x0F => Some(Chord::MinMaj7),
            0x10 => Some(Chord::MinMaj7_9),
            0x11 => Some(Chord::Dim),
            0x12 => Some(Chord::Dim7),
            0x13 => Some(Chord::Seven),
            0x14 => Some(Chord::SevenSus4),
            0x15 => Some(Chord::SevenB5),
            0x16 => Some(Chord::Seven9),
            0x17 => Some(Chord::SevenS11),
            0x18 => Some(Chord::Seven13),
            0x19 => Some(Chord::SevenB9),
            0x1A => Some(Chord::SevenB13),
            0x1B => Some(Chord::SevenS9),
            0x1C => Some(Chord::Maj7aug),
            0x1D => Some(Chord::SevenAug),
            0x1E => Some(Chord::OnePlusEight),
            0x1F => Some(Chord::OnePlusFive),
            0x20 => Some(Chord::Sus4),
            0x21 => Some(Chord::OnePlusTwoPlus5),
            0x22 => Some(Chord::Cancel),
            _ => None,
        }
    }

    /// What decoding `code` gives. A code that stands for no chord type is
    /// an error under the strict policy, and gives the default chord type
    /// under the lenient one.
    pub open spec fn decoded(code: u8, policy: Policy) -> Result<Chord, DecodeError> {
        match Chord::of_code(code) {
            Some(chord) => Ok(chord),
            None => if policy.is_strict() {
                Err(DecodeError::bare(Cause::UnknownCode))
            } else {
                Ok(Chord::Maj)
            },
        }
    }
}

/// The default chord type is the major chord, the one of code `0x00`.
impl Default for Chord {
    fn default() -> (chord: Chord)
        ensures
            chord == Chord::Maj,
    {
        Chord::Maj
    }
}

impl TryFromSpecImpl<(u8, Policy)> for Chord {
    open spec fn obeys_try_from_spec() -> bool {
        true
    }

    open spec fn try_from_spec(value: (u8, Policy)) -> Result<Chord, DecodeError> {
        Chord::decoded(value.0, value.1)
    }
}

impl TryFrom<(u8, Policy)> for Chord {
    type Error = DecodeError;

    /// Decodes a chord type from its code.
    fn try_from(value: (u8, Policy)) -> (chord: Result<Chord, DecodeError>)
        ensures
            chord == Chord::decoded(value.0, value.1),
    {
        let (code, policy) = value;
        match code {
            0x00 => Ok(Chord::Maj),
            0x01 => Ok(Chord::Maj6),
            0x02 => Ok(Chord::Maj7),
            0x03 => Ok(Chord::Maj7s11),
            0x04 => Ok(Chord::Maj9),
            0x05 => Ok(Chord::Maj7_9),
            0x06 => Ok(Chord::Maj6_9),
            0x07 => Ok(Chord::Aug),
            0x08 => Ok(Chord::Min),
            0x09 => Ok(Chord::Min6),
            0x0A => Ok(Chord::Min7),
            0x0B => Ok(Chord::Min7b5),
            0x0C => Ok(Chord::Min9),
            0x0D => Ok(Chord::Min7_9),
            0x0E => Ok(Chord::Min7_11),
            0x0F => Ok(Chord::MinMaj7),
            0x10 => Ok(Chord::MinMaj7_9),
            0x11 => Ok(Chord::Dim),
            0x12 => Ok(Chord::Dim7),
            0x13 => Ok(Chord::Seven),
            0x14 => Ok(Chord::SevenSus4),
            0x15 => Ok(Chord::SevenB5),
            0x16 => Ok(Chord::Seven9),
            0x17 => Ok(Chord::SevenS11),
            0x18 => Ok(Chord::Seven13),
            0x19 => Ok(Chord::SevenB9),
            0x1A => Ok(Chord::SevenB13),
            0x1B => Ok(Chord::SevenS9),
            0x1C => Ok(Chord::Maj7aug),
            0x1D => Ok(Chord::SevenAug),
            0x1E => Ok(Chord::OnePlusEight),
            0x1F => Ok(Chord::OnePlusFive),
            0x20 => Ok(Chord::Sus4),
            0x21 => Ok(Chord::OnePlusTwoPlus5),
            0x22 => Ok(Chord::Cancel),
            _ => match policy {
                Policy::Strict => Err(DecodeError::new(Cause::UnknownCode)),
                Policy::Lenient => Ok(Chord::default()),
            },
        }
    }
}

/// Chord types that have a bit in a chord-mute field.
pub const CHORD_MUTE_SIZE: usize = 36;

impl Chord {
    /// The place of this chord type in a chord-mute field, counted from the
    /// first bit of the field that is in use. `Cancel` has no place.
    pub open spec fn spec_mute_slot(self) -> Option<usize> {
        match self {
            Chord::SpecialPercussion => Some(0),
            Chord::SpecialAutostart => Some(1),
            Chord::OnePlusTwoPlus5 => Some(2),
            Chord::Sus4 => Some(3),
            Chord::OnePlusFive => Some(4),
            Chord::OnePlusEight => Some(5),
            Chord::SevenAug => Some(6),
            Chord::Maj7aug => Some(7),
            Chord::SevenS9 => Some(8),
            Chord::SevenB13 => Some(9),
            Chord::SevenB9 => Some(10),
            Chord::Seven13 => Some(11),
            Chord::SevenS11 => Some(12),
            Chord::Seven9 => Some(13),
            Chord::SevenB5 => Some(14),
            Chord::SevenSus4 => Some(15),
            Chord::Seven => Some(16),
            Chord::Dim7 => Some(17),
            Chord::Dim => Some(18),
            Chord::MinMaj7_9 => Some(19),
            Chord::MinMaj7 => Some(20),
            Chord::Min7_11 => Some(21),
            Chord::Min7_9 => Some(22),
            Chord::Min9 => Some(23),
            Chord::Min7b5 => Some(24),
            Chord::Min7 => Some(25),
            Chord::Min6 => Some(26),
            Chord::Min => Some(27),
            Chord::Aug => Some(28),
            Chord::Maj6_9 => Some(29),
            Chord::Maj7_9 => Some(30),
            Chord::Maj9 => Some(31),
            Chord::Maj7s11 => Some(32),
            Chord::Maj7 => Some(33),
            Chord::Maj6 => Some(34),
            Chord::Maj => Some(35),
            Chord::Cancel => None,
        }
    }

    /// The place of this chord type in a chord-mute field.
    #[verifier::when_used_as_spec(spec_mute_slot)]
    pub fn mute_slot(self) -> (slot: Option<usize>)
        ensures
            slot == self.spec_mute_slot(),
            slot matches Some(i) ==> i < CHORD_MUTE_SIZE,
    {
        match self {
            Chord::SpecialPercussion => Some(0),
            Chord::SpecialAutostart => Some(1),
            Chord::OnePlusTwoPlus5 => Some(2),
            Chord::Sus4 => Some(3),
            Chord::OnePlusFive => Some(4),
            Chord::OnePlusEight => Some(5),
            Chord::SevenAug => Some(6),
            Chord::Maj7aug => Some(7),
            Chord::SevenS9 => Some(8),
            Chord::SevenB13 => Some(9),
            Chord::SevenB9 => Some(10),
            Chord::Seven13 => Some(11),
            Chord::SevenS11 => Some(12),
            Chord::Seven9 => Some(13),
            Chord::SevenB5 => Some(14),
            Chord::SevenSus4 => Some(15),
            Chord::Seven => Some(16),
            Chord::Dim7 => Some(17),
            Chord::Dim => Some(18),
            Chord::MinMaj7_9 => Some(19),
            Chord::MinMaj7 => Some(20),
            Chord::Min7_11 => Some(21),
            Chord::Min7_9 => Some(22),
            Chord::Min9 => Some(23),
            Chord::Min7b5 => Some(24),
            Chord::Min7 => Some(25),
            Chord::Min6 => Some(26),
            Chord::Min => Some(27),
            Chord::Aug => Some(28),
            Chord::Maj6_9 => Some(29),
            Chord::Maj7_9 => Some(30),
            Chord::Maj9 => Some(31),
            Chord::Maj7s11 => Some(32),
            Chord::Maj7 => Some(33),
            Chord::Maj6 => Some(34),
            Chord::Maj => Some(35),
            Chord::Cancel => None,
        }
    }
}

} // verus!

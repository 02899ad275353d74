//! Transposition tables: how the notes of a channel follow the chord that is
//! played.
//!
//! A table takes six bytes: the transposition type, whose highest bit is the
//! bass flag; the transposition rule; the ceiling key; the lowest and the
//! highest note; the retrigger rule.

use vstd::prelude::*;
use vstd::std_specs::convert::TryFromSpecImpl;
use crate::ctab::Version;
use crate::error::{Cause, DecodeError, Policy};
use crate::key::Key;

verus! {

/// Bytes in a transposition table.
pub const TABLE_SIZE: usize = 6;

/// What happens to the notes that sound when the chord changes.
#[derive(Clone, Copy, Debug, PartialEq, Eq, Structural)]
pub enum RetriggerRule {
    Stop,
    PitchShift,
    PitchShiftToRoot,
    Retrigger,
    RetriggerToRoot,
    NoteGenerator,
}

impl RetriggerRule {
    /// The rule that `code` stands for, if it stands for one.
    pub open spec fn of_code(code: u8) -> Option<RetriggerRule> {
        match code {
            0x00 => Some(RetriggerRule::Stop),
            0x01 => Some(RetriggerRule::PitchShift),
            0x02 => Some(RetriggerRule::PitchShiftToRoot),
            0x03 => Some(RetriggerRule::Retrigger),
            0x04 => Some(RetriggerRule::RetriggerToRoot),
            0x05 => Some(RetriggerRule::NoteGenerator),
            _ => None,
        }
    }

    /// What decoding `code` gives. A code that stands for no rule is an
    /// error under the strict policy, and gives the default rule under the
    /// lenient one.
    pub open spec fn decoded(code: u8, policy: Policy) -> Result<RetriggerRule, DecodeError> {
        match RetriggerRule::of_code(code) {
            Some(rule) => Ok(rule),
            None => if policy.is_strict() {
                Err(DecodeError::bare(Cause::UnknownCode))
            } else {
                Ok(RetriggerRule::Stop)
            },
        }
    }
}

/// The default rule is to stop the notes, the rule of code `0x00`.
impl Default for RetriggerRule {
    fn default() -> (rule: RetriggerRule)
        ensures
            rule == RetriggerRule::Stop,
    {
        RetriggerRule::Stop
    }
}

impl TryFromSpecImpl<(u8, Policy)> for RetriggerRule {
    open spec fn obeys_try_from_spec() -> bool {
        true
    }

    open spec fn try_from_spec(value: (u8, Policy)) -> Result<RetriggerRule, DecodeError> {
        RetriggerRule::decoded(value.0, value.1)
    }
}

impl TryFrom<(u8, Policy)> for RetriggerRule {
    type Error = DecodeError;

    /// Decodes a retrigger rule from its code.
    fn try_from(value: (u8, Policy)) -> (rule: Result<RetriggerRule, DecodeError>)
        ensures
            rule == RetriggerRule::decoded(value.0, value.1),
    {
        let (code, policy) = value;
        match code {
            0x00 => Ok(RetriggerRule::Stop),
            0x01 => Ok(RetriggerRule::PitchShift),
            0x02 => Ok(RetriggerRule::PitchShiftToRoot),
            0x03 => Ok(RetriggerRule::Retrigger),
            0x04 => Ok(RetriggerRule::RetriggerToRoot),
            0x05 => Ok(RetriggerRule::NoteGenerator),
            _ => match policy {
                Policy::Strict => Err(DecodeError::new(Cause::UnknownCode)),
                Policy::Lenient => Ok(RetriggerRule::default()),
            },
        }
    }
}

/// How the root of the chord moves the notes.
#[derive(Clone, Copy, Debug, PartialEq, Eq, Structural)]
pub enum TranspositionType {
    RootTransposition,
    RootFixed,
    Guitar,
}

impl TranspositionType {
    /// What decoding the first byte of a table gives. The type is in the low
    /// seven bits; the highest bit is the bass flag and is not looked at
    /// here.
    ///
    /// Code `0x02`, the guitar type, does not exist in the legacy
    /// generation: there it is an error under the strict policy. Any other
    /// code above `0x01` is an error under the strict policy, and gives the
    /// default type under the lenient one.
    pub open spec fn decoded(byte: u8, version: Version, policy: Policy) -> Result<
        TranspositionType,
        DecodeError,
    > {
        let code = byte % 0x80;
        if code == 0x00 {
            Ok(TranspositionType::RootTransposition)
        } else if code == 0x01 {
            Ok(TranspositionType::RootFixed)
        } else if code == 0x02 && !(version.is_legacy() && policy.is_strict()) {
            Ok(TranspositionType::Guitar)
        } else if policy.is_strict() {
            Err(DecodeError::bare(Cause::UnknownCode))
        } else {
            Ok(TranspositionType::RootTransposition)
        }
    }
}

/// The default type is root transposition, the type of code `0x00`.
impl Default for TranspositionType {
    fn default() -> (ntr: TranspositionType)
        ensures
            ntr == TranspositionType::RootTransposition,
    {
        TranspositionType::RootTransposition
    }
}

impl TryFromSpecImpl<(u8, Version, Policy)> for TranspositionType {
    open spec fn obeys_try_from_spec() -> bool {
        true
    }

    open spec fn try_from_spec(value: (u8, Version, Policy)) -> Result<
        TranspositionType,
        DecodeError,
    > {
        TranspositionType::decoded(value.0, value.1, value.2)
    }
}

impl TryFrom<(u8, Version, Policy)> for TranspositionType {
    type Error = DecodeError;

    /// Decodes a transposition type from the first byte of a table.
    fn try_from(value: (u8, Version, Policy)) -> (ntr: Result<TranspositionType, DecodeError>)
        ensures
            ntr == TranspositionType::decoded(value.0, value.1, value.2),
    {
        let (byte, version, policy) = value;
        // The highest bit is the bass flag.
        let code: u8 = byte & 0b0111_1111;
        assert(byte & 0b0111_1111 == byte % 0x80) by (bit_vector);
        match code {
            0x00 => Ok(TranspositionType::RootTransposition),
            0x01 => Ok(TranspositionType::RootFixed),
            0x02 => match (version, policy) {
                (Version::Ctab1, Policy::Strict) => Err(DecodeError::new(Cause::UnknownCode)),
                _ => Ok(TranspositionType::Guitar),
            },
            _ => match policy {
                Policy::Strict => Err(DecodeError::new(Cause::UnknownCode)),
                Policy::Lenient => Ok(TranspositionType::default()),
            },
        }
    }
}

/// The rule by which notes are moved to fit the chord.
#[derive(Clone, Copy, Debug, PartialEq, Eq, Structural)]
pub enum TranspositionTable {
    Bypass,
    Melody,
    Chord,
    MelodicMinor,
    HarmonicMinor,
    /// Current generation only.
    MelodicMinor5th,
    /// Current generation only.
    HarmonicMinor5th,
    /// Current generation only.
    NaturalMinor,
    /// Current generation only.
    NaturalMinor5th,
    /// Current generation only.
    Dorian,
    /// Current generation only.
    Dorian5th,
    /// Legacy generation only.
    Bass,
    /// Guitar variant only.
    AllPurpose,
    /// Guitar variant only.
    Stroke,
    /// Guitar variant only.
    Arpeggio,
}

impl TranspositionTable {
    /// The rule that `code` stands for in the generation `version`, if it
    /// stands for one there.
    ///
    /// Codes `0x00` to `0x02` mean other rules in the guitar variant than
    /// elsewhere; codes `0x03` and `0x04` mean other rules in the legacy
    /// generation than in the current one; codes `0x06` to `0x0A` are not
    /// part of the legacy generation.
    pub open spec fn of_code(code: u8, version: Version) -> Option<TranspositionTable> {
        match code {
            0x00 => Some(
                if version == Version::Guitar {
                    TranspositionTable::AllPurpose
                } else {
                    TranspositionTable::Bypass
                },
            ),
            0x01 => Some(
                if version == Version::Guitar {
                    TranspositionTable::Stroke
                } else {
                    TranspositionTable::Melody
                },
            ),
            0x02 => Some(
                if version == Version::Guitar {
                    TranspositionTable::Arpeggio
                } else {
                    TranspositionTable::Chord
                },
            ),
            0x03 => Some(
                if version.is_legacy() {
                    TranspositionTable::Bass
                } else {
                    TranspositionTable::MelodicMinor
                },
            ),
            0x04 => Some(
                if version.is_legacy() {
                    TranspositionTable::MelodicMinor
                } else {
                    TranspositionTable::MelodicMinor5th
                },
            ),
            0x05 => Some(TranspositionTable::HarmonicMinor),
            0x06 => if version.is_legacy() {
                None
            } else {
                Some(TranspositionTable::HarmonicMinor5th)
            },
            0x07 => if version.is_legacy() {
                None
            } else {
                Some(TranspositionTable::NaturalMinor)
            },
            0x08 => if version.is_legacy() {
                None
            } else {
                Some(TranspositionTable::NaturalMinor5th)
            },
            0x09 => if version.is_legacy() {
                None
            } else {
                Some(TranspositionTable::Dorian)
            },
            0x0A => if version.is_legacy() {
                None
            } else {
                Some(TranspositionTable::Dorian5th)
            },
            _ => None,
        }
    }

    /// What decoding `code` gives. A code that stands for no rule in the
    /// generation `version` is an error under the strict policy, and gives
    /// the default rule under the lenient one.
    pub open spec fn decoded(code: u8, version: Version, policy: Policy) -> Result<
        TranspositionTable,
        DecodeError,
    > {
        match TranspositionTable::of_code(code, version) {
            Some(rule) => Ok(rule),
            None => if policy.is_strict() {
                Err(DecodeError::bare(Cause::UnknownCode))
            } else {
                Ok(TranspositionTable::Bypass)
            },
        }
    }
}

/// The default rule is to leave the notes as they are, the rule of code
/// `0x00`.
impl Default for TranspositionTable {
    fn default() -> (ntt: TranspositionTable)
        ensures
            ntt == TranspositionTable::Bypass,
    {
        TranspositionTable::Bypass
    }
}

impl TryFromSpecImpl<(u8, Version, Policy)> for TranspositionTable {
    open spec fn obeys_try_from_spec() -> bool {
        true
    }

    open spec fn try_from_spec(value: (u8, Version, Policy)) -> Result<
        TranspositionTable,
        DecodeError,
    > {
        TranspositionTable::decoded(value.0, value.1, value.2)
    }
}

impl TryFrom<(u8, Version, Policy)> for TranspositionTable {
    type Error = DecodeError;

    /// Decodes a transposition rule from the second byte of a table.
    fn try_from(value: (u8, Version, Policy)) -> (ntt: Result<TranspositionTable, DecodeError>)
        ensures
            ntt == TranspositionTable::decoded(value.0, value.1, value.2),
    {
        let (code, version, policy) = value;
        let guitar = version == Version::Guitar;
        let legacy = version == Version::Ctab1;
        let strict = policy == Policy::Strict;
        match code {
            0x00 if guitar => Ok(TranspositionTable::AllPurpose),
            0x00 => Ok(TranspositionTable::Bypass),
            0x01 if guitar => Ok(TranspositionTable::Stroke),
            0x01 => Ok(TranspositionTable::Melody),
            0x02 if guitar => Ok(TranspositionTable::Arpeggio),
            0x02 => Ok(TranspositionTable::Chord),
            0x03 if legacy => Ok(TranspositionTable::Bass),
            0x03 => Ok(TranspositionTable::MelodicMinor),
            0x04 if legacy => Ok(TranspositionTable::MelodicMinor),
            0x04 => Ok(TranspositionTable::MelodicMinor5th),
            0x05 => Ok(TranspositionTable::HarmonicMinor),
            0x06 if !legacy => Ok(TranspositionTable::HarmonicMinor5th),
            0x07 if !legacy => Ok(TranspositionTable::NaturalMinor),
            0x08 if !legacy => Ok(TranspositionTable::NaturalMinor5th),
            0x09 if !legacy => Ok(TranspositionTable::Dorian),
            0x0A if !legacy => Ok(TranspositionTable::Dorian5th),
            _ => if strict {
                Err(DecodeError::new(Cause::UnknownCode))
            } else {
                Ok(TranspositionTable::default())
            },
        }
    }
}

/// A transposition table.
#[derive(Clone, Copy, Debug, PartialEq, Eq)]
pub struct Table {
    /// The transposition type.
    pub ntr: TranspositionType,
    /// The transposition rule.
    pub ntt: TranspositionTable,
    /// Whether the bass mode is on. Always off in the legacy generation.
    pub bass_on: bool,
    /// Chords whose root is above this key are played an octave lower.
    pub high_key: Key,
    /// The lowest and the highest note, both included. Notes outside are
    /// moved into the range by octaves.
    pub note_range: (u8, u8),
    /// The retrigger rule.
    pub retrigger_rule: RetriggerRule,
}

impl Table {
    /// Both notes of the range are MIDI notes.
    pub open spec fn wf(self) -> bool {
        self.note_range.0 < 0x80 && self.note_range.1 < 0x80
    }
}

/// What decoding the table at the start of `bytes` gives.
///
/// Fewer than six bytes are an error. The four codes are decoded in the
/// order of the bytes, and the first that fails gives the error. The bass
/// flag is the highest bit of the first byte, and counts in the current
/// generation only. The highest bit of a note is dropped.
pub open spec fn decode_table(bytes: Seq<u8>, version: Version, policy: Policy) -> Result<
    Table,
    DecodeError,
> {
    if bytes.len() < TABLE_SIZE {
        Err(DecodeError::bare(Cause::MalformedField))
    } else {
        match TranspositionType::decoded(bytes[0], version, policy) {
            Err(e) => Err(e),
            Ok(ntr) => match TranspositionTable::decoded(bytes[1], version, policy) {
                Err(e) => Err(e),
                Ok(ntt) => match Key::decoded(bytes[2], policy) {
                    Err(e) => Err(e),
                    Ok(high_key) => match RetriggerRule::decoded(bytes[5], policy) {
                        Err(e) => Err(e),
                        Ok(retrigger_rule) => Ok(
                            Table {
                                ntr,
                                ntt,
                                bass_on: bytes[0] >= 0x80 && !version.is_legacy(),
                                high_key,
                                note_range: (bytes[3] % 0x80, bytes[4] % 0x80),
                                retrigger_rule,
                            },
                        ),
                    },
                },
            },
        }
    }
}

impl<'a> TryFromSpecImpl<(&'a [u8], Version, Policy)> for Table {
    open spec fn obeys_try_from_spec() -> bool {
        true
    }

    open spec fn try_from_spec(value: (&'a [u8], Version, Policy)) -> Result<Table, DecodeError> {
        decode_table(value.0@, value.1, value.2)
    }
}

impl<'a> TryFrom<(&'a [u8], Version, Policy)> for Table {
    type Error = DecodeError;

    /// Decodes the table at the start of the bytes given.
    fn try_from(value: (&'a [u8], Version, Policy)) -> (table: Result<Table, DecodeError>)
        ensures
            table == decode_table(value.0@, value.1, value.2),
            table matches Ok(t) ==> t.wf(),
    {
        let (bytes, version, policy) = value;
        if bytes.len() < TABLE_SIZE {
            return Err(DecodeError::new(Cause::MalformedField));
        }
        let ntr = TranspositionType::try_from((bytes[0], version, policy))?;
        let ntt = TranspositionTable::try_from((bytes[1], version, policy))?;
        let high_key = Key::try_from((bytes[2], policy))?;
        let retrigger_rule = RetriggerRule::try_from((bytes[5], policy))?;
        let flag: u8 = bytes[0];
        let low: u8 = bytes[3];
        let high: u8 = bytes[4];
        assert((flag & 0b1000_0000 != 0) == (flag >= 0x80)) by (bit_vector);
        assert(low & 0b0111_1111 == low % 0x80) by (bit_vector);
        assert(high & 0b0111_1111 == high % 0x80) by (bit_vector);
        let bass_on = (flag & 0b1000_0000 != 0) && version != Version::Ctab1;
        Ok(
            Table {
                ntr,
                ntt,
                bass_on,
                high_key,
                note_range: (low & 0b0111_1111, high & 0b0111_1111),
                retrigger_rule,
            },
        )
    }
}

/// The lenient policy gives up on a table only where it is too short, and
/// where the strict policy decodes a table, the lenient one decodes the
/// same.
pub proof fn lemma_table_lenient(bytes: Seq<u8>, version: Version)
    ensures
        decode_table(bytes, version, Policy::Lenient) is Err <==> bytes.len() < TABLE_SIZE,
        decode_table(bytes, version, Policy::Strict) is Ok ==> decode_table(
            bytes,
            version,
            Policy::Lenient,
        ) == decode_table(bytes, version, Policy::Strict),
{
}

} // verus!

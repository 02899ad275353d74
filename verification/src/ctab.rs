//! Channel tables: where the notes of a source channel go, which chords mute
//! them, and how they are transposed.
//!
//! A channel table starts with twenty bytes that both generations share:
//!
//! | offset | bytes | field |
//! |---|---|---|
//! | 0 | 1 | source channel, in the low four bits |
//! | 1 | 8 | name, padded with spaces |
//! | 9 | 1 | destination channel, in the low four bits |
//! | 10 | 1 | editable if zero |
//! | 11 | 2 | note mute, in the low twelve bits |
//! | 13 | 5 | chord mute, in the low thirty-six bits |
//! | 18 | 1 | source key |
//! | 19 | 1 | source chord type |
//!
//! The legacy generation goes on with:
//!
//! | offset | bytes | field |
//! |---|---|---|
//! | 20 | 6 | transposition table |
//! | 26 | 1 | sentinel |
//! | 27 | 4 | special bytes, where the sentinel is not zero |
//!
//! The current generation goes on with:
//!
//! | offset | bytes | field |
//! |---|---|---|
//! | 20 | 1 | lowest note of the middle range |
//! | 21 | 1 | highest note of the middle range |
//! | 22 | 6 | transposition table of the low range |
//! | 28 | 6 | transposition table of the middle range |
//! | 34 | 6 | transposition table of the high range |
//! | 40 | 7 | special bytes |
//!
//! The meaning of the special bytes is not known. They are handed out as
//! they are.

use std::collections::HashMap;
use vstd::prelude::*;
use vstd::slice::slice_subrange;
use crate::chunk::{Chunk, ChunkKind, ChunkView};
use crate::error::{Cause, DecodeError, Policy};
use crate::key::{Chord, Key, CHORD_MUTE_SIZE};
use crate::table::{decode_table, lemma_table_lenient, Table, TABLE_SIZE};
use crate::text::{
    lemma_ascii_text, lemma_trim_padding, read_trimmed, text_of, trimmed, white_space,
};

verus! {

/// Bytes that both generations share.
pub const COMMON_SIZE: usize = 20;

/// Bytes of the legacy generation behind the shared ones, up to the
/// sentinel.
pub const CTAB1_SIZE: usize = 6;

/// Bytes of the special block of the legacy generation, the sentinel
/// included.
pub const CTAB1_SPECIAL_SIZE: usize = 5;

/// Bytes of the current generation behind the shared ones, up to the special
/// block.
pub const CTAB2_SIZE: usize = 20;

/// Bytes of the special block of the current generation.
pub const CTAB2_SPECIAL_SIZE: usize = 7;

/// Bytes of the content table that may accompany a legacy channel table.
pub const CNTT_SIZE: usize = 2;

/// The generation of a channel table. It decides the layout of the table and
/// the meaning of some of its codes.
#[derive(Clone, Copy, Debug, PartialEq, Eq, Structural)]
pub enum Version {
    /// The legacy generation.
    Ctab1,
    /// The current generation.
    Ctab2,
    /// The guitar variant of the current generation.
    Guitar,
}

impl Version {
    /// Whether this is the legacy generation.
    pub open spec fn is_legacy(self) -> bool {
        self == Version::Ctab1
    }
}

/// Whether bit `pos` of `byte` is set. Bit 0 is the lowest.
pub open spec fn bit(byte: u8, pos: u8) -> bool {
    (byte >> pos) & 1 == 1
}

fn bit_at(byte: u8, pos: u8) -> (b: bool)
    requires
        pos < 8,
    ensures
        b == bit(byte, pos),
{
    (byte >> pos) & 1 == 1
}

/// The bit of `key` in the two bytes of a note-mute field. Read as one
/// number, most significant byte first, the field has the bit of a key at
/// the position of the key's code: C lowest, B at bit 11.
pub open spec fn note_mute_bit(value: Seq<u8>, key: Key) -> bool
    recommends
        value.len() == 2,
{
    let code = key.spec_code();
    if code < 8 {
        bit(value[1], code)
    } else {
        bit(value[0], (code - 8) as u8)
    }
}

/// The flags of a note-mute field: for each key, `true` where the bit of the
/// key is clear.
pub open spec fn note_mute_of(value: Seq<u8>) -> Map<Key, bool>
    recommends
        value.len() == 2,
{
    Map::new(|key: Key| true, |key: Key| !note_mute_bit(value, key))
}

/// The bit at place `slot` of the five bytes of a chord-mute field. The
/// first four bits of the field are not in use; place `slot` is bit
/// `slot + 4` of the field, counted from the highest bit of the first byte.
pub open spec fn chord_mute_bit(value: Seq<u8>, slot: int) -> bool
    recommends
        value.len() == 5,
        0 <= slot < CHORD_MUTE_SIZE,
{
    bit(value[(slot + 4) / 8], (7 - (slot + 4) % 8) as u8)
}

/// The flags of a chord-mute field: for each chord type that has a place in
/// it, `true` where the bit of the chord type is set.
pub open spec fn chord_mute_of(value: Seq<u8>) -> Map<Chord, bool>
    recommends
        value.len() == 5,
{
    Map::new(
        |chord: Chord| chord.spec_mute_slot() is Some,
        |chord: Chord| chord_mute_bit(value, chord.spec_mute_slot().unwrap() as int),
    )
}

/// The flags of a note-mute field, one for each key: `true` where the bit of
/// the key is clear.
#[derive(Debug, PartialEq, Eq)]
pub struct NoteMute {
    /// The flags by the code of their key.
    flags: HashMap<u8, bool>,
}

impl View for NoteMute {
    type V = Map<Key, bool>;

    closed spec fn view(&self) -> Map<Key, bool> {
        Map::new(
            |key: Key| self.flags@.contains_key(key.spec_code()),
            |key: Key| self.flags@[key.spec_code()],
        )
    }
}

impl NoteMute {
    /// The flag of `key`.
    pub fn get(&self, key: Key) -> (flag: Option<bool>)
        ensures
            flag == (if self@.dom().contains(key) {
                Some(self@[key])
            } else {
                None
            }),
    {
        match self.flags.get(&key.code()) {
            Some(flag) => Some(*flag),
            None => None,
        }
    }
}

/// The flags of a chord-mute field, one for each chord type that has a place
/// in it: `true` where the bit of the chord type is set, which is where
/// chords of that type do not mute the channel.
#[derive(Debug, PartialEq, Eq)]
pub struct ChordMute {
    /// The flags by the place of their chord type in the field.
    flags: HashMap<usize, bool>,
}

impl View for ChordMute {
    type V = Map<Chord, bool>;

    closed spec fn view(&self) -> Map<Chord, bool> {
        Map::new(
            |chord: Chord|
                chord.spec_mute_slot() matches Some(slot) && self.flags@.contains_key(slot),
            |chord: Chord| self.flags@[chord.spec_mute_slot().unwrap()],
        )
    }
}

impl ChordMute {
    /// The flag of `chord`; `None` for the chord type that has no place.
    pub fn get(&self, chord: Chord) -> (flag: Option<bool>)
        ensures
            flag == (if self@.dom().contains(chord) {
                Some(self@[chord])
            } else {
                None
            }),
    {
        match chord.mute_slot() {
            Some(slot) => match self.flags.get(&slot) {
                Some(flag) => Some(*flag),
                None => None,
            },
            None => None,
        }
    }
}

/// What decoding a note-mute field gives. The high four bits of the first
/// byte are reserved: a bit set there is an error under the strict policy
/// and is passed over under the lenient one.
pub open spec fn decode_note_mute(value: Seq<u8>, policy: Policy) -> Result<
    Map<Key, bool>,
    DecodeError,
>
    recommends
        value.len() == 2,
{
    if policy.is_strict() && value[0] > 0x0F {
        Err(DecodeError::bare(Cause::ReservedBits))
    } else {
        Ok(note_mute_of(value))
    }
}

/// What decoding a chord-mute field gives. The high four bits of the first
/// byte are reserved: a bit set there is an error under the strict policy
/// and is passed over under the lenient one.
pub open spec fn decode_chord_mute(value: Seq<u8>, policy: Policy) -> Result<
    Map<Chord, bool>,
    DecodeError,
>
    recommends
        value.len() == 5,
{
    if policy.is_strict() && value[0] > 0x0F {
        Err(DecodeError::bare(Cause::ReservedBits))
    } else {
        Ok(chord_mute_of(value))
    }
}

/// A channel table.
#[derive(Debug, PartialEq, Eq)]
pub struct Ctab<'a> {
    /// The source channel, `0x00` to `0x0F`.
    pub source: u8,
    /// The name of the channel, without the padding.
    pub name: String,
    /// The channel of the accompaniment that the notes go to, `0x00` to
    /// `0x0F`.
    pub dest: u8,
    /// Whether the source channel may be edited.
    pub editable: bool,
    /// The note-mute flags, by the root of the chord that is played.
    pub note_mute: NoteMute,
    /// The chord-mute flags, by the type of the chord that is played.
    pub chord_mute: ChordMute,
    /// The key that the source channel was recorded in.
    pub source_chord: Key,
    /// The chord type that the source channel was recorded in.
    pub source_chord_type: Chord,
    /// The transposition tables: one in the legacy generation; three in the
    /// current one, for the low, the middle and the high range.
    pub table: Vec<Table>,
    /// The lowest and the highest note of the middle range, both included.
    /// The whole range of MIDI notes in the legacy generation.
    pub range: (u8, u8),
    /// Bytes at the end of the table whose meaning is not known.
    pub special: Option<&'a [u8]>,
}

/// A channel table as plain values.
#[verifier::ext_equal]
pub struct CtabView {
    pub source: u8,
    pub name: Seq<char>,
    pub dest: u8,
    pub editable: bool,
    pub note_mute: Map<Key, bool>,
    pub chord_mute: Map<Chord, bool>,
    pub source_chord: Key,
    pub source_chord_type: Chord,
    pub table: Seq<Table>,
    pub range: (u8, u8),
    pub special: Option<Seq<u8>>,
}

impl CtabView {
    /// What holds of every channel table that was decoded: channels and
    /// notes are in range, every key has a note-mute flag, and there are one
    /// or three well-formed transposition tables.
    pub open spec fn wf(self) -> bool {
        &&& self.source < 0x10
        &&& self.dest < 0x10
        &&& self.range.0 < 0x80
        &&& self.range.1 < 0x80
        &&& forall|key: Key| self.note_mute.dom().contains(key)
        &&& forall|chord: Chord|
            self.chord_mute.dom().contains(chord) <==> chord != Chord::Cancel
        &&& (self.table.len() == 1 || self.table.len() == 3)
        &&& forall|i: int| 0 <= i < self.table.len() ==> (#[trigger] self.table[i]).wf()
    }
}

impl<'a> View for Ctab<'a> {
    type V = CtabView;

    open spec fn view(&self) -> CtabView {
        CtabView {
            source: self.source,
            name: self.name@,
            dest: self.dest,
            editable: self.editable,
            note_mute: self.note_mute@,
            chord_mute: self.chord_mute@,
            source_chord: self.source_chord,
            source_chord_type: self.source_chord_type,
            table: self.table@,
            range: self.range,
            special: match self.special {
                Some(bytes) => Some(bytes@),
                None => None,
            },
        }
    }
}

/// What reading a channel gives: the low four bits of the byte. A bit set
/// above them is an error under the strict policy.
pub open spec fn decode_channel(byte: u8, policy: Policy) -> Result<u8, DecodeError> {
    if policy.is_strict() && byte > 0x0F {
        Err(DecodeError::bare(Cause::ReservedBits))
    } else {
        Ok(byte % 0x10)
    }
}

/// What reading a note gives: the low seven bits of the byte. The highest
/// bit set is an error under the strict policy.
pub open spec fn decode_note(byte: u8, policy: Policy) -> Result<u8, DecodeError> {
    if policy.is_strict() && byte > 0x7F {
        Err(DecodeError::bare(Cause::ReservedBits))
    } else {
        Ok(byte % 0x80)
    }
}

/// What reading the name of a channel gives: the text of the bytes, without
/// the white space around it. Bytes that are not valid UTF-8 are an error
/// under the strict policy, and give the empty name under the lenient one.
pub open spec fn decode_name(bytes: Seq<u8>, policy: Policy) -> Result<Seq<char>, DecodeError> {
    match text_of(bytes) {
        Some(chars) => Ok(trimmed(chars)),
        None => if policy.is_strict() {
            Err(DecodeError::bare(Cause::InvalidText))
        } else {
            Ok(Seq::empty())
        },
    }
}

/// The least number of bytes in a channel table: all but the special bytes.
pub open spec fn fixed_size(version: Version) -> nat {
    if version.is_legacy() {
        (COMMON_SIZE + CTAB1_SIZE + 1) as nat
    } else {
        (COMMON_SIZE + CTAB2_SIZE) as nat
    }
}

/// What reading the middle range gives. The legacy generation does not
/// store it: there it is the whole range of MIDI notes.
pub open spec fn decode_range(p: Seq<u8>, version: Version, policy: Policy) -> Result<
    (u8, u8),
    DecodeError,
>
    recommends
        p.len() >= fixed_size(version),
{
    if version.is_legacy() {
        Ok((0u8, 127u8))
    } else {
        match decode_note(p[20], policy) {
            Err(e) => Err(e),
            Ok(low) => match decode_note(p[21], policy) {
                Err(e) => Err(e),
                Ok(high) => Ok((low, high)),
            },
        }
    }
}

/// What reading the transposition tables gives: the one table of the legacy
/// generation, or the tables of the low, the middle and the high range, in
/// this order. The first table that fails gives the error.
pub open spec fn decode_tables(p: Seq<u8>, version: Version, policy: Policy) -> Result<
    Seq<Table>,
    DecodeError,
>
    recommends
        p.len() >= fixed_size(version),
{
    if version.is_legacy() {
        match decode_table(p.subrange(20, 26), version, policy) {
            Err(e) => Err(e),
            Ok(table) => Ok(seq![table]),
        }
    } else {
        match decode_table(p.subrange(22, 28), version, policy) {
            Err(e) => Err(e),
            Ok(low) => match decode_table(p.subrange(28, 34), version, policy) {
                Err(e) => Err(e),
                Ok(mid) => match decode_table(p.subrange(34, 40), version, policy) {
                    Err(e) => Err(e),
                    Ok(high) => Ok(seq![low, mid, high]),
                },
            },
        }
    }
}

/// What reading the special bytes gives.
///
/// In the legacy generation a zero sentinel says that there are none; any
/// other sentinel is followed by four of them. In the current generation
/// there are seven. Where fewer bytes are left than are expected, that is
/// an error under the strict policy, and there are no special bytes under
/// the lenient one.
pub open spec fn decode_special(p: Seq<u8>, version: Version, policy: Policy) -> Result<
    Option<Seq<u8>>,
    DecodeError,
>
    recommends
        p.len() >= fixed_size(version),
{
    let from = if version.is_legacy() {
        27int
    } else {
        40int
    };
    let to = if version.is_legacy() {
        from + CTAB1_SPECIAL_SIZE - 1
    } else {
        from + CTAB2_SPECIAL_SIZE
    };
    if version.is_legacy() && p[26] == 0 {
        Ok(None)
    } else if to <= p.len() {
        Ok(Some(p.subrange(from, to)))
    } else if policy.is_strict() {
        Err(DecodeError::bare(Cause::MalformedField))
    } else {
        Ok(None)
    }
}

/// What decoding a channel table of generation `version` from the payload
/// `p` gives.
///
/// A payload shorter than `fixed_size(version)` is an error. Else the
/// fields are decoded in the order of their bytes, and the first that fails
/// gives the error.
pub open spec fn decode_ctab(p: Seq<u8>, version: Version, policy: Policy) -> Result<
    CtabView,
    DecodeError,
> {
    if p.len() < fixed_size(version) {
        Err(DecodeError::bare(Cause::MalformedField))
    } else {
        match decode_channel(p[0], policy) {
            Err(e) => Err(e),
            Ok(source) => match decode_name(p.subrange(1, 9), policy) {
                Err(e) => Err(e),
                Ok(name) => match decode_channel(p[9], policy) {
                    Err(e) => Err(e),
                    Ok(dest) => match decode_note_mute(p.subrange(11, 13), policy) {
                        Err(e) => Err(e),
                        Ok(note_mute) => match decode_chord_mute(p.subrange(13, 18), policy) {
                            Err(e) => Err(e),
                            Ok(chord_mute) => match Key::decoded(p[18], policy) {
                                Err(e) => Err(e),
                                Ok(source_chord) => match Chord::decoded(p[19], policy) {
                                    Err(e) => Err(e),
                                    Ok(source_chord_type) => match decode_range(
                                        p,
                                        version,
                                        policy,
                                    ) {
                                        Err(e) => Err(e),
                                        Ok(range) => match decode_tables(p, version, policy) {
                                            Err(e) => Err(e),
                                            Ok(table) => match decode_special(
                                                p,
                                                version,
                                                policy,
                                            ) {
                                                Err(e) => Err(e),
                                                Ok(special) => Ok(
                                                    CtabView {
                                                        source,
                                                        name,
                                                        dest,
                                                        editable: p[10] == 0,
                                                        note_mute,
                                                        chord_mute,
                                                        source_chord,
                                                        source_chord_type,
                                                        table,
                                                        range,
                                                        special,
                                                    },
                                                ),
                                            },
                                        },
                                    },
                                },
                            },
                        },
                    },
                },
            },
        }
    }
}

/// What reading a channel table from a chunk gives: the tag of the chunk
/// says which generation the table is of. A chunk of any other kind is an
/// error.
pub open spec fn read_ctab(chunk: ChunkView, policy: Policy) -> Result<CtabView, DecodeError> {
    match chunk.kind() {
        ChunkKind::Ctab1 => decode_ctab(chunk.payload, Version::Ctab1, policy),
        ChunkKind::Ctab2 => decode_ctab(chunk.payload, Version::Ctab2, policy),
        _ => Err(DecodeError::bare(Cause::UnexpectedChunk)),
    }
}

/// The outcome of a decoder of channel tables as plain values.
pub open spec fn ctab_result_view(r: Result<Ctab, DecodeError>) -> Result<CtabView, DecodeError> {
    match r {
        Ok(ctab) => Ok(ctab@),
        Err(e) => Err(e),
    }
}

fn read_channel(byte: u8, policy: Policy) -> (channel: Result<u8, DecodeError>)
    ensures
        channel == decode_channel(byte, policy),
{
    if byte > 0b1111 && policy == Policy::Strict {
        return Err(DecodeError::new(Cause::ReservedBits));
    }
    assert(byte & 0b1111 == byte % 0x10) by (bit_vector);
    Ok(byte & 0b1111)
}

fn read_note(byte: u8, policy: Policy) -> (note: Result<u8, DecodeError>)
    ensures
        note == decode_note(byte, policy),
{
    if byte > 0b0111_1111 && policy == Policy::Strict {
        return Err(DecodeError::new(Cause::ReservedBits));
    }
    assert(byte & 0b0111_1111 == byte % 0x80) by (bit_vector);
    Ok(byte & 0b0111_1111)
}

fn read_name(bytes: &[u8], policy: Policy) -> (name: Result<String, DecodeError>)
    ensures
        match name {
            Ok(n) => decode_name(bytes@, policy) == Ok::<Seq<char>, DecodeError>(n@),
            Err(e) => decode_name(bytes@, policy) == Err::<Seq<char>, DecodeError>(e),
        },
{
    match read_trimmed(bytes) {
        Some(text) => Ok(text.to_owned()),
        None => match policy {
            Policy::Strict => Err(DecodeError::new(Cause::InvalidText)),
            Policy::Lenient => Ok(String::new()),
        },
    }
}

impl<'a> Ctab<'a> {
    /// Decodes the channel table that `chunk` holds. The tag of the chunk
    /// says which generation the table is of.
    pub fn read(chunk: Chunk<'a>, policy: Policy) -> (ctab: Result<Ctab<'a>, DecodeError>)
        ensures
            ctab_result_view(ctab) == read_ctab(chunk@, policy),
            ctab matches Ok(c) ==> c@.wf(),
    {
        match chunk.kind() {
            ChunkKind::Ctab1 => Ctab::decode(chunk.payload, Version::Ctab1, policy),
            ChunkKind::Ctab2 => Ctab::decode(chunk.payload, Version::Ctab2, policy),
            _ => Err(DecodeError::new(Cause::UnexpectedChunk)),
        }
    }

    /// Decodes a channel table of generation `version` from its payload.
    pub fn decode(payload: &'a [u8], version: Version, policy: Policy) -> (ctab: Result<
        Ctab<'a>,
        DecodeError,
    >)
        ensures
            ctab_result_view(ctab) == decode_ctab(payload@, version, policy),
            ctab matches Ok(c) ==> c@.wf(),
    {
        let legacy = version == Version::Ctab1;
        let fixed: usize = if legacy {
            COMMON_SIZE + CTAB1_SIZE + 1
        } else {
            COMMON_SIZE + CTAB2_SIZE
        };
        if payload.len() < fixed {
            return Err(DecodeError::new(Cause::MalformedField));
        }
        let ghost p = payload@;
        let source = read_channel(payload[0], policy)?;
        let name = read_name(slice_subrange(payload, 1, 9), policy)?;
        let dest = read_channel(payload[9], policy)?;
        let editable = payload[10] == 0;
        let data: [u8; 2] = [payload[11], payload[12]];
        assert(data@ =~= p.subrange(11, 13));
        let note_mute = Ctab::read_note_mute(data, policy)?;
        let data: [u8; 5] = [payload[13], payload[14], payload[15], payload[16], payload[17]];
        assert(data@ =~= p.subrange(13, 18));
        let chord_mute = Ctab::read_chord_mute(data, policy)?;
        let source_chord = Key::try_from((payload[18], policy))?;
        let source_chord_type = Chord::try_from((payload[19], policy))?;

        let mut table: Vec<Table> = Vec::with_capacity(3);
        let range: (u8, u8);
        let special: Option<&'a [u8]>;
        if legacy {
            // The whole range of MIDI notes.
            range = (0, 127);
            let at: usize = COMMON_SIZE;
            let only = Table::try_from((slice_subrange(payload, at, at + TABLE_SIZE), version, policy))?;
            table.push(only);
            assert(table@ =~= seq![only]);
            let from: usize = fixed;
            if payload[from - 1] != 0x00 {
                special = Ctab::read_special(payload, from, from + CTAB1_SPECIAL_SIZE - 1, policy)?;
            } else {
                special = None;
            }
        } else {
            let low_note = read_note(payload[20], policy)?;
            let high_note = read_note(payload[21], policy)?;
            range = (low_note, high_note);
            let at: usize = COMMON_SIZE + 2;
            let low = Table::try_from((slice_subrange(payload, at, at + TABLE_SIZE), version, policy))?;
            table.push(low);
            let mid = Table::try_from(
                (slice_subrange(payload, at + TABLE_SIZE, at + TABLE_SIZE * 2), version, policy),
            )?;
            table.push(mid);
            let high = Table::try_from(
                (slice_subrange(payload, at + TABLE_SIZE * 2, at + TABLE_SIZE * 3), version, policy),
            )?;
            table.push(high);
            assert(table@ =~= seq![low, mid, high]);
            special = Ctab::read_special(payload, fixed, fixed + CTAB2_SPECIAL_SIZE, policy)?;
        }
        let ctab = Ctab {
            source,
            name,
            dest,
            editable,
            note_mute,
            chord_mute,
            source_chord,
            source_chord_type,
            table,
            range,
            special,
        };
        assert(decode_ctab(p, version, policy) matches Ok(v) && v =~= ctab@);
        Ok(ctab)
    }

    /// Takes the special bytes `from..to` of the payload. Where the payload
    /// ends before `to`, that is an error under the strict policy, and there
    /// are no special bytes under the lenient one.
    fn read_special(payload: &'a [u8], from: usize, to: usize, policy: Policy) -> (special: Result<
        Option<&'a [u8]>,
        DecodeError,
    >)
        requires
            from <= to,
            from <= payload@.len(),
        ensures
            to <= payload@.len() ==> (special matches Ok(Some(bytes)) && bytes@
                == payload@.subrange(from as int, to as int)),
            to > payload@.len() && policy.is_strict() ==> special == Err::<
                Option<&[u8]>,
                DecodeError,
            >(DecodeError::bare(Cause::MalformedField)),
            to > payload@.len() && !policy.is_strict() ==> special == Ok::<
                Option<&[u8]>,
                DecodeError,
            >(None),
    {
        if to <= payload.len() {
            Ok(Some(slice_subrange(payload, from, to)))
        } else {
            match policy {
                Policy::Strict => Err(DecodeError::new(Cause::MalformedField)),
                Policy::Lenient => Ok(None),
            }
        }
    }

    /// Decodes a note-mute field.
    pub fn read_note_mute(value: [u8; 2], policy: Policy) -> (mute: Result<NoteMute, DecodeError>)
        ensures
            match mute {
                Ok(m) => decode_note_mute(value@, policy) == Ok::<Map<Key, bool>, DecodeError>(m@),
                Err(e) => decode_note_mute(value@, policy) == Err::<Map<Key, bool>, DecodeError>(e),
            },
    {
        if value[0] > 0b1111 && policy == Policy::Strict {
            return Err(DecodeError::new(Cause::ReservedBits));
        }
        let mut flags: HashMap<u8, bool> = HashMap::with_capacity(12);
        let mut code: u8 = 0;
        while code < 12
            invariant
                code <= 12,
                forall|i: u8| flags@.contains_key(i) <==> i < code,
                forall|i: u8|
                    i < code ==> flags@[i] == !(if i < 8 {
                        bit(value@[1], i)
                    } else {
                        bit(value@[0], (i - 8) as u8)
                    }),
            decreases 12 - code,
        {
            // The first byte holds the keys from G sharp to B, the second
            // one those from C to G, each with C at its lowest bit.
            let set = if code < 8 {
                bit_at(value[1], code)
            } else {
                bit_at(value[0], code - 8)
            };
            flags.insert(code, !set);
            code += 1;
        }
        let mute = NoteMute { flags };
        assert(mute@ =~= note_mute_of(value@));
        Ok(mute)
    }

    /// Decodes a chord-mute field.
    pub fn read_chord_mute(value: [u8; 5], policy: Policy) -> (mute: Result<ChordMute, DecodeError>)
        ensures
            match mute {
                Ok(m) => decode_chord_mute(value@, policy) == Ok::<Map<Chord, bool>, DecodeError>(m@),
                Err(e) => decode_chord_mute(value@, policy) == Err::<Map<Chord, bool>, DecodeError>(e),
            },
    {
        if value[0] > 0b1111 && policy == Policy::Strict {
            return Err(DecodeError::new(Cause::ReservedBits));
        }
        let mut flags: HashMap<usize, bool> = HashMap::with_capacity(CHORD_MUTE_SIZE);
        let mut cur: usize = 0;
        while cur < CHORD_MUTE_SIZE
            invariant
                cur <= CHORD_MUTE_SIZE,
                forall|i: usize| flags@.contains_key(i) <==> i < cur,
                forall|i: usize| i < cur ==> flags@[i] == chord_mute_bit(value@, i as int),
            decreases CHORD_MUTE_SIZE - cur,
        {
            // Position of the bit within its byte, counted from the highest bit.
            let pos: usize = (cur + 4) % 8;
            let cur_byte: usize = (cur + 4) / 8;
            flags.insert(cur, bit_at(value[cur_byte], (8 - pos - 1) as u8));
            cur += 1;
        }
        let mute = ChordMute { flags };
        assert(mute@ =~= chord_mute_of(value@));
        Ok(mute)
    }
}

/// The bit of `key` in a note-mute field with the flags `mute`: the bit at
/// place `pos`, set where the flag of `key` is `false`.
pub open spec fn note_mute_flag(mute: Map<Key, bool>, key: Key, pos: u8) -> u8 {
    if mute[key] {
        0
    } else {
        1u8 << pos
    }
}

/// The note-mute field with the flags `mute`. Its reserved bits are clear.
pub open spec fn encode_note_mute(mute: Map<Key, bool>) -> Seq<u8> {
    seq![
        note_mute_flag(mute, Key::Gs, 0) | note_mute_flag(mute, Key::A, 1) | note_mute_flag(
            mute,
            Key::Bb,
            2,
        ) | note_mute_flag(mute, Key::B, 3),
        note_mute_flag(mute, Key::C, 0) | note_mute_flag(mute, Key::Cs, 1) | note_mute_flag(
            mute,
            Key::D,
            2,
        ) | note_mute_flag(mute, Key::Eb, 3) | note_mute_flag(mute, Key::E, 4) | note_mute_flag(
            mute,
            Key::F,
            5,
        ) | note_mute_flag(mute, Key::Fs, 6) | note_mute_flag(mute, Key::G, 7),
    ]
}

proof fn lemma_flags_of_bits(b: u8)
    by (bit_vector)
    ensures
        (if (b >> 0u8) & 1 == 1 { 1u8 << 0u8 } else { 0u8 }) | (if (b >> 1u8) & 1 == 1 {
            1u8 << 1u8
        } else {
            0u8
        }) | (if (b >> 2u8) & 1 == 1 { 1u8 << 2u8 } else { 0u8 }) | (if (b >> 3u8) & 1 == 1 {
            1u8 << 3u8
        } else {
            0u8
        }) == b % 0x10,
        (if (b >> 0u8) & 1 == 1 { 1u8 << 0u8 } else { 0u8 }) | (if (b >> 1u8) & 1 == 1 {
            1u8 << 1u8
        } else {
            0u8
        }) | (if (b >> 2u8) & 1 == 1 { 1u8 << 2u8 } else { 0u8 }) | (if (b >> 3u8) & 1 == 1 {
            1u8 << 3u8
        } else {
            0u8
        }) | (if (b >> 4u8) & 1 == 1 { 1u8 << 4u8 } else { 0u8 }) | (if (b >> 5u8) & 1 == 1 {
            1u8 << 5u8
        } else {
            0u8
        }) | (if (b >> 6u8) & 1 == 1 { 1u8 << 6u8 } else { 0u8 }) | (if (b >> 7u8) & 1 == 1 {
            1u8 << 7u8
        } else {
            0u8
        }) == b,
{
}

proof fn lemma_bits_of_flags(
    f0: bool,
    f1: bool,
    f2: bool,
    f3: bool,
    f4: bool,
    f5: bool,
    f6: bool,
    f7: bool,
)
    by (bit_vector)
    ensures
        ({
            let b = (if f0 { 1u8 << 0u8 } else { 0u8 }) | (if f1 { 1u8 << 1u8 } else { 0u8 }) | (if f2 {
                1u8 << 2u8
            } else {
                0u8
            }) | (if f3 { 1u8 << 3u8 } else { 0u8 }) | (if f4 { 1u8 << 4u8 } else { 0u8 }) | (if f5 {
                1u8 << 5u8
            } else {
                0u8
            }) | (if f6 { 1u8 << 6u8 } else { 0u8 }) | (if f7 { 1u8 << 7u8 } else { 0u8 });
            &&& ((b >> 0u8) & 1 == 1) == f0
            &&& ((b >> 1u8) & 1 == 1) == f1
            &&& ((b >> 2u8) & 1 == 1) == f2
            &&& ((b >> 3u8) & 1 == 1) == f3
            &&& ((b >> 4u8) & 1 == 1) == f4
            &&& ((b >> 5u8) & 1 == 1) == f5
            &&& ((b >> 6u8) & 1 == 1) == f6
            &&& ((b >> 7u8) & 1 == 1) == f7
        }),
{
}

proof fn lemma_bits_of_low_flags(f0: bool, f1: bool, f2: bool, f3: bool)
    by (bit_vector)
    ensures
        ({
            let b = (if f0 { 1u8 << 0u8 } else { 0u8 }) | (if f1 { 1u8 << 1u8 } else { 0u8 }) | (if f2 {
                1u8 << 2u8
            } else {
                0u8
            }) | (if f3 { 1u8 << 3u8 } else { 0u8 });
            &&& ((b >> 0u8) & 1 == 1) == f0
            &&& ((b >> 1u8) & 1 == 1) == f1
            &&& ((b >> 2u8) & 1 == 1) == f2
            &&& ((b >> 3u8) & 1 == 1) == f3
            &&& b <= 0x0F
        }),
{
}

/// Decoding a note-mute field and encoding what came out gives the field
/// back, but for the reserved bits, which come back clear. A reserved bit
/// that is set is an error under the strict policy, and changes nothing
/// under the lenient one.
pub proof fn lemma_note_mute_decode_encode(value: Seq<u8>, policy: Policy)
    requires
        value.len() == 2,
    ensures
        decode_note_mute(value, Policy::Strict) is Err <==> value[0] > 0x0F,
        decode_note_mute(value, Policy::Lenient) == Ok::<Map<Key, bool>, DecodeError>(
            note_mute_of(seq![value[0] % 0x10, value[1]]),
        ),
        decode_note_mute(value, policy) matches Ok(mute) ==> encode_note_mute(mute) == seq![
            value[0] % 0x10,
            value[1],
        ],
{
    let low = value[0] % 0x10;
    let clean = seq![low, value[1]];
    lemma_flags_of_bits(value[0]);
    lemma_flags_of_bits(value[1]);
    lemma_flags_of_bits(low);
    assert(low % 0x10 == low);
    assert(bit(low, 0) == bit(value[0], 0) && bit(low, 1) == bit(value[0], 1) && bit(low, 2) == bit(
        value[0],
        2,
    ) && bit(low, 3) == bit(value[0], 3)) by {
        let b = value[0];
        assert(((b % 0x10) >> 0u8) & 1 == (b >> 0u8) & 1 && ((b % 0x10) >> 1u8) & 1 == (b >> 1u8) & 1
            && ((b % 0x10) >> 2u8) & 1 == (b >> 2u8) & 1 && ((b % 0x10) >> 3u8) & 1 == (b >> 3u8)
            & 1) by (bit_vector);
    }
    assert(note_mute_of(clean) =~= note_mute_of(value)) by {
        assert forall|key: Key| note_mute_bit(clean, key) == note_mute_bit(value, key) by {}
    }
    assert(encode_note_mute(note_mute_of(value)) =~= clean);
}

/// Encoding a flag for each key and decoding the field gives the flags
/// back, under either policy.
pub proof fn lemma_note_mute_encode_decode(mute: Map<Key, bool>, policy: Policy)
    requires
        forall|key: Key| mute.dom().contains(key),
    ensures
        decode_note_mute(encode_note_mute(mute), policy) == Ok::<Map<Key, bool>, DecodeError>(mute),
{
    let value = encode_note_mute(mute);
    lemma_bits_of_low_flags(!mute[Key::Gs], !mute[Key::A], !mute[Key::Bb], !mute[Key::B]);
    lemma_bits_of_flags(
        !mute[Key::C],
        !mute[Key::Cs],
        !mute[Key::D],
        !mute[Key::Eb],
        !mute[Key::E],
        !mute[Key::F],
        !mute[Key::Fs],
        !mute[Key::G],
    );
    assert(value[0] <= 0x0F);
    assert(note_mute_of(value) =~= mute) by {
        assert forall|key: Key| !note_mute_bit(value, key) == mute[key] by {}
    }
}

/// In the legacy generation the sentinel decides on the special bytes. A
/// zero sentinel: there are none, whatever follows. Any other sentinel: they
/// are the four bytes behind it; where fewer follow, the table does not
/// decode under the strict policy, and has no special bytes under the
/// lenient one.
pub proof fn lemma_legacy_special(p: Seq<u8>, policy: Policy)
    ensures
        decode_ctab(p, Version::Ctab1, policy) matches Ok(ctab) ==> {
            &&& ctab.table.len() == 1
            &&& ctab.range == (0u8, 127u8)
            &&& p[26] == 0 ==> ctab.special is None
            &&& p[26] != 0 && p.len() >= 31 ==> ctab.special == Some(p.subrange(27, 31))
            &&& p[26] != 0 && p.len() < 31 ==> ctab.special is None && !policy.is_strict()
            &&& ctab.special matches Some(bytes) ==> bytes.len() == 4
        },
{
}

/// In the current generation a table that decodes has three transposition
/// tables, those of the low, the middle and the high range in this order,
/// each decoded from its six bytes. Its special bytes are the seven bytes
/// behind them; where fewer follow, the table does not decode under the
/// strict policy, and has no special bytes under the lenient one.
pub proof fn lemma_current_tables_and_special(p: Seq<u8>, version: Version, policy: Policy)
    requires
        !version.is_legacy(),
    ensures
        decode_ctab(p, version, policy) matches Ok(ctab) ==> {
            &&& ctab.table.len() == 3
            &&& decode_table(p.subrange(22, 28), version, policy) == Ok::<Table, DecodeError>(
                ctab.table[0],
            )
            &&& decode_table(p.subrange(28, 34), version, policy) == Ok::<Table, DecodeError>(
                ctab.table[1],
            )
            &&& decode_table(p.subrange(34, 40), version, policy) == Ok::<Table, DecodeError>(
                ctab.table[2],
            )
            &&& p.len() >= 47 ==> ctab.special == Some(p.subrange(40, 47))
            &&& p.len() < 47 ==> ctab.special is None && !policy.is_strict()
            &&& ctab.special matches Some(bytes) ==> bytes.len() == 7
        },
{
}

/// The lenient policy gives up on a channel table only where it is too
/// short, and where the strict policy decodes a channel table, the lenient
/// one decodes the same.
pub proof fn lemma_ctab_lenient(p: Seq<u8>, version: Version)
    ensures
        decode_ctab(p, version, Policy::Lenient) is Err <==> p.len() < fixed_size(version),
        decode_ctab(p, version, Policy::Strict) is Ok ==> decode_ctab(p, version, Policy::Lenient)
            == decode_ctab(p, version, Policy::Strict),
{
    if p.len() >= fixed_size(version) {
        if version.is_legacy() {
            lemma_table_lenient(p.subrange(20, 26), version);
        } else {
            lemma_table_lenient(p.subrange(22, 28), version);
            lemma_table_lenient(p.subrange(28, 34), version);
            lemma_table_lenient(p.subrange(34, 40), version);
        }
    }
}

/// A name that is padded with spaces decodes to the name, under either
/// policy: where the bytes are below `0x80`, all of them from place `n` on
/// are spaces, and what stands before neither starts nor ends in white
/// space.
pub proof fn lemma_padded_name(bytes: Seq<u8>, n: int, policy: Policy)
    requires
        0 <= n <= bytes.len(),
        forall|i: int| 0 <= i < bytes.len() ==> bytes[i] < 0x80,
        forall|i: int| n <= i < bytes.len() ==> bytes[i] == 0x20,
        n > 0 ==> !white_space(bytes[0] as char) && !white_space(bytes[n - 1] as char),
    ensures
        decode_name(bytes, policy) == Ok::<Seq<char>, DecodeError>(
            Seq::new(n as nat, |i: int| bytes[i] as char),
        ),
{
    let chars = Seq::new(bytes.len(), |i: int| bytes[i] as char);
    lemma_ascii_text(bytes);
    assert forall|i: int| n <= i < chars.len() implies chars[i] == ' ' by {
        assert(bytes[i] == 0x20);
    }
    lemma_trim_padding(chars, n);
    assert(chars.take(n) =~= Seq::new(n as nat, |i: int| bytes[i] as char));
}

} // verus!

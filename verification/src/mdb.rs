//! The MDB section: records that describe the tunes a style goes with.
//!
//! A record starts with five bytes: the tempo, as a number of three bytes,
//! most significant first, and the two numbers of the time signature. Behind
//! them come chunks, in any order: the title, the genre, and up to two
//! keywords.

use vstd::prelude::*;
use vstd::slice::slice_subrange;
use crate::chunk::{
    after_first_chunk, chunk_error, find_section, first_chunk, first_section, section_of, Chunk,
    ChunkIter, ChunkKind, ChunkView,
};
use crate::error::{Cause, DecodeError, Policy, Section};
use crate::text::{read_text, text_of};

verus! {

/// Bytes of a record before its chunks.
pub const RECORD_PREFIX_SIZE: usize = 5;

/// A time signature, as in musical notation.
#[derive(Clone, Copy, Debug, PartialEq, Eq, Structural)]
pub struct Signature {
    /// How many notes there are in a bar.
    pub upper: u8,
    /// Which note is counted.
    pub lower: u8,
}

/// A record of the MDB section.
#[derive(Debug, PartialEq, Eq)]
pub struct Record {
    /// The tempo of the tune, in microseconds for a quarter note. Below
    /// `0x100_0000`.
    pub tempo: u32,
    /// The time signature.
    pub signature: Signature,
    /// The title of the tune; empty where the record has none.
    pub title: String,
    /// The genre of the tune; empty where the record has none.
    pub genre: String,
    /// The first keyword.
    pub keyword1: Option<String>,
    /// The second keyword.
    pub keyword2: Option<String>,
}

/// A record as plain values.
#[verifier::ext_equal]
pub struct RecordView {
    pub tempo: u32,
    pub signature: Signature,
    pub title: Seq<char>,
    pub genre: Seq<char>,
    pub keyword1: Option<Seq<char>>,
    pub keyword2: Option<Seq<char>>,
}

impl View for Record {
    type V = RecordView;

    open spec fn view(&self) -> RecordView {
        RecordView {
            tempo: self.tempo,
            signature: self.signature,
            title: self.title@,
            genre: self.genre@,
            keyword1: match self.keyword1 {
                Some(k) => Some(k@),
                None => None,
            },
            keyword2: match self.keyword2 {
                Some(k) => Some(k@),
                None => None,
            },
        }
    }
}

/// The number that three bytes spell, most significant byte first.
pub open spec fn be_u24(b: Seq<u8>) -> nat
    recommends
        b.len() == 3,
{
    (b[0] as nat) * 0x1_0000 + (b[1] as nat) * 0x100 + (b[2] as nat)
}

/// The payload of the first chunk of kind `kind` among the chunks of `s`.
pub open spec fn first_payload(s: Seq<u8>, kind: ChunkKind) -> Option<Seq<u8>> {
    match first_section(s, kind) {
        Ok(found) => found,
        Err(_) => None,
    }
}

/// The text of a title or a genre: that of the first chunk of kind `kind`.
/// Empty where there is no such chunk, or where its payload is not valid
/// UTF-8.
pub open spec fn text_field(s: Seq<u8>, kind: ChunkKind) -> Seq<char> {
    match first_payload(s, kind) {
        Some(bytes) => match text_of(bytes) {
            Some(text) => text,
            None => Seq::empty(),
        },
        None => Seq::empty(),
    }
}

/// A keyword: the text of the first chunk of kind `kind`. None where there
/// is no such chunk, where its payload is not valid UTF-8, or where it is
/// empty.
pub open spec fn keyword_field(s: Seq<u8>, kind: ChunkKind) -> Option<Seq<char>> {
    match first_payload(s, kind) {
        Some(bytes) => match text_of(bytes) {
            Some(text) => if text.len() > 0 {
                Some(text)
            } else {
                None
            },
            None => None,
        },
        None => None,
    }
}

/// What decoding the payload of a record gives.
///
/// A payload of fewer than five bytes is an error, and so is a failure of
/// the tokenizer anywhere in the chunks behind them. Chunks of other kinds
/// than the four that a record knows are passed over, as is every chunk of
/// a kind that came before.
pub open spec fn decode_record(p: Seq<u8>) -> Result<RecordView, DecodeError> {
    if p.len() < RECORD_PREFIX_SIZE {
        Err(DecodeError::bare(Cause::MalformedField))
    } else {
        let chunks = p.skip(RECORD_PREFIX_SIZE as int);
        match chunk_error(chunks) {
            Some(e) => Err(e),
            None => Ok(
                RecordView {
                    tempo: be_u24(p.subrange(0, 3)) as u32,
                    signature: Signature { upper: p[3], lower: p[4] },
                    title: text_field(chunks, ChunkKind::SongTitleData),
                    genre: text_field(chunks, ChunkKind::GenreTitleData),
                    keyword1: keyword_field(chunks, ChunkKind::Keyword1),
                    keyword2: keyword_field(chunks, ChunkKind::Keyword2),
                },
            ),
        }
    }
}

/// What reading a record from a chunk gives. A chunk of any other kind is an
/// error.
pub open spec fn read_record(chunk: ChunkView) -> Result<RecordView, DecodeError> {
    if chunk.kind() == ChunkKind::Record {
        decode_record(chunk.payload)
    } else {
        Err(DecodeError::bare(Cause::UnexpectedChunk))
    }
}

/// The outcome of a decoder of records as plain values.
pub open spec fn record_result_view(r: Result<Record, DecodeError>) -> Result<
    RecordView,
    DecodeError,
> {
    match r {
        Ok(record) => Ok(record@),
        Err(e) => Err(e),
    }
}

/// `found` is the first payload of kind `kind` in `whole`, as far as the
/// chunks before `rest` tell.
spec fn found_before(found: Option<&[u8]>, whole: Seq<u8>, rest: Seq<u8>, kind: ChunkKind) -> bool {
    match found {
        Some(bytes) => first_section(whole, kind) == Ok::<Option<Seq<u8>>, Cause>(Some(bytes@)),
        None => first_section(whole, kind) == first_section(rest, kind),
    }
}

fn read_text_field(found: Option<&[u8]>) -> (text: String)
    ensures
        text@ == match found {
            Some(bytes) => match text_of(bytes@) {
                Some(t) => t,
                None => Seq::empty(),
            },
            None => Seq::empty(),
        },
{
    match found {
        Some(bytes) => match read_text(bytes) {
            Some(text) => text.to_owned(),
            None => String::new(),
        },
        None => String::new(),
    }
}

fn read_keyword_field(found: Option<&[u8]>) -> (keyword: Option<String>)
    ensures
        match found {
            Some(bytes) => match text_of(bytes@) {
                Some(t) => if t.len() > 0 {
                    keyword matches Some(k) && k@ == t
                } else {
                    keyword is None
                },
                None => keyword is None,
            },
            None => keyword is None,
        },
{
    match found {
        Some(bytes) => match read_text(bytes) {
            Some(text) => if !text.is_empty() {
                Some(text.to_owned())
            } else {
                None
            },
            None => None,
        },
        None => None,
    }
}

/// Reads the big-endian number in the three bytes of `raw` from `at` on.
fn read_be_u24(raw: &[u8], at: usize) -> (n: u32)
    requires
        at + 3 <= raw@.len(),
    ensures
        n == be_u24(raw@.subrange(at as int, at + 3)),
        n < 0x100_0000,
{
    let a: u8 = raw[at];
    let b: u8 = raw[at + 1];
    let c: u8 = raw[at + 2];
    assert(((a as u32) << 16) | ((b as u32) << 8) | (c as u32) == (a as u32) * 0x1_0000 + (b as u32)
        * 0x100 + (c as u32)) by (bit_vector);
    ((a as u32) << 16) | ((b as u32) << 8) | (c as u32)
}

impl Record {
    /// Decodes the record that `chunk` holds.
    pub fn read(chunk: Chunk) -> (record: Result<Record, DecodeError>)
        ensures
            record_result_view(record) == read_record(chunk@),
            record matches Ok(r) ==> r.tempo < 0x100_0000,
    {
        if chunk.kind() != ChunkKind::Record {
            return Err(DecodeError::new(Cause::UnexpectedChunk));
        }
        let value = chunk.payload;
        if value.len() < RECORD_PREFIX_SIZE {
            return Err(DecodeError::new(Cause::MalformedField));
        }
        let tempo = read_be_u24(value, 0);
        let upper = value[3];
        let lower = value[4];

        // The rest of the payload is made of chunks. They should come as
        // title, genre, first keyword, second keyword, but are taken as they
        // come.
        let mut chunk_iter = ChunkIter::new(
            slice_subrange(value, RECORD_PREFIX_SIZE, value.len()),
        );
        let ghost chunks = chunk_iter@;
        let mut title: Option<&[u8]> = None;
        let mut genre: Option<&[u8]> = None;
        let mut keyword1: Option<&[u8]> = None;
        let mut keyword2: Option<&[u8]> = None;
        loop
            invariant
                chunk@.kind() == ChunkKind::Record,
                value@ == chunk@.payload,
                value@.len() >= RECORD_PREFIX_SIZE,
                chunks == value@.skip(RECORD_PREFIX_SIZE as int),
                tempo == be_u24(value@.subrange(0, 3)),
                tempo < 0x100_0000,
                upper == value@[3],
                lower == value@[4],
                chunk_error(chunks) == chunk_error(chunk_iter@),
                found_before(title, chunks, chunk_iter@, ChunkKind::SongTitleData),
                found_before(genre, chunks, chunk_iter@, ChunkKind::GenreTitleData),
                found_before(keyword1, chunks, chunk_iter@, ChunkKind::Keyword1),
                found_before(keyword2, chunks, chunk_iter@, ChunkKind::Keyword2),
            decreases chunk_iter@.len(),
        {
            match chunk_iter.next() {
                None => {
                    let record = Record {
                        tempo,
                        signature: Signature { upper, lower },
                        title: read_text_field(title),
                        genre: read_text_field(genre),
                        keyword1: read_keyword_field(keyword1),
                        keyword2: read_keyword_field(keyword2),
                    };
                    assert(decode_record(value@) matches Ok(v) && v =~= record@);
                    return Ok(record);
                },
                Some(Err(e)) => {
                    return Err(e);
                },
                Some(Ok(c)) => match c.kind() {
                    ChunkKind::SongTitleData => {
                        if title.is_none() {
                            title = Some(c.payload);
                        }
                    },
                    ChunkKind::GenreTitleData => {
                        if genre.is_none() {
                            genre = Some(c.payload);
                        }
                    },
                    ChunkKind::Keyword1 => {
                        if keyword1.is_none() {
                            keyword1 = Some(c.payload);
                        }
                    },
                    ChunkKind::Keyword2 => {
                        if keyword2.is_none() {
                            keyword2 = Some(c.payload);
                        }
                    },
                    _ => {},
                },
            }
        }
    }
}

/// What a walk over the records in `s` yields first.
///
/// Nothing at the end of the chunks. Where the first chunk is itself cut
/// short, the error of the tokenizer, under either policy. Else the first
/// chunk is read as a record, and where that fails, for whatever cause, the
/// strict policy yields the error and the lenient one yields nothing. Any
/// failure ends the walk.
pub open spec fn next_record(s: Seq<u8>, policy: Policy) -> Option<Result<RecordView, DecodeError>> {
    match first_chunk(s) {
        None => None,
        Some(Err(e)) => Some(Err(e.within(Section::Record))),
        Some(Ok(chunk)) => match read_record(chunk) {
            Ok(record) => Some(Ok(record)),
            Err(e) => if policy.is_strict() {
                Some(Err(e.within(Section::Record)))
            } else {
                None
            },
        },
    }
}

/// What is left for the walk once it has yielded `next_record(s, policy)`:
/// the bytes behind the record, or nothing after a failure.
pub open spec fn after_next_record(s: Seq<u8>, policy: Policy) -> Seq<u8> {
    if next_record(s, policy) matches Some(Ok(_)) {
        after_first_chunk(s)
    } else {
        Seq::empty()
    }
}

/// An item of a walk over records as plain values.
pub open spec fn record_item_view(item: Option<Result<Record, DecodeError>>) -> Option<
    Result<RecordView, DecodeError>,
> {
    match item {
        None => None,
        Some(r) => Some(record_result_view(r)),
    }
}

/// A walk over the records of an MDB section.
#[derive(Clone, Copy, Debug)]
pub struct RecordIter<'a> {
    /// The chunks that are still to be read.
    pub inner: ChunkIter<'a>,
    /// The policy of the walk.
    pub policy: Policy,
}

impl<'a> RecordIter<'a> {
    /// Yields the next record, `None` when there is none left.
    pub fn next(&mut self) -> (item: Option<Result<Record, DecodeError>>)
        ensures
            record_item_view(item) == next_record(old(self).inner@, old(self).policy),
            final(self).inner@ == after_next_record(old(self).inner@, old(self).policy),
            final(self).policy == old(self).policy,
    {
        let mut rest = self.inner;
        let found = rest.next();
        self.inner.finish();
        match found {
            None => None,
            // The walk's own chunk is cut short: no policy recovers from it.
            Some(Err(e)) => Some(Err(e.context(Section::Record))),
            Some(Ok(chunk)) => match Record::read(chunk) {
                Ok(record) => {
                    self.inner = rest;
                    Some(Ok(record))
                },
                Err(e) => match self.policy {
                    Policy::Strict => Some(Err(e.context(Section::Record))),
                    Policy::Lenient => None,
                },
            },
        }
    }
}

/// The MDB section.
#[derive(Clone, Copy, Debug)]
pub struct Mdb<'a>(pub RecordIter<'a>);

impl<'a> Mdb<'a> {
    /// Finds the first MDB section among the chunks of `chunk_iter`. Any
    /// further one is passed over.
    pub fn parse(chunk_iter: ChunkIter<'a>, policy: Policy) -> (mdb: Result<
        Option<Mdb<'a>>,
        DecodeError,
    >)
        ensures
            match section_of(chunk_iter@, ChunkKind::Mdb, Section::Mdb) {
                Ok(None) => mdb matches Ok(None),
                Ok(Some(payload)) => mdb matches Ok(Some(m)) && m.0.inner@ == payload
                    && m.0.policy == policy,
                Err(e) => mdb matches Err(x) && x == e,
            },
    {
        match find_section(chunk_iter, ChunkKind::Mdb, Section::Mdb)? {
            Some(data) => Ok(Some(Mdb(RecordIter { inner: ChunkIter::new(data), policy }))),
            None => Ok(None),
        }
    }
}

/// A chunk of the walk that is cut short is an error under either policy.
pub proof fn lemma_record_truncation_is_error(s: Seq<u8>, policy: Policy)
    requires
        first_chunk(s) matches Some(Err(_)),
    ensures
        next_record(s, policy) matches Some(Err(e)) && e.cause.is_truncation() && e.section
            == Some(Section::Record),
        after_next_record(s, policy) == Seq::<u8>::empty(),
{
}

/// What the policies make of a chunk that is whole but does not decode as a
/// record, be it for a chunk inside it that is cut short: the strict one
/// yields the error, the lenient one ends the walk in silence. Neither
/// yields a record.
pub proof fn lemma_record_failure_by_policy(s: Seq<u8>, policy: Policy)
    requires
        first_chunk(s) matches Some(Ok(chunk)) && read_record(chunk) is Err,
    ensures
        policy.is_strict() ==> next_record(s, policy) == Some(
            Err::<RecordView, DecodeError>(
                read_record(first_chunk(s)->0->Ok_0)->Err_0.within(Section::Record),
            ),
        ),
        !policy.is_strict() ==> next_record(s, policy) is None,
        after_next_record(s, policy) == Seq::<u8>::empty(),
{
}

} // verus!

//! The chunk tokenizer, and the search for a section among the chunks.
//!
//! A chunk is a four-byte tag, a four-byte big-endian payload length, and
//! that many payload bytes. Chunks follow one another without padding, and a
//! payload may itself be a sequence of chunks.

use vstd::prelude::*;
use vstd::slice::slice_subrange;
use crate::error::{Cause, DecodeError, Section};

verus! {

/// Bytes in a chunk header: four of tag and four of length.
pub const HEADER_LEN: usize = 8;

/// What a chunk holds, as told by its tag. Every tokenizer, at every depth,
/// classifies tags by this one enumeration.
#[derive(Clone, Copy, Debug, PartialEq, Eq, Structural)]
pub enum ChunkKind {
    /// `MThd`: the MIDI header.
    Header,
    /// `MTrk`: a MIDI track.
    Track,
    /// `MHhd`: the MH section.
    Mh,
    /// `FNRc`: the MDB section, a list of records.
    Mdb,
    /// `FNRP`: one record of the MDB section.
    Record,
    /// `Mnam`: the title of a record.
    SongTitleData,
    /// `Gnam`: the genre of a record.
    GenreTitleData,
    /// `Kwd1`: the first keyword of a record.
    Keyword1,
    /// `Kwd2`: the second keyword of a record.
    Keyword2,
    /// `CASM`: the CASM section, a list of CSEG chunks.
    Casm,
    /// `CSEG`: the settings shared by some style parts.
    Cseg,
    /// `Sdec`: the names of the style parts of a CSEG.
    Sdec,
    /// `Ctab`: a channel table of the legacy generation.
    Ctab1,
    /// `Ctb2`: a channel table of the current generation.
    Ctab2,
    /// `Cntt`: the content table that may accompany a legacy channel table.
    Cntt,
    /// `OTSc`: the OTS section.
    Ots,
    /// Any other tag.
    Unknown,
}

/// `tag` is the four bytes `a b c d`.
pub open spec fn tag_is(tag: Seq<u8>, a: u8, b: u8, c: u8, d: u8) -> bool {
    tag.len() == 4 && tag[0] == a && tag[1] == b && tag[2] == c && tag[3] == d
}

/// The kind that a tag stands for.
pub open spec fn kind_of_tag(tag: Seq<u8>) -> ChunkKind {
    if tag_is(tag, 0x4D, 0x54, 0x68, 0x64) {
        ChunkKind::Header
    } else if tag_is(tag, 0x4D, 0x54, 0x72, 0x6B) {
        ChunkKind::Track
    } else if tag_is(tag, 0x4D, 0x48, 0x68, 0x64) {
        ChunkKind::Mh
    } else if tag_is(tag, 0x46, 0x4E, 0x52, 0x63) {
        ChunkKind::Mdb
    } else if tag_is(tag, 0x46, 0x4E, 0x52, 0x50) {
        ChunkKind::Record
    } else if tag_is(tag, 0x4D, 0x6E, 0x61, 0x6D) {
        ChunkKind::SongTitleData
    } else if tag_is(tag, 0x47, 0x6E, 0x61, 0x6D) {
        ChunkKind::GenreTitleData
    } else if tag_is(tag, 0x4B, 0x77, 0x64, 0x31) {
        ChunkKind::Keyword1
    } else if tag_is(tag, 0x4B, 0x77, 0x64, 0x32) {
        ChunkKind::Keyword2
    } else if tag_is(tag, 0x43, 0x41, 0x53, 0x4D) {
        ChunkKind::Casm
    } else if tag_is(tag, 0x43, 0x53, 0x45, 0x47) {
        ChunkKind::Cseg
    } else if tag_is(tag, 0x53, 0x64, 0x65, 0x63) {
        ChunkKind::Sdec
    } else if tag_is(tag, 0x43, 0x74, 0x61, 0x62) {
        ChunkKind::Ctab1
    } else if tag_is(tag, 0x43, 0x74, 0x62, 0x32) {
        ChunkKind::Ctab2
    } else if tag_is(tag, 0x43, 0x6E, 0x74, 0x74) {
        ChunkKind::Cntt
    } else if tag_is(tag, 0x4F, 0x54, 0x53, 0x63) {
        ChunkKind::Ots
    } else {
        ChunkKind::Unknown
    }
}

/// A chunk: its tag and its payload. The payload is a part of the buffer
/// that the chunk was read from; nothing is copied.
#[derive(Clone, Copy, Debug, PartialEq, Eq)]
pub struct Chunk<'a> {
    pub tag: [u8; 4],
    pub payload: &'a [u8],
}

/// A chunk as plain values.
pub struct ChunkView {
    pub tag: Seq<u8>,
    pub payload: Seq<u8>,
}

impl ChunkView {
    pub open spec fn kind(self) -> ChunkKind {
        kind_of_tag(self.tag)
    }
}

impl<'a> View for Chunk<'a> {
    type V = ChunkView;

    open spec fn view(&self) -> ChunkView {
        ChunkView { tag: self.tag@, payload: self.payload@ }
    }
}

impl<'a> Chunk<'a> {
    fn tagged(&self, a: u8, b: u8, c: u8, d: u8) -> (r: bool)
        ensures
            r == tag_is(self.tag@, a, b, c, d),
    {
        self.tag[0] == a && self.tag[1] == b && self.tag[2] == c && self.tag[3] == d
    }

    /// The kind of this chunk.
    pub fn kind(&self) -> (k: ChunkKind)
        ensures
            k == self@.kind(),
    {
        if self.tagged(0x4D, 0x54, 0x68, 0x64) {
            ChunkKind::Header
        } else if self.tagged(0x4D, 0x54, 0x72, 0x6B) {
            ChunkKind::Track
        } else if self.tagged(0x4D, 0x48, 0x68, 0x64) {
            ChunkKind::Mh
        } else if self.tagged(0x46, 0x4E, 0x52, 0x63) {
            ChunkKind::Mdb
        } else if self.tagged(0x46, 0x4E, 0x52, 0x50) {
            ChunkKind::Record
        } else if self.tagged(0x4D, 0x6E, 0x61, 0x6D) {
            ChunkKind::SongTitleData
        } else if self.tagged(0x47, 0x6E, 0x61, 0x6D) {
            ChunkKind::GenreTitleData
        } else if self.tagged(0x4B, 0x77, 0x64, 0x31) {
            ChunkKind::Keyword1
        } else if self.tagged(0x4B, 0x77, 0x64, 0x32) {
            ChunkKind::Keyword2
        } else if self.tagged(0x43, 0x41, 0x53, 0x4D) {
            ChunkKind::Casm
        } else if self.tagged(0x43, 0x53, 0x45, 0x47) {
            ChunkKind::Cseg
        } else if self.tagged(0x53, 0x64, 0x65, 0x63) {
            ChunkKind::Sdec
        } else if self.tagged(0x43, 0x74, 0x61, 0x62) {
            ChunkKind::Ctab1
        } else if self.tagged(0x43, 0x74, 0x62, 0x32) {
            ChunkKind::Ctab2
        } else if self.tagged(0x43, 0x6E, 0x74, 0x74) {
            ChunkKind::Cntt
        } else if self.tagged(0x4F, 0x54, 0x53, 0x63) {
            ChunkKind::Ots
        } else {
            ChunkKind::Unknown
        }
    }
}

/// The number that four bytes spell, most significant byte first.
pub open spec fn be_u32(b: Seq<u8>) -> nat
    recommends
        b.len() == 4,
{
    (b[0] as nat) * 0x100_0000 + (b[1] as nat) * 0x1_0000 + (b[2] as nat) * 0x100 + (b[3] as nat)
}

/// The payload length that the header at the start of `s` declares.
pub open spec fn declared_len(s: Seq<u8>) -> nat
    recommends
        s.len() >= HEADER_LEN,
{
    be_u32(s.subrange(4, 8))
}

/// What a tokenizer over `s` yields first: nothing at the end of the
/// buffer, an error where the header or the payload is cut short, else the
/// chunk at the start of `s`.
pub open spec fn first_chunk(s: Seq<u8>) -> Option<Result<ChunkView, DecodeError>> {
    if s.len() == 0 {
        None
    } else if s.len() < HEADER_LEN {
        Some(Err(DecodeError::bare(Cause::TruncatedHeader)))
    } else if declared_len(s) > s.len() - HEADER_LEN {
        Some(Err(DecodeError::bare(Cause::MalformedLength)))
    } else {
        Some(
            Ok(
                ChunkView {
                    tag: s.subrange(0, 4),
                    payload: s.subrange(HEADER_LEN as int, HEADER_LEN + declared_len(s)),
                },
            ),
        )
    }
}

/// What is left for the tokenizer once it has yielded `first_chunk(s)`:
/// the bytes behind the chunk, or nothing after an error.
pub open spec fn after_first_chunk(s: Seq<u8>) -> Seq<u8> {
    if first_chunk(s) matches Some(Ok(_)) {
        s.skip(HEADER_LEN + declared_len(s))
    } else {
        Seq::empty()
    }
}

/// All that a tokenizer over `s` yields, in order.
pub open spec fn chunks(s: Seq<u8>) -> Seq<Result<ChunkView, DecodeError>>
    decreases s.len(),
{
    match first_chunk(s) {
        None => Seq::empty(),
        Some(item) => seq![item] + chunks(after_first_chunk(s)),
    }
}

/// The error that the chunks of `s` end in, if they end in one.
pub open spec fn chunk_error(s: Seq<u8>) -> Option<DecodeError>
    decreases s.len(),
{
    match first_chunk(s) {
        None => None,
        Some(Err(e)) => Some(e),
        Some(Ok(_)) => chunk_error(after_first_chunk(s)),
    }
}

/// An item of a tokenizer as plain values.
pub open spec fn item_view(item: Option<Result<Chunk, DecodeError>>) -> Option<
    Result<ChunkView, DecodeError>,
> {
    match item {
        None => None,
        Some(Err(e)) => Some(Err(e)),
        Some(Ok(c)) => Some(Ok(c@)),
    }
}

/// A tokenizer: yields the chunks of a buffer one by one. It can be copied
/// before use to walk the same chunks more than once.
#[derive(Clone, Copy, Debug)]
pub struct ChunkIter<'a> {
    raw: &'a [u8],
}

impl<'a> View for ChunkIter<'a> {
    type V = Seq<u8>;

    /// The bytes that are still to be tokenized.
    closed spec fn view(&self) -> Seq<u8> {
        self.raw@
    }
}

impl<'a> ChunkIter<'a> {
    /// A tokenizer over the whole of `raw`.
    pub fn new(raw: &'a [u8]) -> (it: ChunkIter<'a>)
        ensures
            it@ == raw@,
    {
        ChunkIter { raw }
    }

    /// The bytes that are still to be tokenized.
    pub fn remaining(&self) -> (raw: &'a [u8])
        ensures
            raw@ == self@,
    {
        self.raw
    }

    /// Drops the bytes that are left: the tokenizer yields nothing further.
    pub fn finish(&mut self)
        ensures
            final(self)@ == Seq::<u8>::empty(),
    {
        self.raw = slice_subrange(self.raw, 0, 0);
        assert(self.raw@ =~= Seq::<u8>::empty());
    }

    /// Yields the next chunk, `None` at the end of the buffer.
    ///
    /// Where fewer bytes than a header are left, or the header declares more
    /// payload than is left, the item is an error, and it is the last item.
    pub fn next(&mut self) -> (item: Option<Result<Chunk<'a>, DecodeError>>)
        ensures
            item_view(item) == first_chunk(old(self)@),
            final(self)@ == after_first_chunk(old(self)@),
            chunks(old(self)@) == match item_view(item) {
                None => Seq::empty(),
                Some(first) => seq![first] + chunks(final(self)@),
            },
    {
        let raw: &'a [u8] = self.raw;
        self.finish();
        if raw.len() == 0 {
            return None;
        }
        if raw.len() < HEADER_LEN {
            return Some(Err(DecodeError::new(Cause::TruncatedHeader)));
        }
        let len: u32 = read_be_u32(raw, 4);
        if len as usize > raw.len() - HEADER_LEN {
            return Some(Err(DecodeError::new(Cause::MalformedLength)));
        }
        let end: usize = HEADER_LEN + len as usize;
        let tag: [u8; 4] = [raw[0], raw[1], raw[2], raw[3]];
        let payload: &'a [u8] = slice_subrange(raw, HEADER_LEN, end);
        self.raw = slice_subrange(raw, end, raw.len());
        assert(tag@ =~= raw@.subrange(0, 4));
        Some(Ok(Chunk { tag, payload }))
    }
}

/// Reads the big-endian number in the four bytes of `raw` from `at` on.
fn read_be_u32(raw: &[u8], at: usize) -> (n: u32)
    requires
        at + 4 <= raw@.len(),
    ensures
        n == be_u32(raw@.subrange(at as int, at + 4)),
{
    let a: u8 = raw[at];
    let b: u8 = raw[at + 1];
    let c: u8 = raw[at + 2];
    let d: u8 = raw[at + 3];
    assert(((a as u32) << 24) | ((b as u32) << 16) | ((c as u32) << 8) | (d as u32) == (a as u32)
        * 0x100_0000 + (b as u32) * 0x1_0000 + (c as u32) * 0x100 + (d as u32)) by (bit_vector);
    ((a as u32) << 24) | ((b as u32) << 16) | ((c as u32) << 8) | (d as u32)
}

/// The payload of the first chunk of kind `kind` among the chunks of `s`.
///
/// Chunks of other kinds are passed over, and so is everything behind the
/// first match. `Ok(None)`: the chunks end without a match. `Err`: the
/// tokenizer fails before it reaches a match.
pub open spec fn first_section(s: Seq<u8>, kind: ChunkKind) -> Result<Option<Seq<u8>>, Cause>
    decreases s.len(),
{
    match first_chunk(s) {
        None => Ok(None),
        Some(Err(e)) => Err(e.cause),
        Some(Ok(c)) => if c.kind() == kind {
            Ok(Some(c.payload))
        } else {
            first_section(after_first_chunk(s), kind)
        },
    }
}

/// What the search for the section `section`, whose chunk is of kind
/// `kind`, gives: the payload of the first such chunk; nothing where there
/// is none; where the tokenizer fails before it reaches one, its error,
/// marked as belonging to `section`.
pub open spec fn section_of(s: Seq<u8>, kind: ChunkKind, section: Section) -> Result<
    Option<Seq<u8>>,
    DecodeError,
> {
    match first_section(s, kind) {
        Ok(found) => Ok(found),
        Err(cause) => Err(DecodeError::bare(cause).within(section)),
    }
}

/// Finds the first chunk of kind `kind` and returns its payload; `section`
/// names the search in the error.
pub fn find_section<'a>(chunk_iter: ChunkIter<'a>, kind: ChunkKind, section: Section) -> (found:
    Result<Option<&'a [u8]>, DecodeError>)
    ensures
        match section_of(chunk_iter@, kind, section) {
            Ok(None) => found matches Ok(None),
            Ok(Some(payload)) => found matches Ok(Some(p)) && p@ == payload,
            Err(e) => found matches Err(x) && x == e,
        },
{
    let mut it = chunk_iter;
    loop
        invariant
            first_section(it@, kind) == first_section(chunk_iter@, kind),
        decreases it@.len(),
    {
        match it.next() {
            None => {
                return Ok(None);
            },
            Some(Err(e)) => {
                return Err(e.context(section));
            },
            Some(Ok(c)) => {
                if c.kind() == kind {
                    return Ok(Some(c.payload));
                }
            },
        }
    }
}

/// A chunk that is cut short fails with a truncation error: where bytes
/// are left but fewer than a header takes, and where the header declares
/// more payload than is left behind it. No policy has a say in this.
pub proof fn lemma_cut_chunk_is_truncation(s: Seq<u8>, kind: ChunkKind, section: Section)
    requires
        0 < s.len() < HEADER_LEN || (s.len() >= HEADER_LEN && s.len() < HEADER_LEN
            + declared_len(s)),
    ensures
        first_chunk(s) matches Some(Err(e)) && e.cause.is_truncation() && e.section is None,
        s.len() >= HEADER_LEN ==> first_chunk(s) == Some(
            Err::<ChunkView, DecodeError>(DecodeError::bare(Cause::MalformedLength)),
        ),
        after_first_chunk(s) == Seq::<u8>::empty(),
        section_of(s, kind, section) matches Err(e) && e.cause.is_truncation() && e.section
            == Some(section),
{
}

/// Only the first chunk of a kind is found: whatever bytes `tail` are put
/// behind a buffer in which the search succeeds, the search gives the same.
pub proof fn lemma_first_match_wins(head: Seq<u8>, tail: Seq<u8>, kind: ChunkKind)
    requires
        first_section(head, kind) matches Ok(Some(_)),
    ensures
        first_section(head + tail, kind) == first_section(head, kind),
    decreases head.len(),
{
    let whole = head + tail;
    let chunk = first_chunk(head).unwrap().unwrap();
    assert(whole.subrange(4, 8) =~= head.subrange(4, 8));
    assert(whole.subrange(0, 4) =~= head.subrange(0, 4));
    let end = HEADER_LEN + declared_len(head);
    assert(whole.subrange(HEADER_LEN as int, end) =~= head.subrange(HEADER_LEN as int, end));
    assert(first_chunk(whole) == Some(Ok::<ChunkView, DecodeError>(chunk)));
    if chunk.kind() != kind {
        assert(after_first_chunk(whole) =~= after_first_chunk(head) + tail);
        lemma_first_match_wins(after_first_chunk(head), tail, kind);
    }
}

/// A tokenizer yields finitely many items, and an error only as the last
/// of them: the chunks of `s` end in the error `chunk_error(s)`, or in no
/// error where there is none.
pub proof fn lemma_error_is_last(s: Seq<u8>)
    ensures
        chunks(s).len() * HEADER_LEN <= s.len() + HEADER_LEN,
        forall|i: int| 0 <= i < chunks(s).len() - 1 ==> (#[trigger] chunks(s)[i]) is Ok,
        match chunk_error(s) {
            Some(e) => chunks(s).len() > 0 && chunks(s).last() == Err::<ChunkView, DecodeError>(e),
            None => forall|i: int| 0 <= i < chunks(s).len() ==> (#[trigger] chunks(s)[i]) is Ok,
        },
    decreases s.len(),
{
    match first_chunk(s) {
        None => {},
        Some(item) => {
            let rest = after_first_chunk(s);
            lemma_error_is_last(rest);
            assert forall|i: int| 0 < i < chunks(s).len() implies chunks(s)[i] == chunks(rest)[i
                - 1] by {}
            if item is Err {
                assert(chunks(rest).len() == 0);
            }
        },
    }
}

/// No item of `items` before place `n` is a chunk of kind `kind`, and none
/// is an error.
pub open spec fn none_before(
    items: Seq<Result<ChunkView, DecodeError>>,
    n: int,
    kind: ChunkKind,
) -> bool {
    forall|j: int| 0 <= j < n ==> ((#[trigger] items[j]) matches Ok(c) && c.kind() != kind)
}

/// The search for a section, told by the items of the tokenizer: it finds
/// the first chunk of the kind, it finds nothing where all items are chunks
/// of other kinds, and it fails where an error comes before any chunk of
/// the kind.
pub proof fn lemma_section_is_first_of_kind(s: Seq<u8>, kind: ChunkKind) -> (at: int)
    ensures
        0 <= at <= chunks(s).len(),
        none_before(chunks(s), at, kind),
        match first_section(s, kind) {
            Ok(Some(payload)) => at < chunks(s).len() && (chunks(s)[at] matches Ok(c) && c.kind()
                == kind && c.payload == payload),
            Ok(None) => at == chunks(s).len(),
            Err(cause) => at == chunks(s).len() - 1 && (chunks(s)[at] matches Err(e) && e.cause
                == cause),
        },
    decreases s.len(),
{
    match first_chunk(s) {
        None => 0,
        Some(Err(_)) => {
            assert(chunks(after_first_chunk(s)).len() == 0);
            0
        },
        Some(Ok(chunk)) => {
            if chunk.kind() == kind {
                0
            } else {
                let rest = after_first_chunk(s);
                let at = lemma_section_is_first_of_kind(rest, kind);
                assert forall|j: int| 0 < j < chunks(s).len() implies chunks(s)[j] == chunks(
                    rest,
                )[j - 1] by {}
                assert forall|j: int| 0 <= j < at + 1 implies ((#[trigger] chunks(s)[j]) matches Ok(
                    c,
                ) && c.kind() != kind) by {
                    if j > 0 {
                        assert(chunks(s)[j] == chunks(rest)[j - 1]);
                    }
                }
                at + 1
            }
        },
    }
}

} // verus!

//! The CASM section: the CSEG chunks, and in each of them the style parts
//! that it is for and the channel tables of these parts.

use vstd::prelude::*;
use vstd::std_specs::convert::{FromSpecImpl, TryFromSpecImpl};
use vstd::slice::slice_subrange;
use vstd::string::{is_ascii_spec_bytes, StringSliceAdditionalSpecFns};
use crate::chunk::{
    after_first_chunk, find_section, first_chunk, section_of, Chunk, ChunkIter, ChunkKind,
    ChunkView,
};
use crate::ctab::{lemma_ctab_lenient, read_ctab, Ctab, CtabView, Version};
use crate::error::{Cause, DecodeError, Policy, Section};

verus! {

/// The parts of a style. `FillInBA` is the break.
#[derive(Clone, Copy, Debug, PartialEq, Eq, Structural)]
pub enum StylePart {
    IntroA,
    IntroB,
    IntroC,
    IntroD,
    MainA,
    MainB,
    MainC,
    MainD,
    FillInAA,
    FillInBB,
    FillInCC,
    FillInDD,
    FillInBA,
    EndingA,
    EndingB,
    EndingC,
    EndingD,
}

impl StylePart {
    /// The name of this part in a style file.
    pub open spec fn name(self) -> &'static str {
        match self {
            StylePart::IntroA => "Intro A",
            StylePart::IntroB => "Intro B",
            StylePart::IntroC => "Intro C",
            StylePart::IntroD => "Intro D",
            StylePart::MainA => "Main A",
            StylePart::MainB => "Main B",
            StylePart::MainC => "Main C",
            StylePart::MainD => "Main D",
            StylePart::FillInAA => "Fill In AA",
            StylePart::FillInBB => "Fill In BB",
            StylePart::FillInCC => "Fill In CC",
            StylePart::FillInDD => "Fill In DD",
            StylePart::FillInBA => "Fill In BA",
            StylePart::EndingA => "Ending A",
            StylePart::EndingB => "Ending B",
            StylePart::EndingC => "Ending C",
            StylePart::EndingD => "Ending D",
        }
    }

    /// The part whose name is spelled by `token`, if there is one. Upper and
    /// lower case are told apart, and nothing is trimmed.
    pub open spec fn named(token: Seq<u8>) -> Option<StylePart> {
        if token == "Intro A".spec_bytes() {
            Some(StylePart::IntroA)
        } else if token == "Intro B".spec_bytes() {
            Some(StylePart::IntroB)
        } else if token == "Intro C".spec_bytes() {
            Some(StylePart::IntroC)
        } else if token == "Intro D".spec_bytes() {
            Some(StylePart::IntroD)
        } else if token == "Main A".spec_bytes() {
            Some(StylePart::MainA)
        } else if token == "Main B".spec_bytes() {
            Some(StylePart::MainB)
        } else if token == "Main C".spec_bytes() {
            Some(StylePart::MainC)
        } else if token == "Main D".spec_bytes() {
            Some(StylePart::MainD)
        } else if token == "Fill In AA".spec_bytes() {
            Some(StylePart::FillInAA)
        } else if token == "Fill In BB".spec_bytes() {
            Some(StylePart::FillInBB)
        } else if token == "Fill In CC".spec_bytes() {
            Some(StylePart::FillInCC)
        } else if token == "Fill In DD".spec_bytes() {
            Some(StylePart::FillInDD)
        } else if token == "Fill In BA".spec_bytes() {
            Some(StylePart::FillInBA)
        } else if token == "Ending A".spec_bytes() {
            Some(StylePart::EndingA)
        } else if token == "Ending B".spec_bytes() {
            Some(StylePart::EndingB)
        } else if token == "Ending C".spec_bytes() {
            Some(StylePart::EndingC)
        } else if token == "Ending D".spec_bytes() {
            Some(StylePart::EndingD)
        } else {
            None
        }
    }

    /// What decoding `token` gives: the part of that name, or an error.
    pub open spec fn decoded(token: Seq<u8>) -> Result<StylePart, DecodeError> {
        match StylePart::named(token) {
            Some(part) => Ok(part),
            None => Err(DecodeError::bare(Cause::UnknownStylePart)),
        }
    }
}

/// Whether two slices hold the same bytes.
fn same_bytes(a: &[u8], b: &[u8]) -> (same: bool)
    ensures
        same == (a@ == b@),
{
    if a.len() != b.len() {
        return false;
    }
    let mut i: usize = 0;
    while i < a.len()
        invariant
            i <= a@.len(),
            a@.len() == b@.len(),
            forall|j: int| 0 <= j < i ==> a@[j] == b@[j],
        decreases a@.len() - i,
    {
        if a[i] != b[i] {
            return false;
        }
        i += 1;
    }
    assert(a@ =~= b@);
    true
}

impl<'a> TryFromSpecImpl<&'a [u8]> for StylePart {
    open spec fn obeys_try_from_spec() -> bool {
        true
    }

    open spec fn try_from_spec(value: &'a [u8]) -> Result<StylePart, DecodeError> {
        StylePart::decoded(value@)
    }
}

impl<'a> TryFrom<&'a [u8]> for StylePart {
    type Error = DecodeError;

    /// Decodes a style part from the bytes of its name.
    fn try_from(value: &'a [u8]) -> (part: Result<StylePart, DecodeError>)
        ensures
            part == StylePart::decoded(value@),
    {
        if same_bytes(value, "Intro A".as_bytes()) {
            Ok(StylePart::IntroA)
        } else if same_bytes(value, "Intro B".as_bytes()) {
            Ok(StylePart::IntroB)
        } else if same_bytes(value, "Intro C".as_bytes()) {
            Ok(StylePart::IntroC)
        } else if same_bytes(value, "Intro D".as_bytes()) {
            Ok(StylePart::IntroD)
        } else if same_bytes(value, "Main A".as_bytes()) {
            Ok(StylePart::MainA)
        } else if same_bytes(value, "Main B".as_bytes()) {
            Ok(StylePart::MainB)
        } else if same_bytes(value, "Main C".as_bytes()) {
            Ok(StylePart::MainC)
        } else if same_bytes(value, "Main D".as_bytes()) {
            Ok(StylePart::MainD)
        } else if same_bytes(value, "Fill In AA".as_bytes()) {
            Ok(StylePart::FillInAA)
        } else if same_bytes(value, "Fill In BB".as_bytes()) {
            Ok(StylePart::FillInBB)
        } else if same_bytes(value, "Fill In CC".as_bytes()) {
            Ok(StylePart::FillInCC)
        } else if same_bytes(value, "Fill In DD".as_bytes()) {
            Ok(StylePart::FillInDD)
        } else if same_bytes(value, "Fill In BA".as_bytes()) {
            Ok(StylePart::FillInBA)
        } else if same_bytes(value, "Ending A".as_bytes()) {
            Ok(StylePart::EndingA)
        } else if same_bytes(value, "Ending B".as_bytes()) {
            Ok(StylePart::EndingB)
        } else if same_bytes(value, "Ending C".as_bytes()) {
            Ok(StylePart::EndingC)
        } else if same_bytes(value, "Ending D".as_bytes()) {
            Ok(StylePart::EndingD)
        } else {
            Err(DecodeError::new(Cause::UnknownStylePart))
        }
    }
}

impl<'a> TryFromSpecImpl<&'a str> for StylePart {
    open spec fn obeys_try_from_spec() -> bool {
        true
    }

    open spec fn try_from_spec(value: &'a str) -> Result<StylePart, DecodeError> {
        StylePart::decoded(value.spec_bytes())
    }
}

impl<'a> TryFrom<&'a str> for StylePart {
    type Error = DecodeError;

    /// Decodes a style part from its name.
    fn try_from(value: &'a str) -> (part: Result<StylePart, DecodeError>)
        ensures
            part == StylePart::decoded(value.spec_bytes()),
    {
        StylePart::try_from(value.as_bytes())
    }
}

impl<'a> FromSpecImpl<StylePart> for &'a str {
    open spec fn obeys_from_spec() -> bool {
        true
    }

    open spec fn from_spec(value: StylePart) -> &'a str {
        value.name()
    }
}

impl<'a> From<StylePart> for &'a str {
    /// The name of a style part.
    fn from(value: StylePart) -> (name: &'a str)
        ensures
            name == value.name(),
    {
        match value {
            StylePart::IntroA => "Intro A",
            StylePart::IntroB => "Intro B",
            StylePart::IntroC => "Intro C",
            StylePart::IntroD => "Intro D",
            StylePart::MainA => "Main A",
            StylePart::MainB => "Main B",
            StylePart::MainC => "Main C",
            StylePart::MainD => "Main D",
            StylePart::FillInAA => "Fill In AA",
            StylePart::FillInBB => "Fill In BB",
            StylePart::FillInCC => "Fill In CC",
            StylePart::FillInDD => "Fill In DD",
            StylePart::FillInBA => "Fill In BA",
            StylePart::EndingA => "Ending A",
            StylePart::EndingB => "Ending B",
            StylePart::EndingC => "Ending C",
            StylePart::EndingD => "Ending D",
        }
    }
}

impl<'a> FromSpecImpl<StylePart> for &'a [u8] {
    /// The bytes are stated by the `ensures` of `from`: a slice cannot be
    /// written down here.
    open spec fn obeys_from_spec() -> bool {
        false
    }

    open spec fn from_spec(value: StylePart) -> &'a [u8] {
        arbitrary()
    }
}

impl<'a> From<StylePart> for &'a [u8] {
    /// The bytes of the name of a style part.
    fn from(value: StylePart) -> (bytes: &'a [u8])
        ensures
            bytes@ == value.name().spec_bytes(),
    {
        let name: &'a str = <&'a str>::from(value);
        name.as_bytes()
    }
}

/// The byte between two names of a list of style parts: a comma.
pub const SEPARATOR: u8 = 0x2C;

/// The number of bytes of `text` before its first comma; the length of
/// `text` where it has no comma.
pub open spec fn token_len(text: Seq<u8>) -> nat
    decreases text.len(),
{
    if text.len() == 0 || text[0] == SEPARATOR {
        0
    } else {
        1 + token_len(text.drop_first())
    }
}

/// The pieces that the commas cut `text` into, in order. A text without a
/// comma is one piece, and so is the empty text.
pub open spec fn pieces(text: Seq<u8>) -> Seq<Seq<u8>>
    decreases text.len(),
{
    let n = token_len(text) as int;
    if n >= text.len() {
        seq![text.take(n)]
    } else {
        seq![text.take(n)] + pieces(text.skip(n + 1))
    }
}

/// Every piece of `all` is the name of a part.
pub open spec fn all_named(all: Seq<Seq<u8>>) -> bool {
    forall|i: int| 0 <= i < all.len() ==> StylePart::named(#[trigger] all[i]) is Some
}

/// What decoding a list of style parts gives: the parts that its pieces
/// name, piece by piece. A piece that names no part is an error, and so the
/// empty list is, and a list with two commas in a row or with a comma at
/// either end.
pub open spec fn decode_style_parts(text: Seq<u8>) -> Result<Seq<StylePart>, DecodeError> {
    let all = pieces(text);
    if all_named(all) {
        Ok(Seq::new(all.len(), |i: int| StylePart::named(all[i]).unwrap()))
    } else {
        Err(DecodeError::bare(Cause::UnknownStylePart))
    }
}

/// `token_len(text)` is `n` where the first comma of `text` is at `n`, or
/// where `text` has `n` bytes and no comma.
proof fn lemma_token_len(text: Seq<u8>, n: nat)
    requires
        n <= text.len(),
        forall|i: int| 0 <= i < n ==> text[i] != SEPARATOR,
        n == text.len() || text[n as int] == SEPARATOR,
    ensures
        token_len(text) == n,
    decreases n,
{
    if n > 0 {
        lemma_token_len(text.drop_first(), (n - 1) as nat);
    }
}

/// Decodes a list of style parts: names with a comma between them.
pub fn read_style_parts(text: &[u8]) -> (parts: Result<Vec<StylePart>, DecodeError>)
    ensures
        match parts {
            Ok(v) => decode_style_parts(text@) == Ok::<Seq<StylePart>, DecodeError>(v@),
            Err(e) => decode_style_parts(text@) == Err::<Seq<StylePart>, DecodeError>(e),
        },
{
    let mut parts: Vec<StylePart> = Vec::new();
    let mut start: usize = 0;
    let ghost mut done: Seq<Seq<u8>> = Seq::empty();
    assert(text@.skip(0) =~= text@);
    assert(done + pieces(text@) =~= pieces(text@));
    loop
        invariant
            start <= text@.len(),
            pieces(text@) == done + pieces(text@.skip(start as int)),
            parts@.len() == done.len(),
            forall|i: int|
                0 <= i < done.len() ==> StylePart::named(#[trigger] done[i]) == Some(parts@[i]),
        decreases text@.len() - start,
    {
        let mut end: usize = start;
        while end < text.len() && text[end] != SEPARATOR
            invariant
                start <= end <= text@.len(),
                forall|i: int| start <= i < end ==> text@[i] != SEPARATOR,
            decreases text@.len() - end,
        {
            end += 1;
        }
        let ghost rest = text@.skip(start as int);
        let ghost n = end - start;
        let ghost piece = text@.subrange(start as int, end as int);
        proof {
            lemma_token_len(rest, n as nat);
            assert(rest.take(n) =~= piece);
            assert(pieces(rest)[0] == piece);
            assert(pieces(text@)[done.len() as int] == piece);
        }
        let part = StylePart::try_from(slice_subrange(text, start, end))?;
        parts.push(part);
        proof {
            if end < text@.len() {
                assert(rest.skip(n + 1) =~= text@.skip(end + 1));
                assert(done + (seq![piece] + pieces(rest.skip(n + 1))) =~= done.push(piece)
                    + pieces(text@.skip(end + 1)));
            } else {
                assert(done + seq![piece] =~= done.push(piece));
            }
            done = done.push(piece);
        }
        if end == text.len() {
            assert(parts@ =~= decode_style_parts(text@).unwrap());
            return Ok(parts);
        }
        start = end + 1;
    }
}

/// The settings that some style parts share.
#[derive(Debug, PartialEq, Eq)]
pub struct Cseg<'a> {
    /// The style parts that the settings are for, in the order in which the
    /// chunk names them.
    pub style_parts: Vec<StylePart>,
    /// The channel tables, in the order of their chunks.
    pub ctab: Vec<Ctab<'a>>,
    /// The payloads of the content tables, in the order of their chunks.
    /// They are kept as they are.
    pub cntt: Vec<&'a [u8]>,
}

/// A CSEG as plain values.
#[verifier::ext_equal]
pub struct CsegView {
    pub style_parts: Seq<StylePart>,
    pub ctab: Seq<CtabView>,
    pub cntt: Seq<Seq<u8>>,
}

impl CsegView {
    /// A CSEG that names no part and holds no table.
    pub open spec fn empty() -> CsegView {
        CsegView { style_parts: Seq::empty(), ctab: Seq::empty(), cntt: Seq::empty() }
    }
}

impl<'a> View for Cseg<'a> {
    type V = CsegView;

    open spec fn view(&self) -> CsegView {
        CsegView {
            style_parts: self.style_parts@,
            ctab: self.ctab@.map_values(|ctab: Ctab<'a>| ctab@),
            cntt: self.cntt@.map_values(|bytes: &'a [u8]| bytes@),
        }
    }
}

/// What a CSEG becomes when the chunk `chunk` is read into it.
///
/// A list of style parts adds its parts, a channel table of either
/// generation adds itself, a content table adds its payload. A chunk of any
/// other kind is an error, and so is a chunk that does not decode.
pub open spec fn cseg_with(cseg: CsegView, chunk: ChunkView, policy: Policy) -> Result<
    CsegView,
    DecodeError,
> {
    match chunk.kind() {
        ChunkKind::Sdec => match decode_style_parts(chunk.payload) {
            Err(e) => Err(e),
            Ok(parts) => Ok(CsegView { style_parts: cseg.style_parts + parts, ..cseg }),
        },
        ChunkKind::Ctab1 | ChunkKind::Ctab2 => match read_ctab(chunk, policy) {
            Err(e) => Err(e),
            Ok(ctab) => Ok(CsegView { ctab: cseg.ctab.push(ctab), ..cseg }),
        },
        ChunkKind::Cntt => Ok(CsegView { cntt: cseg.cntt.push(chunk.payload), ..cseg }),
        _ => Err(DecodeError::bare(Cause::UnexpectedChunk)),
    }
}

/// What `cseg` becomes when the chunks of `s` are read into it one after
/// the other. The first chunk that fails, in the tokenizer or in its
/// decoder, gives the error.
pub open spec fn cseg_with_all(cseg: CsegView, s: Seq<u8>, policy: Policy) -> Result<
    CsegView,
    DecodeError,
>
    decreases s.len(),
{
    match first_chunk(s) {
        None => Ok(cseg),
        Some(Err(e)) => Err(e),
        Some(Ok(chunk)) => match cseg_with(cseg, chunk, policy) {
            Err(e) => Err(e),
            Ok(next) => cseg_with_all(next, after_first_chunk(s), policy),
        },
    }
}

/// What decoding the payload of a CSEG chunk gives.
pub open spec fn decode_cseg(payload: Seq<u8>, policy: Policy) -> Result<CsegView, DecodeError> {
    cseg_with_all(CsegView::empty(), payload, policy)
}

/// What reading a CSEG from a chunk gives. A chunk of any other kind is an
/// error.
pub open spec fn read_cseg(chunk: ChunkView, policy: Policy) -> Result<CsegView, DecodeError> {
    if chunk.kind() == ChunkKind::Cseg {
        decode_cseg(chunk.payload, policy)
    } else {
        Err(DecodeError::bare(Cause::UnexpectedChunk))
    }
}

/// The outcome of a decoder of CSEGs as plain values.
pub open spec fn cseg_result_view(r: Result<Cseg, DecodeError>) -> Result<CsegView, DecodeError> {
    match r {
        Ok(cseg) => Ok(cseg@),
        Err(e) => Err(e),
    }
}

impl<'a> Cseg<'a> {
    /// Decodes the CSEG that `chunk` holds.
    pub fn read(chunk: Chunk<'a>, policy: Policy) -> (cseg: Result<Cseg<'a>, DecodeError>)
        ensures
            cseg_result_view(cseg) == read_cseg(chunk@, policy),
    {
        if chunk.kind() != ChunkKind::Cseg {
            return Err(DecodeError::new(Cause::UnexpectedChunk));
        }
        let mut chunk_iter = ChunkIter::new(chunk.payload);
        let mut cseg = Cseg { style_parts: Vec::new(), ctab: Vec::new(), cntt: Vec::new() };
        assert(cseg@ =~= CsegView::empty());
        loop
            invariant
                chunk@.kind() == ChunkKind::Cseg,
                cseg_with_all(cseg@, chunk_iter@, policy) == decode_cseg(chunk.payload@, policy),
            decreases chunk_iter@.len(),
        {
            let ghost before = cseg@;
            let c = match chunk_iter.next() {
                None => {
                    return Ok(cseg);
                },
                Some(Err(e)) => {
                    return Err(e);
                },
                Some(Ok(c)) => c,
            };
            match c.kind() {
                ChunkKind::Sdec => {
                    let mut parts = read_style_parts(c.payload)?;
                    cseg.style_parts.append(&mut parts);
                },
                ChunkKind::Ctab1 | ChunkKind::Ctab2 => {
                    let ctab = Ctab::read(c, policy)?;
                    cseg.ctab.push(ctab);
                },
                ChunkKind::Cntt => {
                    cseg.cntt.push(c.payload);
                },
                _ => {
                    return Err(DecodeError::new(Cause::UnexpectedChunk));
                },
            }
            assert(cseg_with(before, c@, policy) matches Ok(next) && next =~= cseg@);
        }
    }
}

/// What a walk over the CSEG chunks in `s` yields first.
///
/// Nothing at the end of the chunks. Where the first chunk is itself cut
/// short, the error of the tokenizer, under either policy. Else the first
/// chunk is read as a CSEG, and where that fails, for whatever cause, the
/// strict policy yields the error and the lenient one yields nothing. Any
/// failure ends the walk.
pub open spec fn next_cseg(s: Seq<u8>, policy: Policy) -> Option<Result<CsegView, DecodeError>> {
    match first_chunk(s) {
        None => None,
        Some(Err(e)) => Some(Err(e.within(Section::Cseg))),
        Some(Ok(chunk)) => match read_cseg(chunk, policy) {
            Ok(cseg) => Some(Ok(cseg)),
            Err(e) => if policy.is_strict() {
                Some(Err(e.within(Section::Cseg)))
            } else {
                None
            },
        },
    }
}

/// What is left for the walk once it has yielded `next_cseg(s, policy)`:
/// the bytes behind the CSEG, or nothing after a failure.
pub open spec fn after_next_cseg(s: Seq<u8>, policy: Policy) -> Seq<u8> {
    if next_cseg(s, policy) matches Some(Ok(_)) {
        after_first_chunk(s)
    } else {
        Seq::empty()
    }
}

/// An item of a walk over CSEGs as plain values.
pub open spec fn cseg_item_view(item: Option<Result<Cseg, DecodeError>>) -> Option<
    Result<CsegView, DecodeError>,
> {
    match item {
        None => None,
        Some(r) => Some(cseg_result_view(r)),
    }
}

/// A walk over the CSEG chunks of a CASM section.
#[derive(Clone, Copy, Debug)]
pub struct CsegIter<'a> {
    /// The chunks that are still to be read.
    pub inner: ChunkIter<'a>,
    /// The policy of the walk.
    pub policy: Policy,
}

impl<'a> CsegIter<'a> {
    /// Yields the next CSEG, `None` when there is none left.
    pub fn next(&mut self) -> (item: Option<Result<Cseg<'a>, DecodeError>>)
        ensures
            cseg_item_view(item) == next_cseg(old(self).inner@, old(self).policy),
            final(self).inner@ == after_next_cseg(old(self).inner@, old(self).policy),
            final(self).policy == old(self).policy,
    {
        let mut rest = self.inner;
        let found = rest.next();
        self.inner.finish();
        match found {
            None => None,
            // The walk's own chunk is cut short: no policy recovers from it.
            Some(Err(e)) => Some(Err(e.context(Section::Cseg))),
            Some(Ok(chunk)) => match Cseg::read(chunk, self.policy) {
                Ok(cseg) => {
                    self.inner = rest;
                    Some(Ok(cseg))
                },
                Err(e) => match self.policy {
                    Policy::Strict => Some(Err(e.context(Section::Cseg))),
                    Policy::Lenient => None,
                },
            },
        }
    }
}

/// The CASM section.
#[derive(Clone, Copy, Debug)]
pub struct Casm<'a>(pub CsegIter<'a>);

impl<'a> Casm<'a> {
    /// Finds the first CASM section among the chunks of `chunk_iter`. Any
    /// further one is passed over.
    pub fn parse(chunk_iter: ChunkIter<'a>, policy: Policy) -> (casm: Result<
        Option<Casm<'a>>,
        DecodeError,
    >)
        ensures
            match section_of(chunk_iter@, ChunkKind::Casm, Section::Casm) {
                Ok(None) => casm matches Ok(None),
                Ok(Some(payload)) => casm matches Ok(Some(c)) && c.0.inner@ == payload
                    && c.0.policy == policy,
                Err(e) => casm matches Err(x) && x == e,
            },
    {
        match find_section(chunk_iter, ChunkKind::Casm, Section::Casm)? {
            Some(data) => Ok(Some(Casm(CsegIter { inner: ChunkIter::new(data), policy }))),
            None => Ok(None),
        }
    }
}

/// A chunk of the walk that is cut short is an error under either policy.
pub proof fn lemma_cseg_truncation_is_error(s: Seq<u8>, policy: Policy)
    requires
        first_chunk(s) matches Some(Err(_)),
    ensures
        next_cseg(s, policy) matches Some(Err(e)) && e.cause.is_truncation() && e.section == Some(
            Section::Cseg,
        ),
        after_next_cseg(s, policy) == Seq::<u8>::empty(),
{
}

/// What the policies make of a chunk that is whole but does not decode as a
/// CSEG, be it for a chunk inside it that is cut short: the strict one
/// yields the error, the lenient one ends the walk in silence. Neither
/// yields a CSEG.
pub proof fn lemma_cseg_failure_by_policy(s: Seq<u8>, policy: Policy)
    requires
        first_chunk(s) matches Some(Ok(chunk)) && read_cseg(chunk, policy) is Err,
    ensures
        policy.is_strict() ==> next_cseg(s, policy) == Some(
            Err::<CsegView, DecodeError>(
                read_cseg(first_chunk(s)->0->Ok_0, policy)->Err_0.within(Section::Cseg),
            ),
        ),
        !policy.is_strict() ==> next_cseg(s, policy) is None,
        after_next_cseg(s, policy) == Seq::<u8>::empty(),
{
}

/// The bytes of the name of each part are those of its letters, and no two
/// parts have the same name: decoding the name of a part gives the part.
pub proof fn lemma_name_round_trip(part: StylePart)
    ensures
        StylePart::named(part.name().spec_bytes()) == Some(part),
        StylePart::decoded(part.name().spec_bytes()) == Ok::<StylePart, DecodeError>(part),
        part.name().spec_bytes().len() == part.name()@.len(),
        forall|i: int|
            0 <= i < part.name()@.len() ==> #[trigger] part.name().spec_bytes()[i]
                == part.name()@[i] as u8 && part.name().spec_bytes()[i] != SEPARATOR,
{
    reveal_strlit("Intro A");
    is_ascii_spec_bytes("Intro A");
    assert("Intro A".spec_bytes().len() == 7 && "Intro A".spec_bytes()[6] == 0x41 && "Intro A".spec_bytes()[5] == 0x20);
    reveal_strlit("Intro B");
    is_ascii_spec_bytes("Intro B");
    assert("Intro B".spec_bytes().len() == 7 && "Intro B".spec_bytes()[6] == 0x42 && "Intro B".spec_bytes()[5] == 0x20);
    reveal_strlit("Intro C");
    is_ascii_spec_bytes("Intro C");
    assert("Intro C".spec_bytes().len() == 7 && "Intro C".spec_bytes()[6] == 0x43 && "Intro C".spec_bytes()[5] == 0x20);
    reveal_strlit("Intro D");
    is_ascii_spec_bytes("Intro D");
    assert("Intro D".spec_bytes().len() == 7 && "Intro D".spec_bytes()[6] == 0x44 && "Intro D".spec_bytes()[5] == 0x20);
    reveal_strlit("Main A");
    is_ascii_spec_bytes("Main A");
    assert("Main A".spec_bytes().len() == 6 && "Main A".spec_bytes()[5] == 0x41 && "Main A".spec_bytes()[4] == 0x20);
    reveal_strlit("Main B");
    is_ascii_spec_bytes("Main B");
    assert("Main B".spec_bytes().len() == 6 && "Main B".spec_bytes()[5] == 0x42 && "Main B".spec_bytes()[4] == 0x20);
    reveal_strlit("Main C");
    is_ascii_spec_bytes("Main C");
    assert("Main C".spec_bytes().len() == 6 && "Main C".spec_bytes()[5] == 0x43 && "Main C".spec_bytes()[4] == 0x20);
    reveal_strlit("Main D");
    is_ascii_spec_bytes("Main D");
    assert("Main D".spec_bytes().len() == 6 && "Main D".spec_bytes()[5] == 0x44 && "Main D".spec_bytes()[4] == 0x20);
    reveal_strlit("Fill In AA");
    is_ascii_spec_bytes("Fill In AA");
    assert("Fill In AA".spec_bytes().len() == 10 && "Fill In AA".spec_bytes()[9] == 0x41 && "Fill In AA".spec_bytes()[8] == 0x41);
    reveal_strlit("Fill In BB");
    is_ascii_spec_bytes("Fill In BB");
    assert("Fill In BB".spec_bytes().len() == 10 && "Fill In BB".spec_bytes()[9] == 0x42 && "Fill In BB".spec_bytes()[8] == 0x42);
    reveal_strlit("Fill In CC");
    is_ascii_spec_bytes("Fill In CC");
    assert("Fill In CC".spec_bytes().len() == 10 && "Fill In CC".spec_bytes()[9] == 0x43 && "Fill In CC".spec_bytes()[8] == 0x43);
    reveal_strlit("Fill In DD");
    is_ascii_spec_bytes("Fill In DD");
    assert("Fill In DD".spec_bytes().len() == 10 && "Fill In DD".spec_bytes()[9] == 0x44 && "Fill In DD".spec_bytes()[8] == 0x44);
    reveal_strlit("Fill In BA");
    is_ascii_spec_bytes("Fill In BA");
    assert("Fill In BA".spec_bytes().len() == 10 && "Fill In BA".spec_bytes()[9] == 0x41 && "Fill In BA".spec_bytes()[8] == 0x42);
    reveal_strlit("Ending A");
    is_ascii_spec_bytes("Ending A");
    assert("Ending A".spec_bytes().len() == 8 && "Ending A".spec_bytes()[7] == 0x41 && "Ending A".spec_bytes()[6] == 0x20);
    reveal_strlit("Ending B");
    is_ascii_spec_bytes("Ending B");
    assert("Ending B".spec_bytes().len() == 8 && "Ending B".spec_bytes()[7] == 0x42 && "Ending B".spec_bytes()[6] == 0x20);
    reveal_strlit("Ending C");
    is_ascii_spec_bytes("Ending C");
    assert("Ending C".spec_bytes().len() == 8 && "Ending C".spec_bytes()[7] == 0x43 && "Ending C".spec_bytes()[6] == 0x20);
    reveal_strlit("Ending D");
    is_ascii_spec_bytes("Ending D");
    assert("Ending D".spec_bytes().len() == 8 && "Ending D".spec_bytes()[7] == 0x44 && "Ending D".spec_bytes()[6] == 0x20);
}

/// A piece that is no name fails the whole list.
pub proof fn lemma_unknown_name_fails(text: Seq<u8>, i: int)
    requires
        0 <= i < pieces(text).len(),
        StylePart::named(pieces(text)[i]) is None,
    ensures
        decode_style_parts(text) == Err::<Seq<StylePart>, DecodeError>(
            DecodeError::bare(Cause::UnknownStylePart),
        ),
{
}

/// The text that is made of `all` with a comma between every two pieces.
pub open spec fn joined(all: Seq<Seq<u8>>) -> Seq<u8>
    decreases all.len(),
{
    if all.len() == 0 {
        Seq::empty()
    } else if all.len() == 1 {
        all[0]
    } else {
        all[0] + seq![SEPARATOR] + joined(all.drop_first())
    }
}

/// The pieces of a text are what stands between its commas: there is at
/// least one piece, no piece holds a comma, and the pieces with commas
/// between them are the text.
pub proof fn lemma_pieces(text: Seq<u8>)
    ensures
        pieces(text).len() >= 1,
        forall|i: int, j: int|
            0 <= i < pieces(text).len() && 0 <= j < pieces(text)[i].len() ==> (
            #[trigger] pieces(text)[i][j]) != SEPARATOR,
        joined(pieces(text)) == text,
    decreases text.len(),
{
    let n = token_len(text) as int;
    lemma_token_len_bounds(text);
    let head = text.take(n);
    if n < text.len() {
        let rest = text.skip(n + 1);
        lemma_pieces(rest);
        let all = pieces(text);
        assert(all.drop_first() =~= pieces(rest));
        assert forall|i: int, j: int|
            0 <= i < all.len() && 0 <= j < all[i].len() implies (#[trigger] all[i][j])
            != SEPARATOR by {
            if i > 0 {
                assert(all[i] == pieces(rest)[i - 1]);
            }
        }
        assert(head + seq![SEPARATOR] + rest =~= text);
    } else {
        assert(head =~= text);
    }
}

/// The first `token_len(text)` bytes of `text` hold no comma, and the byte
/// behind them, if there is one, is a comma.
proof fn lemma_token_len_bounds(text: Seq<u8>)
    ensures
        token_len(text) <= text.len(),
        forall|i: int| 0 <= i < token_len(text) ==> text[i] != SEPARATOR,
        token_len(text) < text.len() ==> text[token_len(text) as int] == SEPARATOR,
    decreases text.len(),
{
    if text.len() > 0 && text[0] != SEPARATOR {
        let rest = text.drop_first();
        lemma_token_len_bounds(rest);
        assert forall|i: int| 0 <= i < token_len(text) implies text[i] != SEPARATOR by {
            if i > 0 {
                assert(text[i] == rest[i - 1]);
            }
        }
    }
}

/// Where the strict policy decodes a CSEG, the lenient one decodes the
/// same.
pub proof fn lemma_cseg_lenient(cseg: CsegView, s: Seq<u8>)
    requires
        cseg_with_all(cseg, s, Policy::Strict) is Ok,
    ensures
        cseg_with_all(cseg, s, Policy::Lenient) == cseg_with_all(cseg, s, Policy::Strict),
    decreases s.len(),
{
    if let Some(Ok(chunk)) = first_chunk(s) {
        match chunk.kind() {
            ChunkKind::Ctab1 => lemma_ctab_lenient(chunk.payload, Version::Ctab1),
            ChunkKind::Ctab2 => lemma_ctab_lenient(chunk.payload, Version::Ctab2),
            _ => {},
        }
        let next = cseg_with(cseg, chunk, Policy::Strict).unwrap();
        lemma_cseg_lenient(next, after_first_chunk(s));
    }
}

/// Where a walk under the strict policy yields a CSEG, the walk under the
/// lenient policy yields the same, and both go on from the same place.
pub proof fn lemma_walk_lenient(s: Seq<u8>)
    requires
        next_cseg(s, Policy::Strict) matches Some(Ok(_)),
    ensures
        next_cseg(s, Policy::Lenient) == next_cseg(s, Policy::Strict),
        after_next_cseg(s, Policy::Lenient) == after_next_cseg(s, Policy::Strict),
{
    let chunk = first_chunk(s).unwrap().unwrap();
    lemma_cseg_lenient(CsegView::empty(), chunk.payload);
}

} // verus!

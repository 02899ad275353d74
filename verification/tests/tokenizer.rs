use stylefile::{Casm, Cause, Chunk, ChunkIter, ChunkKind, DecodeError, Mdb, Mh, Ots, Policy, Section};

fn chunk(tag: &[u8; 4], payload: &[u8]) -> Vec<u8> {
    let mut out = tag.to_vec();
    out.extend_from_slice(&(payload.len() as u32).to_be_bytes());
    out.extend_from_slice(payload);
    out
}

#[test]
fn empty_buffer_yields_nothing() {
    let mut it = ChunkIter::new(&[]);
    assert!(it.next().is_none());
    assert!(it.next().is_none());
}

#[test]
fn chunks_come_in_order_with_borrowed_payloads() {
    let mut buf = chunk(b"MThd", &[0, 1, 0, 2, 0, 96]);
    buf.extend(chunk(b"CASM", &[]));
    buf.extend(chunk(b"zzzz", &[9]));
    let mut it = ChunkIter::new(&buf);

    let first = it.next().unwrap().unwrap();
    assert_eq!(first.tag, *b"MThd");
    assert_eq!(first.kind(), ChunkKind::Header);
    assert_eq!(first.payload, &[0, 1, 0, 2, 0, 96][..]);
    assert!(std::ptr::eq(first.payload.as_ptr(), buf[8..].as_ptr()));

    let second = it.next().unwrap().unwrap();
    assert_eq!(second.kind(), ChunkKind::Casm);
    assert!(second.payload.is_empty());

    let third = it.next().unwrap().unwrap();
    assert_eq!(third.tag, *b"zzzz");
    assert_eq!(third.kind(), ChunkKind::Unknown);
    assert_eq!(third.payload, &[9][..]);

    assert!(it.next().is_none());
}

#[test]
fn every_tag_has_its_kind() {
    let tags: [(&[u8; 4], ChunkKind); 16] = [
        (b"MThd", ChunkKind::Header),
        (b"MTrk", ChunkKind::Track),
        (b"MHhd", ChunkKind::Mh),
        (b"FNRc", ChunkKind::Mdb),
        (b"FNRP", ChunkKind::Record),
        (b"Mnam", ChunkKind::SongTitleData),
        (b"Gnam", ChunkKind::GenreTitleData),
        (b"Kwd1", ChunkKind::Keyword1),
        (b"Kwd2", ChunkKind::Keyword2),
        (b"CASM", ChunkKind::Casm),
        (b"CSEG", ChunkKind::Cseg),
        (b"Sdec", ChunkKind::Sdec),
        (b"Ctab", ChunkKind::Ctab1),
        (b"Ctb2", ChunkKind::Ctab2),
        (b"Cntt", ChunkKind::Cntt),
        (b"OTSc", ChunkKind::Ots),
    ];
    for (tag, kind) in tags {
        let c = Chunk { tag: *tag, payload: &[] };
        assert_eq!(c.kind(), kind);
    }
    assert_eq!(Chunk { tag: *b"casm", payload: &[] }.kind(), ChunkKind::Unknown);
}

#[test]
fn length_is_big_endian() {
    let mut buf = b"zzzz".to_vec();
    buf.extend_from_slice(&[0x00, 0x00, 0x01, 0x02]);
    buf.extend(std::iter::repeat(7u8).take(0x102));
    buf.push(0xEE);
    let mut it = ChunkIter::new(&buf);
    let c = it.next().unwrap().unwrap();
    assert_eq!(c.payload.len(), 0x102);
    assert_eq!(it.remaining(), &[0xEE][..]);
}

#[test]
fn declared_length_beyond_the_buffer_is_a_truncation() {
    let full = chunk(b"CASM", &[1, 2, 3, 4, 5]);
    for cut in 8..full.len() {
        let mut it = ChunkIter::new(&full[..cut]);
        let err = it.next().unwrap().unwrap_err();
        assert_eq!(err, DecodeError { cause: Cause::MalformedLength, section: None });
        assert!(err.cause.truncation());
        assert!(it.next().is_none());
    }
}

#[test]
fn short_header_is_an_error_and_ends_the_sequence() {
    let full = chunk(b"CASM", &[]);
    for cut in 1..8 {
        let mut it = ChunkIter::new(&full[..cut]);
        let err = it.next().unwrap().unwrap_err();
        assert_eq!(err.cause, Cause::TruncatedHeader);
        assert!(err.cause.truncation());
        assert!(it.next().is_none());
    }
}

#[test]
fn error_after_good_chunks_is_the_last_item() {
    let mut buf = chunk(b"MThd", &[1]);
    buf.extend_from_slice(&[b'M', b'T', b'r', b'k', 0, 0, 0, 9, 1, 2]);
    let mut it = ChunkIter::new(&buf);
    assert!(it.next().unwrap().is_ok());
    assert_eq!(it.next().unwrap().unwrap_err().cause, Cause::MalformedLength);
    assert!(it.next().is_none());
}

#[test]
fn absent_section_is_not_an_error() {
    let mut buf = chunk(b"MThd", &[0; 6]);
    buf.extend(chunk(b"MTrk", &[0; 3]));
    let it = ChunkIter::new(&buf);
    assert!(Casm::parse(it, Policy::Lenient).unwrap().is_none());
    assert!(Mdb::parse(it, Policy::Strict).unwrap().is_none());
    assert!(Mh::parse(it).unwrap().is_none());
    assert!(Ots::parse(it).unwrap().is_none());
}

#[test]
fn each_section_finds_its_own_chunk() {
    let mut buf = chunk(b"MThd", &[0; 6]);
    buf.extend(chunk(b"OTSc", &[1]));
    buf.extend(chunk(b"FNRc", &[2, 2]));
    buf.extend(chunk(b"MHhd", &[3, 3, 3]));
    buf.extend(chunk(b"CASM", &[4, 4, 4, 4]));
    let it = ChunkIter::new(&buf);
    assert_eq!(Ots::parse(it).unwrap().unwrap().0.remaining(), &[1][..]);
    assert_eq!(Mdb::parse(it, Policy::Lenient).unwrap().unwrap().0.inner.remaining(), &[2, 2][..]);
    assert_eq!(Mh::parse(it).unwrap().unwrap().0.remaining(), &[3, 3, 3][..]);
    let casm = Casm::parse(it, Policy::Strict).unwrap().unwrap();
    assert_eq!(casm.0.inner.remaining(), &[4, 4, 4, 4][..]);
    assert_eq!(casm.0.policy, Policy::Strict);
}

#[test]
fn only_the_first_casm_is_returned() {
    let first = chunk(b"CSEG", &[]);
    let mut buf = chunk(b"CASM", &first);
    buf.extend(chunk(b"CASM", &[0xFF; 3]));
    let casm = Casm::parse(ChunkIter::new(&buf), Policy::Strict).unwrap().unwrap();
    assert_eq!(casm.0.inner.remaining(), &first[..]);

    // What stands behind the first match is never looked at.
    let mut cut = chunk(b"CASM", &first);
    cut.extend_from_slice(b"CASM\xFF\xFF");
    let casm = Casm::parse(ChunkIter::new(&cut), Policy::Strict).unwrap().unwrap();
    assert_eq!(casm.0.inner.remaining(), &first[..]);
}

#[test]
fn tokenizer_failure_before_a_match_names_the_section() {
    let mut buf = chunk(b"MThd", &[0; 6]);
    buf.extend_from_slice(b"CASM\x00\x00\x00\x10abc");
    let it = ChunkIter::new(&buf);
    for policy in [Policy::Strict, Policy::Lenient] {
        assert_eq!(
            Casm::parse(it, policy).unwrap_err(),
            DecodeError { cause: Cause::MalformedLength, section: Some(Section::Casm) }
        );
        assert_eq!(
            Mdb::parse(it, policy).unwrap_err(),
            DecodeError { cause: Cause::MalformedLength, section: Some(Section::Mdb) }
        );
    }
    assert_eq!(Mh::parse(it).unwrap_err().section, Some(Section::Mh));
    assert_eq!(Ots::parse(it).unwrap_err().section, Some(Section::Ots));

    let short = [b'C', b'A'];
    assert_eq!(
        Casm::parse(ChunkIter::new(&short), Policy::Lenient).unwrap_err(),
        DecodeError { cause: Cause::TruncatedHeader, section: Some(Section::Casm) }
    );
}

#[test]
fn default_policy_is_lenient() {
    assert_eq!(Policy::default(), Policy::Lenient);
}

#[test]
fn errors_carry_their_section() {
    let bare = DecodeError::new(Cause::UnknownCode);
    assert_eq!(bare, DecodeError { cause: Cause::UnknownCode, section: None });
    let marked = bare.context(Section::Casm);
    assert_eq!(marked, DecodeError { cause: Cause::UnknownCode, section: Some(Section::Casm) });
    assert_eq!(marked.context(Section::Cseg).section, Some(Section::Cseg));
}

#[test]
fn only_two_causes_are_truncations() {
    let causes = [
        (Cause::TruncatedHeader, true),
        (Cause::MalformedLength, true),
        (Cause::UnexpectedChunk, false),
        (Cause::MalformedField, false),
        (Cause::ReservedBits, false),
        (Cause::UnknownCode, false),
        (Cause::InvalidText, false),
        (Cause::UnknownStylePart, false),
    ];
    for (cause, truncation) in causes {
        assert_eq!(cause.truncation(), truncation);
    }
}

#[test]
fn finished_tokenizer_yields_nothing() {
    let buf = chunk(b"CASM", &[1, 2]);
    let mut it = ChunkIter::new(&buf);
    it.finish();
    assert!(it.remaining().is_empty());
    assert!(it.next().is_none());
}

#[test]
fn tokenizer_can_be_copied() {
    let mut buf = chunk(b"MThd", &[1]);
    buf.extend(chunk(b"MTrk", &[2]));
    let mut first = ChunkIter::new(&buf);
    let mut second = first;
    assert_eq!(first.next().unwrap().unwrap().kind(), ChunkKind::Header);
    assert_eq!(first.next().unwrap().unwrap().kind(), ChunkKind::Track);
    assert_eq!(second.next().unwrap().unwrap().kind(), ChunkKind::Header);
}

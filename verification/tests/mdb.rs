use stylefile::{
    Cause, Chunk, ChunkIter, DecodeError, Mdb, Policy, Record, RecordIter, Section, Signature,
};

fn chunk(tag: &[u8; 4], payload: &[u8]) -> Vec<u8> {
    let mut out = tag.to_vec();
    out.extend_from_slice(&(payload.len() as u32).to_be_bytes());
    out.extend_from_slice(payload);
    out
}

fn record(prefix: [u8; 5], chunks: &[Vec<u8>]) -> Vec<u8> {
    let mut out = prefix.to_vec();
    for c in chunks {
        out.extend_from_slice(c);
    }
    out
}

fn read(payload: &[u8]) -> Result<Record, DecodeError> {
    Record::read(Chunk { tag: *b"FNRP", payload })
}

const PREFIX: [u8; 5] = [0x07, 0xA1, 0x20, 4, 4];

#[test]
fn record_with_title_and_genre() {
    let payload = record(PREFIX, &[chunk(b"Mnam", b"Song"), chunk(b"Gnam", b"Pop")]);
    assert_eq!(
        read(&payload),
        Ok(Record {
            tempo: 500_000,
            signature: Signature { upper: 4, lower: 4 },
            title: "Song".to_string(),
            genre: "Pop".to_string(),
            keyword1: None,
            keyword2: None,
        })
    );
}

#[test]
fn record_with_every_field_in_any_order() {
    let payload = record(
        [0xFF, 0xFF, 0xFF, 6, 8],
        &[
            chunk(b"Kwd2", b"slow"),
            chunk(b"Gnam", "Chanson fran\u{E7}aise".as_bytes()),
            chunk(b"zzzz", &[1, 2, 3]),
            chunk(b"Kwd1", b"waltz"),
            chunk(b"MTrk", &[]),
            chunk(b"Mnam", b"La Mer"),
        ],
    );
    assert_eq!(
        read(&payload),
        Ok(Record {
            tempo: 0xFF_FFFF,
            signature: Signature { upper: 6, lower: 8 },
            title: "La Mer".to_string(),
            genre: "Chanson fran\u{E7}aise".to_string(),
            keyword1: Some("waltz".to_string()),
            keyword2: Some("slow".to_string()),
        })
    );
}

#[test]
fn record_without_chunks() {
    assert_eq!(
        read(&[0x00, 0x00, 0x01, 3, 2]),
        Ok(Record {
            tempo: 1,
            signature: Signature { upper: 3, lower: 2 },
            title: String::new(),
            genre: String::new(),
            keyword1: None,
            keyword2: None,
        })
    );
}

#[test]
fn tempo_is_big_endian() {
    assert_eq!(read(&[0x01, 0x02, 0x03, 4, 4]).unwrap().tempo, 0x01_0203);
    assert_eq!(read(&[0x00, 0x01, 0x00, 4, 4]).unwrap().tempo, 0x100);
    assert_eq!(read(&[0x10, 0x00, 0x00, 4, 4]).unwrap().tempo, 0x10_0000);
}

#[test]
fn first_chunk_of_a_kind_wins() {
    let payload = record(
        PREFIX,
        &[
            chunk(b"Mnam", b"First"),
            chunk(b"Kwd1", &[0xFF]),
            chunk(b"Gnam", b""),
            chunk(b"Mnam", b"Second"),
            chunk(b"Kwd1", b"late"),
            chunk(b"Gnam", b"Rock"),
            chunk(b"Kwd2", b"one"),
            chunk(b"Kwd2", b"two"),
        ],
    );
    let r = read(&payload).unwrap();
    assert_eq!(r.title, "First");
    assert_eq!(r.genre, "");
    assert_eq!(r.keyword1, None);
    assert_eq!(r.keyword2, Some("one".to_string()));
}

#[test]
fn text_that_is_not_utf8_is_empty() {
    let payload = record(
        PREFIX,
        &[
            chunk(b"Mnam", &[b'S', 0xFF, b'n', b'g']),
            chunk(b"Gnam", &[0xC3]),
            chunk(b"Kwd1", &[0xE2, 0x82]),
            chunk(b"Kwd2", &[0x80]),
        ],
    );
    let r = read(&payload).unwrap();
    assert_eq!(r.title, "");
    assert_eq!(r.genre, "");
    assert_eq!(r.keyword1, None);
    assert_eq!(r.keyword2, None);
}

#[test]
fn text_is_not_trimmed() {
    let payload = record(PREFIX, &[chunk(b"Mnam", b" Song "), chunk(b"Kwd1", b" ")]);
    let r = read(&payload).unwrap();
    assert_eq!(r.title, " Song ");
    assert_eq!(r.keyword1, Some(" ".to_string()));
}

#[test]
fn empty_keyword_is_absent() {
    let payload = record(PREFIX, &[chunk(b"Kwd1", b""), chunk(b"Kwd2", b"x")]);
    let r = read(&payload).unwrap();
    assert_eq!(r.keyword1, None);
    assert_eq!(r.keyword2, Some("x".to_string()));
}

#[test]
fn record_prefix_too_short() {
    for len in 0..5 {
        assert_eq!(
            read(&PREFIX[..len]),
            Err(DecodeError { cause: Cause::MalformedField, section: None })
        );
    }
}

#[test]
fn record_wants_a_record_chunk() {
    for tag in [b"FNRc", b"Mnam", b"fnrp"] {
        assert_eq!(
            Record::read(Chunk { tag: *tag, payload: &PREFIX }),
            Err(DecodeError { cause: Cause::UnexpectedChunk, section: None })
        );
    }
}

#[test]
fn record_with_a_truncated_chunk() {
    let mut payload = record(PREFIX, &[chunk(b"Mnam", b"Song")]);
    payload.extend_from_slice(b"Gnam\x00\x00\x00\x04Po");
    assert_eq!(
        read(&payload),
        Err(DecodeError { cause: Cause::MalformedLength, section: None })
    );
    let mut payload = record(PREFIX, &[chunk(b"Mnam", b"Song")]);
    payload.extend_from_slice(b"Gn");
    assert_eq!(
        read(&payload),
        Err(DecodeError { cause: Cause::TruncatedHeader, section: None })
    );
}

#[test]
fn walk_yields_every_record() {
    let mut payload = chunk(b"FNRP", &record(PREFIX, &[chunk(b"Mnam", b"One")]));
    payload.extend(chunk(b"FNRP", &record(PREFIX, &[chunk(b"Mnam", b"Two")])));
    let mut file = chunk(b"MThd", &[0; 6]);
    file.extend(chunk(b"FNRc", &payload));
    file.extend(chunk(b"FNRc", &[0xFF]));
    for policy in [Policy::Strict, Policy::Lenient] {
        let mut mdb = Mdb::parse(ChunkIter::new(&file), policy).unwrap().unwrap();
        assert_eq!(mdb.0.next().unwrap().unwrap().title, "One");
        assert_eq!(mdb.0.next().unwrap().unwrap().title, "Two");
        assert!(mdb.0.next().is_none());
        assert!(mdb.0.next().is_none());
    }
}

#[test]
fn walk_over_a_bad_record() {
    let mut payload = chunk(b"FNRP", &PREFIX);
    payload.extend(chunk(b"FNRP", &[1, 2, 3]));
    payload.extend(chunk(b"FNRP", &PREFIX));

    let mut strict = RecordIter { inner: ChunkIter::new(&payload), policy: Policy::Strict };
    assert!(strict.next().unwrap().is_ok());
    assert_eq!(
        strict.next().unwrap(),
        Err(DecodeError { cause: Cause::MalformedField, section: Some(Section::Record) })
    );
    assert!(strict.next().is_none());

    let mut lenient = RecordIter { inner: ChunkIter::new(&payload), policy: Policy::Lenient };
    assert!(lenient.next().unwrap().is_ok());
    assert!(lenient.next().is_none());
    assert!(lenient.next().is_none());
}

#[test]
fn walk_over_a_chunk_that_is_no_record() {
    let mut payload = chunk(b"FNRP", &PREFIX);
    payload.extend(chunk(b"Mnam", b"stray"));
    payload.extend(chunk(b"FNRP", &PREFIX));

    let mut strict = RecordIter { inner: ChunkIter::new(&payload), policy: Policy::Strict };
    assert!(strict.next().unwrap().is_ok());
    assert_eq!(
        strict.next().unwrap(),
        Err(DecodeError { cause: Cause::UnexpectedChunk, section: Some(Section::Record) })
    );
    assert!(strict.next().is_none());

    let mut lenient = RecordIter { inner: ChunkIter::new(&payload), policy: Policy::Lenient };
    assert!(lenient.next().unwrap().is_ok());
    assert!(lenient.next().is_none());
}

#[test]
fn walk_over_a_truncated_record_fails_under_both_policies() {
    let mut cut = chunk(b"FNRP", &PREFIX);
    cut.extend_from_slice(b"FNRP\x00\x00\x00\x09abc");
    let mut header = chunk(b"FNRP", &PREFIX);
    header.extend_from_slice(b"FN");
    for policy in [Policy::Strict, Policy::Lenient] {
        for (payload, cause) in
            [(&cut, Cause::MalformedLength), (&header, Cause::TruncatedHeader)]
        {
            let mut it = RecordIter { inner: ChunkIter::new(payload), policy };
            assert!(it.next().unwrap().is_ok());
            assert_eq!(
                it.next().unwrap(),
                Err(DecodeError { cause, section: Some(Section::Record) })
            );
            assert!(it.next().is_none());
        }
    }
}

#[test]
fn walk_over_a_record_with_a_truncated_chunk_inside() {
    let mut payload = chunk(b"FNRP", &record(PREFIX, &[chunk(b"Mnam", b"One")]));
    payload.extend(chunk(b"FNRP", &record(PREFIX, &[b"Mnam\x00\x00\x00\x09abc".to_vec()])));
    payload.extend(chunk(b"FNRP", &record(PREFIX, &[chunk(b"Mnam", b"Three")])));

    // The chunk itself is whole, so the policy decides.
    let mut strict = RecordIter { inner: ChunkIter::new(&payload), policy: Policy::Strict };
    assert!(strict.next().unwrap().is_ok());
    assert_eq!(
        strict.next().unwrap(),
        Err(DecodeError { cause: Cause::MalformedLength, section: Some(Section::Record) })
    );
    assert!(strict.next().is_none());

    let mut lenient = RecordIter { inner: ChunkIter::new(&payload), policy: Policy::Lenient };
    assert_eq!(lenient.next().unwrap().unwrap().title, "One");
    assert!(lenient.next().is_none());
    assert!(lenient.next().is_none());
    assert!(lenient.inner.remaining().is_empty());
}

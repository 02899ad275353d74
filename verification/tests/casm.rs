use stylefile::casm::read_style_parts;
use stylefile::{
    Casm, Cause, Chunk, ChunkIter, Cseg, CsegIter, DecodeError, Policy, Section, StylePart,
};

const PARTS: [(StylePart, &str); 17] = [
    (StylePart::IntroA, "Intro A"),
    (StylePart::IntroB, "Intro B"),
    (StylePart::IntroC, "Intro C"),
    (StylePart::IntroD, "Intro D"),
    (StylePart::MainA, "Main A"),
    (StylePart::MainB, "Main B"),
    (StylePart::MainC, "Main C"),
    (StylePart::MainD, "Main D"),
    (StylePart::FillInAA, "Fill In AA"),
    (StylePart::FillInBB, "Fill In BB"),
    (StylePart::FillInCC, "Fill In CC"),
    (StylePart::FillInDD, "Fill In DD"),
    (StylePart::FillInBA, "Fill In BA"),
    (StylePart::EndingA, "Ending A"),
    (StylePart::EndingB, "Ending B"),
    (StylePart::EndingC, "Ending C"),
    (StylePart::EndingD, "Ending D"),
];

fn chunk(tag: &[u8; 4], payload: &[u8]) -> Vec<u8> {
    let mut out = tag.to_vec();
    out.extend_from_slice(&(payload.len() as u32).to_be_bytes());
    out.extend_from_slice(payload);
    out
}

fn legacy_ctab(source: u8) -> Vec<u8> {
    let mut p = vec![source];
    p.extend_from_slice(b"Chord 1 ");
    p.extend_from_slice(&[0x0B, 0x00, 0x00, 0x00, 0x00, 0x00, 0x00, 0x00, 0x00, 0x00, 0x00]);
    p.extend_from_slice(&[0x00, 0x00, 0x00, 0x00, 0x7F, 0x00]);
    p.push(0x00);
    p
}

fn current_ctab(source: u8) -> Vec<u8> {
    let mut p = vec![source];
    p.extend_from_slice(b"Chord 2 ");
    p.extend_from_slice(&[0x0C, 0x00, 0x00, 0x00, 0x00, 0x00, 0x00, 0x00, 0x00, 0x00, 0x00]);
    p.extend_from_slice(&[0x00, 0x7F]);
    for _ in 0..3 {
        p.extend_from_slice(&[0x00, 0x00, 0x00, 0x00, 0x7F, 0x00]);
    }
    p.extend_from_slice(&[0; 7]);
    p
}

fn unknown_part() -> DecodeError {
    DecodeError { cause: Cause::UnknownStylePart, section: None }
}

fn walk<'a>(payload: &'a [u8], policy: Policy) -> CsegIter<'a> {
    let file = payload;
    CsegIter { inner: ChunkIter::new(file), policy }
}

#[test]
fn style_part_names() {
    for (part, name) in PARTS {
        assert_eq!(StylePart::try_from(name), Ok(part));
        assert_eq!(StylePart::try_from(name.as_bytes()), Ok(part));
        assert_eq!(<&str>::from(part), name);
        assert_eq!(<&[u8]>::from(part), name.as_bytes());
    }
}

#[test]
fn style_part_names_are_exact() {
    for name in ["Intro X", "intro a", "INTRO A", "Intro A ", " Intro A", "IntroA", "Intro  A", "", "Fill In AB", "Main E", "Ending", "Break"] {
        assert_eq!(StylePart::try_from(name), Err(unknown_part()));
        assert_eq!(StylePart::try_from(name.as_bytes()), Err(unknown_part()));
    }
    assert_eq!(StylePart::try_from(&[0xFF, 0xFE][..]), Err(unknown_part()));
}

#[test]
fn style_part_list() {
    assert_eq!(
        read_style_parts(b"Intro A,Main B,Ending D"),
        Ok(vec![StylePart::IntroA, StylePart::MainB, StylePart::EndingD])
    );
    assert_eq!(read_style_parts(b"Fill In BA"), Ok(vec![StylePart::FillInBA]));
    assert_eq!(
        read_style_parts(b"Main A,Main A,Fill In AA"),
        Ok(vec![StylePart::MainA, StylePart::MainA, StylePart::FillInAA])
    );
    let all: Vec<&str> = PARTS.iter().map(|(_, name)| *name).collect();
    let parts: Vec<StylePart> = PARTS.iter().map(|(part, _)| *part).collect();
    assert_eq!(read_style_parts(all.join(",").as_bytes()), Ok(parts));
}

#[test]
fn style_part_list_with_an_unknown_name() {
    for text in [
        &b"Intro X"[..],
        b"Intro A,Intro X",
        b"Intro X,Main B,Ending D",
        b"Intro A,Main B,Ending X",
        b"Intro A, Main B",
        b"Intro A;Main B",
        b"",
        b",",
        b"Intro A,",
        b",Intro A",
        b"Intro A,,Main B",
    ] {
        assert_eq!(read_style_parts(text), Err(unknown_part()), "{:?}", text);
    }
}

#[test]
fn cseg_collects_parts_and_tables_in_order() {
    let mut payload = chunk(b"Sdec", b"Main A,Main B");
    payload.extend(chunk(b"Ctab", &legacy_ctab(0x08)));
    payload.extend(chunk(b"Cntt", &[0x08, 0x81]));
    payload.extend(chunk(b"Ctb2", &current_ctab(0x09)));
    payload.extend(chunk(b"Sdec", b"Fill In AA"));
    payload.extend(chunk(b"Ctab", &legacy_ctab(0x0A)));
    for policy in [Policy::Strict, Policy::Lenient] {
        let cseg = Cseg::read(Chunk { tag: *b"CSEG", payload: &payload }, policy).unwrap();
        assert_eq!(cseg.style_parts, vec![StylePart::MainA, StylePart::MainB, StylePart::FillInAA]);
        let sources: Vec<u8> = cseg.ctab.iter().map(|c| c.source).collect();
        assert_eq!(sources, vec![0x08, 0x09, 0x0A]);
        let tables: Vec<usize> = cseg.ctab.iter().map(|c| c.table.len()).collect();
        assert_eq!(tables, vec![1, 3, 1]);
        assert_eq!(cseg.ctab[0].name, "Chord 1");
        assert_eq!(cseg.ctab[1].name, "Chord 2");
        assert_eq!(cseg.cntt, vec![&[0x08, 0x81][..]]);
    }
}

#[test]
fn empty_cseg() {
    let cseg = Cseg::read(Chunk { tag: *b"CSEG", payload: &[] }, Policy::Strict).unwrap();
    assert!(cseg.style_parts.is_empty());
    assert!(cseg.ctab.is_empty());
    assert!(cseg.cntt.is_empty());
}

#[test]
fn cseg_wants_a_cseg_chunk() {
    for tag in [b"CASM", b"Sdec", b"cseg"] {
        assert_eq!(
            Cseg::read(Chunk { tag: *tag, payload: &[] }, Policy::Lenient),
            Err(DecodeError { cause: Cause::UnexpectedChunk, section: None })
        );
    }
}

#[test]
fn cseg_rejects_other_chunks() {
    for tag in [b"MTrk", b"CSEG", b"CASM", b"Mnam", b"zzzz"] {
        let mut payload = chunk(b"Sdec", b"Main A");
        payload.extend(chunk(tag, &[]));
        for policy in [Policy::Strict, Policy::Lenient] {
            assert_eq!(
                Cseg::read(Chunk { tag: *b"CSEG", payload: &payload }, policy),
                Err(DecodeError { cause: Cause::UnexpectedChunk, section: None })
            );
        }
    }
}

#[test]
fn cseg_first_failure_wins() {
    let mut payload = chunk(b"Sdec", b"Intro X");
    payload.extend(chunk(b"MTrk", &[]));
    payload.extend_from_slice(b"Ctab\x00\x00");
    let cseg = Chunk { tag: *b"CSEG", payload: &payload };
    assert_eq!(Cseg::read(cseg, Policy::Strict), Err(unknown_part()));

    let mut payload = chunk(b"Sdec", b"Intro A");
    payload.extend(chunk(b"Ctab", &[0; 5]));
    payload.extend(chunk(b"Sdec", b"Intro X"));
    let cseg = Chunk { tag: *b"CSEG", payload: &payload };
    assert_eq!(
        Cseg::read(cseg, Policy::Lenient),
        Err(DecodeError { cause: Cause::MalformedField, section: None })
    );

    let mut payload = chunk(b"Sdec", b"Intro A");
    payload.extend_from_slice(b"Ctab\x00\x00");
    let cseg = Chunk { tag: *b"CSEG", payload: &payload };
    assert_eq!(
        Cseg::read(cseg, Policy::Lenient),
        Err(DecodeError { cause: Cause::TruncatedHeader, section: None })
    );
}

#[test]
fn cseg_policy_reaches_the_tables() {
    let mut ctab = legacy_ctab(0x08);
    ctab[18] = 0x40;
    let payload = chunk(b"Ctab", &ctab);
    let cseg = Chunk { tag: *b"CSEG", payload: &payload };
    assert_eq!(
        Cseg::read(cseg, Policy::Strict),
        Err(DecodeError { cause: Cause::UnknownCode, section: None })
    );
    assert_eq!(Cseg::read(cseg, Policy::Lenient).unwrap().ctab.len(), 1);
}

#[test]
fn walk_yields_every_cseg() {
    let mut payload = chunk(b"CSEG", &chunk(b"Sdec", b"Intro A"));
    payload.extend(chunk(b"CSEG", &[]));
    payload.extend(chunk(b"CSEG", &chunk(b"Sdec", b"Ending A,Ending B")));
    let mut file = chunk(b"MThd", &[0; 6]);
    file.extend(chunk(b"CASM", &payload));
    for policy in [Policy::Strict, Policy::Lenient] {
        let mut casm = Casm::parse(ChunkIter::new(&file), policy).unwrap().unwrap();
        assert_eq!(casm.0.next().unwrap().unwrap().style_parts, vec![StylePart::IntroA]);
        assert_eq!(casm.0.next().unwrap().unwrap().style_parts, vec![]);
        assert_eq!(
            casm.0.next().unwrap().unwrap().style_parts,
            vec![StylePart::EndingA, StylePart::EndingB]
        );
        assert!(casm.0.next().is_none());
        assert!(casm.0.next().is_none());
    }
}

#[test]
fn walk_over_a_bad_cseg() {
    let mut payload = chunk(b"CSEG", &chunk(b"Sdec", b"Intro A"));
    payload.extend(chunk(b"CSEG", &chunk(b"Sdec", b"Intro X")));
    payload.extend(chunk(b"CSEG", &chunk(b"Sdec", b"Main A")));

    let mut strict = walk(&payload, Policy::Strict);
    assert!(strict.next().unwrap().is_ok());
    assert_eq!(
        strict.next().unwrap(),
        Err(DecodeError { cause: Cause::UnknownStylePart, section: Some(Section::Cseg) })
    );
    assert!(strict.next().is_none());

    let mut lenient = walk(&payload, Policy::Lenient);
    assert!(lenient.next().unwrap().is_ok());
    assert!(lenient.next().is_none());
    assert!(lenient.next().is_none());
    assert!(lenient.inner.remaining().is_empty());
}

#[test]
fn walk_over_a_chunk_that_is_no_cseg() {
    let mut payload = chunk(b"CSEG", &[]);
    payload.extend(chunk(b"Sdec", b"Main A"));
    payload.extend(chunk(b"CSEG", &[]));

    let mut strict = walk(&payload, Policy::Strict);
    assert!(strict.next().unwrap().is_ok());
    assert_eq!(
        strict.next().unwrap(),
        Err(DecodeError { cause: Cause::UnexpectedChunk, section: Some(Section::Cseg) })
    );
    assert!(strict.next().is_none());

    let mut lenient = walk(&payload, Policy::Lenient);
    assert!(lenient.next().unwrap().is_ok());
    assert!(lenient.next().is_none());
    assert!(lenient.next().is_none());
}

#[test]
fn walk_over_a_truncated_chunk_fails_under_both_policies() {
    let mut cut = chunk(b"CSEG", &[]);
    cut.extend_from_slice(b"CSEG\x00\x00\x00\x09abc");
    let mut header = chunk(b"CSEG", &[]);
    header.extend_from_slice(b"CSE");
    for policy in [Policy::Strict, Policy::Lenient] {
        for (payload, cause) in
            [(&cut, Cause::MalformedLength), (&header, Cause::TruncatedHeader)]
        {
            let mut it = walk(payload, policy);
            assert!(it.next().unwrap().is_ok());
            assert_eq!(
                it.next().unwrap(),
                Err(DecodeError { cause, section: Some(Section::Cseg) })
            );
            assert!(it.next().is_none());
        }
    }
}

#[test]
fn walk_over_a_cseg_with_a_truncated_chunk_inside() {
    for inner in [&b"Sdec\x00\x00\x00\x09abc"[..], &b"Sde"[..]] {
        let cause = if inner.len() < 8 { Cause::TruncatedHeader } else { Cause::MalformedLength };
        let mut payload = chunk(b"CSEG", &chunk(b"Sdec", b"Main A"));
        payload.extend(chunk(b"CSEG", inner));
        payload.extend(chunk(b"CSEG", &chunk(b"Sdec", b"Main B")));

        // The chunk itself is whole, so the policy decides.
        let mut strict = walk(&payload, Policy::Strict);
        assert!(strict.next().unwrap().is_ok());
        assert_eq!(
            strict.next().unwrap(),
            Err(DecodeError { cause, section: Some(Section::Cseg) })
        );
        assert!(strict.next().is_none());

        let mut lenient = walk(&payload, Policy::Lenient);
        assert_eq!(lenient.next().unwrap().unwrap().style_parts, vec![StylePart::MainA]);
        assert!(lenient.next().is_none());
        assert!(lenient.next().is_none());
        assert!(lenient.inner.remaining().is_empty());
    }
}

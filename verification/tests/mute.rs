use stylefile::{Cause, Chord, Ctab, DecodeError, Key, Policy};

const KEYS: [Key; 12] = [
    Key::C,
    Key::Cs,
    Key::D,
    Key::Eb,
    Key::E,
    Key::F,
    Key::Fs,
    Key::G,
    Key::Gs,
    Key::A,
    Key::Bb,
    Key::B,
];

// The chord types in the order of their bits, first bit in use first.
const CHORDS: [Chord; 36] = [
    Chord::SpecialPercussion,
    Chord::SpecialAutostart,
    Chord::OnePlusTwoPlus5,
    Chord::Sus4,
    Chord::OnePlusFive,
    Chord::OnePlusEight,
    Chord::SevenAug,
    Chord::Maj7aug,
    Chord::SevenS9,
    Chord::SevenB13,
    Chord::SevenB9,
    Chord::Seven13,
    Chord::SevenS11,
    Chord::Seven9,
    Chord::SevenB5,
    Chord::SevenSus4,
    Chord::Seven,
    Chord::Dim7,
    Chord::Dim,
    Chord::MinMaj7_9,
    Chord::MinMaj7,
    Chord::Min7_11,
    Chord::Min7_9,
    Chord::Min9,
    Chord::Min7b5,
    Chord::Min7,
    Chord::Min6,
    Chord::Min,
    Chord::Aug,
    Chord::Maj6_9,
    Chord::Maj7_9,
    Chord::Maj9,
    Chord::Maj7s11,
    Chord::Maj7,
    Chord::Maj6,
    Chord::Maj,
];

/// The field that says `flags[k]` of the key of code `k`.
fn encode_note_mute(flags: [bool; 12]) -> [u8; 2] {
    let mut bits: u16 = 0;
    for (code, flag) in flags.iter().enumerate() {
        if !flag {
            bits |= 1 << code;
        }
    }
    bits.to_be_bytes()
}

#[test]
fn note_mute_bit_cleared_is_stored_true() {
    for policy in [Policy::Strict, Policy::Lenient] {
        let all_clear = Ctab::read_note_mute([0x00, 0x00], policy).unwrap();
        let all_set = Ctab::read_note_mute([0x0F, 0xFF], policy).unwrap();
        for key in KEYS {
            assert_eq!(all_clear.get(key), Some(true));
            assert_eq!(all_set.get(key), Some(false));
        }
    }
}

#[test]
fn note_mute_each_bit_is_its_own_key() {
    // First byte: 0 0 0 0 B Bb A G#; second byte: G F# F E Eb D C# C.
    let fields: [([u8; 2], Key); 12] = [
        ([0x08, 0x00], Key::B),
        ([0x04, 0x00], Key::Bb),
        ([0x02, 0x00], Key::A),
        ([0x01, 0x00], Key::Gs),
        ([0x00, 0x80], Key::G),
        ([0x00, 0x40], Key::Fs),
        ([0x00, 0x20], Key::F),
        ([0x00, 0x10], Key::E),
        ([0x00, 0x08], Key::Eb),
        ([0x00, 0x04], Key::D),
        ([0x00, 0x02], Key::Cs),
        ([0x00, 0x01], Key::C),
    ];
    for (field, marked) in fields {
        let mute = Ctab::read_note_mute(field, Policy::Strict).unwrap();
        for key in KEYS {
            assert_eq!(mute.get(key), Some(key != marked), "{:?} in {:?}", key, field);
        }
    }
}

#[test]
fn note_mute_round_trips_through_an_encoder() {
    for bits in 0u16..0x1000 {
        let field = bits.to_be_bytes();
        let mute = Ctab::read_note_mute(field, Policy::Strict).unwrap();
        let mut flags = [false; 12];
        for key in KEYS {
            flags[key.code() as usize] = mute.get(key).unwrap();
        }
        assert_eq!(encode_note_mute(flags), field);
        assert_eq!(Ctab::read_note_mute(encode_note_mute(flags), Policy::Lenient).unwrap(), mute);
    }
}

#[test]
fn note_mute_reserved_bits() {
    for high in [0x10u8, 0x20, 0x40, 0x80, 0xF0] {
        let field = [high | 0x05, 0xA5];
        assert_eq!(
            Ctab::read_note_mute(field, Policy::Strict),
            Err(DecodeError { cause: Cause::ReservedBits, section: None })
        );
        assert_eq!(
            Ctab::read_note_mute(field, Policy::Lenient),
            Ctab::read_note_mute([0x05, 0xA5], Policy::Lenient)
        );
    }
    assert!(Ctab::read_note_mute([0x0F, 0xFF], Policy::Strict).is_ok());
}

#[test]
fn chord_mute_all_ones_is_all_true() {
    let strict = Ctab::read_chord_mute([0xFF; 5], Policy::Strict);
    assert_eq!(strict.unwrap_err().cause, Cause::ReservedBits);
    for (field, policy) in [([0xFF; 5], Policy::Lenient), ([0x0F, 0xFF, 0xFF, 0xFF, 0xFF], Policy::Strict)] {
        let mute = Ctab::read_chord_mute(field, policy).unwrap();
        let mut seen = 0;
        for chord in CHORDS {
            assert_eq!(mute.get(chord), Some(true));
            seen += 1;
        }
        assert_eq!(seen, 36);
        assert_eq!(mute.get(Chord::Cancel), None);
    }
}

#[test]
fn chord_mute_all_zeros_is_all_false() {
    for policy in [Policy::Strict, Policy::Lenient] {
        let mute = Ctab::read_chord_mute([0x00; 5], policy).unwrap();
        for chord in CHORDS {
            assert_eq!(mute.get(chord), Some(false));
        }
        assert_eq!(mute.get(Chord::Cancel), None);
    }
}

#[test]
fn chord_mute_each_bit_is_its_own_chord() {
    for (slot, marked) in CHORDS.iter().enumerate() {
        // Place `slot` is bit `slot + 4` of the field, counted from the
        // highest bit of the first byte.
        let at = slot + 4;
        let mut field = [0u8; 5];
        field[at / 8] = 1 << (7 - at % 8);
        let mute = Ctab::read_chord_mute(field, Policy::Strict).unwrap();
        for chord in CHORDS {
            assert_eq!(mute.get(chord), Some(chord == *marked), "{:?} in {:?}", chord, field);
        }
        assert_eq!(marked.mute_slot(), Some(slot));
    }
    assert_eq!(Chord::Cancel.mute_slot(), None);
}

#[test]
fn chord_mute_named_bits() {
    // Byte 0, bit 0: sus4. Byte 1, bit 7: 1+5. Byte 4, bit 0: Maj.
    let mute = Ctab::read_chord_mute([0x01, 0x80, 0x00, 0x00, 0x01], Policy::Strict).unwrap();
    assert_eq!(mute.get(Chord::Sus4), Some(true));
    assert_eq!(mute.get(Chord::OnePlusFive), Some(true));
    assert_eq!(mute.get(Chord::Maj), Some(true));
    assert_eq!(mute.get(Chord::Maj6), Some(false));
    assert_eq!(mute.get(Chord::SpecialAutostart), Some(false));
    // Byte 2, bit 3: 7th. Byte 3, bit 0: min.
    let mute = Ctab::read_chord_mute([0x00, 0x00, 0x08, 0x01, 0x00], Policy::Strict).unwrap();
    assert_eq!(mute.get(Chord::Seven), Some(true));
    assert_eq!(mute.get(Chord::Min), Some(true));
    assert_eq!(mute.get(Chord::Dim7), Some(false));
}

#[test]
fn chord_mute_reserved_bits_are_ignored_when_lenient() {
    assert_eq!(
        Ctab::read_chord_mute([0xA3, 1, 2, 3, 4], Policy::Lenient),
        Ctab::read_chord_mute([0x03, 1, 2, 3, 4], Policy::Lenient)
    );
    assert_eq!(
        Ctab::read_chord_mute([0x10, 0, 0, 0, 0], Policy::Strict),
        Err(DecodeError { cause: Cause::ReservedBits, section: None })
    );
}

use markdown_inlines::decode::{decode_numeric, REPLACEMENT_SCALAR};
use markdown_inlines::driver::attempt;
use markdown_inlines::entity::{is_named_reference, lookup_named};
use markdown_inlines::state::{State, StateName};
use markdown_inlines::token::Token;
use markdown_inlines::tokenizer::{Constructs, EventKind, Tokenizer};

fn reference(src: &str) -> (State, Tokenizer) {
    let mut t = Tokenizer::new(
        src.as_bytes().to_vec(),
        Constructs { autolink: true, character_reference: true },
    );
    let r = attempt(&mut t, StateName::CharacterReferenceStart);
    (r, t)
}

#[test]
fn named_reference_amp_decodes_to_ampersand() {
    let (r, t) = reference("&amp;");
    assert_eq!(r, State::Matched);
    assert_eq!(t.point.index, 5);
    // Downstream decode of the accepted name.
    let bytes = "&amp;".as_bytes().to_vec();
    assert_eq!(lookup_named(&bytes, 1, 4), Some(vec![b'&']));
}

#[test]
fn named_reference_case_variants() {
    // `AMP` is a distinct table entry; `Amp` is not; `foo` names nothing.
    assert_eq!(reference("&AMP;").0, State::Matched);
    assert_eq!(reference("&Amp;").0, State::Nok);
    assert_eq!(reference("&foo;").0, State::Nok);
    let bytes = "AMP Amp foo lt".as_bytes().to_vec();
    assert!(is_named_reference(&bytes, 0, 3));
    assert!(!is_named_reference(&bytes, 4, 7));
    assert!(!is_named_reference(&bytes, 8, 11));
    assert!(is_named_reference(&bytes, 12, 14));
}

#[test]
fn named_reference_events() {
    let (r, t) = reference("&amp;");
    assert_eq!(r, State::Matched);
    let kinds: Vec<(EventKind, Token, usize)> =
        t.events.iter().map(|e| (e.kind, e.token, e.point.index)).collect();
    assert_eq!(
        kinds,
        vec![
            (EventKind::Enter, Token::CharacterReference, 0),
            (EventKind::Enter, Token::CharacterReferenceMarker, 0),
            (EventKind::Exit, Token::CharacterReferenceMarker, 1),
            (EventKind::Enter, Token::CharacterReferenceValue, 1),
            (EventKind::Exit, Token::CharacterReferenceValue, 4),
            (EventKind::Enter, Token::CharacterReferenceMarkerSemi, 4),
            (EventKind::Exit, Token::CharacterReferenceMarkerSemi, 5),
            (EventKind::Exit, Token::CharacterReference, 5),
        ]
    );
}

#[test]
fn decimal_reference_tab() {
    // `&#9;` is a valid decimal reference and denotes the tab.
    let (r, t) = reference("&#9;");
    assert_eq!(r, State::Matched);
    assert_eq!(t.point.index, 4);
    assert!(t.events.iter().any(|e| e.token == Token::CharacterReferenceMarkerNumeric));
    let bytes = "9".as_bytes().to_vec();
    assert_eq!(decode_numeric(&bytes, 0, 1, false), 9);
}

#[test]
fn hexadecimal_nul_is_syntactically_valid_but_decodes_to_replacement() {
    let (r, t) = reference("&#x0;");
    assert_eq!(r, State::Matched);
    assert_eq!(t.point.index, 5);
    assert!(t.events.iter().any(|e| e.token == Token::CharacterReferenceMarkerHexadecimal));
    let bytes = "0".as_bytes().to_vec();
    assert_eq!(decode_numeric(&bytes, 0, 1, true), REPLACEMENT_SCALAR);
}

#[test]
fn decimal_digit_run_is_capped_at_seven() {
    assert_eq!(reference("&#1234567;").0, State::Matched);
    assert_eq!(reference("&#12345678;").0, State::Nok);
}

#[test]
fn hexadecimal_digit_run_is_capped_at_six() {
    assert_eq!(reference("&#x10FFFF;").0, State::Matched);
    assert_eq!(reference("&#x1234567;").0, State::Nok);
}

#[test]
fn named_run_is_capped_at_thirty_one() {
    // 31 alphanumerics reach the `;` and fail only the table check; 32
    // overflow the cap before it.
    let name31 = "a".repeat(31);
    assert_eq!(reference(&format!("&{};", name31)).0, State::Nok);
    let name32 = "a".repeat(32);
    assert_eq!(reference(&format!("&{};", name32)).0, State::Nok);
}

#[test]
fn empty_or_malformed_references_are_nok() {
    assert_eq!(reference("&;").0, State::Nok);
    assert_eq!(reference("&#;").0, State::Nok);
    assert_eq!(reference("&#x;").0, State::Nok);
    assert_eq!(reference("&#xZ;").0, State::Nok);
    assert_eq!(reference("&#9").0, State::Nok);
    assert_eq!(reference("&am p;").0, State::Nok);
    assert_eq!(reference("x&amp;").0, State::Nok);
    assert_eq!(reference("&").0, State::Nok);
}

#[test]
fn reference_rollback_is_side_effect_free() {
    let (r, t) = reference("&nosuchname;");
    assert_eq!(r, State::Nok);
    assert_eq!(t.events.len(), 0);
    assert_eq!(t.point.index, 0);
    assert_eq!(t.tokenize_state.marker, 0);
    assert_eq!(t.tokenize_state.size, 0);
}

#[test]
fn disabled_character_reference_is_nok() {
    let mut t = Tokenizer::new(
        "&amp;".as_bytes().to_vec(),
        Constructs { autolink: true, character_reference: false },
    );
    let r = attempt(&mut t, StateName::CharacterReferenceStart);
    assert_eq!(r, State::Nok);
    assert_eq!(t.events.len(), 0);
}

#[test]
fn hexadecimal_events() {
    let (r, t) = reference("&#x2603;");
    assert_eq!(r, State::Matched);
    let kinds: Vec<(EventKind, Token, usize)> =
        t.events.iter().map(|e| (e.kind, e.token, e.point.index)).collect();
    assert_eq!(
        kinds,
        vec![
            (EventKind::Enter, Token::CharacterReference, 0),
            (EventKind::Enter, Token::CharacterReferenceMarker, 0),
            (EventKind::Exit, Token::CharacterReferenceMarker, 1),
            (EventKind::Enter, Token::CharacterReferenceMarkerNumeric, 1),
            (EventKind::Exit, Token::CharacterReferenceMarkerNumeric, 2),
            (EventKind::Enter, Token::CharacterReferenceMarkerHexadecimal, 2),
            (EventKind::Exit, Token::CharacterReferenceMarkerHexadecimal, 3),
            (EventKind::Enter, Token::CharacterReferenceValue, 3),
            (EventKind::Exit, Token::CharacterReferenceValue, 7),
            (EventKind::Enter, Token::CharacterReferenceMarkerSemi, 7),
            (EventKind::Exit, Token::CharacterReferenceMarkerSemi, 8),
            (EventKind::Exit, Token::CharacterReference, 8),
        ]
    );
}

#[test]
fn decode_applies_security_substitution() {
    let d = |s: &str, hex: bool| {
        let bytes = s.as_bytes().to_vec();
        decode_numeric(&bytes, 0, s.len(), hex)
    };
    // Ordinary scalars pass through.
    assert_eq!(d("2603", true), 0x2603);
    assert_eq!(d("65", false), 65);
    assert_eq!(d("10FFFD", true), 0x10FFFD);
    assert_eq!(d("1f600", true), 0x1F600);
    // NUL, control points, surrogates, noncharacters and out-of-range
    // values are replaced.
    assert_eq!(d("0", false), REPLACEMENT_SCALAR);
    assert_eq!(d("8", false), REPLACEMENT_SCALAR);
    assert_eq!(d("11", false), REPLACEMENT_SCALAR);
    assert_eq!(d("127", false), REPLACEMENT_SCALAR);
    assert_eq!(d("D800", true), REPLACEMENT_SCALAR);
    assert_eq!(d("FDD0", true), REPLACEMENT_SCALAR);
    assert_eq!(d("FFFE", true), REPLACEMENT_SCALAR);
    assert_eq!(d("1FFFF", true), REPLACEMENT_SCALAR);
    assert_eq!(d("110000", true), REPLACEMENT_SCALAR);
    // Tab, line feed and carriage return stay themselves.
    assert_eq!(d("9", false), 9);
    assert_eq!(d("10", false), 10);
    assert_eq!(d("13", false), 13);
}

#[test]
fn lookup_named_multibyte_values() {
    let bytes = "copy euro nbsp".as_bytes().to_vec();
    assert_eq!(lookup_named(&bytes, 0, 4), Some("\u{a9}".as_bytes().to_vec()));
    assert_eq!(lookup_named(&bytes, 5, 9), Some("\u{20ac}".as_bytes().to_vec()));
    assert_eq!(lookup_named(&bytes, 10, 14), Some("\u{a0}".as_bytes().to_vec()));
    assert_eq!(lookup_named(&bytes, 0, 3), None);
}

use markdown_inlines::driver::attempt;
use markdown_inlines::state::{State, StateName};
use markdown_inlines::token::Token;
use markdown_inlines::tokenizer::{Constructs, EventKind, Tokenizer};

fn tok(src: &str) -> Tokenizer {
    Tokenizer::new(
        src.as_bytes().to_vec(),
        Constructs { autolink: true, character_reference: true },
    )
}

fn autolink(src: &str) -> (State, Tokenizer) {
    let mut t = tok(src);
    let r = attempt(&mut t, StateName::AutolinkStart);
    (r, t)
}

#[test]
fn url_autolink_events() {
    // `<https://example.com>`: marker, protocol, marker, wrapped in Autolink.
    let (r, t) = autolink("<https://example.com>");
    assert_eq!(r, State::Matched);
    assert_eq!(t.point.index, 21);
    let kinds: Vec<(EventKind, Token, usize)> =
        t.events.iter().map(|e| (e.kind, e.token, e.point.index)).collect();
    assert_eq!(
        kinds,
        vec![
            (EventKind::Enter, Token::Autolink, 0),
            (EventKind::Enter, Token::AutolinkMarker, 0),
            (EventKind::Exit, Token::AutolinkMarker, 1),
            (EventKind::Enter, Token::AutolinkProtocol, 1),
            (EventKind::Exit, Token::AutolinkProtocol, 20),
            (EventKind::Enter, Token::AutolinkMarker, 20),
            (EventKind::Exit, Token::AutolinkMarker, 21),
            (EventKind::Exit, Token::Autolink, 21),
        ]
    );
}

#[test]
fn email_autolink_retagged() {
    // `<user@example.com>`: the protocol pair is retagged to AutolinkEmail
    // around the same span.
    let (r, t) = autolink("<user@example.com>");
    assert_eq!(r, State::Matched);
    assert_eq!(t.point.index, 18);
    let kinds: Vec<(EventKind, Token, usize)> =
        t.events.iter().map(|e| (e.kind, e.token, e.point.index)).collect();
    assert_eq!(
        kinds,
        vec![
            (EventKind::Enter, Token::Autolink, 0),
            (EventKind::Enter, Token::AutolinkMarker, 0),
            (EventKind::Exit, Token::AutolinkMarker, 1),
            (EventKind::Enter, Token::AutolinkEmail, 1),
            (EventKind::Exit, Token::AutolinkEmail, 17),
            (EventKind::Enter, Token::AutolinkMarker, 17),
            (EventKind::Exit, Token::AutolinkMarker, 18),
            (EventKind::Exit, Token::Autolink, 18),
        ]
    );
}

#[test]
fn email_with_space_in_domain_is_nok() {
    let (r, t) = autolink("<user@ex ample.com>");
    assert_eq!(r, State::Nok);
    assert_eq!(t.events.len(), 0);
    assert_eq!(t.point.index, 0);
}

#[test]
fn rollback_restores_log_and_cursor() {
    // A failed attempt leaves the event log length and the cursor exactly
    // as recorded before the attempt began.
    let mut t = tok("<https://ok><not an autolink");
    let r = attempt(&mut t, StateName::AutolinkStart);
    assert_eq!(r, State::Matched);
    let events_before = t.events.len();
    let index_before = t.point.index;
    let r2 = attempt(&mut t, StateName::AutolinkStart);
    assert_eq!(r2, State::Nok);
    assert_eq!(t.events.len(), events_before);
    assert_eq!(t.point.index, index_before);
    assert_eq!(t.tokenize_state.marker, 0);
    assert_eq!(t.tokenize_state.size, 0);
}

#[test]
fn scheme_of_32_is_url_scheme_of_33_falls_through() {
    // 32 scheme bytes then `:` succeed as URL.
    let scheme32 = "a234567890123456789012345678901b";
    assert_eq!(scheme32.len(), 32);
    let (r, t) = autolink(&format!("<{}:x>", scheme32));
    assert_eq!(r, State::Matched);
    assert!(t.events.iter().any(|e| e.token == Token::AutolinkProtocol));
    // 33 fail the URL path; with no `@` the whole autolink is Nok.
    let scheme33 = "a234567890123456789012345678901bc";
    assert_eq!(scheme33.len(), 33);
    let (r, t) = autolink(&format!("<{}:x>", scheme33));
    assert_eq!(r, State::Nok);
    assert_eq!(t.events.len(), 0);
    // ... and with an `@` later they are read as an email instead.
    let (r, t) = autolink(&format!("<{}@example.com>", scheme33));
    assert_eq!(r, State::Matched);
    assert!(t.events.iter().any(|e| e.token == Token::AutolinkEmail));
}

#[test]
fn one_byte_scheme_is_not_a_url() {
    // A scheme has at least two bytes: `<a:b>` is no autolink.
    let (r, _) = autolink("<a:b>");
    assert_eq!(r, State::Nok);
    let (r, _) = autolink("<ab:c>");
    assert_eq!(r, State::Matched);
}

#[test]
fn url_body_rejects_control_space_and_lt() {
    assert_eq!(autolink("<https://a b>").0, State::Nok);
    assert_eq!(autolink("<https://a\u{1}b>").0, State::Nok);
    assert_eq!(autolink("<https://a\nb>").0, State::Nok);
    assert_eq!(autolink("<https://a<b>").0, State::Nok);
    assert_eq!(autolink("<https://a\u{7f}b>").0, State::Nok);
    // Other bytes pass through verbatim, multi-byte ones byte by byte.
    assert_eq!(autolink("<https://a\u{1F44D}b%>").0, State::Matched);
}

#[test]
fn url_without_closing_marker_is_nok() {
    assert_eq!(autolink("<https://example.com").0, State::Nok);
    assert_eq!(autolink("<").0, State::Nok);
    assert_eq!(autolink("x").0, State::Nok);
}

#[test]
fn domain_label_of_63_is_accepted_64_is_nok() {
    let label63: String = "a".repeat(63);
    let (r, _) = autolink(&format!("<u@{}>", label63));
    assert_eq!(r, State::Matched);
    let label64: String = "a".repeat(64);
    let (r, _) = autolink(&format!("<u@{}>", label64));
    assert_eq!(r, State::Nok);
    // The counter resets at each dot: two labels of 63 are fine.
    let (r, _) = autolink(&format!("<u@{}.{}>", label63, label63));
    assert_eq!(r, State::Matched);
}

#[test]
fn domain_label_edges() {
    // Labels must start and end alphanumeric; `-` only inside.
    assert_eq!(autolink("<a@b-c.d>").0, State::Matched);
    assert_eq!(autolink("<a@b->").0, State::Nok);
    assert_eq!(autolink("<a@-b>").0, State::Nok);
    assert_eq!(autolink("<a@b.>").0, State::Nok);
    assert_eq!(autolink("<a@.b>").0, State::Nok);
    assert_eq!(autolink("<a@b>").0, State::Matched);
    assert_eq!(autolink("<a@>").0, State::Nok);
}

#[test]
fn disabled_autolink_is_nok_without_consuming() {
    let mut t = Tokenizer::new(
        "<https://example.com>".as_bytes().to_vec(),
        Constructs { autolink: false, character_reference: true },
    );
    let r = attempt(&mut t, StateName::AutolinkStart);
    assert_eq!(r, State::Nok);
    assert_eq!(t.point.index, 0);
    assert_eq!(t.events.len(), 0);
}

#[test]
fn line_and_column_track_the_span() {
    let (r, t) = autolink("<ab:c>");
    assert_eq!(r, State::Matched);
    assert_eq!(t.point.line, 1);
    assert_eq!(t.point.column, 7);
}

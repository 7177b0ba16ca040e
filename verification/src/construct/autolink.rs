//! The autolink recognizer.
//!
//! Grammar: `'<' (url | email) '>'`; url = an alphabetic byte, one or more
//! further scheme bytes (at most 32 in all), `:`, then any bytes but ASCII
//! control, space and `<` until `>`; email = atext bytes, `@`, then domain
//! labels of at most 63 alphanumeric-or-`-` bytes each, separated by `.`,
//! each starting and ending alphanumeric, until `>`.
//!
//! The url-vs-email ambiguity is resolved mid-stream: the span after `<` is
//! scanned as a scheme candidate while it stays within the scheme class and
//! cap; a `:` commits to the URL form, anything else re-dispatches
//! (zero-width, via `Retry`) into the email path. The `AutolinkProtocol`
//! token is entered speculatively; when the email form terminates, the pair
//! is retagged in place to `AutolinkEmail`, since the true identity was
//! unknowable when the tokens were opened.
//!
//! Each function's contract pins the transition exactly; the equivalence of
//! the whole chain with [`crate::grammar`] is proved in [`crate::driver`].

use vstd::prelude::*;
use crate::char_class::{
    ascii_alpha, ascii_alphanumeric, atext_byte, is_ascii_alpha, is_ascii_alphanumeric,
    is_atext_byte, is_label_byte, is_scheme_byte, is_url_body_byte, label_byte, scheme_byte,
    url_body_byte,
};
use crate::grammar::{AUTOLINK_DOMAIN_SIZE_MAX, AUTOLINK_SCHEME_SIZE_MAX};
use crate::state::{State, StateName};
use crate::token::Token;
use crate::tokenizer::{Event, EventKind, Tokenizer, TokenizeState};

verus! {

/// Start of an autolink: on `<` (with the construct enabled), emit the
/// opening marker and speculatively enter `AutolinkProtocol`.
pub fn start(tokenizer: &mut Tokenizer) -> (r: State)
    requires
        old(tokenizer).wf(),
    ensures
        final(tokenizer).wf(),
        final(tokenizer).same_input(*old(tokenizer)),
        ({
            let t0 = *old(tokenizer);
            let t1 = *final(tokenizer);
            if t0.cur() == Some(0x3Cu8) && t0.constructs.autolink {
                &&& r == State::Next(StateName::AutolinkOpen)
                &&& t1.point == t0.next_point()
                &&& t1.events@ == t0.events@
                    .push(Event { kind: EventKind::Enter, token: Token::Autolink, point: t0.point })
                    .push(Event { kind: EventKind::Enter, token: Token::AutolinkMarker, point: t0.point })
                    .push(Event { kind: EventKind::Exit, token: Token::AutolinkMarker, point: t0.next_point() })
                    .push(Event { kind: EventKind::Enter, token: Token::AutolinkProtocol, point: t0.next_point() })
                &&& t1.stack@ == t0.stack@.push(Token::Autolink).push(Token::AutolinkProtocol)
                &&& t1.tokenize_state == t0.tokenize_state
            } else {
                r == State::Nok && t1 == t0
            }
        }),
{
    match tokenizer.current() {
        Some(b) => {
            if b == 0x3C && tokenizer.constructs.autolink {
                tokenizer.enter(Token::Autolink);
                tokenizer.enter(Token::AutolinkMarker);
                tokenizer.consume();
                tokenizer.exit(Token::AutolinkMarker);
                tokenizer.enter(Token::AutolinkProtocol);
                State::Next(StateName::AutolinkOpen)
            } else {
                State::Nok
            }
        },
        None => State::Nok,
    }
}

/// After `<`: an ASCII alphabetic byte keeps both forms possible; anything
/// else re-dispatches into the email atext path without consuming.
pub fn open(tokenizer: &mut Tokenizer) -> (r: State)
    requires
        old(tokenizer).wf(),
    ensures
        final(tokenizer).wf(),
        final(tokenizer).same_input(*old(tokenizer)),
        ({
            let t0 = *old(tokenizer);
            let t1 = *final(tokenizer);
            if t0.cur() is Some && is_ascii_alpha(t0.cur()->Some_0) {
                &&& r == State::Next(StateName::AutolinkSchemeOrEmailAtext)
                &&& t1.point == t0.next_point()
                &&& t1.events@ == t0.events@
                &&& t1.stack@ == t0.stack@
                &&& t1.tokenize_state == t0.tokenize_state
            } else {
                r == State::Retry(StateName::AutolinkEmailAtext) && t1 == t0
            }
        }),
{
    match tokenizer.current() {
        Some(b) => {
            if ascii_alpha(b) {
                tokenizer.consume();
                State::Next(StateName::AutolinkSchemeOrEmailAtext)
            } else {
                State::Retry(StateName::AutolinkEmailAtext)
            }
        },
        None => State::Retry(StateName::AutolinkEmailAtext),
    }
}

/// After the first byte of the protocol or email name: a scheme byte starts
/// counting the ambiguous run (the first byte counts too); anything else —
/// `:` included, so a scheme has at least two bytes — re-dispatches into
/// the email atext path.
pub fn scheme_or_email_atext(tokenizer: &mut Tokenizer) -> (r: State)
    requires
        old(tokenizer).wf(),
    ensures
        final(tokenizer).wf(),
        final(tokenizer).same_input(*old(tokenizer)),
        ({
            let t0 = *old(tokenizer);
            let t1 = *final(tokenizer);
            if t0.cur() is Some && is_scheme_byte(t0.cur()->Some_0) {
                &&& r == State::Retry(StateName::AutolinkSchemeInsideOrEmailAtext)
                &&& t1.point == t0.point
                &&& t1.events@ == t0.events@
                &&& t1.stack@ == t0.stack@
                &&& t1.tokenize_state == (TokenizeState { marker: t0.tokenize_state.marker, size: 1 })
            } else {
                r == State::Retry(StateName::AutolinkEmailAtext) && t1 == t0
            }
        }),
{
    match tokenizer.current() {
        Some(b) => {
            if scheme_byte(b) {
                tokenizer.tokenize_state.size = 1;
                State::Retry(StateName::AutolinkSchemeInsideOrEmailAtext)
            } else {
                State::Retry(StateName::AutolinkEmailAtext)
            }
        },
        None => State::Retry(StateName::AutolinkEmailAtext),
    }
}

/// Inside the ambiguous scheme-or-email run: `:` commits to the URL form
/// and resets the counter; a scheme byte under the cap continues the run;
/// anything else resets the counter and re-dispatches into the email path.
pub fn scheme_inside_or_email_atext(tokenizer: &mut Tokenizer) -> (r: State)
    requires
        old(tokenizer).wf(),
    ensures
        final(tokenizer).wf(),
        final(tokenizer).same_input(*old(tokenizer)),
        ({
            let t0 = *old(tokenizer);
            let t1 = *final(tokenizer);
            if t0.cur() == Some(0x3Au8) {
                &&& r == State::Next(StateName::AutolinkUrlInside)
                &&& t1.point == t0.next_point()
                &&& t1.events@ == t0.events@
                &&& t1.stack@ == t0.stack@
                &&& t1.tokenize_state == (TokenizeState { marker: t0.tokenize_state.marker, size: 0 })
            } else if t0.cur() is Some && is_scheme_byte(t0.cur()->Some_0)
                && t0.tokenize_state.size < AUTOLINK_SCHEME_SIZE_MAX {
                &&& r == State::Next(StateName::AutolinkSchemeInsideOrEmailAtext)
                &&& t1.point == t0.next_point()
                &&& t1.events@ == t0.events@
                &&& t1.stack@ == t0.stack@
                &&& t1.tokenize_state == (TokenizeState {
                    marker: t0.tokenize_state.marker,
                    size: (t0.tokenize_state.size + 1) as usize,
                })
            } else {
                &&& r == State::Retry(StateName::AutolinkEmailAtext)
                &&& t1.point == t0.point
                &&& t1.events@ == t0.events@
                &&& t1.stack@ == t0.stack@
                &&& t1.tokenize_state == (TokenizeState { marker: t0.tokenize_state.marker, size: 0 })
            }
        }),
{
    match tokenizer.current() {
        Some(b) => {
            if b == 0x3A {
                tokenizer.consume();
                tokenizer.tokenize_state.size = 0;
                State::Next(StateName::AutolinkUrlInside)
            } else if scheme_byte(b) && tokenizer.tokenize_state.size < AUTOLINK_SCHEME_SIZE_MAX {
                tokenizer.tokenize_state.size = tokenizer.tokenize_state.size + 1;
                tokenizer.consume();
                State::Next(StateName::AutolinkSchemeInsideOrEmailAtext)
            } else {
                tokenizer.tokenize_state.size = 0;
                State::Retry(StateName::AutolinkEmailAtext)
            }
        },
        None => {
            tokenizer.tokenize_state.size = 0;
            State::Retry(StateName::AutolinkEmailAtext)
        },
    }
}

/// Inside a URL body after the scheme and `:`: `>` closes the whole
/// autolink; ASCII control, space, `<` and end of input refuse it; any
/// other byte is consumed verbatim (multi-byte characters byte by byte).
pub fn url_inside(tokenizer: &mut Tokenizer) -> (r: State)
    requires
        old(tokenizer).wf(),
        old(tokenizer).stack@.len() >= 2,
        old(tokenizer).stack@.last() == Token::AutolinkProtocol,
        old(tokenizer).stack@[old(tokenizer).stack@.len() - 2] == Token::Autolink,
    ensures
        final(tokenizer).wf(),
        final(tokenizer).same_input(*old(tokenizer)),
        ({
            let t0 = *old(tokenizer);
            let t1 = *final(tokenizer);
            if t0.cur() == Some(0x3Eu8) {
                &&& r == State::Matched
                &&& t1.point == t0.next_point()
                &&& t1.events@ == t0.events@
                    .push(Event { kind: EventKind::Exit, token: Token::AutolinkProtocol, point: t0.point })
                    .push(Event { kind: EventKind::Enter, token: Token::AutolinkMarker, point: t0.point })
                    .push(Event { kind: EventKind::Exit, token: Token::AutolinkMarker, point: t0.next_point() })
                    .push(Event { kind: EventKind::Exit, token: Token::Autolink, point: t0.next_point() })
                &&& t1.stack@ == t0.stack@.drop_last().drop_last()
                &&& t1.tokenize_state == t0.tokenize_state
            } else if t0.cur() is Some && is_url_body_byte(t0.cur()->Some_0) {
                &&& r == State::Next(StateName::AutolinkUrlInside)
                &&& t1.point == t0.next_point()
                &&& t1.events@ == t0.events@
                &&& t1.stack@ == t0.stack@
                &&& t1.tokenize_state == t0.tokenize_state
            } else {
                r == State::Nok && t1 == t0
            }
        }),
{
    match tokenizer.current() {
        Some(b) => {
            if b == 0x3E {
                tokenizer.exit(Token::AutolinkProtocol);
                tokenizer.enter(Token::AutolinkMarker);
                tokenizer.consume();
                tokenizer.exit(Token::AutolinkMarker);
                tokenizer.exit(Token::Autolink);
                State::Matched
            } else if url_body_byte(b) {
                tokenizer.consume();
                State::Next(StateName::AutolinkUrlInside)
            } else {
                State::Nok
            }
        },
        None => State::Nok,
    }
}

/// Inside email atext: `@` moves to the domain; an atext byte continues;
/// anything else refuses the autolink.
pub fn email_atext(tokenizer: &mut Tokenizer) -> (r: State)
    requires
        old(tokenizer).wf(),
    ensures
        final(tokenizer).wf(),
        final(tokenizer).same_input(*old(tokenizer)),
        ({
            let t0 = *old(tokenizer);
            let t1 = *final(tokenizer);
            if t0.cur() == Some(0x40u8) {
                &&& r == State::Next(StateName::AutolinkEmailAtSignOrDot)
                &&& t1.point == t0.next_point()
                &&& t1.events@ == t0.events@
                &&& t1.stack@ == t0.stack@
                &&& t1.tokenize_state == t0.tokenize_state
            } else if t0.cur() is Some && is_atext_byte(t0.cur()->Some_0) {
                &&& r == State::Next(StateName::AutolinkEmailAtext)
                &&& t1.point == t0.next_point()
                &&& t1.events@ == t0.events@
                &&& t1.stack@ == t0.stack@
                &&& t1.tokenize_state == t0.tokenize_state
            } else {
                r == State::Nok && t1 == t0
            }
        }),
{
    match tokenizer.current() {
        Some(b) => {
            if b == 0x40 {
                tokenizer.consume();
                State::Next(StateName::AutolinkEmailAtSignOrDot)
            } else if atext_byte(b) {
                tokenizer.consume();
                State::Next(StateName::AutolinkEmailAtext)
            } else {
                State::Nok
            }
        },
        None => State::Nok,
    }
}

/// Directly after `@` or `.`: a domain label must start with an ASCII
/// alphanumeric byte; this state consumes nothing.
pub fn email_at_sign_or_dot(tokenizer: &mut Tokenizer) -> (r: State)
    requires
        old(tokenizer).wf(),
    ensures
        final(tokenizer).wf(),
        final(tokenizer).same_input(*old(tokenizer)),
        ({
            let t0 = *old(tokenizer);
            let t1 = *final(tokenizer);
            if t0.cur() is Some && is_ascii_alphanumeric(t0.cur()->Some_0) {
                r == State::Retry(StateName::AutolinkEmailValue) && t1 == t0
            } else {
                r == State::Nok && t1 == t0
            }
        }),
{
    match tokenizer.current() {
        Some(b) => {
            if ascii_alphanumeric(b) {
                State::Retry(StateName::AutolinkEmailValue)
            } else {
                State::Nok
            }
        },
        None => State::Nok,
    }
}

/// In a domain label directly after an alphanumeric byte, where `.` and `>`
/// are allowed: `.` resets the label counter and expects a new label; `>`
/// closes the autolink and retags the protocol pair to `AutolinkEmail` in
/// place; anything else re-dispatches into the plain label state.
pub fn email_label(tokenizer: &mut Tokenizer) -> (r: State)
    requires
        old(tokenizer).wf(),
        old(tokenizer).events@.len() >= 1,
        old(tokenizer).stack@.len() >= 2,
        old(tokenizer).stack@.last() == Token::AutolinkProtocol,
        old(tokenizer).stack@[old(tokenizer).stack@.len() - 2] == Token::Autolink,
    ensures
        final(tokenizer).wf(),
        final(tokenizer).same_input(*old(tokenizer)),
        ({
            let t0 = *old(tokenizer);
            let t1 = *final(tokenizer);
            let n = t0.events@.len();
            if t0.cur() == Some(0x2Eu8) {
                &&& r == State::Next(StateName::AutolinkEmailAtSignOrDot)
                &&& t1.point == t0.next_point()
                &&& t1.events@ == t0.events@
                &&& t1.stack@ == t0.stack@
                &&& t1.tokenize_state == (TokenizeState { marker: t0.tokenize_state.marker, size: 0 })
            } else if t0.cur() == Some(0x3Eu8) {
                &&& r == State::Matched
                &&& t1.point == t0.next_point()
                &&& t1.events@ == t0.events@
                    .update(n - 1, Event {
                        kind: t0.events@[n - 1].kind,
                        token: Token::AutolinkEmail,
                        point: t0.events@[n - 1].point,
                    })
                    .push(Event { kind: EventKind::Exit, token: Token::AutolinkEmail, point: t0.point })
                    .push(Event { kind: EventKind::Enter, token: Token::AutolinkMarker, point: t0.point })
                    .push(Event { kind: EventKind::Exit, token: Token::AutolinkMarker, point: t0.next_point() })
                    .push(Event { kind: EventKind::Exit, token: Token::Autolink, point: t0.next_point() })
                &&& t1.stack@ == t0.stack@.drop_last().drop_last()
                &&& t1.tokenize_state == (TokenizeState { marker: t0.tokenize_state.marker, size: 0 })
            } else {
                r == State::Retry(StateName::AutolinkEmailValue) && t1 == t0
            }
        }),
{
    match tokenizer.current() {
        Some(b) => {
            if b == 0x2E {
                tokenizer.tokenize_state.size = 0;
                tokenizer.consume();
                State::Next(StateName::AutolinkEmailAtSignOrDot)
            } else if b == 0x3E {
                tokenizer.tokenize_state.size = 0;
                let index = tokenizer.events.len();
                tokenizer.exit(Token::AutolinkProtocol);
                // The true identity was unknowable when the pair was opened:
                // rewrite it in place now that the email form terminated.
                tokenizer.retag(index - 1, Token::AutolinkEmail);
                tokenizer.retag(index, Token::AutolinkEmail);
                tokenizer.enter(Token::AutolinkMarker);
                tokenizer.consume();
                tokenizer.exit(Token::AutolinkMarker);
                tokenizer.exit(Token::Autolink);
                proof {
                    let t0 = *old(tokenizer);
                    let n = t0.events@.len();
                    assert(tokenizer.events@ =~= t0.events@
                        .update(n - 1, Event {
                            kind: t0.events@[n - 1].kind,
                            token: Token::AutolinkEmail,
                            point: t0.events@[n - 1].point,
                        })
                        .push(Event { kind: EventKind::Exit, token: Token::AutolinkEmail, point: t0.point })
                        .push(Event { kind: EventKind::Enter, token: Token::AutolinkMarker, point: t0.point })
                        .push(Event { kind: EventKind::Exit, token: Token::AutolinkMarker, point: t0.next_point() })
                        .push(Event { kind: EventKind::Exit, token: Token::Autolink, point: t0.next_point() }));
                }
                State::Matched
            } else {
                State::Retry(StateName::AutolinkEmailValue)
            }
        },
        None => State::Retry(StateName::AutolinkEmailValue),
    }
}

/// In a domain label where `.` and `>` are not allowed: an alphanumeric or
/// `-` byte under the label cap is consumed (an alphanumeric one moves to
/// the state where `.` and `>` are allowed); anything else refuses.
pub fn email_value(tokenizer: &mut Tokenizer) -> (r: State)
    requires
        old(tokenizer).wf(),
    ensures
        final(tokenizer).wf(),
        final(tokenizer).same_input(*old(tokenizer)),
        ({
            let t0 = *old(tokenizer);
            let t1 = *final(tokenizer);
            if t0.cur() is Some && is_label_byte(t0.cur()->Some_0)
                && t0.tokenize_state.size < AUTOLINK_DOMAIN_SIZE_MAX {
                &&& r == (if t0.cur() == Some(0x2Du8) {
                    State::Next(StateName::AutolinkEmailValue)
                } else {
                    State::Next(StateName::AutolinkEmailLabel)
                })
                &&& t1.point == t0.next_point()
                &&& t1.events@ == t0.events@
                &&& t1.stack@ == t0.stack@
                &&& t1.tokenize_state == (TokenizeState {
                    marker: t0.tokenize_state.marker,
                    size: (t0.tokenize_state.size + 1) as usize,
                })
            } else {
                &&& r == State::Nok
                &&& t1.point == t0.point
                &&& t1.events@ == t0.events@
                &&& t1.stack@ == t0.stack@
                &&& t1.tokenize_state == (TokenizeState { marker: t0.tokenize_state.marker, size: 0 })
            }
        }),
{
    match tokenizer.current() {
        Some(b) => {
            if label_byte(b) && tokenizer.tokenize_state.size < AUTOLINK_DOMAIN_SIZE_MAX {
                let name = if b == 0x2D {
                    StateName::AutolinkEmailValue
                } else {
                    StateName::AutolinkEmailLabel
                };
                tokenizer.tokenize_state.size = tokenizer.tokenize_state.size + 1;
                tokenizer.consume();
                State::Next(name)
            } else {
                tokenizer.tokenize_state.size = 0;
                State::Nok
            }
        },
        None => {
            tokenizer.tokenize_state.size = 0;
            State::Nok
        },
    }
}

} // verus!

//! The driving loop of the tokenizer: a trampoline over state-function
//! return values, with checkpoint and rollback around each construct
//! attempt.
//!
//! [`attempt`] is proved equivalent to the declarative grammar of
//! [`crate::grammar`]: it returns [`State::Matched`] exactly where the
//! construct's grammar matches (and the construct is enabled), the cursor
//! then stands exactly past the accepted span and the event log is extended
//! by exactly the construct's events; on [`State::Nok`] the cursor, the
//! event log and the open-token stack are restored to the checkpoint taken
//! before the attempt (rollback is side-effect-free).

use vstd::prelude::*;
use crate::char_class::{is_ascii_alpha, is_scheme_byte};
use crate::construct::autolink;
use crate::construct::character_reference;
use crate::grammar::{
    autolink_end, autolink_open_end, autolink_url_form, character_reference_end,
    character_reference_numeric_end, character_reference_open_end,
    character_reference_value_end, email_at_sign_or_dot_end, email_atext_end, email_label_end,
    email_value_end, scheme_inside_end, scheme_or_email_end, url_inside_end,
};
use crate::state::{State, StateName};
use crate::token::Token;
use crate::tokenizer::{Event, EventKind, Point, Tokenizer, TokenizeState};

verus! {

/// The point `k` non-line-feed bytes after `p`: the line is kept, the
/// column widens with the offset. Every byte of an accepted autolink or
/// character reference is proved distinct from the line feed, so the
/// points of all their events have this shape.
pub open spec fn advanced_by(p: Point, k: int) -> Point {
    Point {
        index: (p.index + k) as usize,
        line: p.line,
        column: (p.column + k) as usize,
    }
}

/// The events an accepted autolink of `n` bytes starting at `p0` appends:
/// the wrapping pair, the two markers, and the inner span, tagged
/// `AutolinkEmail` for the email form and `AutolinkProtocol` for the URL
/// form.
pub open spec fn autolink_events(email: bool, p0: Point, n: int) -> Seq<Event> {
    let inner = if email {
        Token::AutolinkEmail
    } else {
        Token::AutolinkProtocol
    };
    seq![
        Event { kind: EventKind::Enter, token: Token::Autolink, point: p0 },
        Event { kind: EventKind::Enter, token: Token::AutolinkMarker, point: p0 },
        Event { kind: EventKind::Exit, token: Token::AutolinkMarker, point: advanced_by(p0, 1) },
        Event { kind: EventKind::Enter, token: inner, point: advanced_by(p0, 1) },
        Event { kind: EventKind::Exit, token: inner, point: advanced_by(p0, n - 1) },
        Event { kind: EventKind::Enter, token: Token::AutolinkMarker, point: advanced_by(p0, n - 1) },
        Event { kind: EventKind::Exit, token: Token::AutolinkMarker, point: advanced_by(p0, n) },
        Event { kind: EventKind::Exit, token: Token::Autolink, point: advanced_by(p0, n) },
    ]
}

/// The first four autolink events, emitted by its `start` state while the
/// inner identity is still provisional.
pub open spec fn autolink_prefix_events(p0: Point) -> Seq<Event> {
    seq![
        Event { kind: EventKind::Enter, token: Token::Autolink, point: p0 },
        Event { kind: EventKind::Enter, token: Token::AutolinkMarker, point: p0 },
        Event { kind: EventKind::Exit, token: Token::AutolinkMarker, point: advanced_by(p0, 1) },
        Event { kind: EventKind::Enter, token: Token::AutolinkProtocol, point: advanced_by(p0, 1) },
    ]
}

/// The sentinel an accepted character reference at `i` runs its value
/// under, read off the bytes: `#` then `x`/`X` is hexadecimal, `#` alone
/// decimal, anything else named.
pub open spec fn character_reference_marker_of(b: Seq<u8>, i: int) -> u8 {
    if i + 1 < b.len() && b[i + 1] == 0x23 {
        if i + 2 < b.len() && (b[i + 2] == 0x78 || b[i + 2] == 0x58) {
            0x78u8
        } else {
            0x23u8
        }
    } else {
        0x26u8
    }
}

/// The events a character reference has emitted by the time its value run
/// begins, by sub-form.
pub open spec fn character_reference_value_prefix(marker: u8, p0: Point) -> Seq<Event> {
    let head = seq![
        Event { kind: EventKind::Enter, token: Token::CharacterReference, point: p0 },
        Event { kind: EventKind::Enter, token: Token::CharacterReferenceMarker, point: p0 },
        Event { kind: EventKind::Exit, token: Token::CharacterReferenceMarker, point: advanced_by(p0, 1) },
    ];
    if marker == 0x26 {
        head + seq![
            Event { kind: EventKind::Enter, token: Token::CharacterReferenceValue, point: advanced_by(p0, 1) },
        ]
    } else if marker == 0x23 {
        head + seq![
            Event { kind: EventKind::Enter, token: Token::CharacterReferenceMarkerNumeric, point: advanced_by(p0, 1) },
            Event { kind: EventKind::Exit, token: Token::CharacterReferenceMarkerNumeric, point: advanced_by(p0, 2) },
            Event { kind: EventKind::Enter, token: Token::CharacterReferenceValue, point: advanced_by(p0, 2) },
        ]
    } else {
        head + seq![
            Event { kind: EventKind::Enter, token: Token::CharacterReferenceMarkerNumeric, point: advanced_by(p0, 1) },
            Event { kind: EventKind::Exit, token: Token::CharacterReferenceMarkerNumeric, point: advanced_by(p0, 2) },
            Event { kind: EventKind::Enter, token: Token::CharacterReferenceMarkerHexadecimal, point: advanced_by(p0, 2) },
            Event { kind: EventKind::Exit, token: Token::CharacterReferenceMarkerHexadecimal, point: advanced_by(p0, 3) },
            Event { kind: EventKind::Enter, token: Token::CharacterReferenceValue, point: advanced_by(p0, 3) },
        ]
    }
}

/// The events an accepted character reference of `n` bytes starting at
/// `p0` appends, by sub-form sentinel.
pub open spec fn character_reference_events(marker: u8, p0: Point, n: int) -> Seq<Event> {
    character_reference_value_prefix(marker, p0) + seq![
        Event { kind: EventKind::Exit, token: Token::CharacterReferenceValue, point: advanced_by(p0, n - 1) },
        Event { kind: EventKind::Enter, token: Token::CharacterReferenceMarkerSemi, point: advanced_by(p0, n - 1) },
        Event { kind: EventKind::Exit, token: Token::CharacterReferenceMarkerSemi, point: advanced_by(p0, n) },
        Event { kind: EventKind::Exit, token: Token::CharacterReference, point: advanced_by(p0, n) },
    ]
}

/// Rank of an autolink state among the zero-width (`Retry`) dispatches:
/// every `Retry` strictly lowers it, every `Next` consumes a byte.
pub open spec fn autolink_rank(name: StateName) -> int {
    match name {
        StateName::AutolinkStart => 4,
        StateName::AutolinkOpen => 3,
        StateName::AutolinkSchemeOrEmailAtext => 3,
        StateName::AutolinkSchemeInsideOrEmailAtext => 2,
        StateName::AutolinkEmailAtSignOrDot => 1,
        StateName::AutolinkEmailLabel => 1,
        _ => 0,
    }
}

/// Rank of a character-reference state, as [`autolink_rank`].
pub open spec fn character_reference_rank(name: StateName) -> int {
    match name {
        StateName::CharacterReferenceStart => 3,
        StateName::CharacterReferenceOpen => 2,
        StateName::CharacterReferenceNumeric => 1,
        _ => 0,
    }
}

/// What holds of every in-flight autolink state after its `start`
/// committed: the four provisional events and the two open tokens stand,
/// the scratch marker is untouched, and the cursor has moved over
/// non-line-feed bytes only.
pub open spec fn autolink_common(t: Tokenizer, t0: Tokenizer) -> bool {
    let b = t0.bytes@;
    let i0 = t0.point.index as int;
    let j = t.point.index as int;
    &&& t.wf()
    &&& t.same_input(t0)
    &&& t0.constructs.autolink
    &&& 0 <= i0 < b.len() && b[i0] == 0x3C
    &&& i0 + 1 <= j <= b.len()
    &&& t.point == advanced_by(t0.point, j - i0)
    &&& t.events@ == t0.events@ + autolink_prefix_events(t0.point)
    &&& t.stack@ == t0.stack@.push(Token::Autolink).push(Token::AutolinkProtocol)
    &&& t.tokenize_state.marker == 0
}

/// The loop invariant of [`autolink_attempt`], by current state name: the
/// consumed span decomposes as the state demands, and the state's residual
/// grammar function equals the whole construct's.
pub open spec fn autolink_inv(t: Tokenizer, name: StateName, t0: Tokenizer) -> bool {
    let b = t0.bytes@;
    let i0 = t0.point.index as int;
    let j = t.point.index as int;
    let size = t.tokenize_state.size as int;
    match name {
        StateName::AutolinkStart => t == t0,
        StateName::AutolinkOpen => {
            &&& autolink_common(t, t0)
            &&& j == i0 + 1 && size == 0
            &&& autolink_open_end(b, j) == autolink_end(b, i0)
        },
        StateName::AutolinkSchemeOrEmailAtext => {
            &&& autolink_common(t, t0)
            &&& j == i0 + 2 && size == 0
            &&& is_ascii_alpha(b[i0 + 1])
            &&& scheme_or_email_end(b, j) == autolink_end(b, i0)
        },
        StateName::AutolinkSchemeInsideOrEmailAtext => {
            &&& autolink_common(t, t0)
            &&& 1 <= size <= 32 && j == i0 + 1 + size
            &&& is_ascii_alpha(b[i0 + 1])
            &&& (forall|k: int| i0 + 2 <= k < j ==> is_scheme_byte(#[trigger] b[k]))
            &&& (size == 1 ==> j < b.len() && is_scheme_byte(b[j]))
            &&& scheme_inside_end(b, j, size) == autolink_end(b, i0)
        },
        StateName::AutolinkUrlInside => {
            &&& autolink_common(t, t0)
            &&& size == 0
            &&& autolink_url_form(b, i0)
            &&& url_inside_end(b, j) == autolink_end(b, i0)
        },
        StateName::AutolinkEmailAtext => {
            &&& autolink_common(t, t0)
            &&& size == 0
            &&& !autolink_url_form(b, i0)
            &&& email_atext_end(b, j) == autolink_end(b, i0)
        },
        StateName::AutolinkEmailAtSignOrDot => {
            &&& autolink_common(t, t0)
            &&& size == 0
            &&& !autolink_url_form(b, i0)
            &&& email_at_sign_or_dot_end(b, j) == autolink_end(b, i0)
        },
        StateName::AutolinkEmailLabel => {
            &&& autolink_common(t, t0)
            &&& size >= 0
            &&& !autolink_url_form(b, i0)
            &&& email_label_end(b, j, size) == autolink_end(b, i0)
        },
        StateName::AutolinkEmailValue => {
            &&& autolink_common(t, t0)
            &&& size >= 0
            &&& !autolink_url_form(b, i0)
            &&& email_value_end(b, j, size) == autolink_end(b, i0)
        },
        _ => false,
    }
}

/// What an attempt driver promises: terminal result only; `Matched`
/// exactly where the grammar matches and the construct is enabled, with
/// the cursor past the span and the events appended; full restoration on
/// `Nok`.
pub open spec fn attempt_contract(
    t0: Tokenizer,
    t1: Tokenizer,
    r: State,
    enabled: bool,
    end: Option<int>,
    appended: Seq<Event>,
) -> bool {
    &&& (r == State::Matched || r == State::Nok)
    &&& (r == State::Matched <==> enabled && end is Some)
    &&& (r == State::Nok ==> t1.point == t0.point && t1.events@ == t0.events@)
    &&& (r == State::Matched ==> {
        &&& t1.point == advanced_by(t0.point, end->Some_0 - t0.point.index)
        &&& t1.point.index == end->Some_0
        &&& t1.events@ == t0.events@ + appended
    })
}

/// Run the autolink recognizer at the current position: the trampoline
/// applies each returned transition until `Matched` or `Nok`, rolling back
/// to the checkpoint on `Nok`.
pub fn autolink_attempt(tokenizer: &mut Tokenizer) -> (r: State)
    requires
        old(tokenizer).wf(),
        old(tokenizer).tokenize_state == (TokenizeState { marker: 0, size: 0 }),
    ensures
        final(tokenizer).wf(),
        final(tokenizer).same_input(*old(tokenizer)),
        final(tokenizer).stack@ == old(tokenizer).stack@,
        final(tokenizer).tokenize_state == (TokenizeState { marker: 0, size: 0 }),
        ({
            let t0 = *old(tokenizer);
            let b = t0.bytes@;
            let i0 = t0.point.index as int;
            let end = autolink_end(b, i0);
            attempt_contract(
                t0,
                *final(tokenizer),
                r,
                t0.constructs.autolink,
                end,
                autolink_events(!autolink_url_form(b, i0), t0.point, end->Some_0 - i0),
            )
        }),
{
    let ghost t0 = *old(tokenizer);
    let ghost b = t0.bytes@;
    let ghost i0 = t0.point.index as int;
    let checkpoint_events: usize = tokenizer.events.len();
    let checkpoint_stack: usize = tokenizer.stack.len();
    let saved_point: Point = tokenizer.point;
    let mut name = StateName::AutolinkStart;
    #[verifier::loop_isolation(false)]
    loop
        invariant
            autolink_inv(*tokenizer, name, t0),
        decreases
            b.len() - tokenizer.point.index,
            autolink_rank(name),
    {
        let ghost pre = *tokenizer;
        let s: State = match name {
            StateName::AutolinkStart => autolink::start(tokenizer),
            StateName::AutolinkOpen => autolink::open(tokenizer),
            StateName::AutolinkSchemeOrEmailAtext => autolink::scheme_or_email_atext(tokenizer),
            StateName::AutolinkSchemeInsideOrEmailAtext => autolink::scheme_inside_or_email_atext(
                tokenizer,
            ),
            StateName::AutolinkUrlInside => autolink::url_inside(tokenizer),
            StateName::AutolinkEmailAtext => autolink::email_atext(tokenizer),
            StateName::AutolinkEmailAtSignOrDot => autolink::email_at_sign_or_dot(tokenizer),
            StateName::AutolinkEmailLabel => autolink::email_label(tokenizer),
            StateName::AutolinkEmailValue => autolink::email_value(tokenizer),
            _ => {
                proof {
                    assert(false);
                }
                State::Nok
            },
        };
        proof {
            let j = pre.point.index as int;
            let size = pre.tokenize_state.size as int;
            if name == StateName::AutolinkStart && s != State::Nok {
                assert(pre.next_point() == advanced_by(t0.point, 1));
                assert(tokenizer.events@ =~= t0.events@ + autolink_prefix_events(t0.point));
                assert(autolink_open_end(b, i0 + 1) == autolink_end(b, i0));
            }
            if name == StateName::AutolinkOpen && s == State::Retry(
                StateName::AutolinkEmailAtext,
            ) {
                assert(!autolink_url_form(b, i0)) by {
                    if autolink_url_form(b, i0) {
                        let c = choose|c: int|
                            i0 + 3 <= c < b.len() && c <= i0 + 33 && #[trigger] b[c] == 0x3A
                                && is_ascii_alpha(b[i0 + 1]) && (forall|k: int|
                                i0 + 2 <= k < c ==> is_scheme_byte(#[trigger] b[k]));
                        assert(i0 + 1 < b.len() && is_ascii_alpha(b[i0 + 1]));
                        assert(false);
                    }
                }
            }
            if name == StateName::AutolinkSchemeOrEmailAtext && s == State::Retry(
                StateName::AutolinkEmailAtext,
            ) {
                assert(!autolink_url_form(b, i0)) by {
                    if autolink_url_form(b, i0) {
                        let c = choose|c: int|
                            i0 + 3 <= c < b.len() && c <= i0 + 33 && #[trigger] b[c] == 0x3A
                                && is_ascii_alpha(b[i0 + 1]) && (forall|k: int|
                                i0 + 2 <= k < c ==> is_scheme_byte(#[trigger] b[k]));
                        assert(is_scheme_byte(b[i0 + 2]));
                        assert(false);
                    }
                }
            }
            if name == StateName::AutolinkSchemeInsideOrEmailAtext {
                if s == State::Retry(StateName::AutolinkEmailAtext) {
                    assert(!autolink_url_form(b, i0)) by {
                        if autolink_url_form(b, i0) {
                            let c = choose|c: int|
                                i0 + 3 <= c < b.len() && c <= i0 + 33 && #[trigger] b[c] == 0x3A
                                    && is_ascii_alpha(b[i0 + 1]) && (forall|k: int|
                                    i0 + 2 <= k < c ==> is_scheme_byte(#[trigger] b[k]));
                            if c < j {
                                assert(is_scheme_byte(b[c]));
                            } else if c == j {
                                assert(pre.cur() == Some(b[j]));
                            } else {
                                assert(j < b.len() ==> is_scheme_byte(b[j]));
                                assert(j < c && c < b.len());
                            }
                            assert(false);
                        }
                    }
                }
                if s == State::Next(StateName::AutolinkUrlInside) {
                    assert(size >= 2) by {
                        if size == 1 {
                            assert(is_scheme_byte(b[j]));
                        }
                    }
                    assert(autolink_url_form(b, i0)) by {
                        assert(i0 + 3 <= j < b.len() && j <= i0 + 33 && b[j] == 0x3A
                            && is_ascii_alpha(b[i0 + 1]) && (forall|k: int|
                            i0 + 2 <= k < j ==> is_scheme_byte(#[trigger] b[k])));
                    }
                }
            }
        }
        match s {
            State::Matched => {
                proof {
                    let j = pre.point.index as int;
                    let n = j + 1 - i0;
                    if name == StateName::AutolinkUrlInside {
                        assert(autolink_end(b, i0) == Some(j + 1));
                        assert(pre.next_point() == advanced_by(t0.point, n));
                        assert(tokenizer.events@ =~= t0.events@ + autolink_events(
                            false,
                            t0.point,
                            n,
                        ));
                    } else {
                        assert(name == StateName::AutolinkEmailLabel);
                        assert(autolink_end(b, i0) == Some(j + 1));
                        assert(pre.next_point() == advanced_by(t0.point, n));
                        assert(tokenizer.events@ =~= t0.events@ + autolink_events(
                            true,
                            t0.point,
                            n,
                        ));
                    }
                    assert(tokenizer.stack@ =~= t0.stack@);
                }
                return State::Matched;
            },
            State::Nok => {
                proof {
                    assert(tokenizer.events@.subrange(0, checkpoint_events as int)
                        =~= t0.events@);
                    assert(tokenizer.stack@.subrange(0, checkpoint_stack as int) =~= t0.stack@);
                }
                tokenizer.events.truncate(checkpoint_events);
                tokenizer.stack.truncate(checkpoint_stack);
                tokenizer.point = saved_point;
                tokenizer.tokenize_state.marker = 0;
                tokenizer.tokenize_state.size = 0;
                return State::Nok;
            },
            State::Next(n) => {
                name = n;
            },
            State::Retry(n) => {
                name = n;
            },
        }
    }
}

/// The loop invariant of [`character_reference_attempt`], by current state
/// name.
pub open spec fn character_reference_inv(t: Tokenizer, name: StateName, t0: Tokenizer) -> bool {
    let b = t0.bytes@;
    let i0 = t0.point.index as int;
    let j = t.point.index as int;
    let size = t.tokenize_state.size as int;
    let marker = t.tokenize_state.marker;
    let common = {
        &&& t.wf()
        &&& t.same_input(t0)
        &&& t0.constructs.character_reference
        &&& 0 <= i0 < b.len() && b[i0] == 0x26
        &&& i0 + 1 <= j <= b.len()
        &&& t.point == advanced_by(t0.point, j - i0)
    };
    match name {
        StateName::CharacterReferenceStart => t == t0,
        StateName::CharacterReferenceOpen => {
            &&& common
            &&& j == i0 + 1
            &&& t.tokenize_state == (TokenizeState { marker: 0, size: 0 })
            &&& t.events@ == t0.events@ + character_reference_value_prefix(0x26, t0.point).take(3)
            &&& t.stack@ == t0.stack@.push(Token::CharacterReference)
            &&& character_reference_open_end(b, j) == character_reference_end(b, i0)
        },
        StateName::CharacterReferenceNumeric => {
            &&& common
            &&& j == i0 + 2
            &&& b[i0 + 1] == 0x23
            &&& t.tokenize_state == (TokenizeState { marker: 0, size: 0 })
            &&& t.events@ == t0.events@ + character_reference_value_prefix(0x23, t0.point).take(5)
            &&& t.stack@ == t0.stack@.push(Token::CharacterReference)
            &&& character_reference_numeric_end(b, j) == character_reference_end(b, i0)
        },
        StateName::CharacterReferenceValue => {
            let value_start = if marker == 0x26 {
                i0 + 1
            } else if marker == 0x23 {
                i0 + 2
            } else {
                i0 + 3
            };
            &&& common
            &&& marker == character_reference_marker_of(b, i0)
            &&& (marker == 0x26 || marker == 0x23 || marker == 0x78)
            &&& size == j - value_start && size >= 0
            &&& t.events@ == t0.events@ + character_reference_value_prefix(marker, t0.point)
            &&& t.stack@ == t0.stack@.push(Token::CharacterReference).push(
                Token::CharacterReferenceValue,
            )
            &&& character_reference_value_end(b, j, size, marker) == character_reference_end(
                b,
                i0,
            )
        },
        _ => false,
    }
}

/// Run the character-reference recognizer at the current position, as
/// [`autolink_attempt`] runs the autolink one.
pub fn character_reference_attempt(tokenizer: &mut Tokenizer) -> (r: State)
    requires
        old(tokenizer).wf(),
        old(tokenizer).tokenize_state == (TokenizeState { marker: 0, size: 0 }),
    ensures
        final(tokenizer).wf(),
        final(tokenizer).same_input(*old(tokenizer)),
        final(tokenizer).stack@ == old(tokenizer).stack@,
        final(tokenizer).tokenize_state == (TokenizeState { marker: 0, size: 0 }),
        ({
            let t0 = *old(tokenizer);
            let b = t0.bytes@;
            let i0 = t0.point.index as int;
            let end = character_reference_end(b, i0);
            attempt_contract(
                t0,
                *final(tokenizer),
                r,
                t0.constructs.character_reference,
                end,
                character_reference_events(
                    character_reference_marker_of(b, i0),
                    t0.point,
                    end->Some_0 - i0,
                ),
            )
        }),
{
    let ghost t0 = *old(tokenizer);
    let ghost b = t0.bytes@;
    let ghost i0 = t0.point.index as int;
    let checkpoint_events: usize = tokenizer.events.len();
    let checkpoint_stack: usize = tokenizer.stack.len();
    let saved_point: Point = tokenizer.point;
    let mut name = StateName::CharacterReferenceStart;
    #[verifier::loop_isolation(false)]
    loop
        invariant
            character_reference_inv(*tokenizer, name, t0),
        decreases
            b.len() - tokenizer.point.index,
            character_reference_rank(name),
    {
        let ghost pre = *tokenizer;
        let s: State = match name {
            StateName::CharacterReferenceStart => character_reference::start(tokenizer),
            StateName::CharacterReferenceOpen => character_reference::open(tokenizer),
            StateName::CharacterReferenceNumeric => character_reference::numeric(tokenizer),
            StateName::CharacterReferenceValue => character_reference::value(tokenizer),
            _ => {
                proof {
                    assert(false);
                }
                State::Nok
            },
        };
        proof {
            let j = pre.point.index as int;
            if name == StateName::CharacterReferenceStart && s != State::Nok {
                assert(pre.next_point() == advanced_by(t0.point, 1));
                assert(tokenizer.events@ =~= t0.events@ + character_reference_value_prefix(
                    0x26,
                    t0.point,
                ).take(3));
                assert(character_reference_open_end(b, i0 + 1) == character_reference_end(
                    b,
                    i0,
                ));
            }
            if name == StateName::CharacterReferenceOpen && s != State::Nok {
                if s == State::Next(StateName::CharacterReferenceNumeric) {
                    assert(tokenizer.events@ =~= t0.events@ + character_reference_value_prefix(
                        0x23,
                        t0.point,
                    ).take(5));
                } else {
                    assert(character_reference_marker_of(b, i0) == 0x26);
                    assert(tokenizer.events@ =~= t0.events@ + character_reference_value_prefix(
                        0x26,
                        t0.point,
                    ));
                }
            }
            if name == StateName::CharacterReferenceNumeric && s != State::Nok {
                if s == State::Next(StateName::CharacterReferenceValue) {
                    assert(character_reference_marker_of(b, i0) == 0x78);
                    assert(tokenizer.events@ =~= t0.events@ + character_reference_value_prefix(
                        0x78,
                        t0.point,
                    ));
                } else {
                    assert(character_reference_marker_of(b, i0) == 0x23);
                    assert(tokenizer.events@ =~= t0.events@ + character_reference_value_prefix(
                        0x23,
                        t0.point,
                    ));
                }
            }
        }
        match s {
            State::Matched => {
                proof {
                    let j = pre.point.index as int;
                    let n = j + 1 - i0;
                    let marker = pre.tokenize_state.marker;
                    assert(character_reference_end(b, i0) == Some(j + 1));
                    assert(pre.next_point() == advanced_by(t0.point, n));
                    assert(tokenizer.events@ =~= t0.events@ + character_reference_events(
                        marker,
                        t0.point,
                        n,
                    ));
                    assert(tokenizer.stack@ =~= t0.stack@);
                }
                return State::Matched;
            },
            State::Nok => {
                proof {
                    assert(tokenizer.events@.subrange(0, checkpoint_events as int)
                        =~= t0.events@);
                    assert(tokenizer.stack@.subrange(0, checkpoint_stack as int) =~= t0.stack@);
                }
                tokenizer.events.truncate(checkpoint_events);
                tokenizer.stack.truncate(checkpoint_stack);
                tokenizer.point = saved_point;
                tokenizer.tokenize_state.marker = 0;
                tokenizer.tokenize_state.size = 0;
                return State::Nok;
            },
            State::Next(n) => {
                name = n;
            },
            State::Retry(n) => {
                name = n;
            },
        }
    }
}

/// Try one construct at the current position, by its `start` state name:
/// the generic driver every construct plugs into. `Matched` commits the
/// events and the cursor; `Nok` restores both to the checkpoint taken
/// before the attempt.
pub fn attempt(tokenizer: &mut Tokenizer, start: StateName) -> (r: State)
    requires
        old(tokenizer).wf(),
        old(tokenizer).tokenize_state == (TokenizeState { marker: 0, size: 0 }),
        start == StateName::AutolinkStart || start == StateName::CharacterReferenceStart,
    ensures
        final(tokenizer).wf(),
        final(tokenizer).same_input(*old(tokenizer)),
        final(tokenizer).stack@ == old(tokenizer).stack@,
        final(tokenizer).tokenize_state == (TokenizeState { marker: 0, size: 0 }),
        ({
            let t0 = *old(tokenizer);
            let b = t0.bytes@;
            let i0 = t0.point.index as int;
            if start == StateName::AutolinkStart {
                let end = autolink_end(b, i0);
                attempt_contract(
                    t0,
                    *final(tokenizer),
                    r,
                    t0.constructs.autolink,
                    end,
                    autolink_events(
                        !autolink_url_form(b, i0),
                        t0.point,
                        end->Some_0 - i0,
                    ),
                )
            } else {
                let end = character_reference_end(b, i0);
                attempt_contract(
                    t0,
                    *final(tokenizer),
                    r,
                    t0.constructs.character_reference,
                    end,
                    character_reference_events(
                        character_reference_marker_of(b, i0),
                        t0.point,
                        end->Some_0 - i0,
                    ),
                )
            }
        }),
{
    if start == StateName::AutolinkStart {
        autolink_attempt(tokenizer)
    } else {
        character_reference_attempt(tokenizer)
    }
}

} // verus!

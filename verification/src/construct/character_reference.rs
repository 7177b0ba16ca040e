//! The character-reference recognizer.
//!
//! Grammar: `'&' (numeric | named) ';'`; numeric =
//! `'#' (('x' | 'X') 1*6 hexdigit | 1*7 digit)`; named = 1 to 31
//! alphanumeric bytes drawn from the closed reference table
//! ([`crate::entity`]): for the named sub-form, table membership gates
//! syntactic acceptance.
//!
//! The three sub-forms converge on one value state keyed by the scratch
//! marker sentinel (`&` named, `x` hexadecimal, `#` decimal), which selects
//! both the size cap and the byte class.
//!
//! Each function's contract pins the transition exactly; the equivalence of
//! the whole chain with [`crate::grammar`] is proved in [`crate::driver`].

use vstd::prelude::*;
use crate::char_class::{ascii_alphanumeric, ascii_digit, ascii_hexdigit};
use crate::entity::{is_named_reference, is_named_reference_spec};
use crate::grammar::{
    character_reference_value_byte, character_reference_value_max,
    CHARACTER_REFERENCE_DECIMAL_SIZE_MAX, CHARACTER_REFERENCE_HEXADECIMAL_SIZE_MAX,
    CHARACTER_REFERENCE_NAMED_SIZE_MAX,
};
use crate::state::{State, StateName};
use crate::token::Token;
use crate::tokenizer::{Event, EventKind, Tokenizer, TokenizeState};

verus! {

/// Start of a character reference: on `&` (with the construct enabled),
/// emit the marker and move to the dispatch on `#`.
pub fn start(tokenizer: &mut Tokenizer) -> (r: State)
    requires
        old(tokenizer).wf(),
    ensures
        final(tokenizer).wf(),
        final(tokenizer).same_input(*old(tokenizer)),
        ({
            let t0 = *old(tokenizer);
            let t1 = *final(tokenizer);
            if t0.cur() == Some(0x26u8) && t0.constructs.character_reference {
                &&& r == State::Next(StateName::CharacterReferenceOpen)
                &&& t1.point == t0.next_point()
                &&& t1.events@ == t0.events@
                    .push(Event { kind: EventKind::Enter, token: Token::CharacterReference, point: t0.point })
                    .push(Event { kind: EventKind::Enter, token: Token::CharacterReferenceMarker, point: t0.point })
                    .push(Event { kind: EventKind::Exit, token: Token::CharacterReferenceMarker, point: t0.next_point() })
                &&& t1.stack@ == t0.stack@.push(Token::CharacterReference)
                &&& t1.tokenize_state == t0.tokenize_state
            } else {
                r == State::Nok && t1 == t0
            }
        }),
{
    match tokenizer.current() {
        Some(b) => {
            if b == 0x26 && tokenizer.constructs.character_reference {
                tokenizer.enter(Token::CharacterReference);
                tokenizer.enter(Token::CharacterReferenceMarker);
                tokenizer.consume();
                tokenizer.exit(Token::CharacterReferenceMarker);
                State::Next(StateName::CharacterReferenceOpen)
            } else {
                State::Nok
            }
        },
        None => State::Nok,
    }
}

/// After `&`: `#` opens the numeric sub-forms; anything else selects the
/// named sub-form, sets its sentinel, and enters the value here without
/// consuming.
pub fn open(tokenizer: &mut Tokenizer) -> (r: State)
    requires
        old(tokenizer).wf(),
    ensures
        final(tokenizer).wf(),
        final(tokenizer).same_input(*old(tokenizer)),
        ({
            let t0 = *old(tokenizer);
            let t1 = *final(tokenizer);
            if t0.cur() == Some(0x23u8) {
                &&& r == State::Next(StateName::CharacterReferenceNumeric)
                &&& t1.point == t0.next_point()
                &&& t1.events@ == t0.events@
                    .push(Event { kind: EventKind::Enter, token: Token::CharacterReferenceMarkerNumeric, point: t0.point })
                    .push(Event { kind: EventKind::Exit, token: Token::CharacterReferenceMarkerNumeric, point: t0.next_point() })
                &&& t1.stack@ == t0.stack@
                &&& t1.tokenize_state == t0.tokenize_state
            } else {
                &&& r == State::Retry(StateName::CharacterReferenceValue)
                &&& t1.point == t0.point
                &&& t1.events@ == t0.events@
                    .push(Event { kind: EventKind::Enter, token: Token::CharacterReferenceValue, point: t0.point })
                &&& t1.stack@ == t0.stack@.push(Token::CharacterReferenceValue)
                &&& t1.tokenize_state == (TokenizeState { marker: 0x26, size: t0.tokenize_state.size })
            }
        }),
{
    let is_hash = match tokenizer.current() {
        Some(b) => b == 0x23,
        None => false,
    };
    if is_hash {
        tokenizer.enter(Token::CharacterReferenceMarkerNumeric);
        tokenizer.consume();
        tokenizer.exit(Token::CharacterReferenceMarkerNumeric);
        State::Next(StateName::CharacterReferenceNumeric)
    } else {
        tokenizer.tokenize_state.marker = 0x26;
        tokenizer.enter(Token::CharacterReferenceValue);
        State::Retry(StateName::CharacterReferenceValue)
    }
}

/// After `&#`: `x` or `X` selects hexadecimal and its sentinel; anything
/// else selects decimal, entering the value without consuming.
pub fn numeric(tokenizer: &mut Tokenizer) -> (r: State)
    requires
        old(tokenizer).wf(),
    ensures
        final(tokenizer).wf(),
        final(tokenizer).same_input(*old(tokenizer)),
        ({
            let t0 = *old(tokenizer);
            let t1 = *final(tokenizer);
            if t0.cur() == Some(0x78u8) || t0.cur() == Some(0x58u8) {
                &&& r == State::Next(StateName::CharacterReferenceValue)
                &&& t1.point == t0.next_point()
                &&& t1.events@ == t0.events@
                    .push(Event { kind: EventKind::Enter, token: Token::CharacterReferenceMarkerHexadecimal, point: t0.point })
                    .push(Event { kind: EventKind::Exit, token: Token::CharacterReferenceMarkerHexadecimal, point: t0.next_point() })
                    .push(Event { kind: EventKind::Enter, token: Token::CharacterReferenceValue, point: t0.next_point() })
                &&& t1.stack@ == t0.stack@.push(Token::CharacterReferenceValue)
                &&& t1.tokenize_state == (TokenizeState { marker: 0x78, size: t0.tokenize_state.size })
            } else {
                &&& r == State::Retry(StateName::CharacterReferenceValue)
                &&& t1.point == t0.point
                &&& t1.events@ == t0.events@
                    .push(Event { kind: EventKind::Enter, token: Token::CharacterReferenceValue, point: t0.point })
                &&& t1.stack@ == t0.stack@.push(Token::CharacterReferenceValue)
                &&& t1.tokenize_state == (TokenizeState { marker: 0x23, size: t0.tokenize_state.size })
            }
        }),
{
    let is_x = match tokenizer.current() {
        Some(b) => b == 0x78 || b == 0x58,
        None => false,
    };
    if is_x {
        tokenizer.enter(Token::CharacterReferenceMarkerHexadecimal);
        tokenizer.consume();
        tokenizer.exit(Token::CharacterReferenceMarkerHexadecimal);
        tokenizer.enter(Token::CharacterReferenceValue);
        tokenizer.tokenize_state.marker = 0x78;
        State::Next(StateName::CharacterReferenceValue)
    } else {
        tokenizer.enter(Token::CharacterReferenceValue);
        tokenizer.tokenize_state.marker = 0x23;
        State::Retry(StateName::CharacterReferenceValue)
    }
}

/// In the shared value run, after the markers: `;` closes the reference
/// once the run is nonempty — for the named sub-form only if the
/// accumulated name is in the reference table — and resets the scratch; a
/// byte of the sentinel's class under the sentinel's cap is consumed;
/// anything else refuses and resets the scratch.
pub fn value(tokenizer: &mut Tokenizer) -> (r: State)
    requires
        old(tokenizer).wf(),
        old(tokenizer).point.index >= old(tokenizer).tokenize_state.size,
        old(tokenizer).stack@.len() >= 2,
        old(tokenizer).stack@.last() == Token::CharacterReferenceValue,
        old(tokenizer).stack@[old(tokenizer).stack@.len() - 2] == Token::CharacterReference,
        old(tokenizer).tokenize_state.marker == 0x26 || old(tokenizer).tokenize_state.marker == 0x78
            || old(tokenizer).tokenize_state.marker == 0x23,
    ensures
        final(tokenizer).wf(),
        final(tokenizer).same_input(*old(tokenizer)),
        ({
            let t0 = *old(tokenizer);
            let t1 = *final(tokenizer);
            let j = t0.point.index as int;
            let size = t0.tokenize_state.size as int;
            let marker = t0.tokenize_state.marker;
            if t0.cur() == Some(0x3Bu8) && size > 0
                && (marker == 0x26 ==> is_named_reference_spec(t0.bytes@.subrange(j - size, j))) {
                &&& r == State::Matched
                &&& t1.point == t0.next_point()
                &&& t1.events@ == t0.events@
                    .push(Event { kind: EventKind::Exit, token: Token::CharacterReferenceValue, point: t0.point })
                    .push(Event { kind: EventKind::Enter, token: Token::CharacterReferenceMarkerSemi, point: t0.point })
                    .push(Event { kind: EventKind::Exit, token: Token::CharacterReferenceMarkerSemi, point: t0.next_point() })
                    .push(Event { kind: EventKind::Exit, token: Token::CharacterReference, point: t0.next_point() })
                &&& t1.stack@ == t0.stack@.drop_last().drop_last()
                &&& t1.tokenize_state == (TokenizeState { marker: 0, size: 0 })
            } else if t0.cur() is Some && character_reference_value_byte(marker, t0.cur()->Some_0)
                && size < character_reference_value_max(marker) {
                &&& r == State::Next(StateName::CharacterReferenceValue)
                &&& t1.point == t0.next_point()
                &&& t1.events@ == t0.events@
                &&& t1.stack@ == t0.stack@
                &&& t1.tokenize_state == (TokenizeState {
                    marker,
                    size: (t0.tokenize_state.size + 1) as usize,
                })
            } else {
                &&& r == State::Nok
                &&& t1.point == t0.point
                &&& t1.events@ == t0.events@
                &&& t1.stack@ == t0.stack@
                &&& t1.tokenize_state == (TokenizeState { marker: 0, size: 0 })
            }
        }),
{
    let c = tokenizer.current();
    let marker = tokenizer.tokenize_state.marker;
    let size = tokenizer.tokenize_state.size;
    let is_semi = match c {
        Some(b) => b == 0x3B,
        None => false,
    };
    if is_semi && size > 0 {
        if marker == 0x26 {
            // The named sub-form is accepted only when the accumulated name
            // is an entry of the reference table: semantic validation gates
            // syntactic acceptance.
            let start = tokenizer.point.index - size;
            let known = is_named_reference(&tokenizer.bytes, start, tokenizer.point.index);
            if !known {
                tokenizer.tokenize_state.marker = 0;
                tokenizer.tokenize_state.size = 0;
                return State::Nok;
            }
        }
        tokenizer.exit(Token::CharacterReferenceValue);
        tokenizer.enter(Token::CharacterReferenceMarkerSemi);
        tokenizer.consume();
        tokenizer.exit(Token::CharacterReferenceMarkerSemi);
        tokenizer.exit(Token::CharacterReference);
        tokenizer.tokenize_state.marker = 0;
        tokenizer.tokenize_state.size = 0;
        return State::Matched;
    }
    let fits = match c {
        Some(b) => {
            let in_class = if marker == 0x26 {
                ascii_alphanumeric(b)
            } else if marker == 0x78 {
                ascii_hexdigit(b)
            } else {
                ascii_digit(b)
            };
            let max = if marker == 0x26 {
                CHARACTER_REFERENCE_NAMED_SIZE_MAX
            } else if marker == 0x78 {
                CHARACTER_REFERENCE_HEXADECIMAL_SIZE_MAX
            } else {
                CHARACTER_REFERENCE_DECIMAL_SIZE_MAX
            };
            in_class && size < max
        },
        None => false,
    };
    if fits {
        tokenizer.tokenize_state.size = size + 1;
        tokenizer.consume();
        return State::Next(StateName::CharacterReferenceValue);
    }
    tokenizer.tokenize_state.marker = 0;
    tokenizer.tokenize_state.size = 0;
    State::Nok
}

} // verus!

//! The tokenizer engine: byte cursor, current point, event log, per-attempt
//! scratch, and the enter/exit/consume/retag primitives that every construct
//! recognizer plugs into.
//!
//! The engine owns the source bytes and the construct toggles for the whole
//! parse; a construct attempt is bounded by a checkpoint and either committed
//! (`Ok`) or rolled back (`Nok`) by the driver (see [`crate::driver`]).

use vstd::prelude::*;
use crate::token::Token;

verus! {

/// A position in the source: byte offset plus derived line/column for
/// diagnostics. Immutable snapshot, cheap to copy.
#[derive(Clone, Copy, Debug, PartialEq, Eq, Structural)]
pub struct Point {
    /// Byte offset into the source.
    pub index: usize,
    /// 1-based line.
    pub line: usize,
    /// 1-based column in bytes.
    pub column: usize,
}

/// Whether an event opens or closes a token.
#[derive(Clone, Copy, Debug, PartialEq, Eq, Structural)]
pub enum EventKind {
    Enter,
    Exit,
}

/// One record of the event log.
#[derive(Clone, Copy, Debug, PartialEq, Eq, Structural)]
pub struct Event {
    pub kind: EventKind,
    pub token: Token,
    pub point: Point,
}

/// Scratch record shared by the state functions of one construct attempt:
/// one marker byte and one size counter. Both are `0` outside an attempt.
#[derive(Clone, Copy, Debug, PartialEq, Eq, Structural)]
pub struct TokenizeState {
    pub marker: u8,
    pub size: usize,
}

/// Feature toggles, one per construct; a disabled construct's `start`
/// returns `Nok` unconditionally without consuming.
#[derive(Clone, Copy, Debug, PartialEq, Eq, Structural)]
pub struct Constructs {
    pub autolink: bool,
    pub character_reference: bool,
}

/// The tokenizer: source bytes and toggles (read-only for the whole parse),
/// the cursor, the event log, the open-token stack, and the scratch record.
pub struct Tokenizer {
    /// The full source byte buffer; never mutated.
    pub bytes: Vec<u8>,
    /// The enabled constructs; never mutated.
    pub constructs: Constructs,
    /// The current point; `point.index` is the cursor.
    pub point: Point,
    /// The event log: append-only during an attempt, except that the driver
    /// rolls it back on `Nok` and a recognizer may retag an entry in place.
    pub events: Vec<Event>,
    /// Tokens entered but not yet exited, innermost last.
    pub stack: Vec<Token>,
    /// The per-attempt scratch record.
    pub tokenize_state: TokenizeState,
}

impl Tokenizer {
    /// Well-formedness: the cursor stays within the source (one past the end
    /// means end of input), the buffer leaves room for point arithmetic, and
    /// line/column are the 1-based coordinates derived from consuming.
    pub open spec fn wf(self) -> bool {
        &&& self.point.index <= self.bytes@.len()
        &&& self.bytes@.len() + 2 <= usize::MAX
        &&& 1 <= self.point.line
        &&& 1 <= self.point.column
        &&& self.point.line + self.point.column <= self.point.index + 2
    }

    /// The byte under the cursor, or `None` at end of input.
    pub open spec fn cur(self) -> Option<u8> {
        if self.point.index < self.bytes@.len() {
            Some(self.bytes@[self.point.index as int])
        } else {
            None
        }
    }

    /// The point after consuming the byte under the cursor: a line feed
    /// starts a new line, any other byte widens the current one.
    pub open spec fn next_point(self) -> Point {
        if self.cur() == Some(0x0Au8) {
            Point {
                index: (self.point.index + 1) as usize,
                line: (self.point.line + 1) as usize,
                column: 1,
            }
        } else {
            Point {
                index: (self.point.index + 1) as usize,
                line: self.point.line,
                column: (self.point.column + 1) as usize,
            }
        }
    }

    /// The source and the toggles are the same in both: no primitive and no
    /// recognizer ever changes them.
    pub open spec fn same_input(self, other: Tokenizer) -> bool {
        self.bytes == other.bytes && self.constructs == other.constructs
    }

    /// A fresh tokenizer at the start of the source, with an empty log.
    pub fn new(bytes: Vec<u8>, constructs: Constructs) -> (t: Tokenizer)
        requires
            bytes@.len() + 2 <= usize::MAX,
        ensures
            t.wf(),
            t.bytes == bytes,
            t.constructs == constructs,
            t.point == (Point { index: 0, line: 1, column: 1 }),
            t.events@ == Seq::<Event>::empty(),
            t.stack@ == Seq::<Token>::empty(),
            t.tokenize_state == (TokenizeState { marker: 0, size: 0 }),
    {
        Tokenizer {
            bytes,
            constructs,
            point: Point { index: 0, line: 1, column: 1 },
            events: Vec::new(),
            stack: Vec::new(),
            tokenize_state: TokenizeState { marker: 0, size: 0 },
        }
    }

    /// The byte under the cursor, or `None` at end of input.
    pub fn current(&self) -> (r: Option<u8>)
        ensures
            r == self.cur(),
    {
        if self.point.index < self.bytes.len() {
            Some(self.bytes[self.point.index])
        } else {
            None
        }
    }

    /// Push an Enter event for `token` at the current point; consumes
    /// nothing.
    pub fn enter(&mut self, token: Token)
        ensures
            final(self).events@ == old(self).events@.push(
                Event { kind: EventKind::Enter, token, point: old(self).point },
            ),
            final(self).stack@ == old(self).stack@.push(token),
            final(self).point == old(self).point,
            final(self).tokenize_state == old(self).tokenize_state,
            final(self).same_input(*old(self)),
    {
        self.events.push(Event { kind: EventKind::Enter, token, point: self.point });
        self.stack.push(token);
    }

    /// Push an Exit event for `token` at the current point, closing the most
    /// recent unmatched Enter. A mismatched kind or an empty stack is a
    /// defect in a recognizer, not an input condition, so it is excluded
    /// here rather than handled.
    pub fn exit(&mut self, token: Token)
        requires
            old(self).stack@.len() > 0,
            old(self).stack@.last() == token,
        ensures
            final(self).events@ == old(self).events@.push(
                Event { kind: EventKind::Exit, token, point: old(self).point },
            ),
            final(self).stack@ == old(self).stack@.drop_last(),
            final(self).point == old(self).point,
            final(self).tokenize_state == old(self).tokenize_state,
            final(self).same_input(*old(self)),
    {
        self.events.push(Event { kind: EventKind::Exit, token, point: self.point });
        self.stack.pop();
        proof {
            assert(final(self).stack@ =~= old(self).stack@.drop_last());
        }
    }

    /// Advance the cursor by exactly one byte (not one Unicode scalar).
    pub fn consume(&mut self)
        requires
            old(self).wf(),
            old(self).cur() is Some,
        ensures
            final(self).wf(),
            final(self).point == old(self).next_point(),
            final(self).events@ == old(self).events@,
            final(self).stack@ == old(self).stack@,
            final(self).tokenize_state == old(self).tokenize_state,
            final(self).same_input(*old(self)),
    {
        let b = self.bytes[self.point.index];
        if b == 0x0A {
            self.point = Point {
                index: self.point.index + 1,
                line: self.point.line + 1,
                column: 1,
            };
        } else {
            self.point = Point {
                index: self.point.index + 1,
                line: self.point.line,
                column: self.point.column + 1,
            };
        }
    }

    /// Reassign the token kind of the event at `index`, keeping its kind and
    /// point: the retroactive retag used once a provisional identity
    /// resolves. Restricted by the recognizers to a same-span Enter/Exit
    /// pair already closed logically.
    pub fn retag(&mut self, index: usize, token: Token)
        requires
            index < old(self).events@.len(),
        ensures
            final(self).events@ == old(self).events@.update(
                index as int,
                Event {
                    kind: old(self).events@[index as int].kind,
                    token,
                    point: old(self).events@[index as int].point,
                },
            ),
            final(self).stack@ == old(self).stack@,
            final(self).point == old(self).point,
            final(self).tokenize_state == old(self).tokenize_state,
            final(self).same_input(*old(self)),
    {
        let e = self.events[index];
        self.events[index] = Event { kind: e.kind, token, point: e.point };
    }
}

} // verus!

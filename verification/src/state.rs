//! The state-function return contract of the tokenizer engine.
//!
//! Every state function inspects the byte under the cursor and returns a
//! [`State`]; the engine applies it and loops (a trampoline, not recursion).

use vstd::prelude::*;

verus! {

/// Names of the state functions, used by the engine to dispatch the next
/// step of a construct.
#[derive(Clone, Copy, Debug, PartialEq, Eq, Structural)]
pub enum StateName {
    AutolinkStart,
    AutolinkOpen,
    AutolinkSchemeOrEmailAtext,
    AutolinkSchemeInsideOrEmailAtext,
    AutolinkUrlInside,
    AutolinkEmailAtext,
    AutolinkEmailAtSignOrDot,
    AutolinkEmailLabel,
    AutolinkEmailValue,
    CharacterReferenceStart,
    CharacterReferenceOpen,
    CharacterReferenceNumeric,
    CharacterReferenceValue,
}

/// Transition returned by a state function.
#[derive(Clone, Copy, Debug, PartialEq, Eq, Structural)]
pub enum State {
    /// The construct matched completely; cursor and event log stand.
    Matched,
    /// The construct does not match here; the engine rolls back to the
    /// checkpoint taken before the attempt.
    Nok,
    /// Continue with the named state function on the next byte (the byte
    /// under the cursor was consumed by the function that returned this).
    Next(StateName),
    /// Call the named state function again on the same byte, without
    /// consuming: zero-width dispatch between sub-grammars.
    Retry(StateName),
}

} // verus!

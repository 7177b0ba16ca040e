//! The closed enumeration of token kinds that the tokenizer emits.
//!
//! Adding a construct means adding kinds here; the engine itself never
//! changes.

use vstd::prelude::*;

verus! {

/// Kind of a token boundary in the event log.
#[derive(Clone, Copy, Debug, PartialEq, Eq, Structural)]
pub enum Token {
    /// Whole autolink construct: `<https://example.com>` or `<user@example.com>`.
    Autolink,
    /// An autolink recognized as an email address.
    AutolinkEmail,
    /// The `<` or `>` delimiter of an autolink.
    AutolinkMarker,
    /// An autolink recognized as a URL (scheme, colon, body).
    AutolinkProtocol,
    /// Whole character-reference construct: `&amp;`, `&#123;`, `&#x9;`.
    CharacterReference,
    /// The `&` marker.
    CharacterReferenceMarker,
    /// The `x` or `X` marker of a hexadecimal reference.
    CharacterReferenceMarkerHexadecimal,
    /// The `#` marker of a numeric reference.
    CharacterReferenceMarkerNumeric,
    /// The closing `;` marker.
    CharacterReferenceMarkerSemi,
    /// The name or digit run of a character reference.
    CharacterReferenceValue,
}

} // verus!

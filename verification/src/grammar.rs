//! The two micro-grammars, stated declaratively over the source bytes.
//!
//! Each function gives, for a position in the byte sequence, the position
//! just past the accepted span, or `None` where the grammar does not match.
//! Both grammars decide on one byte of lookahead, so the accepted span is a
//! function of the bytes alone; the recognizers are proved to return
//! `Matched` exactly where these functions return `Some`, ending exactly
//! there (see [`crate::driver`]).

use vstd::prelude::*;
use crate::char_class::{
    is_ascii_alpha, is_ascii_alphanumeric, is_ascii_digit, is_ascii_hexdigit, is_atext_byte,
    is_label_byte, is_scheme_byte, is_url_body_byte,
};
use crate::entity::is_named_reference_spec;

verus! {

/// Scheme length cap of a URL autolink, first byte included.
pub const AUTOLINK_SCHEME_SIZE_MAX: usize = 32;

/// Length cap of each email domain label.
pub const AUTOLINK_DOMAIN_SIZE_MAX: usize = 63;

/// Length cap of the name of a named character reference.
pub const CHARACTER_REFERENCE_NAMED_SIZE_MAX: usize = 31;

/// Length cap of the digit run of a decimal character reference.
pub const CHARACTER_REFERENCE_DECIMAL_SIZE_MAX: usize = 7;

/// Length cap of the digit run of a hexadecimal character reference.
pub const CHARACTER_REFERENCE_HEXADECIMAL_SIZE_MAX: usize = 6;

/// An autolink starts at `i` with `<`: `'<' (url | email) '>'`.
pub open spec fn autolink_end(b: Seq<u8>, i: int) -> Option<int> {
    if 0 <= i < b.len() && b[i] == 0x3C {  // `<`
        autolink_open_end(b, i + 1)
    } else {
        None
    }
}

/// After `<`: an alphabetic first byte opens the ambiguous scheme-or-email
/// run; anything else can only be an email.
pub open spec fn autolink_open_end(b: Seq<u8>, j: int) -> Option<int>
    decreases b.len() - j, 4int
    when j >= 0
{
    if j < b.len() && is_ascii_alpha(b[j]) {
        scheme_or_email_end(b, j + 1)
    } else {
        email_atext_end(b, j)
    }
}

/// After one alphabetic byte: a second scheme byte keeps the URL form
/// possible; anything else (including `:`, so a scheme has at least two
/// bytes) falls to the email form.
pub open spec fn scheme_or_email_end(b: Seq<u8>, j: int) -> Option<int>
    decreases b.len() - j, 3int
    when j >= 1
{
    if j < b.len() && is_scheme_byte(b[j]) {
        scheme_inside_end(b, j, 1)
    } else {
        email_atext_end(b, j)
    }
}

/// In the ambiguous scheme run, `size` bytes consumed: `:` within the cap
/// commits to the URL form; a scheme byte under the cap continues;
/// anything else falls to the email form.
pub open spec fn scheme_inside_end(b: Seq<u8>, j: int, size: int) -> Option<int>
    decreases b.len() - j, 2int
    when j >= 1 && size >= 1
{
    if j < b.len() && b[j] == 0x3A {  // `:`
        url_inside_end(b, j + 1)
    } else if j < b.len() && is_scheme_byte(b[j]) && size < AUTOLINK_SCHEME_SIZE_MAX {
        scheme_inside_end(b, j + 1, size + 1)
    } else {
        email_atext_end(b, j)
    }
}

/// In a URL body after the scheme and `:`: the first `>` closes the
/// autolink; control bytes, space, `<` and end of input refuse it.
pub open spec fn url_inside_end(b: Seq<u8>, j: int) -> Option<int>
    decreases b.len() - j, 0int
    when j >= 0
{
    if j < b.len() && b[j] == 0x3E {  // `>`
        Some(j + 1)
    } else if j < b.len() && is_url_body_byte(b[j]) {
        url_inside_end(b, j + 1)
    } else {
        None
    }
}

/// In the atext run of an email: `@` moves to the domain; atext continues;
/// anything else refuses.
pub open spec fn email_atext_end(b: Seq<u8>, j: int) -> Option<int>
    decreases b.len() - j, 0int
    when j >= 0
{
    if j < b.len() && b[j] == 0x40 {  // `@`
        email_at_sign_or_dot_end(b, j + 1)
    } else if j < b.len() && is_atext_byte(b[j]) {
        email_atext_end(b, j + 1)
    } else {
        None
    }
}

/// Directly after `@` or `.`: each domain label must start alphanumeric.
pub open spec fn email_at_sign_or_dot_end(b: Seq<u8>, j: int) -> Option<int>
    decreases b.len() - j, 1int
    when j >= 0
{
    if j < b.len() && is_ascii_alphanumeric(b[j]) {
        email_value_end(b, j, 0)
    } else {
        None
    }
}

/// In a domain label where `.` and `>` are not allowed (at its start, or
/// directly after `-`): a label byte under the cap continues, an
/// alphanumeric one into the position where they are.
pub open spec fn email_value_end(b: Seq<u8>, j: int, size: int) -> Option<int>
    decreases b.len() - j, 0int
    when j >= 0 && size >= 0
{
    if j < b.len() && is_label_byte(b[j]) && size < AUTOLINK_DOMAIN_SIZE_MAX {
        if b[j] == 0x2D {  // `-`
            email_value_end(b, j + 1, size + 1)
        } else {
            email_label_end(b, j + 1, size + 1)
        }
    } else {
        None
    }
}

/// In a domain label directly after an alphanumeric byte: `.` starts the
/// next label, `>` closes the whole autolink, anything else continues the
/// label.
pub open spec fn email_label_end(b: Seq<u8>, j: int, size: int) -> Option<int>
    decreases b.len() - j, 1int
    when j >= 0 && size >= 0
{
    if j < b.len() && b[j] == 0x2E {  // `.`
        email_at_sign_or_dot_end(b, j + 1)
    } else if j < b.len() && b[j] == 0x3E {  // `>`
        Some(j + 1)
    } else {
        email_value_end(b, j, size)
    }
}

/// Whether the autolink starting at `i` takes the URL form: some scheme of
/// 2 to 32 bytes (alphabetic first, scheme bytes after) directly followed
/// by `:`. Exactly one of the two forms matches any accepted autolink,
/// since `:` can occur in no email autolink.
pub open spec fn autolink_url_form(b: Seq<u8>, i: int) -> bool {
    exists|c: int|
        i + 3 <= c < b.len() && c <= i + 1 + AUTOLINK_SCHEME_SIZE_MAX && #[trigger] b[c] == 0x3A
            && is_ascii_alpha(b[i + 1]) && (forall|k: int| i + 2 <= k < c ==> is_scheme_byte(#[trigger] b[k]))
}

/// A character reference starts at `i` with `&`:
/// `'&' (numeric | named) ';'`.
pub open spec fn character_reference_end(b: Seq<u8>, i: int) -> Option<int> {
    if 0 <= i < b.len() && b[i] == 0x26 {  // `&`
        character_reference_open_end(b, i + 1)
    } else {
        None
    }
}

/// After `&`: `#` selects the numeric sub-forms, anything else the named
/// one, whose value starts here.
pub open spec fn character_reference_open_end(b: Seq<u8>, j: int) -> Option<int>
    decreases b.len() - j, 2int
    when j >= 1
{
    if j < b.len() && b[j] == 0x23 {  // `#`
        character_reference_numeric_end(b, j + 1)
    } else {
        character_reference_value_end(b, j, 0, 0x26)
    }
}

/// After `&#`: `x` or `X` selects hexadecimal, anything else decimal.
pub open spec fn character_reference_numeric_end(b: Seq<u8>, j: int) -> Option<int>
    decreases b.len() - j, 1int
    when j >= 2
{
    if j < b.len() && (b[j] == 0x78 || b[j] == 0x58) {  // `x` | `X`
        character_reference_value_end(b, j + 1, 0, 0x78)
    } else {
        character_reference_value_end(b, j, 0, 0x23)
    }
}

/// The byte class of a character-reference value, selected by the marker
/// sentinel: alphanumeric for named (`&`), hexadecimal digits for `x`,
/// digits for `#`.
pub open spec fn character_reference_value_byte(marker: u8, byte: u8) -> bool {
    if marker == 0x26 {
        is_ascii_alphanumeric(byte)
    } else if marker == 0x78 {
        is_ascii_hexdigit(byte)
    } else {
        is_ascii_digit(byte)
    }
}

/// The size cap of a character-reference value, selected by the marker
/// sentinel.
pub open spec fn character_reference_value_max(marker: u8) -> int {
    if marker == 0x26 {
        CHARACTER_REFERENCE_NAMED_SIZE_MAX as int
    } else if marker == 0x78 {
        CHARACTER_REFERENCE_HEXADECIMAL_SIZE_MAX as int
    } else {
        CHARACTER_REFERENCE_DECIMAL_SIZE_MAX as int
    }
}

/// In the shared value run, `size` bytes consumed since the value started
/// at `j - size`: `;` closes once the run is nonempty — and, for the named
/// sub-form, only if the accumulated name is in the reference table — a
/// class byte under the cap continues, anything else refuses.
pub open spec fn character_reference_value_end(b: Seq<u8>, j: int, size: int, marker: u8) -> Option<int>
    decreases b.len() - j, 0int
    when j >= size >= 0
{
    if j < b.len() && b[j] == 0x3B && size > 0
        && (marker == 0x26 ==> is_named_reference_spec(b.subrange(j - size, j))) {  // `;`
        Some(j + 1)
    } else if j < b.len() && character_reference_value_byte(marker, b[j])
        && size < character_reference_value_max(marker) {
        character_reference_value_end(b, j + 1, size + 1, marker)
    } else {
        None
    }
}

} // verus!

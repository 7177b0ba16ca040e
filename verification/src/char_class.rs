//! Byte classes of the two micro-grammars.
//!
//! Everything here is ASCII-only on purpose: the grammars decide on single
//! bytes, and multi-byte characters pass through only where a class admits
//! every byte at or above `0x80` (the URL body).
//!
//! Bytes are written as hexadecimal ASCII codes: `0x41`..=`0x5A` is
//! `A`..=`Z`, `0x61`..=`0x7A` is `a`..=`z`, `0x30`..=`0x39` is `0`..=`9`.

use vstd::prelude::*;

verus! {

/// ASCII alphabetic: `A`..=`Z` or `a`..=`z`.
pub open spec fn is_ascii_alpha(b: u8) -> bool {
    (0x41 <= b && b <= 0x5A) || (0x61 <= b && b <= 0x7A)
}

/// ASCII digit: `0`..=`9`.
pub open spec fn is_ascii_digit(b: u8) -> bool {
    0x30 <= b && b <= 0x39
}

/// ASCII alphanumeric.
pub open spec fn is_ascii_alphanumeric(b: u8) -> bool {
    is_ascii_alpha(b) || is_ascii_digit(b)
}

/// ASCII hexadecimal digit: a digit, `A`..=`F`, or `a`..=`f`.
pub open spec fn is_ascii_hexdigit(b: u8) -> bool {
    is_ascii_digit(b) || (0x41 <= b && b <= 0x46) || (0x61 <= b && b <= 0x66)
}

/// A byte of a URL scheme after its first (alphabetic) byte:
/// alphanumeric or one of `+` (0x2B), `-` (0x2D), `.` (0x2E).
pub open spec fn is_scheme_byte(b: u8) -> bool {
    is_ascii_alphanumeric(b) || b == 0x2B || b == 0x2D || b == 0x2E
}

/// A byte allowed inside a URL autolink body: anything but ASCII control
/// (0x00..=0x1F and 0x7F, so including `\r` and `\n`), space (0x20),
/// and `<` (0x3C).
pub open spec fn is_url_body_byte(b: u8) -> bool {
    !(b <= 0x1F || b == 0x20 || b == 0x3C || b == 0x7F)
}

/// ASCII atext, the class allowed before the `@` of an email autolink:
/// alphanumeric, or a byte in `#`..=`'` (0x23..=0x27), `*` (0x2A),
/// `+` (0x2B), `-`..=`9` (0x2D..=0x39), `=` (0x3D), `?` (0x3F),
/// `^`..=`~` (0x5E..=0x7E).
pub open spec fn is_atext_byte(b: u8) -> bool {
    is_ascii_alphanumeric(b)
        || (0x23 <= b && b <= 0x27)
        || b == 0x2A
        || b == 0x2B
        || (0x2D <= b && b <= 0x39)
        || b == 0x3D
        || b == 0x3F
        || (0x5E <= b && b <= 0x7E)
}

/// A byte allowed inside an email domain label: alphanumeric or `-` (0x2D).
pub open spec fn is_label_byte(b: u8) -> bool {
    is_ascii_alphanumeric(b) || b == 0x2D
}

/// Executable test for [`is_ascii_alpha`].
pub fn ascii_alpha(b: u8) -> (r: bool)
    ensures
        r == is_ascii_alpha(b),
{
    (0x41 <= b && b <= 0x5A) || (0x61 <= b && b <= 0x7A)
}

/// Executable test for [`is_ascii_digit`].
pub fn ascii_digit(b: u8) -> (r: bool)
    ensures
        r == is_ascii_digit(b),
{
    0x30 <= b && b <= 0x39
}

/// Executable test for [`is_ascii_alphanumeric`].
pub fn ascii_alphanumeric(b: u8) -> (r: bool)
    ensures
        r == is_ascii_alphanumeric(b),
{
    ascii_alpha(b) || ascii_digit(b)
}

/// Executable test for [`is_ascii_hexdigit`].
pub fn ascii_hexdigit(b: u8) -> (r: bool)
    ensures
        r == is_ascii_hexdigit(b),
{
    ascii_digit(b) || (0x41 <= b && b <= 0x46) || (0x61 <= b && b <= 0x66)
}

/// Executable test for [`is_scheme_byte`].
pub fn scheme_byte(b: u8) -> (r: bool)
    ensures
        r == is_scheme_byte(b),
{
    ascii_alphanumeric(b) || b == 0x2B || b == 0x2D || b == 0x2E
}

/// Executable test for [`is_url_body_byte`].
pub fn url_body_byte(b: u8) -> (r: bool)
    ensures
        r == is_url_body_byte(b),
{
    !(b <= 0x1F || b == 0x20 || b == 0x3C || b == 0x7F)
}

/// Executable test for [`is_atext_byte`].
pub fn atext_byte(b: u8) -> (r: bool)
    ensures
        r == is_atext_byte(b),
{
    ascii_alphanumeric(b)
        || (0x23 <= b && b <= 0x27)
        || b == 0x2A
        || b == 0x2B
        || (0x2D <= b && b <= 0x39)
        || b == 0x3D
        || b == 0x3F
        || (0x5E <= b && b <= 0x7E)
}

/// Executable test for [`is_label_byte`].
pub fn label_byte(b: u8) -> (r: bool)
    ensures
        r == is_label_byte(b),
{
    ascii_alphanumeric(b) || b == 0x2D
}

} // verus!

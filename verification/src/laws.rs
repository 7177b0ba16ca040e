//! Laws of the recognizers, proved from the grammar of [`crate::grammar`].
//!
//! Together with the equivalence proved at [`crate::driver::attempt`] —
//! accepted if and only if the grammar matches, over exactly the grammar's
//! span — these laws hold of every input the drivers accept.

use vstd::prelude::*;
use crate::char_class::{
    is_ascii_alpha, is_ascii_alphanumeric, is_atext_byte, is_label_byte, is_scheme_byte,
    is_url_body_byte,
};
use crate::driver::{autolink_events, character_reference_events, character_reference_value_prefix};
use crate::grammar::{
    autolink_end, autolink_open_end, character_reference_end, character_reference_value_byte,
    character_reference_value_end, character_reference_value_max, email_at_sign_or_dot_end,
    email_atext_end, email_label_end, email_value_end, scheme_inside_end, scheme_or_email_end,
    url_inside_end,
};
use crate::token::Token;
use crate::tokenizer::{Event, EventKind, Point};

verus! {

/// A byte an accepted autolink may hold strictly between its `<` and its
/// closing `>`: no ASCII control byte, no space, no `<`, and no `>`.
pub open spec fn is_clean_inner_byte(x: u8) -> bool {
    is_url_body_byte(x) && x != 0x3E
}

proof fn lemma_url_inside_clean(b: Seq<u8>, j: int)
    requires
        0 <= j,
        url_inside_end(b, j) is Some,
    ensures
        ({
            let e = url_inside_end(b, j)->Some_0;
            &&& j < e <= b.len()
            &&& b[e - 1] == 0x3E
            &&& forall|k: int| j <= k < e - 1 ==> is_clean_inner_byte(#[trigger] b[k])
        }),
    decreases b.len() - j, 0int,
{
    if j < b.len() && b[j] == 0x3E {
    } else {
        lemma_url_inside_clean(b, j + 1);
    }
}

proof fn lemma_email_value_clean(b: Seq<u8>, j: int, size: int)
    requires
        0 <= j,
        0 <= size,
        email_value_end(b, j, size) is Some,
    ensures
        ({
            let e = email_value_end(b, j, size)->Some_0;
            &&& j < e <= b.len()
            &&& b[e - 1] == 0x3E
            &&& forall|k: int| j <= k < e - 1 ==> is_clean_inner_byte(#[trigger] b[k])
        }),
    decreases b.len() - j, 0int,
{
    if j < b.len() && b[j] == 0x2D {
        lemma_email_value_clean(b, j + 1, size + 1);
    } else {
        lemma_email_label_clean(b, j + 1, size + 1);
    }
}

proof fn lemma_email_label_clean(b: Seq<u8>, j: int, size: int)
    requires
        0 <= j,
        0 <= size,
        email_label_end(b, j, size) is Some,
    ensures
        ({
            let e = email_label_end(b, j, size)->Some_0;
            &&& j < e <= b.len()
            &&& b[e - 1] == 0x3E
            &&& forall|k: int| j <= k < e - 1 ==> is_clean_inner_byte(#[trigger] b[k])
        }),
    decreases b.len() - j, 1int,
{
    if j < b.len() && b[j] == 0x2E {
        lemma_email_at_sign_or_dot_clean(b, j + 1);
    } else if j < b.len() && b[j] == 0x3E {
    } else {
        lemma_email_value_clean(b, j, size);
    }
}

proof fn lemma_email_at_sign_or_dot_clean(b: Seq<u8>, j: int)
    requires
        0 <= j,
        email_at_sign_or_dot_end(b, j) is Some,
    ensures
        ({
            let e = email_at_sign_or_dot_end(b, j)->Some_0;
            &&& j < e <= b.len()
            &&& b[e - 1] == 0x3E
            &&& forall|k: int| j <= k < e - 1 ==> is_clean_inner_byte(#[trigger] b[k])
        }),
    decreases b.len() - j, 2int,
{
    lemma_email_value_clean(b, j, 0);
}

proof fn lemma_email_atext_clean(b: Seq<u8>, j: int)
    requires
        0 <= j,
        email_atext_end(b, j) is Some,
    ensures
        ({
            let e = email_atext_end(b, j)->Some_0;
            &&& j < e <= b.len()
            &&& b[e - 1] == 0x3E
            &&& forall|k: int| j <= k < e - 1 ==> is_clean_inner_byte(#[trigger] b[k])
        }),
    decreases b.len() - j, 3int,
{
    if j < b.len() && b[j] == 0x40 {
        lemma_email_at_sign_or_dot_clean(b, j + 1);
    } else {
        lemma_email_atext_clean(b, j + 1);
    }
}

proof fn lemma_scheme_inside_clean(b: Seq<u8>, j: int, size: int)
    requires
        1 <= j,
        1 <= size,
        scheme_inside_end(b, j, size) is Some,
    ensures
        ({
            let e = scheme_inside_end(b, j, size)->Some_0;
            &&& j < e <= b.len()
            &&& b[e - 1] == 0x3E
            &&& forall|k: int| j <= k < e - 1 ==> is_clean_inner_byte(#[trigger] b[k])
        }),
    decreases b.len() - j, 4int,
{
    if j < b.len() && b[j] == 0x3A {
        lemma_url_inside_clean(b, j + 1);
    } else if j < b.len() && is_scheme_byte(b[j]) && size < 32 {
        lemma_scheme_inside_clean(b, j + 1, size + 1);
    } else {
        lemma_email_atext_clean(b, j);
    }
}

proof fn lemma_scheme_or_email_clean(b: Seq<u8>, j: int)
    requires
        1 <= j,
        scheme_or_email_end(b, j) is Some,
    ensures
        ({
            let e = scheme_or_email_end(b, j)->Some_0;
            &&& j < e <= b.len()
            &&& b[e - 1] == 0x3E
            &&& forall|k: int| j <= k < e - 1 ==> is_clean_inner_byte(#[trigger] b[k])
        }),
    decreases b.len() - j, 5int,
{
    if j < b.len() && is_scheme_byte(b[j]) {
        lemma_scheme_inside_clean(b, j, 1);
    } else {
        lemma_email_atext_clean(b, j);
    }
}

proof fn lemma_autolink_open_clean(b: Seq<u8>, j: int)
    requires
        1 <= j,
        autolink_open_end(b, j) is Some,
    ensures
        ({
            let e = autolink_open_end(b, j)->Some_0;
            &&& j < e <= b.len()
            &&& b[e - 1] == 0x3E
            &&& forall|k: int| j <= k < e - 1 ==> is_clean_inner_byte(#[trigger] b[k])
        }),
    decreases b.len() - j, 6int,
{
    if j < b.len() && is_ascii_alpha(b[j]) {
        lemma_scheme_or_email_clean(b, j + 1);
    } else {
        lemma_email_atext_clean(b, j);
    }
}

/// Every accepted autolink — URL or email form alike — holds, strictly
/// between its `<` and its closing `>`, no ASCII control byte, no space,
/// no `<` and no `>`; in particular the whole `AutolinkProtocol` span of
/// an accepted URL autolink is free of them.
pub proof fn lemma_autolink_inner_clean(b: Seq<u8>, i: int)
    requires
        0 <= i,
        autolink_end(b, i) is Some,
    ensures
        ({
            let e = autolink_end(b, i)->Some_0;
            &&& i + 2 <= e <= b.len()
            &&& b[i] == 0x3C
            &&& b[e - 1] == 0x3E
            &&& forall|k: int| i + 1 <= k < e - 1 ==> is_clean_inner_byte(#[trigger] b[k])
        }),
{
    lemma_autolink_open_clean(b, i + 1);
}

/// Two positions that see the same bytes from there on: every byte at the
/// same offset agrees, and the remainders have the same length.
pub open spec fn same_suffix(b1: Seq<u8>, j1: int, b2: Seq<u8>, j2: int) -> bool {
    &&& 0 <= j1 <= b1.len()
    &&& 0 <= j2 <= b2.len()
    &&& b1.len() - j1 == b2.len() - j2
    &&& forall|k: int| 0 <= k < b1.len() - j1 ==> b1[j1 + k] == #[trigger] b2[j2 + k]
}

/// Both sides match together, over spans of the same length.
pub open spec fn same_outcome(r1: Option<int>, j1: int, r2: Option<int>, j2: int) -> bool {
    match (r1, r2) {
        (Some(e1), Some(e2)) => e1 - j1 == e2 - j2,
        (None, None) => true,
        _ => false,
    }
}

proof fn lemma_url_inside_shift(b1: Seq<u8>, j1: int, b2: Seq<u8>, j2: int)
    requires
        same_suffix(b1, j1, b2, j2),
    ensures
        same_outcome(url_inside_end(b1, j1), j1, url_inside_end(b2, j2), j2),
    decreases b1.len() - j1, 0int,
{
    if j1 < b1.len() {
        assert(b1[j1 + 0] == b2[j2 + 0]);
        if b1[j1] != 0x3E && is_url_body_byte(b1[j1]) {
            lemma_same_suffix_step(b1, j1, b2, j2);
            lemma_url_inside_shift(b1, j1 + 1, b2, j2 + 1);
        }
    }
}

proof fn lemma_same_suffix_step(b1: Seq<u8>, j1: int, b2: Seq<u8>, j2: int)
    requires
        same_suffix(b1, j1, b2, j2),
        j1 < b1.len(),
    ensures
        same_suffix(b1, j1 + 1, b2, j2 + 1),
{
    assert forall|k: int|
        0 <= k < b1.len() - (j1 + 1) implies b1[j1 + 1 + k] == #[trigger] b2[j2 + 1 + k] by {
        let m = k + 1;
        assert(b1[j1 + m] == b2[j2 + m]);
    }
}

proof fn lemma_email_value_shift(b1: Seq<u8>, j1: int, b2: Seq<u8>, j2: int, size: int)
    requires
        same_suffix(b1, j1, b2, j2),
        0 <= size,
    ensures
        same_outcome(email_value_end(b1, j1, size), j1, email_value_end(b2, j2, size), j2),
    decreases b1.len() - j1, 0int,
{
    if j1 < b1.len() {
        assert(b1[j1 + 0] == b2[j2 + 0]);
        if is_label_byte(b1[j1]) && size < 63 {
            lemma_same_suffix_step(b1, j1, b2, j2);
            if b1[j1] == 0x2D {
                lemma_email_value_shift(b1, j1 + 1, b2, j2 + 1, size + 1);
            } else {
                lemma_email_label_shift(b1, j1 + 1, b2, j2 + 1, size + 1);
            }
        }
    }
}

proof fn lemma_email_label_shift(b1: Seq<u8>, j1: int, b2: Seq<u8>, j2: int, size: int)
    requires
        same_suffix(b1, j1, b2, j2),
        0 <= size,
    ensures
        same_outcome(email_label_end(b1, j1, size), j1, email_label_end(b2, j2, size), j2),
    decreases b1.len() - j1, 1int,
{
    if j1 < b1.len() {
        assert(b1[j1 + 0] == b2[j2 + 0]);
    }
    if j1 < b1.len() && b1[j1] == 0x2E {
        lemma_same_suffix_step(b1, j1, b2, j2);
        lemma_email_at_sign_or_dot_shift(b1, j1 + 1, b2, j2 + 1);
    } else if j1 < b1.len() && b1[j1] == 0x3E {
    } else {
        lemma_email_value_shift(b1, j1, b2, j2, size);
    }
}

proof fn lemma_email_at_sign_or_dot_shift(b1: Seq<u8>, j1: int, b2: Seq<u8>, j2: int)
    requires
        same_suffix(b1, j1, b2, j2),
    ensures
        same_outcome(
            email_at_sign_or_dot_end(b1, j1),
            j1,
            email_at_sign_or_dot_end(b2, j2),
            j2,
        ),
    decreases b1.len() - j1, 2int,
{
    if j1 < b1.len() {
        assert(b1[j1 + 0] == b2[j2 + 0]);
        if is_ascii_alphanumeric(b1[j1]) {
            lemma_email_value_shift(b1, j1, b2, j2, 0);
        }
    }
}

proof fn lemma_email_atext_shift(b1: Seq<u8>, j1: int, b2: Seq<u8>, j2: int)
    requires
        same_suffix(b1, j1, b2, j2),
    ensures
        same_outcome(email_atext_end(b1, j1), j1, email_atext_end(b2, j2), j2),
    decreases b1.len() - j1, 3int,
{
    if j1 < b1.len() {
        assert(b1[j1 + 0] == b2[j2 + 0]);
        if b1[j1] == 0x40 {
            lemma_same_suffix_step(b1, j1, b2, j2);
            lemma_email_at_sign_or_dot_shift(b1, j1 + 1, b2, j2 + 1);
        } else if is_atext_byte(b1[j1]) {
            lemma_same_suffix_step(b1, j1, b2, j2);
            lemma_email_atext_shift(b1, j1 + 1, b2, j2 + 1);
        }
    }
}

proof fn lemma_scheme_inside_shift(b1: Seq<u8>, j1: int, b2: Seq<u8>, j2: int, size: int)
    requires
        same_suffix(b1, j1, b2, j2),
        1 <= j1,
        1 <= j2,
        1 <= size,
    ensures
        same_outcome(
            scheme_inside_end(b1, j1, size),
            j1,
            scheme_inside_end(b2, j2, size),
            j2,
        ),
    decreases b1.len() - j1, 4int,
{
    if j1 < b1.len() {
        assert(b1[j1 + 0] == b2[j2 + 0]);
        if b1[j1] == 0x3A {
            lemma_same_suffix_step(b1, j1, b2, j2);
            lemma_url_inside_shift(b1, j1 + 1, b2, j2 + 1);
        } else if is_scheme_byte(b1[j1]) && size < 32 {
            lemma_same_suffix_step(b1, j1, b2, j2);
            lemma_scheme_inside_shift(b1, j1 + 1, b2, j2 + 1, size + 1);
        } else {
            lemma_email_atext_shift(b1, j1, b2, j2);
        }
    } else {
        lemma_email_atext_shift(b1, j1, b2, j2);
    }
}

proof fn lemma_scheme_or_email_shift(b1: Seq<u8>, j1: int, b2: Seq<u8>, j2: int)
    requires
        same_suffix(b1, j1, b2, j2),
        1 <= j1,
        1 <= j2,
    ensures
        same_outcome(scheme_or_email_end(b1, j1), j1, scheme_or_email_end(b2, j2), j2),
    decreases b1.len() - j1, 5int,
{
    if j1 < b1.len() {
        assert(b1[j1 + 0] == b2[j2 + 0]);
    }
    if j1 < b1.len() && is_scheme_byte(b1[j1]) {
        lemma_scheme_inside_shift(b1, j1, b2, j2, 1);
    } else {
        lemma_email_atext_shift(b1, j1, b2, j2);
    }
}

/// Recognition is idempotent and position-independent: the autolink
/// grammar reads nothing but the bytes from its start position, so two
/// sources equal from their start positions on accept together, over
/// spans of the same length — in particular, re-scanning an accepted span
/// reproduces the same accepted span.
pub proof fn lemma_autolink_deterministic(b1: Seq<u8>, i1: int, b2: Seq<u8>, i2: int)
    requires
        same_suffix(b1, i1, b2, i2),
    ensures
        same_outcome(autolink_end(b1, i1), i1, autolink_end(b2, i2), i2),
{
    if i1 < b1.len() {
        assert(b1[i1 + 0] == b2[i2 + 0]);
        if b1[i1] == 0x3C {
            lemma_same_suffix_step(b1, i1, b2, i2);
            let j1 = i1 + 1;
            let j2 = i2 + 1;
            if j1 < b1.len() {
                assert(b1[j1 + 0] == b2[j2 + 0]);
            }
            if j1 < b1.len() && is_ascii_alpha(b1[j1]) {
                lemma_same_suffix_step(b1, j1, b2, j2);
                lemma_scheme_or_email_shift(b1, j1 + 1, b2, j2 + 1);
            } else {
                lemma_email_atext_shift(b1, j1, b2, j2);
            }
        }
    }
}

/// As [`lemma_autolink_deterministic`], for the character-reference
/// grammar: the accepted span — table membership of the named form
/// included — is a function of the bytes from the start position alone.
pub proof fn lemma_character_reference_deterministic(b1: Seq<u8>, i1: int, b2: Seq<u8>, i2: int)
    requires
        same_suffix(b1, i1, b2, i2),
    ensures
        same_outcome(
            character_reference_end(b1, i1),
            i1,
            character_reference_end(b2, i2),
            i2,
        ),
{
    if i1 < b1.len() {
        assert(b1[i1 + 0] == b2[i2 + 0]);
        if b1[i1] == 0x26 {
            lemma_same_suffix_step(b1, i1, b2, i2);
            let j1 = i1 + 1;
            let j2 = i2 + 1;
            if j1 < b1.len() {
                assert(b1[j1 + 0] == b2[j2 + 0]);
            }
            if j1 < b1.len() && b1[j1] == 0x23 {
                lemma_same_suffix_step(b1, j1, b2, j2);
                let k1 = j1 + 1;
                let k2 = j2 + 1;
                if k1 < b1.len() {
                    assert(b1[k1 + 0] == b2[k2 + 0]);
                }
                if k1 < b1.len() && (b1[k1] == 0x78 || b1[k1] == 0x58) {
                    lemma_same_suffix_step(b1, k1, b2, k2);
                    lemma_character_reference_value_shift(b1, k1 + 1, b2, k2 + 1, 0, 0x78);
                } else {
                    lemma_character_reference_value_shift(b1, k1, b2, k2, 0, 0x23);
                }
            } else {
                lemma_character_reference_value_shift(b1, j1, b2, j2, 0, 0x26);
            }
        }
    }
}

proof fn lemma_character_reference_value_shift(
    b1: Seq<u8>,
    j1: int,
    b2: Seq<u8>,
    j2: int,
    size: int,
    marker: u8,
)
    requires
        same_suffix(b1, j1 - size, b2, j2 - size),
        0 <= size <= j1,
        size <= j2,
        b1.len() - j1 == b2.len() - j2,
    ensures
        same_outcome(
            character_reference_value_end(b1, j1, size, marker),
            j1,
            character_reference_value_end(b2, j2, size, marker),
            j2,
        ),
    decreases b1.len() - j1, 0int,
{
    if j1 < b1.len() {
        assert(b1[(j1 - size) + size] == b2[(j2 - size) + size]);
        assert(b1[j1] == b2[j2]);
        assert forall|k: int|
            0 <= k < size implies b1.subrange(j1 - size, j1)[k] == #[trigger] b2.subrange(
            j2 - size,
            j2,
        )[k] by {
            assert(b1[(j1 - size) + k] == b2[(j2 - size) + k]);
        }
        assert(b1.subrange(j1 - size, j1) =~= b2.subrange(j2 - size, j2));
        if character_reference_value_byte(marker, b1[j1]) && size
            < character_reference_value_max(marker) {
            lemma_character_reference_value_shift(b1, j1 + 1, b2, j2 + 1, size + 1, marker);
        }
    }
}

/// Run the events over a stack of open tokens: an Enter pushes its token,
/// an Exit must close the innermost open one. `Some` holds the tokens
/// still open afterwards; `None` marks a mismatch.
pub open spec fn nest(s: Seq<Event>, open_tokens: Seq<Token>) -> Option<Seq<Token>>
    decreases s.len(),
{
    if s.len() == 0 {
        Some(open_tokens)
    } else if s[0].kind == EventKind::Enter {
        nest(s.skip(1), open_tokens.push(s[0].token))
    } else if open_tokens.len() > 0 && open_tokens.last() == s[0].token {
        nest(s.skip(1), open_tokens.drop_last())
    } else {
        None
    }
}

/// The events nest perfectly: started on no open token they run through
/// without mismatch and close every token they open.
pub open spec fn balanced(s: Seq<Event>) -> bool {
    nest(s, Seq::empty()) == Some(Seq::<Token>::empty())
}

proof fn lemma_nest_append(s1: Seq<Event>, s2: Seq<Event>, st: Seq<Token>)
    ensures
        nest(s1 + s2, st) == (match nest(s1, st) {
            Some(m) => nest(s2, m),
            None => None,
        }),
    decreases s1.len(),
{
    if s1.len() == 0 {
        assert(s1 + s2 =~= s2);
    } else {
        assert((s1 + s2).skip(1) =~= s1.skip(1) + s2);
        assert((s1 + s2)[0] == s1[0]);
        if s1[0].kind == EventKind::Enter {
            lemma_nest_append(s1.skip(1), s2, st.push(s1[0].token));
        } else if st.len() > 0 && st.last() == s1[0].token {
            lemma_nest_append(s1.skip(1), s2, st.drop_last());
        }
    }
}

proof fn nest_enter_step(s: Seq<Event>, st: Seq<Token>)
    requires
        s.len() > 0,
        s[0].kind == EventKind::Enter,
    ensures
        nest(s, st) == nest(s.skip(1), st.push(s[0].token)),
{
}

proof fn nest_exit_step(s: Seq<Event>, st: Seq<Token>)
    requires
        s.len() > 0,
        s[0].kind == EventKind::Exit,
        st.len() > 0,
        st.last() == s[0].token,
    ensures
        nest(s, st) == nest(s.skip(1), st.drop_last()),
{
}

/// The events of every successfully completed autolink attempt nest
/// perfectly: each Enter has exactly one matching Exit, stack-balanced.
pub proof fn lemma_autolink_events_balanced(email: bool, p0: Point, n: int)
    ensures
        balanced(autolink_events(email, p0, n)),
{
    let s = autolink_events(email, p0, n);
    let st0 = Seq::<Token>::empty();
    let inner = if email {
        Token::AutolinkEmail
    } else {
        Token::AutolinkProtocol
    };
    let st1 = st0.push(Token::Autolink);
    let st2 = st1.push(Token::AutolinkMarker);
    let st3 = st1.push(inner);
    nest_enter_step(s, st0);
    assert(s.skip(1).skip(1) =~= s.skip(2));
    nest_enter_step(s.skip(1), st1);
    assert(s.skip(2).skip(1) =~= s.skip(3));
    nest_exit_step(s.skip(2), st2);
    assert(st2.drop_last() =~= st1);
    assert(s.skip(3).skip(1) =~= s.skip(4));
    nest_enter_step(s.skip(3), st1);
    assert(s.skip(4).skip(1) =~= s.skip(5));
    nest_exit_step(s.skip(4), st3);
    assert(st3.drop_last() =~= st1);
    assert(s.skip(5).skip(1) =~= s.skip(6));
    nest_enter_step(s.skip(5), st1);
    assert(s.skip(6).skip(1) =~= s.skip(7));
    nest_exit_step(s.skip(6), st2);
    assert(s.skip(7).skip(1) =~= s.skip(8));
    nest_exit_step(s.skip(7), st1);
    assert(st1.drop_last() =~= st0);
    assert(s.skip(8) =~= Seq::<Event>::empty());
}

/// The events of every successfully completed character-reference attempt
/// nest perfectly, in each of the three sub-forms.
pub proof fn lemma_character_reference_events_balanced(marker: u8, p0: Point, n: int)
    ensures
        balanced(character_reference_events(marker, p0, n)),
{
    let prefix = character_reference_value_prefix(marker, p0);
    let s = character_reference_events(marker, p0, n);
    let st0 = Seq::<Token>::empty();
    let st1 = st0.push(Token::CharacterReference);
    let st2 = st1.push(Token::CharacterReferenceValue);
    lemma_nest_append(prefix, s.skip(prefix.len() as int), st0);
    assert(prefix + s.skip(prefix.len() as int) =~= s);
    // The prefix opens the reference, emits its markers, and opens the
    // value.
    nest_enter_step(prefix, st0);
    assert(prefix.skip(1).skip(1) =~= prefix.skip(2));
    nest_enter_step(prefix.skip(1), st1);
    nest_exit_step(prefix.skip(2), st1.push(Token::CharacterReferenceMarker));
    assert(st1.push(Token::CharacterReferenceMarker).drop_last() =~= st1);
    assert(prefix.skip(2).skip(1) =~= prefix.skip(3));
    if marker == 0x26 {
        nest_enter_step(prefix.skip(3), st1);
        assert(prefix.skip(3).skip(1) =~= Seq::<Event>::empty());
        assert(nest(prefix, st0) == Some(st2));
    } else if marker == 0x23 {
        nest_enter_step(prefix.skip(3), st1);
        assert(prefix.skip(3).skip(1) =~= prefix.skip(4));
        nest_exit_step(prefix.skip(4), st1.push(Token::CharacterReferenceMarkerNumeric));
        assert(st1.push(Token::CharacterReferenceMarkerNumeric).drop_last() =~= st1);
        assert(prefix.skip(4).skip(1) =~= prefix.skip(5));
        nest_enter_step(prefix.skip(5), st1);
        assert(prefix.skip(5).skip(1) =~= Seq::<Event>::empty());
        assert(nest(prefix, st0) == Some(st2));
    } else {
        nest_enter_step(prefix.skip(3), st1);
        assert(prefix.skip(3).skip(1) =~= prefix.skip(4));
        nest_exit_step(prefix.skip(4), st1.push(Token::CharacterReferenceMarkerNumeric));
        assert(st1.push(Token::CharacterReferenceMarkerNumeric).drop_last() =~= st1);
        assert(prefix.skip(4).skip(1) =~= prefix.skip(5));
        nest_enter_step(prefix.skip(5), st1);
        assert(prefix.skip(5).skip(1) =~= prefix.skip(6));
        nest_exit_step(prefix.skip(6), st1.push(Token::CharacterReferenceMarkerHexadecimal));
        assert(st1.push(Token::CharacterReferenceMarkerHexadecimal).drop_last() =~= st1);
        assert(prefix.skip(6).skip(1) =~= prefix.skip(7));
        nest_enter_step(prefix.skip(7), st1);
        assert(prefix.skip(7).skip(1) =~= Seq::<Event>::empty());
        assert(nest(prefix, st0) == Some(st2));
    }
    // The tail closes the value, emits the semicolon markers, and closes
    // the reference.
    let tail = s.skip(prefix.len() as int);
    nest_exit_step(tail, st2);
    assert(st2.drop_last() =~= st1);
    assert(tail.skip(1).skip(1) =~= tail.skip(2));
    nest_enter_step(tail.skip(1), st1);
    nest_exit_step(tail.skip(2), st1.push(Token::CharacterReferenceMarkerSemi));
    assert(st1.push(Token::CharacterReferenceMarkerSemi).drop_last() =~= st1);
    assert(tail.skip(2).skip(1) =~= tail.skip(3));
    nest_exit_step(tail.skip(3), st1);
    assert(st1.drop_last() =~= st0);
    assert(tail.skip(3).skip(1) =~= Seq::<Event>::empty());
}

} // verus!

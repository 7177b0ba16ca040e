//! The named-reference table: a closed, immutable lookup from reference
//! name (ASCII, case-sensitive) to its decoded replacement text, as UTF-8
//! bytes. Exact byte-slice match only: no normalization and no
//! case-insensitive fallback beyond the casing variants enumerated as
//! distinct entries (`amp` and `AMP` are entries; `Amp` is not).

use vstd::prelude::*;

verus! {

/// The decoded replacement text of the named reference `s`, or `None`
/// where `s` names no entry of the table.
pub open spec fn named_reference_value_spec(s: Seq<u8>) -> Option<Seq<u8>> {
    if s == seq![0x41u8, 0x4Du8, 0x50u8] {  // AMP
        Some(seq![0x26u8])
    } else if s == seq![0x43u8, 0x4Fu8, 0x50u8, 0x59u8] {  // COPY
        Some(seq![0xC2u8, 0xA9u8])
    } else if s == seq![0x44u8, 0x61u8, 0x67u8, 0x67u8, 0x65u8, 0x72u8] {  // Dagger
        Some(seq![0xE2u8, 0x80u8, 0xA1u8])
    } else if s == seq![0x47u8, 0x54u8] {  // GT
        Some(seq![0x3Eu8])
    } else if s == seq![0x4Cu8, 0x54u8] {  // LT
        Some(seq![0x3Cu8])
    } else if s == seq![0x4Fu8, 0x6Du8, 0x65u8, 0x67u8, 0x61u8] {  // Omega
        Some(seq![0xCEu8, 0xA9u8])
    } else if s == seq![0x51u8, 0x55u8, 0x4Fu8, 0x54u8] {  // QUOT
        Some(seq![0x22u8])
    } else if s == seq![0x52u8, 0x45u8, 0x47u8] {  // REG
        Some(seq![0xC2u8, 0xAEu8])
    } else if s == seq![0x54u8, 0x52u8, 0x41u8, 0x44u8, 0x45u8] {  // TRADE
        Some(seq![0xE2u8, 0x84u8, 0xA2u8])
    } else if s == seq![0x61u8, 0x67u8, 0x72u8, 0x61u8, 0x76u8, 0x65u8] {  // agrave
        Some(seq![0xC3u8, 0xA0u8])
    } else if s == seq![0x61u8, 0x6Cu8, 0x70u8, 0x68u8, 0x61u8] {  // alpha
        Some(seq![0xCEu8, 0xB1u8])
    } else if s == seq![0x61u8, 0x6Du8, 0x70u8] {  // amp
        Some(seq![0x26u8])
    } else if s == seq![0x61u8, 0x70u8, 0x6Fu8, 0x73u8] {  // apos
        Some(seq![0x27u8])
    } else if s == seq![0x62u8, 0x75u8, 0x6Cu8, 0x6Cu8] {  // bull
        Some(seq![0xE2u8, 0x80u8, 0xA2u8])
    } else if s == seq![0x63u8, 0x65u8, 0x6Eu8, 0x74u8] {  // cent
        Some(seq![0xC2u8, 0xA2u8])
    } else if s == seq![0x63u8, 0x6Fu8, 0x70u8, 0x79u8] {  // copy
        Some(seq![0xC2u8, 0xA9u8])
    } else if s == seq![0x64u8, 0x61u8, 0x67u8, 0x67u8, 0x65u8, 0x72u8] {  // dagger
        Some(seq![0xE2u8, 0x80u8, 0xA0u8])
    } else if s == seq![0x64u8, 0x65u8, 0x67u8] {  // deg
        Some(seq![0xC2u8, 0xB0u8])
    } else if s == seq![0x64u8, 0x69u8, 0x76u8, 0x69u8, 0x64u8, 0x65u8] {  // divide
        Some(seq![0xC3u8, 0xB7u8])
    } else if s == seq![0x65u8, 0x61u8, 0x63u8, 0x75u8, 0x74u8, 0x65u8] {  // eacute
        Some(seq![0xC3u8, 0xA9u8])
    } else if s == seq![0x65u8, 0x75u8, 0x72u8, 0x6Fu8] {  // euro
        Some(seq![0xE2u8, 0x82u8, 0xACu8])
    } else if s == seq![0x66u8, 0x72u8, 0x61u8, 0x63u8, 0x31u8, 0x32u8] {  // frac12
        Some(seq![0xC2u8, 0xBDu8])
    } else if s == seq![0x67u8, 0x65u8] {  // ge
        Some(seq![0xE2u8, 0x89u8, 0xA5u8])
    } else if s == seq![0x67u8, 0x74u8] {  // gt
        Some(seq![0x3Eu8])
    } else if s == seq![0x68u8, 0x65u8, 0x6Cu8, 0x6Cu8, 0x69u8, 0x70u8] {  // hellip
        Some(seq![0xE2u8, 0x80u8, 0xA6u8])
    } else if s == seq![0x6Cu8, 0x61u8, 0x71u8, 0x75u8, 0x6Fu8] {  // laquo
        Some(seq![0xC2u8, 0xABu8])
    } else if s == seq![0x6Cu8, 0x61u8, 0x72u8, 0x72u8] {  // larr
        Some(seq![0xE2u8, 0x86u8, 0x90u8])
    } else if s == seq![0x6Cu8, 0x65u8] {  // le
        Some(seq![0xE2u8, 0x89u8, 0xA4u8])
    } else if s == seq![0x6Cu8, 0x74u8] {  // lt
        Some(seq![0x3Cu8])
    } else if s == seq![0x6Du8, 0x64u8, 0x61u8, 0x73u8, 0x68u8] {  // mdash
        Some(seq![0xE2u8, 0x80u8, 0x94u8])
    } else if s == seq![0x6Du8, 0x69u8, 0x63u8, 0x72u8, 0x6Fu8] {  // micro
        Some(seq![0xC2u8, 0xB5u8])
    } else if s == seq![0x6Du8, 0x69u8, 0x64u8, 0x64u8, 0x6Fu8, 0x74u8] {  // middot
        Some(seq![0xC2u8, 0xB7u8])
    } else if s == seq![0x6Du8, 0x69u8, 0x6Eu8, 0x75u8, 0x73u8] {  // minus
        Some(seq![0xE2u8, 0x88u8, 0x92u8])
    } else if s == seq![0x6Eu8, 0x64u8, 0x61u8, 0x73u8, 0x68u8] {  // ndash
        Some(seq![0xE2u8, 0x80u8, 0x93u8])
    } else if s == seq![0x6Eu8, 0x62u8, 0x73u8, 0x70u8] {  // nbsp
        Some(seq![0xC2u8, 0xA0u8])
    } else if s == seq![0x6Eu8, 0x65u8] {  // ne
        Some(seq![0xE2u8, 0x89u8, 0xA0u8])
    } else if s == seq![0x6Eu8, 0x74u8, 0x69u8, 0x6Cu8, 0x64u8, 0x65u8] {  // ntilde
        Some(seq![0xC3u8, 0xB1u8])
    } else if s == seq![0x6Fu8, 0x75u8, 0x6Du8, 0x6Cu8] {  // ouml
        Some(seq![0xC3u8, 0xB6u8])
    } else if s == seq![0x70u8, 0x61u8, 0x72u8, 0x61u8] {  // para
        Some(seq![0xC2u8, 0xB6u8])
    } else if s == seq![0x70u8, 0x69u8] {  // pi
        Some(seq![0xCFu8, 0x80u8])
    } else if s == seq![0x70u8, 0x6Cu8, 0x75u8, 0x73u8, 0x6Du8, 0x6Eu8] {  // plusmn
        Some(seq![0xC2u8, 0xB1u8])
    } else if s == seq![0x70u8, 0x6Fu8, 0x75u8, 0x6Eu8, 0x64u8] {  // pound
        Some(seq![0xC2u8, 0xA3u8])
    } else if s == seq![0x71u8, 0x75u8, 0x6Fu8, 0x74u8] {  // quot
        Some(seq![0x22u8])
    } else if s == seq![0x72u8, 0x61u8, 0x71u8, 0x75u8, 0x6Fu8] {  // raquo
        Some(seq![0xC2u8, 0xBBu8])
    } else if s == seq![0x72u8, 0x61u8, 0x72u8, 0x72u8] {  // rarr
        Some(seq![0xE2u8, 0x86u8, 0x92u8])
    } else if s == seq![0x72u8, 0x65u8, 0x67u8] {  // reg
        Some(seq![0xC2u8, 0xAEu8])
    } else if s == seq![0x73u8, 0x65u8, 0x63u8, 0x74u8] {  // sect
        Some(seq![0xC2u8, 0xA7u8])
    } else if s == seq![0x73u8, 0x7Au8, 0x6Cu8, 0x69u8, 0x67u8] {  // szlig
        Some(seq![0xC3u8, 0x9Fu8])
    } else if s == seq![0x74u8, 0x69u8, 0x6Du8, 0x65u8, 0x73u8] {  // times
        Some(seq![0xC3u8, 0x97u8])
    } else if s == seq![0x74u8, 0x72u8, 0x61u8, 0x64u8, 0x65u8] {  // trade
        Some(seq![0xE2u8, 0x84u8, 0xA2u8])
    } else if s == seq![0x75u8, 0x75u8, 0x6Du8, 0x6Cu8] {  // uuml
        Some(seq![0xC3u8, 0xBCu8])
    } else if s == seq![0x79u8, 0x65u8, 0x6Eu8] {  // yen
        Some(seq![0xC2u8, 0xA5u8])
    } else {
        None
    }
}

/// Whether `s` names an entry of the table.
pub open spec fn is_named_reference_spec(s: Seq<u8>) -> bool {
    named_reference_value_spec(s) is Some
}

/// Look up `bytes[start..end]` in the table and hand back the decoded
/// replacement text of the entry it names, or `None` where it names none.
#[verifier::rlimit(60)]
pub fn lookup_named(bytes: &Vec<u8>, start: usize, end: usize) -> (r: Option<Vec<u8>>)
    requires
        start <= end <= bytes@.len(),
    ensures
        match r {
            Some(v) => named_reference_value_spec(
                bytes@.subrange(start as int, end as int),
            ) == Some(v@),
            None => named_reference_value_spec(
                bytes@.subrange(start as int, end as int),
            ) is None,
        },
{
    let n = end - start;
    if n == 3 && bytes[start + 0] == 0x41 && bytes[start + 1] == 0x4D && bytes[start + 2] == 0x50 {  // AMP
        proof {
            assert(bytes@.subrange(start as int, end as int) =~= seq![0x41u8, 0x4Du8, 0x50u8]);
        }
        let mut v: Vec<u8> = Vec::new();
        v.push(0x26);
        proof {
            assert(v@ =~= seq![0x26u8]);
        }
        return Some(v);
    }
    if n == 4 && bytes[start + 0] == 0x43 && bytes[start + 1] == 0x4F && bytes[start + 2] == 0x50 && bytes[start + 3] == 0x59 {  // COPY
        proof {
            assert(bytes@.subrange(start as int, end as int) =~= seq![0x43u8, 0x4Fu8, 0x50u8, 0x59u8]);
        }
        let mut v: Vec<u8> = Vec::new();
        v.push(0xC2);
        v.push(0xA9);
        proof {
            assert(v@ =~= seq![0xC2u8, 0xA9u8]);
        }
        return Some(v);
    }
    if n == 6 && bytes[start + 0] == 0x44 && bytes[start + 1] == 0x61 && bytes[start + 2] == 0x67 && bytes[start + 3] == 0x67 && bytes[start + 4] == 0x65 && bytes[start + 5] == 0x72 {  // Dagger
        proof {
            assert(bytes@.subrange(start as int, end as int) =~= seq![0x44u8, 0x61u8, 0x67u8, 0x67u8, 0x65u8, 0x72u8]);
        }
        let mut v: Vec<u8> = Vec::new();
        v.push(0xE2);
        v.push(0x80);
        v.push(0xA1);
        proof {
            assert(v@ =~= seq![0xE2u8, 0x80u8, 0xA1u8]);
        }
        return Some(v);
    }
    if n == 2 && bytes[start + 0] == 0x47 && bytes[start + 1] == 0x54 {  // GT
        proof {
            assert(bytes@.subrange(start as int, end as int) =~= seq![0x47u8, 0x54u8]);
        }
        let mut v: Vec<u8> = Vec::new();
        v.push(0x3E);
        proof {
            assert(v@ =~= seq![0x3Eu8]);
        }
        return Some(v);
    }
    if n == 2 && bytes[start + 0] == 0x4C && bytes[start + 1] == 0x54 {  // LT
        proof {
            assert(bytes@.subrange(start as int, end as int) =~= seq![0x4Cu8, 0x54u8]);
        }
        let mut v: Vec<u8> = Vec::new();
        v.push(0x3C);
        proof {
            assert(v@ =~= seq![0x3Cu8]);
        }
        return Some(v);
    }
    if n == 5 && bytes[start + 0] == 0x4F && bytes[start + 1] == 0x6D && bytes[start + 2] == 0x65 && bytes[start + 3] == 0x67 && bytes[start + 4] == 0x61 {  // Omega
        proof {
            assert(bytes@.subrange(start as int, end as int) =~= seq![0x4Fu8, 0x6Du8, 0x65u8, 0x67u8, 0x61u8]);
        }
        let mut v: Vec<u8> = Vec::new();
        v.push(0xCE);
        v.push(0xA9);
        proof {
            assert(v@ =~= seq![0xCEu8, 0xA9u8]);
        }
        return Some(v);
    }
    if n == 4 && bytes[start + 0] == 0x51 && bytes[start + 1] == 0x55 && bytes[start + 2] == 0x4F && bytes[start + 3] == 0x54 {  // QUOT
        proof {
            assert(bytes@.subrange(start as int, end as int) =~= seq![0x51u8, 0x55u8, 0x4Fu8, 0x54u8]);
        }
        let mut v: Vec<u8> = Vec::new();
        v.push(0x22);
        proof {
            assert(v@ =~= seq![0x22u8]);
        }
        return Some(v);
    }
    if n == 3 && bytes[start + 0] == 0x52 && bytes[start + 1] == 0x45 && bytes[start + 2] == 0x47 {  // REG
        proof {
            assert(bytes@.subrange(start as int, end as int) =~= seq![0x52u8, 0x45u8, 0x47u8]);
        }
        let mut v: Vec<u8> = Vec::new();
        v.push(0xC2);
        v.push(0xAE);
        proof {
            assert(v@ =~= seq![0xC2u8, 0xAEu8]);
        }
        return Some(v);
    }
    if n == 5 && bytes[start + 0] == 0x54 && bytes[start + 1] == 0x52 && bytes[start + 2] == 0x41 && bytes[start + 3] == 0x44 && bytes[start + 4] == 0x45 {  // TRADE
        proof {
            assert(bytes@.subrange(start as int, end as int) =~= seq![0x54u8, 0x52u8, 0x41u8, 0x44u8, 0x45u8]);
        }
        let mut v: Vec<u8> = Vec::new();
        v.push(0xE2);
        v.push(0x84);
        v.push(0xA2);
        proof {
            assert(v@ =~= seq![0xE2u8, 0x84u8, 0xA2u8]);
        }
        return Some(v);
    }
    if n == 6 && bytes[start + 0] == 0x61 && bytes[start + 1] == 0x67 && bytes[start + 2] == 0x72 && bytes[start + 3] == 0x61 && bytes[start + 4] == 0x76 && bytes[start + 5] == 0x65 {  // agrave
        proof {
            assert(bytes@.subrange(start as int, end as int) =~= seq![0x61u8, 0x67u8, 0x72u8, 0x61u8, 0x76u8, 0x65u8]);
        }
        let mut v: Vec<u8> = Vec::new();
        v.push(0xC3);
        v.push(0xA0);
        proof {
            assert(v@ =~= seq![0xC3u8, 0xA0u8]);
        }
        return Some(v);
    }
    if n == 5 && bytes[start + 0] == 0x61 && bytes[start + 1] == 0x6C && bytes[start + 2] == 0x70 && bytes[start + 3] == 0x68 && bytes[start + 4] == 0x61 {  // alpha
        proof {
            assert(bytes@.subrange(start as int, end as int) =~= seq![0x61u8, 0x6Cu8, 0x70u8, 0x68u8, 0x61u8]);
        }
        let mut v: Vec<u8> = Vec::new();
        v.push(0xCE);
        v.push(0xB1);
        proof {
            assert(v@ =~= seq![0xCEu8, 0xB1u8]);
        }
        return Some(v);
    }
    if n == 3 && bytes[start + 0] == 0x61 && bytes[start + 1] == 0x6D && bytes[start + 2] == 0x70 {  // amp
        proof {
            assert(bytes@.subrange(start as int, end as int) =~= seq![0x61u8, 0x6Du8, 0x70u8]);
        }
        let mut v: Vec<u8> = Vec::new();
        v.push(0x26);
        proof {
            assert(v@ =~= seq![0x26u8]);
        }
        return Some(v);
    }
    if n == 4 && bytes[start + 0] == 0x61 && bytes[start + 1] == 0x70 && bytes[start + 2] == 0x6F && bytes[start + 3] == 0x73 {  // apos
        proof {
            assert(bytes@.subrange(start as int, end as int) =~= seq![0x61u8, 0x70u8, 0x6Fu8, 0x73u8]);
        }
        let mut v: Vec<u8> = Vec::new();
        v.push(0x27);
        proof {
            assert(v@ =~= seq![0x27u8]);
        }
        return Some(v);
    }
    if n == 4 && bytes[start + 0] == 0x62 && bytes[start + 1] == 0x75 && bytes[start + 2] == 0x6C && bytes[start + 3] == 0x6C {  // bull
        proof {
            assert(bytes@.subrange(start as int, end as int) =~= seq![0x62u8, 0x75u8, 0x6Cu8, 0x6Cu8]);
        }
        let mut v: Vec<u8> = Vec::new();
        v.push(0xE2);
        v.push(0x80);
        v.push(0xA2);
        proof {
            assert(v@ =~= seq![0xE2u8, 0x80u8, 0xA2u8]);
        }
        return Some(v);
    }
    if n == 4 && bytes[start + 0] == 0x63 && bytes[start + 1] == 0x65 && bytes[start + 2] == 0x6E && bytes[start + 3] == 0x74 {  // cent
        proof {
            assert(bytes@.subrange(start as int, end as int) =~= seq![0x63u8, 0x65u8, 0x6Eu8, 0x74u8]);
        }
        let mut v: Vec<u8> = Vec::new();
        v.push(0xC2);
        v.push(0xA2);
        proof {
            assert(v@ =~= seq![0xC2u8, 0xA2u8]);
        }
        return Some(v);
    }
    if n == 4 && bytes[start + 0] == 0x63 && bytes[start + 1] == 0x6F && bytes[start + 2] == 0x70 && bytes[start + 3] == 0x79 {  // copy
        proof {
            assert(bytes@.subrange(start as int, end as int) =~= seq![0x63u8, 0x6Fu8, 0x70u8, 0x79u8]);
        }
        let mut v: Vec<u8> = Vec::new();
        v.push(0xC2);
        v.push(0xA9);
        proof {
            assert(v@ =~= seq![0xC2u8, 0xA9u8]);
        }
        return Some(v);
    }
    if n == 6 && bytes[start + 0] == 0x64 && bytes[start + 1] == 0x61 && bytes[start + 2] == 0x67 && bytes[start + 3] == 0x67 && bytes[start + 4] == 0x65 && bytes[start + 5] == 0x72 {  // dagger
        proof {
            assert(bytes@.subrange(start as int, end as int) =~= seq![0x64u8, 0x61u8, 0x67u8, 0x67u8, 0x65u8, 0x72u8]);
        }
        let mut v: Vec<u8> = Vec::new();
        v.push(0xE2);
        v.push(0x80);
        v.push(0xA0);
        proof {
            assert(v@ =~= seq![0xE2u8, 0x80u8, 0xA0u8]);
        }
        return Some(v);
    }
    if n == 3 && bytes[start + 0] == 0x64 && bytes[start + 1] == 0x65 && bytes[start + 2] == 0x67 {  // deg
        proof {
            assert(bytes@.subrange(start as int, end as int) =~= seq![0x64u8, 0x65u8, 0x67u8]);
        }
        let mut v: Vec<u8> = Vec::new();
        v.push(0xC2);
        v.push(0xB0);
        proof {
            assert(v@ =~= seq![0xC2u8, 0xB0u8]);
        }
        return Some(v);
    }
    if n == 6 && bytes[start + 0] == 0x64 && bytes[start + 1] == 0x69 && bytes[start + 2] == 0x76 && bytes[start + 3] == 0x69 && bytes[start + 4] == 0x64 && bytes[start + 5] == 0x65 {  // divide
        proof {
            assert(bytes@.subrange(start as int, end as int) =~= seq![0x64u8, 0x69u8, 0x76u8, 0x69u8, 0x64u8, 0x65u8]);
        }
        let mut v: Vec<u8> = Vec::new();
        v.push(0xC3);
        v.push(0xB7);
        proof {
            assert(v@ =~= seq![0xC3u8, 0xB7u8]);
        }
        return Some(v);
    }
    if n == 6 && bytes[start + 0] == 0x65 && bytes[start + 1] == 0x61 && bytes[start + 2] == 0x63 && bytes[start + 3] == 0x75 && bytes[start + 4] == 0x74 && bytes[start + 5] == 0x65 {  // eacute
        proof {
            assert(bytes@.subrange(start as int, end as int) =~= seq![0x65u8, 0x61u8, 0x63u8, 0x75u8, 0x74u8, 0x65u8]);
        }
        let mut v: Vec<u8> = Vec::new();
        v.push(0xC3);
        v.push(0xA9);
        proof {
            assert(v@ =~= seq![0xC3u8, 0xA9u8]);
        }
        return Some(v);
    }
    if n == 4 && bytes[start + 0] == 0x65 && bytes[start + 1] == 0x75 && bytes[start + 2] == 0x72 && bytes[start + 3] == 0x6F {  // euro
        proof {
            assert(bytes@.subrange(start as int, end as int) =~= seq![0x65u8, 0x75u8, 0x72u8, 0x6Fu8]);
        }
        let mut v: Vec<u8> = Vec::new();
        v.push(0xE2);
        v.push(0x82);
        v.push(0xAC);
        proof {
            assert(v@ =~= seq![0xE2u8, 0x82u8, 0xACu8]);
        }
        return Some(v);
    }
    if n == 6 && bytes[start + 0] == 0x66 && bytes[start + 1] == 0x72 && bytes[start + 2] == 0x61 && bytes[start + 3] == 0x63 && bytes[start + 4] == 0x31 && bytes[start + 5] == 0x32 {  // frac12
        proof {
            assert(bytes@.subrange(start as int, end as int) =~= seq![0x66u8, 0x72u8, 0x61u8, 0x63u8, 0x31u8, 0x32u8]);
        }
        let mut v: Vec<u8> = Vec::new();
        v.push(0xC2);
        v.push(0xBD);
        proof {
            assert(v@ =~= seq![0xC2u8, 0xBDu8]);
        }
        return Some(v);
    }
    if n == 2 && bytes[start + 0] == 0x67 && bytes[start + 1] == 0x65 {  // ge
        proof {
            assert(bytes@.subrange(start as int, end as int) =~= seq![0x67u8, 0x65u8]);
        }
        let mut v: Vec<u8> = Vec::new();
        v.push(0xE2);
        v.push(0x89);
        v.push(0xA5);
        proof {
            assert(v@ =~= seq![0xE2u8, 0x89u8, 0xA5u8]);
        }
        return Some(v);
    }
    if n == 2 && bytes[start + 0] == 0x67 && bytes[start + 1] == 0x74 {  // gt
        proof {
            assert(bytes@.subrange(start as int, end as int) =~= seq![0x67u8, 0x74u8]);
        }
        let mut v: Vec<u8> = Vec::new();
        v.push(0x3E);
        proof {
            assert(v@ =~= seq![0x3Eu8]);
        }
        return Some(v);
    }
    if n == 6 && bytes[start + 0] == 0x68 && bytes[start + 1] == 0x65 && bytes[start + 2] == 0x6C && bytes[start + 3] == 0x6C && bytes[start + 4] == 0x69 && bytes[start + 5] == 0x70 {  // hellip
        proof {
            assert(bytes@.subrange(start as int, end as int) =~= seq![0x68u8, 0x65u8, 0x6Cu8, 0x6Cu8, 0x69u8, 0x70u8]);
        }
        let mut v: Vec<u8> = Vec::new();
        v.push(0xE2);
        v.push(0x80);
        v.push(0xA6);
        proof {
            assert(v@ =~= seq![0xE2u8, 0x80u8, 0xA6u8]);
        }
        return Some(v);
    }
    if n == 5 && bytes[start + 0] == 0x6C && bytes[start + 1] == 0x61 && bytes[start + 2] == 0x71 && bytes[start + 3] == 0x75 && bytes[start + 4] == 0x6F {  // laquo
        proof {
            assert(bytes@.subrange(start as int, end as int) =~= seq![0x6Cu8, 0x61u8, 0x71u8, 0x75u8, 0x6Fu8]);
        }
        let mut v: Vec<u8> = Vec::new();
        v.push(0xC2);
        v.push(0xAB);
        proof {
            assert(v@ =~= seq![0xC2u8, 0xABu8]);
        }
        return Some(v);
    }
    if n == 4 && bytes[start + 0] == 0x6C && bytes[start + 1] == 0x61 && bytes[start + 2] == 0x72 && bytes[start + 3] == 0x72 {  // larr
        proof {
            assert(bytes@.subrange(start as int, end as int) =~= seq![0x6Cu8, 0x61u8, 0x72u8, 0x72u8]);
        }
        let mut v: Vec<u8> = Vec::new();
        v.push(0xE2);
        v.push(0x86);
        v.push(0x90);
        proof {
            assert(v@ =~= seq![0xE2u8, 0x86u8, 0x90u8]);
        }
        return Some(v);
    }
    if n == 2 && bytes[start + 0] == 0x6C && bytes[start + 1] == 0x65 {  // le
        proof {
            assert(bytes@.subrange(start as int, end as int) =~= seq![0x6Cu8, 0x65u8]);
        }
        let mut v: Vec<u8> = Vec::new();
        v.push(0xE2);
        v.push(0x89);
        v.push(0xA4);
        proof {
            assert(v@ =~= seq![0xE2u8, 0x89u8, 0xA4u8]);
        }
        return Some(v);
    }
    if n == 2 && bytes[start + 0] == 0x6C && bytes[start + 1] == 0x74 {  // lt
        proof {
            assert(bytes@.subrange(start as int, end as int) =~= seq![0x6Cu8, 0x74u8]);
        }
        let mut v: Vec<u8> = Vec::new();
        v.push(0x3C);
        proof {
            assert(v@ =~= seq![0x3Cu8]);
        }
        return Some(v);
    }
    if n == 5 && bytes[start + 0] == 0x6D && bytes[start + 1] == 0x64 && bytes[start + 2] == 0x61 && bytes[start + 3] == 0x73 && bytes[start + 4] == 0x68 {  // mdash
        proof {
            assert(bytes@.subrange(start as int, end as int) =~= seq![0x6Du8, 0x64u8, 0x61u8, 0x73u8, 0x68u8]);
        }
        let mut v: Vec<u8> = Vec::new();
        v.push(0xE2);
        v.push(0x80);
        v.push(0x94);
        proof {
            assert(v@ =~= seq![0xE2u8, 0x80u8, 0x94u8]);
        }
        return Some(v);
    }
    if n == 5 && bytes[start + 0] == 0x6D && bytes[start + 1] == 0x69 && bytes[start + 2] == 0x63 && bytes[start + 3] == 0x72 && bytes[start + 4] == 0x6F {  // micro
        proof {
            assert(bytes@.subrange(start as int, end as int) =~= seq![0x6Du8, 0x69u8, 0x63u8, 0x72u8, 0x6Fu8]);
        }
        let mut v: Vec<u8> = Vec::new();
        v.push(0xC2);
        v.push(0xB5);
        proof {
            assert(v@ =~= seq![0xC2u8, 0xB5u8]);
        }
        return Some(v);
    }
    if n == 6 && bytes[start + 0] == 0x6D && bytes[start + 1] == 0x69 && bytes[start + 2] == 0x64 && bytes[start + 3] == 0x64 && bytes[start + 4] == 0x6F && bytes[start + 5] == 0x74 {  // middot
        proof {
            assert(bytes@.subrange(start as int, end as int) =~= seq![0x6Du8, 0x69u8, 0x64u8, 0x64u8, 0x6Fu8, 0x74u8]);
        }
        let mut v: Vec<u8> = Vec::new();
        v.push(0xC2);
        v.push(0xB7);
        proof {
            assert(v@ =~= seq![0xC2u8, 0xB7u8]);
        }
        return Some(v);
    }
    if n == 5 && bytes[start + 0] == 0x6D && bytes[start + 1] == 0x69 && bytes[start + 2] == 0x6E && bytes[start + 3] == 0x75 && bytes[start + 4] == 0x73 {  // minus
        proof {
            assert(bytes@.subrange(start as int, end as int) =~= seq![0x6Du8, 0x69u8, 0x6Eu8, 0x75u8, 0x73u8]);
        }
        let mut v: Vec<u8> = Vec::new();
        v.push(0xE2);
        v.push(0x88);
        v.push(0x92);
        proof {
            assert(v@ =~= seq![0xE2u8, 0x88u8, 0x92u8]);
        }
        return Some(v);
    }
    if n == 5 && bytes[start + 0] == 0x6E && bytes[start + 1] == 0x64 && bytes[start + 2] == 0x61 && bytes[start + 3] == 0x73 && bytes[start + 4] == 0x68 {  // ndash
        proof {
            assert(bytes@.subrange(start as int, end as int) =~= seq![0x6Eu8, 0x64u8, 0x61u8, 0x73u8, 0x68u8]);
        }
        let mut v: Vec<u8> = Vec::new();
        v.push(0xE2);
        v.push(0x80);
        v.push(0x93);
        proof {
            assert(v@ =~= seq![0xE2u8, 0x80u8, 0x93u8]);
        }
        return Some(v);
    }
    if n == 4 && bytes[start + 0] == 0x6E && bytes[start + 1] == 0x62 && bytes[start + 2] == 0x73 && bytes[start + 3] == 0x70 {  // nbsp
        proof {
            assert(bytes@.subrange(start as int, end as int) =~= seq![0x6Eu8, 0x62u8, 0x73u8, 0x70u8]);
        }
        let mut v: Vec<u8> = Vec::new();
        v.push(0xC2);
        v.push(0xA0);
        proof {
            assert(v@ =~= seq![0xC2u8, 0xA0u8]);
        }
        return Some(v);
    }
    if n == 2 && bytes[start + 0] == 0x6E && bytes[start + 1] == 0x65 {  // ne
        proof {
            assert(bytes@.subrange(start as int, end as int) =~= seq![0x6Eu8, 0x65u8]);
        }
        let mut v: Vec<u8> = Vec::new();
        v.push(0xE2);
        v.push(0x89);
        v.push(0xA0);
        proof {
            assert(v@ =~= seq![0xE2u8, 0x89u8, 0xA0u8]);
        }
        return Some(v);
    }
    if n == 6 && bytes[start + 0] == 0x6E && bytes[start + 1] == 0x74 && bytes[start + 2] == 0x69 && bytes[start + 3] == 0x6C && bytes[start + 4] == 0x64 && bytes[start + 5] == 0x65 {  // ntilde
        proof {
            assert(bytes@.subrange(start as int, end as int) =~= seq![0x6Eu8, 0x74u8, 0x69u8, 0x6Cu8, 0x64u8, 0x65u8]);
        }
        let mut v: Vec<u8> = Vec::new();
        v.push(0xC3);
        v.push(0xB1);
        proof {
            assert(v@ =~= seq![0xC3u8, 0xB1u8]);
        }
        return Some(v);
    }
    if n == 4 && bytes[start + 0] == 0x6F && bytes[start + 1] == 0x75 && bytes[start + 2] == 0x6D && bytes[start + 3] == 0x6C {  // ouml
        proof {
            assert(bytes@.subrange(start as int, end as int) =~= seq![0x6Fu8, 0x75u8, 0x6Du8, 0x6Cu8]);
        }
        let mut v: Vec<u8> = Vec::new();
        v.push(0xC3);
        v.push(0xB6);
        proof {
            assert(v@ =~= seq![0xC3u8, 0xB6u8]);
        }
        return Some(v);
    }
    if n == 4 && bytes[start + 0] == 0x70 && bytes[start + 1] == 0x61 && bytes[start + 2] == 0x72 && bytes[start + 3] == 0x61 {  // para
        proof {
            assert(bytes@.subrange(start as int, end as int) =~= seq![0x70u8, 0x61u8, 0x72u8, 0x61u8]);
        }
        let mut v: Vec<u8> = Vec::new();
        v.push(0xC2);
        v.push(0xB6);
        proof {
            assert(v@ =~= seq![0xC2u8, 0xB6u8]);
        }
        return Some(v);
    }
    if n == 2 && bytes[start + 0] == 0x70 && bytes[start + 1] == 0x69 {  // pi
        proof {
            assert(bytes@.subrange(start as int, end as int) =~= seq![0x70u8, 0x69u8]);
        }
        let mut v: Vec<u8> = Vec::new();
        v.push(0xCF);
        v.push(0x80);
        proof {
            assert(v@ =~= seq![0xCFu8, 0x80u8]);
        }
        return Some(v);
    }
    if n == 6 && bytes[start + 0] == 0x70 && bytes[start + 1] == 0x6C && bytes[start + 2] == 0x75 && bytes[start + 3] == 0x73 && bytes[start + 4] == 0x6D && bytes[start + 5] == 0x6E {  // plusmn
        proof {
            assert(bytes@.subrange(start as int, end as int) =~= seq![0x70u8, 0x6Cu8, 0x75u8, 0x73u8, 0x6Du8, 0x6Eu8]);
        }
        let mut v: Vec<u8> = Vec::new();
        v.push(0xC2);
        v.push(0xB1);
        proof {
            assert(v@ =~= seq![0xC2u8, 0xB1u8]);
        }
        return Some(v);
    }
    if n == 5 && bytes[start + 0] == 0x70 && bytes[start + 1] == 0x6F && bytes[start + 2] == 0x75 && bytes[start + 3] == 0x6E && bytes[start + 4] == 0x64 {  // pound
        proof {
            assert(bytes@.subrange(start as int, end as int) =~= seq![0x70u8, 0x6Fu8, 0x75u8, 0x6Eu8, 0x64u8]);
        }
        let mut v: Vec<u8> = Vec::new();
        v.push(0xC2);
        v.push(0xA3);
        proof {
            assert(v@ =~= seq![0xC2u8, 0xA3u8]);
        }
        return Some(v);
    }
    if n == 4 && bytes[start + 0] == 0x71 && bytes[start + 1] == 0x75 && bytes[start + 2] == 0x6F && bytes[start + 3] == 0x74 {  // quot
        proof {
            assert(bytes@.subrange(start as int, end as int) =~= seq![0x71u8, 0x75u8, 0x6Fu8, 0x74u8]);
        }
        let mut v: Vec<u8> = Vec::new();
        v.push(0x22);
        proof {
            assert(v@ =~= seq![0x22u8]);
        }
        return Some(v);
    }
    if n == 5 && bytes[start + 0] == 0x72 && bytes[start + 1] == 0x61 && bytes[start + 2] == 0x71 && bytes[start + 3] == 0x75 && bytes[start + 4] == 0x6F {  // raquo
        proof {
            assert(bytes@.subrange(start as int, end as int) =~= seq![0x72u8, 0x61u8, 0x71u8, 0x75u8, 0x6Fu8]);
        }
        let mut v: Vec<u8> = Vec::new();
        v.push(0xC2);
        v.push(0xBB);
        proof {
            assert(v@ =~= seq![0xC2u8, 0xBBu8]);
        }
        return Some(v);
    }
    if n == 4 && bytes[start + 0] == 0x72 && bytes[start + 1] == 0x61 && bytes[start + 2] == 0x72 && bytes[start + 3] == 0x72 {  // rarr
        proof {
            assert(bytes@.subrange(start as int, end as int) =~= seq![0x72u8, 0x61u8, 0x72u8, 0x72u8]);
        }
        let mut v: Vec<u8> = Vec::new();
        v.push(0xE2);
        v.push(0x86);
        v.push(0x92);
        proof {
            assert(v@ =~= seq![0xE2u8, 0x86u8, 0x92u8]);
        }
        return Some(v);
    }
    if n == 3 && bytes[start + 0] == 0x72 && bytes[start + 1] == 0x65 && bytes[start + 2] == 0x67 {  // reg
        proof {
            assert(bytes@.subrange(start as int, end as int) =~= seq![0x72u8, 0x65u8, 0x67u8]);
        }
        let mut v: Vec<u8> = Vec::new();
        v.push(0xC2);
        v.push(0xAE);
        proof {
            assert(v@ =~= seq![0xC2u8, 0xAEu8]);
        }
        return Some(v);
    }
    if n == 4 && bytes[start + 0] == 0x73 && bytes[start + 1] == 0x65 && bytes[start + 2] == 0x63 && bytes[start + 3] == 0x74 {  // sect
        proof {
            assert(bytes@.subrange(start as int, end as int) =~= seq![0x73u8, 0x65u8, 0x63u8, 0x74u8]);
        }
        let mut v: Vec<u8> = Vec::new();
        v.push(0xC2);
        v.push(0xA7);
        proof {
            assert(v@ =~= seq![0xC2u8, 0xA7u8]);
        }
        return Some(v);
    }
    if n == 5 && bytes[start + 0] == 0x73 && bytes[start + 1] == 0x7A && bytes[start + 2] == 0x6C && bytes[start + 3] == 0x69 && bytes[start + 4] == 0x67 {  // szlig
        proof {
            assert(bytes@.subrange(start as int, end as int) =~= seq![0x73u8, 0x7Au8, 0x6Cu8, 0x69u8, 0x67u8]);
        }
        let mut v: Vec<u8> = Vec::new();
        v.push(0xC3);
        v.push(0x9F);
        proof {
            assert(v@ =~= seq![0xC3u8, 0x9Fu8]);
        }
        return Some(v);
    }
    if n == 5 && bytes[start + 0] == 0x74 && bytes[start + 1] == 0x69 && bytes[start + 2] == 0x6D && bytes[start + 3] == 0x65 && bytes[start + 4] == 0x73 {  // times
        proof {
            assert(bytes@.subrange(start as int, end as int) =~= seq![0x74u8, 0x69u8, 0x6Du8, 0x65u8, 0x73u8]);
        }
        let mut v: Vec<u8> = Vec::new();
        v.push(0xC3);
        v.push(0x97);
        proof {
            assert(v@ =~= seq![0xC3u8, 0x97u8]);
        }
        return Some(v);
    }
    if n == 5 && bytes[start + 0] == 0x74 && bytes[start + 1] == 0x72 && bytes[start + 2] == 0x61 && bytes[start + 3] == 0x64 && bytes[start + 4] == 0x65 {  // trade
        proof {
            assert(bytes@.subrange(start as int, end as int) =~= seq![0x74u8, 0x72u8, 0x61u8, 0x64u8, 0x65u8]);
        }
        let mut v: Vec<u8> = Vec::new();
        v.push(0xE2);
        v.push(0x84);
        v.push(0xA2);
        proof {
            assert(v@ =~= seq![0xE2u8, 0x84u8, 0xA2u8]);
        }
        return Some(v);
    }
    if n == 4 && bytes[start + 0] == 0x75 && bytes[start + 1] == 0x75 && bytes[start + 2] == 0x6D && bytes[start + 3] == 0x6C {  // uuml
        proof {
            assert(bytes@.subrange(start as int, end as int) =~= seq![0x75u8, 0x75u8, 0x6Du8, 0x6Cu8]);
        }
        let mut v: Vec<u8> = Vec::new();
        v.push(0xC3);
        v.push(0xBC);
        proof {
            assert(v@ =~= seq![0xC3u8, 0xBCu8]);
        }
        return Some(v);
    }
    if n == 3 && bytes[start + 0] == 0x79 && bytes[start + 1] == 0x65 && bytes[start + 2] == 0x6E {  // yen
        proof {
            assert(bytes@.subrange(start as int, end as int) =~= seq![0x79u8, 0x65u8, 0x6Eu8]);
        }
        let mut v: Vec<u8> = Vec::new();
        v.push(0xC2);
        v.push(0xA5);
        proof {
            assert(v@ =~= seq![0xC2u8, 0xA5u8]);
        }
        return Some(v);
    }
    proof {
        let s = bytes@.subrange(start as int, end as int);
        assert(s.len() == n);
        assert(forall|k: int| 0 <= k < s.len() ==> s[k] == bytes@[start + k]);
    }
    None
}

/// Whether `bytes[start..end]` names an entry of the table.
pub fn is_named_reference(bytes: &Vec<u8>, start: usize, end: usize) -> (r: bool)
    requires
        start <= end <= bytes@.len(),
    ensures
        r == is_named_reference_spec(bytes@.subrange(start as int, end as int)),
{
    match lookup_named(bytes, start, end) {
        Some(_) => true,
        None => false,
    }
}

} // verus!

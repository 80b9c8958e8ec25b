//! The canonical text of a 128-bit identifier: thirty-two lower-case
//! hexadecimal digits in groups of 8, 4, 4, 4 and 12, joined by hyphens.

use vstd::prelude::*;
use crate::encoding::hex::{
    hex_digits, lemma_hex_capacities, lemma_hex_digits_shape, lemma_hex_round_trip, parse_hex,
    push_hex,
};

verus! {

/// The hyphen that joins the groups.
pub const HYPHEN: u8 = 45;

/// The five groups of an identifier, most significant first.
pub open spec fn group_a(v: u128) -> nat {
    (v / 0x1_0000_0000_0000_0000_0000_0000) as nat
}

pub open spec fn group_b(v: u128) -> nat {
    ((v / 0x1_0000_0000_0000_0000_0000) % 0x1_0000) as nat
}

pub open spec fn group_c(v: u128) -> nat {
    ((v / 0x1_0000_0000_0000_0000) % 0x1_0000) as nat
}

pub open spec fn group_d(v: u128) -> nat {
    ((v / 0x1_0000_0000_0000) % 0x1_0000) as nat
}

pub open spec fn group_e(v: u128) -> nat {
    (v % 0x1_0000_0000_0000) as nat
}

/// The number that five groups denote together.
pub open spec fn join_groups(a: nat, b: nat, c: nat, d: nat, e: nat) -> nat {
    a * 0x1_0000_0000_0000_0000_0000_0000 + b * 0x1_0000_0000_0000_0000_0000 + c
        * 0x1_0000_0000_0000_0000 + d * 0x1_0000_0000_0000 + e
}

/// The canonical text of an identifier.
pub open spec fn identifier_text(v: u128) -> Seq<u8> {
    hex_digits(group_a(v), 8) + seq![HYPHEN] + hex_digits(group_b(v), 4) + seq![HYPHEN]
        + hex_digits(group_c(v), 4) + seq![HYPHEN] + hex_digits(group_d(v), 4) + seq![HYPHEN]
        + hex_digits(group_e(v), 12)
}

/// What reading an identifier at the front of `s` gives: the identifier
/// whose canonical text stands there, if one does.
pub open spec fn parse_identifier(s: Seq<u8>) -> Option<u128> {
    if s.len() < 36 || s[8] != HYPHEN || s[13] != HYPHEN || s[18] != HYPHEN || s[23] != HYPHEN {
        None
    } else {
        match (
            parse_hex(s.subrange(0, 8)),
            parse_hex(s.subrange(9, 13)),
            parse_hex(s.subrange(14, 18)),
            parse_hex(s.subrange(19, 23)),
            parse_hex(s.subrange(24, 36)),
        ) {
            (Some(a), Some(b), Some(c), Some(d), Some(e)) => Some(
                join_groups(a, b, c, d, e) as u128,
            ),
            _ => None,
        }
    }
}

pub proof fn lemma_groups_join(v: u128)
    ensures
        join_groups(group_a(v), group_b(v), group_c(v), group_d(v), group_e(v)) == v,
        group_a(v) < 0x1_0000_0000,
        group_b(v) < 0x1_0000,
        group_c(v) < 0x1_0000,
        group_d(v) < 0x1_0000,
        group_e(v) < 0x1_0000_0000_0000,
{
    let x = v as int;
    let q48 = x / 0x1_0000_0000_0000;
    let q64 = x / 0x1_0000_0000_0000_0000;
    let q80 = x / 0x1_0000_0000_0000_0000_0000;
    let q96 = x / 0x1_0000_0000_0000_0000_0000_0000;
    assert(q48 / 0x1_0000 == q64);
    assert(q64 / 0x1_0000 == q80);
    assert(q80 / 0x1_0000 == q96);
}

pub proof fn lemma_identifier_text_len(v: u128)
    ensures
        identifier_text(v).len() == 36,
{
    lemma_hex_digits_shape(group_a(v), 8);
    lemma_hex_digits_shape(group_b(v), 4);
    lemma_hex_digits_shape(group_c(v), 4);
    lemma_hex_digits_shape(group_d(v), 4);
    lemma_hex_digits_shape(group_e(v), 12);
}

/// Reading the canonical text of an identifier gives the identifier back,
/// whatever follows it.
pub proof fn lemma_parse_identifier_text(v: u128, rest: Seq<u8>)
    ensures
        parse_identifier(identifier_text(v) + rest) == Some(v),
        identifier_text(v).len() == 36,
{
    let a = hex_digits(group_a(v), 8);
    let b = hex_digits(group_b(v), 4);
    let c = hex_digits(group_c(v), 4);
    let d = hex_digits(group_d(v), 4);
    let e = hex_digits(group_e(v), 12);
    lemma_hex_digits_shape(group_a(v), 8);
    lemma_hex_digits_shape(group_b(v), 4);
    lemma_hex_digits_shape(group_c(v), 4);
    lemma_hex_digits_shape(group_d(v), 4);
    lemma_hex_digits_shape(group_e(v), 12);
    lemma_groups_join(v);
    lemma_hex_capacities();
    lemma_hex_round_trip(group_a(v), 8);
    lemma_hex_round_trip(group_b(v), 4);
    lemma_hex_round_trip(group_c(v), 4);
    lemma_hex_round_trip(group_d(v), 4);
    lemma_hex_round_trip(group_e(v), 12);
    let s = identifier_text(v) + rest;
    assert(s.subrange(0, 8) =~= a);
    assert(s.subrange(9, 13) =~= b);
    assert(s.subrange(14, 18) =~= c);
    assert(s.subrange(19, 23) =~= d);
    assert(s.subrange(24, 36) =~= e);
    assert(s[8] == HYPHEN);
    assert(s[13] == HYPHEN);
    assert(s[18] == HYPHEN);
    assert(s[23] == HYPHEN);
}

/// Two identifiers with the same canonical text are the same identifier.
pub proof fn lemma_identifier_text_injective(v: u128, w: u128)
    requires
        identifier_text(v) == identifier_text(w),
    ensures
        v == w,
{
    lemma_parse_identifier_text(v, Seq::empty());
    lemma_parse_identifier_text(w, Seq::empty());
}

/// Appends the canonical text of `v` to `out`.
pub fn push_identifier(out: &mut Vec<u8>, v: u128)
    ensures
        final(out)@ == old(out)@ + identifier_text(v),
{
    push_hex(out, v / 0x1_0000_0000_0000_0000_0000_0000, 8);
    out.push(HYPHEN);
    push_hex(out, (v / 0x1_0000_0000_0000_0000_0000) % 0x1_0000, 4);
    out.push(HYPHEN);
    push_hex(out, (v / 0x1_0000_0000_0000_0000) % 0x1_0000, 4);
    out.push(HYPHEN);
    push_hex(out, (v / 0x1_0000_0000_0000) % 0x1_0000, 4);
    out.push(HYPHEN);
    push_hex(out, v % 0x1_0000_0000_0000, 12);
    assert(final(out)@ =~= old(out)@ + identifier_text(v));
}

} // verus!

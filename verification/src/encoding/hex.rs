//! Lower-case hexadecimal text of fixed width, and the hyphenated text of
//! 128-bit identifiers built from it.

use vstd::prelude::*;

verus! {

/// The lower-case hexadecimal digit for a value below sixteen.
pub open spec fn hex_byte(d: int) -> u8 {
    if d < 10 {
        (48 + d) as u8
    } else {
        (87 + d) as u8
    }
}

/// Whether a byte is a lower-case hexadecimal digit.
pub open spec fn is_hex(b: u8) -> bool {
    (48 <= b <= 57) || (97 <= b <= 102)
}

/// The value of a lower-case hexadecimal digit.
pub open spec fn hex_digit_value(b: u8) -> int {
    if b <= 57 {
        b - 48
    } else {
        b - 87
    }
}

/// The last `n` hexadecimal digits of `v`, most significant first.
pub open spec fn hex_digits(v: nat, n: nat) -> Seq<u8>
    decreases n,
{
    if n == 0 {
        Seq::empty()
    } else {
        hex_digits(v / 16, (n - 1) as nat).push(hex_byte((v % 16) as int))
    }
}

/// Sixteen to the power `n`.
pub open spec fn hex_capacity(n: nat) -> nat
    decreases n,
{
    if n == 0 {
        1
    } else {
        16 * hex_capacity((n - 1) as nat)
    }
}

/// The number that a sequence of hexadecimal digits denotes.
pub open spec fn hex_value(s: Seq<u8>) -> nat
    decreases s.len(),
{
    if s.len() == 0 {
        0
    } else {
        hex_value(s.drop_last()) * 16 + hex_digit_value(s.last()) as nat
    }
}

/// Every byte of the sequence is a lower-case hexadecimal digit.
pub open spec fn all_hex(s: Seq<u8>) -> bool {
    forall|i: int| 0 <= i < s.len() ==> is_hex(#[trigger] s[i])
}

/// What reading a group of hexadecimal digits gives.
pub open spec fn parse_hex(s: Seq<u8>) -> Option<nat> {
    if all_hex(s) {
        Some(hex_value(s))
    } else {
        None
    }
}

pub proof fn lemma_hex_digits_shape(v: nat, n: nat)
    ensures
        hex_digits(v, n).len() == n,
        all_hex(hex_digits(v, n)),
    decreases n,
{
    if n > 0 {
        lemma_hex_digits_shape(v / 16, (n - 1) as nat);
    }
}

/// Reading back `n` digits of a number below sixteen to the `n` gives the
/// number.
pub proof fn lemma_hex_round_trip(v: nat, n: nat)
    requires
        v < hex_capacity(n),
    ensures
        hex_value(hex_digits(v, n)) == v,
    decreases n,
{
    if n > 0 {
        lemma_hex_round_trip(v / 16, (n - 1) as nat);
        assert(hex_digits(v, n).drop_last() =~= hex_digits(v / 16, (n - 1) as nat));
    }
}

pub proof fn lemma_hex_capacities()
    ensures
        hex_capacity(4) == 0x1_0000,
        hex_capacity(8) == 0x1_0000_0000,
        hex_capacity(12) == 0x1_0000_0000_0000,
        hex_capacity(16) == 0x1_0000_0000_0000_0000,
{
    reveal_with_fuel(hex_capacity, 5);
    assert(hex_capacity(4) == 0x1_0000);
    assert(hex_capacity(8) == 0x1_0000 * hex_capacity(4));
    assert(hex_capacity(12) == 0x1_0000 * hex_capacity(8));
    assert(hex_capacity(16) == 0x1_0000 * hex_capacity(12));
}

/// Appends the last `n` hexadecimal digits of `v` to `out`.
pub fn push_hex(out: &mut Vec<u8>, v: u128, n: u8)
    ensures
        final(out)@ == old(out)@ + hex_digits(v as nat, n as nat),
    decreases n,
{
    if n == 0 {
        assert(old(out)@ + hex_digits(v as nat, 0) =~= old(out)@);
        return ;
    }
    push_hex(out, v / 16, n - 1);
    let d: u8 = (v % 16) as u8;
    if d < 10 {
        out.push(48u8 + d);
    } else {
        out.push(87u8 + d);
    }
    assert(final(out)@ =~= old(out)@ + hex_digits(v as nat, n as nat));
}

} // verus!

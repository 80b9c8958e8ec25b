//! The records that the service keeps and the identifiers they go by.

use vstd::prelude::*;
use crate::encoding::bytes::{all_ascii, ascii_text, ascii_text_string};
use crate::encoding::decimal::{digits_of, lemma_digits_round_trip, push_digits};

pub mod account;
pub mod lesson;
pub mod permission;
pub mod repeat;
pub mod statements;
pub mod teacher;

verus! {

/// The placeholder for the parameter with the given number: a dollar sign
/// and the number.
pub open spec fn placeholder(n: nat) -> Seq<u8> {
    seq![36u8] + digits_of(n)
}

/// The placeholders for `count` parameters from the number `first` on, with
/// a comma and a space between each two.
pub open spec fn placeholders(first: nat, count: nat) -> Seq<u8>
    decreases count,
{
    if count == 0 {
        Seq::empty()
    } else if count == 1 {
        placeholder(first)
    } else {
        placeholders(first, (count - 1) as nat) + seq![44u8, 32u8] + placeholder(
            (first + count - 1) as nat,
        )
    }
}

/// One row of an insert with `size` columns, as the row with the number
/// `iteration`, rows counted from nought: the placeholders for its
/// parameters in brackets.
pub open spec fn templated_row(size: nat, iteration: nat) -> Seq<u8> {
    seq![40u8] + placeholders(iteration * size + 1, size) + seq![41u8]
}

/// Appends the placeholder for the parameter with the number `n`.
fn push_placeholder(out: &mut Vec<u8>, n: u64)
    requires
        all_ascii(old(out)@),
    ensures
        final(out)@ == old(out)@ + placeholder(n as nat),
        all_ascii(final(out)@),
{
    out.push(36u8);
    let ghost before = out@;
    push_digits(out, n);
    proof {
        lemma_digits_round_trip(n as nat);
        assert(final(out)@ =~= old(out)@ + placeholder(n as nat));
        let d = digits_of(n as nat);
        assert forall|i: int| 0 <= i < final(out)@.len() implies #[trigger] final(out)@[i] < 128 by {
            if i < old(out)@.len() {
                assert(final(out)@[i] == old(out)@[i]);
            } else if i == old(out)@.len() {
            } else {
                assert(final(out)@[i] == d[i - old(out)@.len() - 1]);
                assert(crate::encoding::decimal::is_digit(d[i - old(out)@.len() - 1]));
            }
        }
    }
}

/// Appends one row of an insert.
pub fn push_templated_row(out: &mut Vec<u8>, size: usize, iteration: usize)
    requires
        iteration * size + size <= u64::MAX,
        all_ascii(old(out)@),
    ensures
        final(out)@ == old(out)@ + templated_row(size as nat, iteration as nat),
        all_ascii(final(out)@),
{
    out.push(40u8);
    let ghost start = out@;
    assert(all_ascii(start)) by {
        assert forall|k: int| 0 <= k < start.len() implies #[trigger] start[k] < 128 by {
            if k < old(out)@.len() {
                assert(start[k] == old(out)@[k]);
            }
        }
    }
    if size == 0 {
        out.push(41u8);
        proof {
            assert(placeholders((iteration * size + 1) as nat, 0) =~= Seq::<u8>::empty());
            assert(final(out)@ =~= old(out)@ + templated_row(size as nat, iteration as nat));
            assert forall|k: int| 0 <= k < final(out)@.len() implies #[trigger] final(out)@[k]
                < 128 by {
                if k < start.len() {
                    assert(final(out)@[k] == start[k]);
                }
            }
        }
        return ;
    }
    let first: u64 = (iteration as u64) * (size as u64) + 1;
    let mut i: usize = 0;
    while i < size
        invariant
            i <= size,
            first == iteration * size + 1,
            first + size <= u64::MAX + 1,
            out@ == start + placeholders(first as nat, i as nat),
            all_ascii(out@),
        decreases size - i,
    {
        let ghost before = out@;
        if i > 0 {
            out.push(44u8);
            out.push(32u8);
        }
        assert(all_ascii(out@)) by {
            assert forall|k: int| 0 <= k < out@.len() implies #[trigger] out@[k] < 128 by {
                if k < before.len() {
                    assert(out@[k] == before[k]);
                }
            }
        }
        push_placeholder(out, first + i as u64);
        proof {
            if i == 0 {
                assert(placeholders(first as nat, 0) =~= Seq::<u8>::empty());
                assert(out@ =~= start + placeholders(first as nat, 1));
            } else {
                assert(out@ =~= start + placeholders(first as nat, (i + 1) as nat));
            }
        }
        i += 1;
    }
    let ghost before = out@;
    out.push(41u8);
    proof {
        assert(final(out)@ =~= old(out)@ + templated_row(size as nat, iteration as nat));
        assert forall|k: int| 0 <= k < final(out)@.len() implies #[trigger] final(out)@[k] < 128 by {
            if k < before.len() {
                assert(final(out)@[k] == before[k]);
            }
        }
    }
}

/// One row of an insert with `size` columns, as the row with the number
/// `iteration`: for three columns and the row 1, `($4, $5, $6)`.
pub fn templated_insert(size: usize, iteration: usize) -> (row: String)
    requires
        iteration * size + size <= u64::MAX,
    ensures
        row@ == ascii_text(templated_row(size as nat, iteration as nat)),
{
    let mut out: Vec<u8> = Vec::new();
    push_templated_row(&mut out, size, iteration);
    assert(out@ =~= templated_row(size as nat, iteration as nat));
    ascii_text_string(out)
}

} // verus!

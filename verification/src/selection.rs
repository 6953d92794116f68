// SPDX-License-Identifier: GPL-2.0

//! How a drawn byte selects a fact.
//!
//! The device draws one byte per read and takes it modulo the table's size.
//! A byte has 256 values, so the facts are not selected equally often unless
//! the size divides 256, and a table of more than 256 facts has facts that
//! no byte selects. `lemma_draws_per_index` gives the exact count.

use vstd::arithmetic::div_mod::{
    lemma_fundamental_div_mod, lemma_fundamental_div_mod_converse, lemma_mod_bound,
};
use vstd::prelude::*;

verus! {

/// The position in a table of `size` facts that the byte `draw` selects.
pub open spec fn selected_index(draw: u8, size: nat) -> int {
    draw as int % size as int
}

/// The fact that the byte `draw` selects from `facts`.
pub open spec fn selected_fact(facts: Seq<Seq<u8>>, draw: u8) -> Seq<u8> {
    facts[selected_index(draw, facts.len())]
}

/// How many of the bytes below `bound` select `index` among `size` facts.
/// With a `bound` of 256 these are all the bytes.
pub open spec fn draws_selecting(size: nat, index: int, bound: nat) -> nat
    recommends
        bound <= 256,
    decreases bound,
{
    if bound == 0 {
        0
    } else {
        let below = draws_selecting(size, index, (bound - 1) as nat);
        if selected_index((bound - 1) as u8, size) == index {
            below + 1
        } else {
            below
        }
    }
}

/// The index of the fact that a drawn byte selects among `size` facts.
pub fn select_index(draw: u8, size: usize) -> (index: usize)
    requires
        size > 0,
    ensures
        index == selected_index(draw, size as nat),
        index < size,
{
    draw as usize % size
}

/// Of the bytes below `bound`, `bound / size` select any given index, and
/// one more selects it if the index is below `bound % size`.
proof fn lemma_draws_below(size: nat, index: int, bound: nat)
    requires
        size > 0,
        0 <= index < size,
        bound <= 256,
    ensures
        draws_selecting(size, index, bound) == bound / size + if index < bound % size {
            1int
        } else {
            0int
        },
    decreases bound,
{
    if bound > 0 {
        let last = (bound - 1) as int;
        let d = size as int;
        let q = last / d;
        let r = last % d;
        lemma_draws_below(size, index, last as nat);
        lemma_fundamental_div_mod(last, d);
        lemma_mod_bound(last, d);
        // Stepping from `last` to `bound` moves the remainder on by one, or
        // wraps it to zero and moves the quotient on by one.
        if r + 1 < d {
            assert(last + 1 == q * d + (r + 1)) by (nonlinear_arith)
                requires
                    last == d * q + r,
            ;
            lemma_fundamental_div_mod_converse(last + 1, d, q, r + 1);
        } else {
            assert(last + 1 == (q + 1) * d + 0) by (nonlinear_arith)
                requires
                    last == d * q + r,
                    r + 1 == d,
            ;
            lemma_fundamental_div_mod_converse(last + 1, d, q + 1, 0);
        }
    } else {
        lemma_fundamental_div_mod_converse(0, size as int, 0, 0);
    }
}

/// Of the 256 values of a byte, `256 / size` select any given fact, and one
/// more selects it if its index is below `256 % size`. So two facts differ
/// by at most one value, all facts are level when `size` divides 256, and in
/// a table of more than 256 facts those from index 256 on are never
/// selected.
pub proof fn lemma_draws_per_index(size: nat, index: int)
    requires
        size > 0,
        0 <= index < size,
    ensures
        draws_selecting(size, index, 256) == 256nat / size + if index < 256nat % size {
            1int
        } else {
            0int
        },
        size > 256 ==> draws_selecting(size, index, 256) == if index < 256 {
            1int
        } else {
            0int
        },
        256nat % size == 0 ==> draws_selecting(size, index, 256) == 256nat / size,
{
    lemma_draws_below(size, index, 256);
    if size > 256 {
        lemma_fundamental_div_mod_converse(256, size as int, 0, 256);
    }
}

} // verus!

//! Reduction of a signed sample coordinate modulo a grid dimension.
//!
//! The reduction truncates toward zero, as the `%` operator of the machine
//! does: the result has the sign of the coordinate, so a negative coordinate
//! that is no multiple of the dimension stays negative and names no cell.

use vstd::arithmetic::div_mod::{lemma_fundamental_div_mod, lemma_fundamental_div_mod_converse};
use vstd::prelude::*;

verus! {

/// The remainder of `a` divided by `m` with the quotient rounded toward zero.
pub open spec fn trunc_rem(a: int, m: int) -> int
    recommends
        m > 0,
{
    if a >= 0 {
        a % m
    } else {
        -((-a) % m)
    }
}

/// A remainder is no larger than the number that was divided.
proof fn lemma_rem_bounded(a: int, m: int)
    requires
        a >= 0,
        m > 0,
    ensures
        0 <= a % m <= a,
        a % m < m,
{
    assert(0 <= a % m <= a && a % m < m) by (nonlinear_arith)
        requires
            a >= 0,
            m > 0,
    ;
}

/// Reduces the coordinate `sum` modulo `dim`, truncating toward zero.
pub fn wrap(sum: i32, dim: usize) -> (r: i32)
    requires
        dim > 0,
    ensures
        r == trunc_rem(sum as int, dim as int),
{
    if sum >= 0 {
        proof {
            lemma_rem_bounded(sum as int, dim as int);
        }
        let rem: usize = (sum as usize) % dim;
        rem as i32
    } else {
        let magnitude: i64 = -(sum as i64);
        proof {
            lemma_rem_bounded(magnitude as int, dim as int);
        }
        let rem: usize = (magnitude as usize) % dim;
        let back: i64 = -(rem as i64);
        back as i32
    }
}

/// The cell index that a reduced coordinate names, if it names one.
pub open spec fn cell_index(sum: int, dim: int) -> Option<int> {
    if trunc_rem(sum, dim) >= 0 {
        Some(trunc_rem(sum, dim))
    } else {
        None
    }
}

/// The quotient of `a` divided by `m`, rounded toward zero.
pub open spec fn trunc_quot(a: int, m: int) -> int
    recommends
        m > 0,
{
    if a >= 0 {
        a / m
    } else {
        -((-a) / m)
    }
}

/// A reduced coordinate is smaller in magnitude than the dimension and has
/// the sign of the coordinate; with the quotient rounded toward zero it makes
/// up the coordinate again.
pub proof fn lemma_trunc_rem_range(sum: int, dim: int)
    requires
        dim > 0,
    ensures
        -dim < trunc_rem(sum, dim) < dim,
        sum >= 0 ==> 0 <= trunc_rem(sum, dim) <= sum,
        sum <= 0 ==> sum <= trunc_rem(sum, dim) <= 0,
        sum == trunc_quot(sum, dim) * dim + trunc_rem(sum, dim),
{
    if sum >= 0 {
        lemma_rem_bounded(sum, dim);
        lemma_fundamental_div_mod(sum, dim);
        assert(dim * (sum / dim) == (sum / dim) * dim) by (nonlinear_arith);
    } else {
        lemma_rem_bounded(-sum, dim);
        lemma_fundamental_div_mod(-sum, dim);
        let q = (-sum) / dim;
        assert((-q) * dim == -(dim * q)) by (nonlinear_arith);
    }
}

/// A coordinate that is not negative always names a cell, and a negative one
/// names a cell only when it is a multiple of the dimension, in which case
/// it names the first.
pub proof fn lemma_cell_index_cases(sum: int, dim: int)
    requires
        dim > 0,
    ensures
        sum >= 0 ==> cell_index(sum, dim) == Some(sum % dim),
        sum < 0 ==> cell_index(sum, dim) == if sum % dim == 0 {
            Some(0int)
        } else {
            None
        },
        cell_index(sum, dim) is Some ==> 0 <= cell_index(sum, dim).unwrap() < dim,
{
    lemma_trunc_rem_range(sum, dim);
    if sum < 0 {
        let q = trunc_quot(sum, dim);
        if trunc_rem(sum, dim) == 0 {
            lemma_fundamental_div_mod_converse(sum, dim, q, 0);
        }
        if sum % dim == 0 {
            lemma_fundamental_div_mod(sum, dim);
            let e = sum / dim;
            assert((-e) * dim + 0 == -(dim * e)) by (nonlinear_arith);
            lemma_fundamental_div_mod_converse(-sum, dim, -e, 0);
        }
    }
}

} // verus!

use vstd::prelude::*;
use vstd::arithmetic::div_mod::lemma_fundamental_div_mod_converse;

verus! {

/// The number of `q`-sized groups needed to cover `p` items.
pub open spec fn ceil_div_spec(p: int, q: int) -> int {
    (p + q - 1) / q
}

/// `p` rounded up to the next multiple of `q`.
pub open spec fn pad_spec(p: int, q: int) -> int {
    ceil_div_spec(p, q) * q
}

/// The ceiling quotient is the least group count whose groups cover `p`.
pub proof fn lemma_ceil_div_bounds(p: int, q: int)
    requires
        p >= 0,
        q > 0,
    ensures
        ceil_div_spec(p, q) >= 0,
        ceil_div_spec(p, q) * q >= p,
        ceil_div_spec(p, q) * q < p + q,
        p % q == 0 ==> ceil_div_spec(p, q) == p / q,
        p % q != 0 ==> ceil_div_spec(p, q) == p / q + 1,
        p % q != 0 ==> p / q < p,
{
    let d = p / q;
    let m = p % q;
    vstd::arithmetic::div_mod::lemma_fundamental_div_mod(p, q);
    assert((d + 1) * q == d * q + q) by (nonlinear_arith);
    assert(d >= 0 && q > 0 ==> d * q >= d) by (nonlinear_arith);
    vstd::arithmetic::div_mod::lemma_div_pos_is_pos(p, q);
    if m == 0 {
        lemma_fundamental_div_mod_converse(p + q - 1, q, d, q - 1);
    } else {
        lemma_fundamental_div_mod_converse(p + q - 1, q, d + 1, m - 1);
    }
}

/// Rounds `p / q` up, without overflowing for any `p`.
pub fn ceil_div(p: usize, q: usize) -> (r: usize)
    requires
        q > 0,
    ensures
        r == ceil_div_spec(p as int, q as int),
        r as int * q as int >= p as int,
        (r as int * q as int) < p as int + q as int,
{
    proof {
        lemma_ceil_div_bounds(p as int, q as int);
    }
    if p % q == 0 {
        p / q
    } else {
        p / q + 1
    }
}

/// Rounds `p` up to a multiple of `q`.
pub fn pad(p: usize, q: usize) -> (r: usize)
    requires
        q > 0,
        pad_spec(p as int, q as int) <= usize::MAX,
    ensures
        r == pad_spec(p as int, q as int),
        r as int % q as int == 0,
        p <= r,
        (r as int) < p as int + q as int,
{
    proof {
        lemma_ceil_div_bounds(p as int, q as int);
        vstd::arithmetic::div_mod::lemma_mod_multiples_basic(ceil_div_spec(p as int, q as int), q as int);
    }
    ceil_div(p, q) * q
}

} // verus!

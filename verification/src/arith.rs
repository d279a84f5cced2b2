//! Rounding arithmetic on sizes.
use vstd::arithmetic::div_mod::lemma_fundamental_div_mod;
use vstd::prelude::*;

verus! {

/// The number of groups of `b` that hold `a` items, the last one possibly not full.
pub open spec fn div_up(a: int, b: int) -> int
    recommends
        b > 0,
{
    (a + b - 1) / b
}

/// `size` rounded up to a multiple of `padding`; a zero `padding` asks for no rounding.
pub open spec fn padded(size: int, padding: int) -> int {
    if padding == 0 {
        size
    } else {
        div_up(size, padding) * padding
    }
}

/// The groups counted by `div_up` hold `a` items and leave less than one group empty.
pub proof fn lemma_div_up_bounds(a: int, b: int)
    requires
        a >= 0,
        b > 0,
    ensures
        0 <= div_up(a, b) <= a,
        a <= div_up(a, b) * b < a + b,
{
    let q: int = div_up(a, b);
    lemma_fundamental_div_mod(a + b - 1, b);
    assert(q * b == b * q) by (nonlinear_arith);
    assert(0 <= q <= a) by (nonlinear_arith)
        requires
            a >= 0,
            b > 0,
            a <= q * b < a + b,
    ;
}

/// No smaller number of groups would do: whatever number `q` of groups of `b` reaches `a`,
/// `div_up(a, b)` is at most `q`.
pub proof fn law_div_up_is_least(a: int, b: int, q: int)
    requires
        a >= 0,
        b > 0,
        q * b >= a,
    ensures
        div_up(a, b) <= q,
{
    let q0: int = div_up(a, b);
    lemma_div_up_bounds(a, b);
    assert(q0 <= q) by (nonlinear_arith)
        requires
            b > 0,
            q * b >= a,
            q0 * b < a + b,
    ;
}

/// Padding reaches the size, adds less than one unit, and gives a multiple of the unit.
pub proof fn lemma_padded_bounds(size: int, padding: int)
    requires
        size >= 0,
        padding > 0,
    ensures
        size <= padded(size, padding) < size + padding,
        padded(size, padding) % padding == 0,
{
    lemma_div_up_bounds(size, padding);
    vstd::arithmetic::div_mod::lemma_mod_multiples_basic(div_up(size, padding), padding);
}

/// The padded size is the least multiple of the unit that reaches the size.
pub proof fn law_padded_is_least(size: int, padding: int, multiple: int)
    requires
        size >= 0,
        padding > 0,
        multiple >= size,
        multiple % padding == 0,
    ensures
        padded(size, padding) <= multiple,
{
    let q: int = multiple / padding;
    lemma_fundamental_div_mod(multiple, padding);
    assert(q * padding == padding * q) by (nonlinear_arith);
    law_div_up_is_least(size, padding, q);
    let p: int = div_up(size, padding);
    assert(p * padding <= q * padding) by (nonlinear_arith)
        requires
            p <= q,
            padding > 0,
    ;
}

/// Padding a padded size changes nothing, whatever the unit.
pub proof fn law_padded_twice(size: int, padding: int)
    requires
        size >= 0,
        padding >= 0,
    ensures
        padded(padded(size, padding), padding) == padded(size, padding),
{
    if padding > 0 {
        let once: int = padded(size, padding);
        lemma_padded_bounds(size, padding);
        lemma_padded_bounds(once, padding);
        law_padded_is_least(once, padding, once);
    }
}

/// `size` rounded up to a multiple of `padding`, or `size` itself when `padding` is zero.
pub fn pad(size: usize, padding: usize) -> (r: usize)
    requires
        padding == 0 || size + padding <= usize::MAX,
    ensures
        r == padded(size as int, padding as int),
{
    if padding == 0 {
        return size;
    }
    proof {
        lemma_div_up_bounds(size as int, padding as int);
    }
    ((size + padding - 1) / padding) * padding
}

/// `a / b` rounded up.
pub fn ceil_div(a: usize, b: usize) -> (r: usize)
    requires
        b > 0,
        a + b <= usize::MAX,
    ensures
        r == div_up(a as int, b as int),
{
    (a + b - 1) / b
}

/// Nothing is rounded to a multiple of zero.
pub proof fn law_padded_to_zero(size: int)
    ensures
        padded(size, 0) == size,
{
}

} // verus!

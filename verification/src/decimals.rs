use vstd::prelude::*;
use vstd::arithmetic::div_mod::{lemma_basic_div, lemma_div_denominator, lemma_fundamental_div_mod};
use vstd::arithmetic::mul::lemma_mul_inequality;

verus! {

/// Ten to the power `n`.
pub open spec fn pow10(n: nat) -> nat
    decreases n,
{
    if n == 0 {
        1
    } else {
        10 * pow10((n - 1) as nat)
    }
}

/// Powers of ten are positive and grow with the exponent.
pub proof fn lemma_pow10_monotonic(a: nat, b: nat)
    requires
        a <= b,
    ensures
        1 <= pow10(a) <= pow10(b),
    decreases b,
{
    if b == 0 {
    } else if a == b {
        lemma_pow10_monotonic(0, (b - 1) as nat);
    } else {
        lemma_pow10_monotonic(a, (b - 1) as nat);
    }
}

/// Division that truncates toward zero.
pub open spec fn trunc_div(value: int, d: int) -> int {
    if value >= 0 {
        value / d
    } else {
        -((-value) / d)
    }
}

/// A fixed-point value moved from `from` decimals to `to` decimals:
/// multiplied by a power of ten when scaling up, divided with truncation
/// toward zero when scaling down.
pub open spec fn spec_rescale(value: int, from: nat, to: nat) -> int {
    if to >= from {
        value * pow10((to - from) as nat)
    } else {
        trunc_div(value, pow10((from - to) as nat) as int)
    }
}

/// Whether the rescaled value is representable.
pub open spec fn rescale_fits(value: int, from: nat, to: nat) -> bool {
    i128::MIN <= spec_rescale(value, from, to) <= i128::MAX
}

/// Scaling up and then back down by the same factor returns the value.
pub proof fn lemma_rescale_up_then_down(value: int, from: nat, to: nat)
    requires
        from <= to,
    ensures
        spec_rescale(spec_rescale(value, from, to), to, from) == value,
{
    let p = pow10((to - from) as nat) as int;
    lemma_pow10_monotonic(0, (to - from) as nat);
    if from < to {
        if value >= 0 {
            assert(value * p >= 0 && (value * p) / p == value) by (nonlinear_arith)
                requires
                    value >= 0,
                    p >= 1,
            ;
        } else {
            assert(value * p < 0 && (-(value * p)) / p == -value) by (nonlinear_arith)
                requires
                    value < 0,
                    p >= 1,
            ;
        }
    } else {
        assert(value * p == value) by (nonlinear_arith)
            requires
                p == 1,
        ;
    }
}

/// Scaling down and then back up by the same factor returns the value
/// exactly when the division dropped nothing; otherwise the low digits
/// are lost.
pub proof fn lemma_rescale_down_then_up(value: int, from: nat, to: nat)
    requires
        to <= from,
    ensures
        spec_rescale(spec_rescale(value, from, to), to, from) == value <==> value % (pow10(
            (from - to) as nat,
        ) as int) == 0,
{
    let p = pow10((from - to) as nat) as int;
    lemma_pow10_monotonic(0, (from - to) as nat);
    if to < from {
        if value >= 0 {
            assert(((value / p) * p == value) <==> value % p == 0) by (nonlinear_arith)
                requires
                    p >= 1,
            ;
        } else {
            let w = -value;
            assert(((-(w / p)) * p == -w) <==> (-w) % p == 0) by (nonlinear_arith)
                requires
                    p >= 1,
                    w > 0,
            ;
        }
    } else {
        assert(value * p == value && value % p == 0) by (nonlinear_arith)
            requires
                p == 1,
        ;
    }
}

/// The magnitude of `value`.
fn magnitude(value: i128) -> (m: u128)
    ensures
        m == if value >= 0 { value as int } else { -(value as int) },
{
    if value >= 0 {
        value as u128
    } else if value == i128::MIN {
        170141183460469231731687303715884105728u128
    } else {
        (-value) as u128
    }
}

/// The value with the given magnitude and sign, if it is representable.
fn with_sign(m: u128, negative: bool) -> (r: Option<i128>)
    ensures
        match r {
            Some(x) => x == if negative { -(m as int) } else { m as int },
            None => if negative { -(m as int) < i128::MIN } else { m > i128::MAX },
        },
{
    if !negative {
        if m <= 170141183460469231731687303715884105727u128 {
            Some(m as i128)
        } else {
            None
        }
    } else if m < 170141183460469231731687303715884105728u128 {
        Some(-(m as i128))
    } else if m == 170141183460469231731687303715884105728u128 {
        Some(i128::MIN)
    } else {
        None
    }
}

/// Multiplies a magnitude by `10^k`, or reports that the product is too wide.
fn scale_up(m: u128, k: u32) -> (r: Option<u128>)
    ensures
        match r {
            Some(x) => x == m * pow10(k as nat),
            None => m * pow10(k as nat) > u128::MAX,
        },
{
    if m == 0 {
        assert(0 * pow10(k as nat) == 0) by (nonlinear_arith);
        return Some(0);
    }
    let mut cur: u128 = m;
    let mut i: u32 = 0;
    assert(m * pow10(0) == m) by (nonlinear_arith)
        requires
            pow10(0) == 1,
    ;
    while i < k
        invariant
            i <= k,
            m >= 1,
            cur == m * pow10(i as nat),
        decreases k - i,
    {
        let next = cur.checked_mul(10);
        proof {
            let p = pow10(i as nat) as int;
            assert(m * (10 * p) == (m * p) * 10) by (nonlinear_arith);
        }
        match next {
            Some(x) => {
                cur = x;
                i = i + 1;
            },
            None => {
                proof {
                    lemma_pow10_monotonic((i + 1) as nat, k as nat);
                    lemma_mul_inequality(
                        pow10((i + 1) as nat) as int,
                        pow10(k as nat) as int,
                        m as int,
                    );
                    assert(m * pow10((i + 1) as nat) == pow10((i + 1) as nat) * m)
                        by (nonlinear_arith);
                    assert(m * pow10(k as nat) == pow10(k as nat) * m) by (nonlinear_arith);
                }
                return None;
            },
        }
    }
    Some(cur)
}

/// Divides a magnitude by `10^k`.
fn scale_down(m: u128, k: u32) -> (r: u128)
    ensures
        r == m as int / pow10(k as nat) as int,
{
    let mut cur: u128 = m;
    let mut i: u32 = 0;
    assert(m as int / pow10(0) as int == m) by {
        assert(pow10(0) == 1);
    }
    while i < k && cur > 0
        invariant
            i <= k,
            cur == m as int / pow10(i as nat) as int,
        decreases k - i,
    {
        proof {
            lemma_pow10_monotonic(0, i as nat);
            lemma_div_denominator(m as int, pow10(i as nat) as int, 10);
            assert(pow10(i as nat) * 10 == pow10((i + 1) as nat));
        }
        cur = cur / 10;
        i = i + 1;
    }
    proof {
        if i < k {
            let p = pow10(i as nat) as int;
            lemma_pow10_monotonic(i as nat, k as nat);
            lemma_fundamental_div_mod(m as int, p);
            assert(m < p) by (nonlinear_arith)
                requires
                    m == p * (m as int / p) + (m as int % p),
                    m as int / p == 0,
                    0 <= m as int % p < p,
            ;
            lemma_basic_div(m as int, pow10(k as nat) as int);
        }
    }
    cur
}

/// Converts `value` from `from` decimals to `to` decimals, or returns `None`
/// when the result is not representable.
pub fn checked_rescale(value: i128, from: u32, to: u32) -> (r: Option<i128>)
    ensures
        r.is_some() == rescale_fits(value as int, from as nat, to as nat),
        r matches Some(x) ==> x == spec_rescale(value as int, from as nat, to as nat),
{
    let negative = value < 0;
    let m = magnitude(value);
    if to >= from {
        let k = to - from;
        proof {
            let p = pow10(k as nat) as int;
            lemma_pow10_monotonic(0, k as nat);
            assert(value < 0 ==> value * p == -(m * p)) by (nonlinear_arith)
                requires
                    value < 0 ==> value == -(m as int),
            ;
        }
        match scale_up(m, k) {
            Some(x) => with_sign(x, negative),
            None => None,
        }
    } else {
        let k = from - to;
        let x = scale_down(m, k);
        proof {
            let p = pow10(k as nat) as int;
            lemma_pow10_monotonic(0, k as nat);
            lemma_fundamental_div_mod(m as int, p);
            assert(m as int / p <= m) by (nonlinear_arith)
                requires
                    m == p * (m as int / p) + (m as int % p),
                    0 <= m as int % p,
                    p >= 1,
                    m as int / p >= 0,
            ;
        }
        with_sign(x, negative)
    }
}

/// Converts `value` from `from` decimals to `to` decimals.
pub fn rescale(value: i128, from: u32, to: u32) -> (r: i128)
    requires
        rescale_fits(value as int, from as nat, to as nat),
    ensures
        r == spec_rescale(value as int, from as nat, to as nat),
{
    match checked_rescale(value, from, to) {
        Some(x) => x,
        None => 0,
    }
}

} // verus!

use vstd::prelude::*;
use vstd::arithmetic::div_mod::lemma_fundamental_div_mod;
use crate::types::PriceData;

verus! {

/// The distance between two prices.
pub open spec fn price_gap(current: int, reference: int) -> int {
    if current >= reference {
        current - reference
    } else {
        reference - current
    }
}

/// How far `current` lies from `reference`, in parts per million of
/// `reference`, rounded down. Meaningful for a positive `reference`.
pub open spec fn deviation_ppm(current: int, reference: int) -> int {
    price_gap(current, reference) * 1_000_000 / reference
}

/// Whether `current` is too far from `reference` to be trusted: the
/// deviation exceeds `threshold`, or `reference` is not positive and no
/// ratio can be formed.
pub open spec fn spec_deviates(current: int, reference: int, threshold: int) -> bool {
    reference <= 0 || deviation_ppm(current, reference) > threshold
}

/// A quotient exceeds `t` exactly when the dividend reaches `(t + 1) * d`.
proof fn lemma_quotient_exceeds(a: int, d: int, t: int)
    requires
        0 <= a,
        0 < d,
        0 <= t,
    ensures
        a / d > t <==> a >= (t + 1) * d,
{
    lemma_fundamental_div_mod(a, d);
    let q = a / d;
    let r = a % d;
    if q > t {
        assert(d * q >= (t + 1) * d) by (nonlinear_arith)
            requires
                q >= t + 1,
                d > 0,
        ;
    } else {
        assert(d * q + r < (t + 1) * d) by (nonlinear_arith)
            requires
                q <= t,
                d > 0,
                0 <= r < d,
        ;
    }
}

/// The distance between a price and a positive reference price.
fn gap(current: i128, reference: i128) -> (g: u128)
    requires
        reference > 0,
    ensures
        g == price_gap(current as int, reference as int),
{
    if current >= reference {
        (current - reference) as u128
    } else if current >= 0 {
        (reference - current) as u128
    } else if current == i128::MIN {
        reference as u128 + 170141183460469231731687303715884105728u128
    } else {
        reference as u128 + ((-current) as u128)
    }
}

/// Decides whether `current` deviates from `reference` by more than
/// `threshold` parts per million.
pub fn deviates(current: i128, reference: i128, threshold: u32) -> (b: bool)
    ensures
        b == spec_deviates(current as int, reference as int, threshold as int),
{
    if reference <= 0 {
        return true;
    }
    let g = gap(current, reference);
    let r = reference as u128;
    let k: u128 = threshold as u128 + 1;
    // Both products can exceed 128 bits, so each is formed as two 64-bit limbs.
    let g_low = (g % 18446744073709551616u128) * 1_000_000;
    let lhs_hi = (g / 18446744073709551616u128) * 1_000_000 + g_low / 18446744073709551616u128;
    let lhs_lo = g_low % 18446744073709551616u128;
    let r_hi = r / 18446744073709551616u128;
    let r_lo = r % 18446744073709551616u128;
    assert(r_lo * k <= 18446744073709551615 * 4294967296) by (nonlinear_arith)
        requires
            r_lo <= 18446744073709551615,
            k <= 4294967296,
    ;
    assert(r_hi * k <= 18446744073709551615 * 4294967296) by (nonlinear_arith)
        requires
            r_hi <= 18446744073709551615,
            k <= 4294967296,
    ;
    let r_low = r_lo * k;
    let rhs_hi = r_hi * k + r_low / 18446744073709551616u128;
    let rhs_lo = r_low % 18446744073709551616u128;
    proof {
        let w = 18446744073709551616int;
        assert(lhs_hi * w + lhs_lo == g * 1_000_000);
        assert(rhs_hi * w + rhs_lo == k * r) by (nonlinear_arith)
            requires
                rhs_hi == r_hi * k + (r_lo * k) / w,
                rhs_lo == (r_lo * k) % w,
                r == r_hi * w + r_lo,
                w == 18446744073709551616,
        ;
        lemma_quotient_exceeds(g * 1_000_000, reference as int, threshold as int);
        assert((threshold + 1) * reference == k * r) by (nonlinear_arith)
            requires
                k == threshold + 1,
                r == reference,
        ;
    }
    lhs_hi > rhs_hi || (lhs_hi == rhs_hi && lhs_lo >= rhs_lo)
}

/// The breaker's verdict on one observation.
#[derive(Copy, Clone, Debug, PartialEq, Eq, Structural)]
pub enum Decision {
    Pass,
    Trip,
}

/// The breaker of one asset: whether it is tripped, and the time until
/// which a trip lasts.
#[derive(Copy, Clone, Debug, PartialEq, Eq, Structural)]
pub struct BreakerState {
    pub tripped: bool,
    pub until: u64,
}

/// The breaker's parameters, fixed when the aggregator is set up.
#[derive(Copy, Clone, Debug, PartialEq, Eq, Structural)]
pub struct BreakerSettings {
    pub enabled: bool,
    pub threshold: u32,
    pub timeout: u64,
}

/// The end of a trip that starts at `now`.
pub open spec fn trip_end(now: u64, timeout: u64) -> u64 {
    if now + timeout > u64::MAX {
        u64::MAX
    } else {
        (now + timeout) as u64
    }
}

/// Whether the observation deviates from the reference it is held against.
/// Without a reference there is nothing to deviate from.
pub open spec fn spec_deviates_from(current: PriceData, reference: Option<PriceData>, threshold: u32) -> bool {
    match reference {
        Some(prior) => spec_deviates(current.price as int, prior.price as int, threshold as int),
        None => false,
    }
}

/// The breaker's transition: the verdict on `current` and the state after it.
///
/// A disabled breaker passes everything and keeps its state. A deviating
/// observation trips the breaker until `now + timeout`. Otherwise a trip
/// whose time has come is reset, and the observation passes unless the
/// breaker is still tripped.
pub open spec fn spec_evaluate(
    settings: BreakerSettings,
    state: BreakerState,
    now: u64,
    current: PriceData,
    reference: Option<PriceData>,
) -> (Decision, BreakerState) {
    if !settings.enabled {
        (Decision::Pass, state)
    } else if spec_deviates_from(current, reference, settings.threshold) {
        (Decision::Trip, BreakerState { tripped: true, until: trip_end(now, settings.timeout) })
    } else if state.tripped && now >= state.until {
        (Decision::Pass, BreakerState { tripped: false, until: state.until })
    } else if state.tripped {
        (Decision::Trip, state)
    } else {
        (Decision::Pass, state)
    }
}

/// Evaluates one observation against its reference and the breaker's
/// state, returning the verdict and the next state.
pub fn evaluate(
    settings: &BreakerSettings,
    state: BreakerState,
    now: u64,
    current: &PriceData,
    reference: &Option<PriceData>,
) -> (r: (Decision, BreakerState))
    ensures
        r == spec_evaluate(*settings, state, now, *current, *reference),
{
    if !settings.enabled {
        return (Decision::Pass, state);
    }
    let deviating = match reference {
        Some(prior) => deviates(current.price, prior.price, settings.threshold),
        None => false,
    };
    if deviating {
        (Decision::Trip, BreakerState { tripped: true, until: now.saturating_add(settings.timeout) })
    } else if state.tripped && now >= state.until {
        (Decision::Pass, BreakerState { tripped: false, until: state.until })
    } else if state.tripped {
        (Decision::Trip, state)
    } else {
        (Decision::Pass, state)
    }
}

/// A disabled breaker never rejects an observation and never changes state.
pub proof fn lemma_disabled_breaker_passes(
    settings: BreakerSettings,
    state: BreakerState,
    now: u64,
    current: PriceData,
    reference: Option<PriceData>,
)
    requires
        !settings.enabled,
    ensures
        spec_evaluate(settings, state, now, current, reference) == (Decision::Pass, state),
{
}

/// While a trip lasts, every observation is rejected; once its time has
/// come, an observation that does not deviate passes and resets the breaker.
pub proof fn lemma_trip_lasts_until_timeout(
    settings: BreakerSettings,
    state: BreakerState,
    now: u64,
    current: PriceData,
    reference: Option<PriceData>,
)
    requires
        settings.enabled,
        state.tripped,
    ensures
        now < state.until ==> spec_evaluate(settings, state, now, current, reference).0
            == Decision::Trip,
        now >= state.until && !spec_deviates_from(current, reference, settings.threshold)
            ==> spec_evaluate(settings, state, now, current, reference) == (
            Decision::Pass,
            BreakerState { tripped: false, until: state.until },
        ),
{
}

} // verus!

//! The accrual engine: elapsed stream time, the cumulative unlocked
//! quantity under each curve variant, the claimable balance derived from
//! them, and the fixed-point rate derivation for basic streams.

use vstd::prelude::*;

verus! {

use vstd::math::{min, max};
use vstd::arithmetic::div_mod::{
    lemma_fundamental_div_mod,
    lemma_div_denominator,
    lemma_div_multiples_vanish,
};
use vstd::arithmetic::mul::lemma_mul_is_commutative;
use crate::curve::{Curve, CurveV};
use crate::error::ContractError;
use crate::math::{spec_mul_ratio, mul_ratio};
use crate::state::{Ledger, PaymentStream, StreamV};

/// The fixed-point scale used when deriving a per-second rate: large enough
/// to bound the truncation bias of the single integer division.
pub const RATE_SCALE: u128 = 1_000_000_000_000_000;

/// Seconds of the stream window that have elapsed at `now`, clamped to
/// `[0, stop_time - start_time]`.
pub open spec fn spec_elapsed(s: StreamV, now: u64) -> int {
    if now <= s.start_time {
        0
    } else if now < s.stop_time {
        now - s.start_time
    } else {
        s.stop_time - s.start_time
    }
}

/// Cumulative quantity unlocked at `now`.  An uncurved stream unlocks the
/// deposit linearly over the window, with floor rounding applied to the
/// full product so truncation never compounds; a constant curve unlocks
/// its rate per elapsed second, saturating at the deposit; the other
/// curves are evaluated at `now` directly.
pub open spec fn spec_unlocked(s: StreamV, now: u64) -> int {
    match s.curve {
        None => spec_mul_ratio(s.deposit as int, spec_elapsed(s, now),
            s.stop_time - s.start_time),
        Some(CurveV::Constant { y }) => min((y as int) * spec_elapsed(s, now), s.deposit as int),
        Some(c) => c.value_at(now),
    }
}

/// What has already been paid out of the stream.
pub open spec fn spec_already_paid(s: StreamV) -> int {
    s.deposit - s.remaining_balance
}

/// The claimable balance at `now`: the unlocked quantity minus what was
/// already paid, never negative, exactly the remaining balance at or
/// after the end of the window whatever the curve did, and zero up to the
/// start of the window however early the curve rises.
pub open spec fn spec_claimable(s: StreamV, now: u64) -> int {
    if now >= s.stop_time {
        s.remaining_balance as int
    } else if now <= s.start_time {
        0
    } else {
        max(spec_unlocked(s, now) - spec_already_paid(s), 0)
    }
}

/// Seconds of the stream window elapsed at `now`, clamped to the window.
pub fn delta(stream: &PaymentStream, now: u64) -> (r: u64)
    requires
        stream@.start_time < stream@.stop_time,
    ensures
        r == spec_elapsed(stream@, now),
{
    if now <= stream.start_time {
        0
    } else if now < stream.stop_time {
        now - stream.start_time
    } else {
        stream.stop_time - stream.start_time
    }
}

/// The claimable balance of `stream` at `now`.
pub fn avail_balance_of(stream: &PaymentStream, now: u64) -> (r: u128)
    requires
        stream@.wf(),
    ensures
        r == spec_claimable(stream@, now),
{
    if now >= stream.stop_time {
        return stream.remaining_balance;
    }
    if now <= stream.start_time {
        return 0;
    }
    let elapsed: u64 = delta(stream, now);
    let already_paid: u128 = stream.deposit - stream.remaining_balance;
    let unlocked: u128 = match &stream.curve {
        None => {
            let duration: u64 = stream.stop_time - stream.start_time;
            mul_ratio(stream.deposit, elapsed, duration)
        },
        Some(Curve::Constant { y }) => {
            if *y == 0 || elapsed == 0 {
                proof {
                    assert((*y as int) * spec_elapsed(stream@, now) == 0) by (nonlinear_arith)
                        requires
                            *y == 0 || spec_elapsed(stream@, now) == 0,
                            spec_elapsed(stream@, now) == elapsed as int,
                    ;
                }
                0
            } else if (elapsed as u128) > u128::MAX / *y {
                proof {
                    lemma_fundamental_div_mod(u128::MAX as int, *y as int);
                    assert((*y as int) * (elapsed as int) > u128::MAX as int) by (nonlinear_arith)
                        requires
                            elapsed as int >= u128::MAX as int / (*y as int) + 1,
                            (*y as int) * (u128::MAX as int / (*y as int)) > u128::MAX as int - (*y
                                as int),
                            *y as int > 0,
                    ;
                }
                stream.deposit
            } else {
                proof {
                    lemma_fundamental_div_mod(u128::MAX as int, *y as int);
                    assert((*y as int) * (elapsed as int) <= u128::MAX as int) by (nonlinear_arith)
                        requires
                            0 < elapsed as int <= u128::MAX as int / (*y as int),
                            (*y as int) * (u128::MAX as int / (*y as int)) <= u128::MAX as int,
                            *y as int > 0,
                    ;
                }
                let prod: u128 = *y * (elapsed as u128);
                if prod >= stream.deposit {
                    stream.deposit
                } else {
                    prod
                }
            }
        },
        Some(Curve::SaturatingLinear(sl)) => sl.value(now),
        Some(Curve::PiecewiseLinear(p)) => p.value(now),
    };
    if unlocked <= already_paid {
        0
    } else {
        unlocked - already_paid
    }
}

/// Derives the per-second release rate of a basic stream:
/// `floor(deposit * RATE_SCALE / duration) / RATE_SCALE`, which equals
/// `floor(deposit / duration)` exactly.  An empty duration is rejected
/// before the division; a deposit too large for the fixed-point product is
/// an overflow.
pub fn calc_rate_per_second(duration: u64, deposit: u128) -> (r: Result<u128, ContractError>)
    ensures
        duration == 0 <==> r == Err::<u128, ContractError>(ContractError::DivisionByZero {}),
        duration > 0 && deposit > u128::MAX as int / RATE_SCALE as int ==> r == Err::<
            u128,
            ContractError,
        >(ContractError::Overflow {}),
        duration > 0 && deposit <= u128::MAX as int / RATE_SCALE as int ==> {
            &&& r is Ok
            &&& r->Ok_0 == ((deposit as int) * (RATE_SCALE as int) / (duration as int)) / (
            RATE_SCALE as int)
            &&& r->Ok_0 == deposit as int / duration as int
        },
{
    if duration == 0 {
        return Err(ContractError::DivisionByZero {});
    }
    let limit: u128 = u128::MAX / RATE_SCALE;
    if deposit > limit {
        return Err(ContractError::Overflow {});
    }
    proof {
        lemma_fundamental_div_mod(u128::MAX as int, RATE_SCALE as int);
        assert((deposit as int) * (RATE_SCALE as int) <= u128::MAX as int) by (nonlinear_arith)
            requires
                0 <= deposit as int <= u128::MAX as int / (RATE_SCALE as int),
                (RATE_SCALE as int) * (u128::MAX as int / (RATE_SCALE as int)) <= u128::MAX as int,
        ;
    }
    let scaled_deposit: u128 = deposit * RATE_SCALE;
    let rate_per_second: u128 = scaled_deposit / (duration as u128) / RATE_SCALE;
    proof {
        let d = deposit as int;
        let s = RATE_SCALE as int;
        let t = duration as int;
        lemma_div_denominator(d * s, t, s);
        lemma_div_denominator(d * s, s, t);
        lemma_mul_is_commutative(t, s);
        lemma_mul_is_commutative(d, s);
        lemma_div_multiples_vanish(d, s);
        assert(d * s / t / s == d * s / s / t);
        assert(d * s / s == d);
    }
    Ok(rate_per_second)
}

/// Elapsed window time of the stream stored under `stream_id`.
#[allow(non_snake_case)]
pub fn deltaOf(ledger: &Ledger, now: u64, stream_id: u64) -> (r: Result<u64, ContractError>)
    requires
        ledger@.wf(),
    ensures
        1 <= stream_id <= ledger@.streams.len() ==> {
            &&& r is Ok
            &&& r->Ok_0 == spec_elapsed(ledger@.streams[stream_id - 1], now)
        },
        !(1 <= stream_id <= ledger@.streams.len()) ==> r == Err::<u64, ContractError>(
            ContractError::StreamNotFound {},
        ),
{
    let n: usize = ledger.streams.len();
    if stream_id >= 1 && stream_id <= n as u64 {
        let i: usize = (stream_id - 1) as usize;
        proof {
            assert(ledger@.streams[stream_id - 1] == ledger.streams@[stream_id - 1]@);
        }
        Ok(delta(&ledger.streams[i], now))
    } else {
        Err(ContractError::StreamNotFound {})
    }
}

} // verus!

verus! {

use crate::curve::{
    CurveError,
    spec_monotone_err,
    spec_steps_ordered,
    spec_ys_non_decreasing,
};
use crate::state::StreamType;

/// Result of the per-step scan that `TraditionalUnlockStepCurve`
/// validation performs: x must strictly increase from a positive start,
/// y must never decrease, and the first violation in scan order decides
/// the error.
pub open spec fn spec_step_scan(steps: Seq<(u64, u128)>, i: int, last_x: u64, last_y: u128)
    -> Result<(), CurveError>
    decreases steps.len() - i,
{
    if i < 0 || i >= steps.len() {
        Ok(())
    } else if steps[i].0 <= last_x {
        Err(CurveError::PointsOutOfOrder)
    } else if steps[i].1 < last_y {
        Err(CurveError::NotMonotonic)
    } else {
        spec_step_scan(steps, i + 1, steps[i].0, steps[i].1)
    }
}

/// The shape each stream kind requires of its curve.
pub open spec fn spec_validate_curve(stream_type: StreamType, c: CurveV) -> Result<
    (),
    CurveError,
> {
    match stream_type {
        StreamType::Basic => match c {
            CurveV::Constant { .. } => Ok(()),
            _ => Err(CurveError::NotMonotonic),
        },
        StreamType::LinearCurveBased => if c.monotone_ok() {
            Ok(())
        } else {
            Err(spec_monotone_err(c))
        },
        StreamType::CliffCurveBased => match c {
            CurveV::PiecewiseLinear(steps) => if steps.len() < 2 {
                Err(CurveError::MissingSteps)
            } else if steps[0].1 != steps[1].1 {
                Err(CurveError::NotMonotonic)
            } else if spec_steps_ordered(steps) && spec_ys_non_decreasing(steps) {
                Ok(())
            } else {
                Err(spec_monotone_err(c))
            },
            _ => Err(CurveError::NotMonotonic),
        },
        StreamType::DynamicCurveBased => Ok(()),
        StreamType::ExponentialCurveBased | StreamType::ExponentialCurveBasedWithCliff => if c
            .monotone_ok() {
            Ok(())
        } else {
            Err(spec_monotone_err(c))
        },
        StreamType::TraditionalUnlockStepCurve => match c {
            CurveV::PiecewiseLinear(steps) => spec_step_scan(steps, 0, 0, 0),
            _ => Err(CurveError::NotMonotonic),
        },
    }
}

/// Checks that `curve` has the shape `stream_type` requires: a constant
/// curve for basic streams, a monotonically non-decreasing curve for
/// linear and exponential kinds, a plateau followed by a non-decreasing
/// tail for cliff curves, ordered non-decreasing steps for traditional
/// unlock curves, and anything for the dynamic kind.
pub fn validate_curve(stream_type: StreamType, curve: &Curve) -> (r: Result<(), CurveError>)
    ensures
        r == spec_validate_curve(stream_type, curve@),
{
    match stream_type {
        StreamType::Basic => match curve {
            Curve::Constant { .. } => Ok(()),
            _ => Err(CurveError::NotMonotonic),
        },
        StreamType::LinearCurveBased => curve.validate_monotonic_increasing(),
        StreamType::CliffCurveBased => match curve {
            Curve::PiecewiseLinear(piecewise) => {
                if piecewise.steps.len() < 2 {
                    return Err(CurveError::MissingSteps);
                }
                if piecewise.steps[0].1 != piecewise.steps[1].1 {
                    return Err(CurveError::NotMonotonic);
                }
                piecewise.validate_monotonic_increasing()
            },
            _ => Err(CurveError::NotMonotonic),
        },
        StreamType::DynamicCurveBased => Ok(()),
        StreamType::ExponentialCurveBased | StreamType::ExponentialCurveBasedWithCliff => curve
            .validate_monotonic_increasing(),
        StreamType::TraditionalUnlockStepCurve => match curve {
            Curve::PiecewiseLinear(piecewise) => {
                let n: usize = piecewise.steps.len();
                let mut last_x: u64 = 0;
                let mut last_y: u128 = 0;
                let mut k: usize = 0;
                while k < n
                    invariant
                        stream_type == StreamType::TraditionalUnlockStepCurve,
                        curve@ == CurveV::PiecewiseLinear(piecewise.steps@),
                        n == piecewise.steps@.len(),
                        k <= n,
                        spec_step_scan(piecewise.steps@, 0, 0, 0) == spec_step_scan(
                            piecewise.steps@, k as int, last_x, last_y),
                    decreases n - k,
                {
                    let x: u64 = piecewise.steps[k].0;
                    let y: u128 = piecewise.steps[k].1;
                    if x <= last_x {
                        return Err(CurveError::PointsOutOfOrder);
                    }
                    if y < last_y {
                        return Err(CurveError::NotMonotonic);
                    }
                    last_x = x;
                    last_y = y;
                    k = k + 1;
                }
                Ok(())
            },
            _ => Err(CurveError::NotMonotonic),
        },
    }
}

} // verus!

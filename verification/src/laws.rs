//! The guarantees the accrual engine and lifecycle give as a whole, proved
//! once over every stream: claimable is zero before the window starts,
//! stays within the remaining balance, equals it exactly at the end of
//! the window, never decreases with time alone, a drained stream rejects
//! further claims, and claims plus cancel payouts account for the deposit
//! exactly.

use vstd::prelude::*;

verus! {

use crate::curve::{CurveV, SaturatingLinear, spec_pwl_value, spec_strict_xs,
    spec_ys_non_decreasing};
use crate::curve_helpers::{spec_already_paid, spec_claimable, spec_elapsed, spec_unlocked};
use crate::contract::{
    spec_cancel_payouts,
    spec_claim_check,
    spec_ledger_after_claim,
    spec_stream_after_claim,
};
use crate::error::ContractError;
use crate::math::{lemma_mul_ratio_le, lemma_mul_ratio_monotone};
use crate::msg::PayoutV;
use crate::state::{LedgerV, StreamV};

/// The curve never promises more than the deposit.  Streams whose curve
/// overshoots the deposit can claim ahead of the remaining balance;
/// creation does not forbid them, so the bounds below assume this cap.
pub open spec fn spec_curve_capped(s: StreamV) -> bool {
    match s.curve {
        None => true,
        Some(CurveV::Constant { .. }) => true,
        Some(CurveV::SaturatingLinear(sl)) => sl.min_y <= s.deposit && sl.max_y <= s.deposit,
        Some(CurveV::PiecewiseLinear(steps)) => forall|i: int|
            0 <= i < steps.len() ==> (#[trigger] steps[i]).1 <= s.deposit,
    }
}

/// An ordered, non-decreasing step sequence stays between its first and
/// last y values.
proof fn lemma_pwl_bounds(steps: Seq<(u64, u128)>, x: u64)
    requires
        steps.len() >= 1,
        spec_strict_xs(steps),
        spec_ys_non_decreasing(steps),
    ensures
        steps[0].1 <= spec_pwl_value(steps, x) <= steps[steps.len() - 1].1,
    decreases steps.len(),
{
    if steps.len() <= 1 {
    } else if x < steps[1].0 {
        if x < steps[0].0 {
            assert(steps[0].1 <= steps[steps.len() - 1].1);
        } else {
            let x1 = steps[0].0 as int;
            let y1 = steps[0].1 as int;
            let x2 = steps[1].0 as int;
            let y2 = steps[1].1 as int;
            assert(y1 <= y2);
            lemma_mul_ratio_le(y2 - y1, x - x1, x2 - x1);
            assert(steps[1].1 <= steps[steps.len() - 1].1);
        }
    } else {
        let rest = steps.drop_first();
        assert forall|i: int, j: int| 0 <= i < j < rest.len() implies rest[i].0 < rest[j].0 by {
            assert(rest[i] == steps[i + 1]);
            assert(rest[j] == steps[j + 1]);
        }
        assert forall|i: int, j: int| 0 <= i < j < rest.len() implies rest[i].1 <= rest[j].1 by {
            assert(rest[i] == steps[i + 1]);
            assert(rest[j] == steps[j + 1]);
        }
        lemma_pwl_bounds(rest, x);
        assert(rest[0] == steps[1]);
        assert(rest[rest.len() - 1] == steps[steps.len() - 1]);
        assert(steps[0].1 <= steps[1].1);
    }
}

/// An ordered, non-decreasing step sequence evaluates monotonically in x.
proof fn lemma_pwl_monotone(steps: Seq<(u64, u128)>, t1: u64, t2: u64)
    requires
        steps.len() >= 1,
        spec_strict_xs(steps),
        spec_ys_non_decreasing(steps),
        t1 <= t2,
    ensures
        spec_pwl_value(steps, t1) <= spec_pwl_value(steps, t2),
    decreases steps.len(),
{
    if steps.len() <= 1 {
    } else {
        let x1 = steps[0].0 as int;
        let y1 = steps[0].1 as int;
        let x2 = steps[1].0 as int;
        let y2 = steps[1].1 as int;
        assert(y1 <= y2);
        if t2 < steps[1].0 {
            if t1 < steps[0].0 {
                if t2 < steps[0].0 {
                } else {
                    lemma_mul_ratio_le(y2 - y1, t2 - x1, x2 - x1);
                }
            } else {
                lemma_mul_ratio_monotone(y2 - y1, t1 - x1, t2 - x1, x2 - x1);
            }
        } else if t1 >= steps[1].0 {
            let rest = steps.drop_first();
            assert forall|i: int, j: int| 0 <= i < j < rest.len() implies rest[i].0 < rest[j].0 by {
                assert(rest[i] == steps[i + 1]);
                assert(rest[j] == steps[j + 1]);
            }
            assert forall|i: int, j: int| 0 <= i < j < rest.len() implies rest[i].1 <= rest[j].1 by {
                assert(rest[i] == steps[i + 1]);
                assert(rest[j] == steps[j + 1]);
            }
            lemma_pwl_monotone(rest, t1, t2);
        } else {
            // t1 sits in the first segment, t2 beyond it.
            if t1 < steps[0].0 {
            } else {
                lemma_mul_ratio_le(y2 - y1, t1 - x1, x2 - x1);
            }
            assert(spec_pwl_value(steps, t1) <= y2);
            let rest = steps.drop_first();
            assert forall|i: int, j: int| 0 <= i < j < rest.len() implies rest[i].0 < rest[j].0 by {
                assert(rest[i] == steps[i + 1]);
                assert(rest[j] == steps[j + 1]);
            }
            assert forall|i: int, j: int| 0 <= i < j < rest.len() implies rest[i].1 <= rest[j].1 by {
                assert(rest[i] == steps[i + 1]);
                assert(rest[j] == steps[j + 1]);
            }
            lemma_pwl_bounds(rest, t2);
            assert(rest[0] == steps[1]);
        }
    }
}

/// A valid, monotone saturating-linear curve evaluates monotonically in x.
proof fn lemma_satlin_monotone(sl: SaturatingLinear, t1: u64, t2: u64)
    requires
        sl.spec_valid(),
        sl.spec_monotonic(),
        t1 <= t2,
    ensures
        sl.spec_value(t1) <= sl.spec_value(t2),
{
    let x1 = sl.min_x as int;
    let y1 = sl.min_y as int;
    let x2 = sl.max_x as int;
    let y2 = sl.max_y as int;
    if t1 < sl.min_x {
        if t2 < sl.min_x {
        } else if t2 > sl.max_x {
        } else {
            lemma_mul_ratio_le(y2 - y1, t2 - x1, x2 - x1);
        }
    } else if t1 > sl.max_x {
    } else {
        if t2 > sl.max_x {
            lemma_mul_ratio_le(y2 - y1, t1 - x1, x2 - x1);
        } else {
            lemma_mul_ratio_monotone(y2 - y1, t1 - x1, t2 - x1, x2 - x1);
        }
    }
}

/// The unlocked quantity of a well-formed, capped stream never exceeds
/// the deposit and is never negative.
proof fn lemma_unlocked_bounds(s: StreamV, now: u64)
    requires
        s.wf(),
        spec_curve_capped(s),
    ensures
        0 <= spec_unlocked(s, now) <= s.deposit,
{
    match s.curve {
        None => {
            lemma_mul_ratio_le(s.deposit as int, spec_elapsed(s, now),
                s.stop_time - s.start_time);
        },
        Some(CurveV::Constant { y }) => {
            assert((y as int) * spec_elapsed(s, now) >= 0) by (nonlinear_arith)
                requires
                    y as int >= 0,
                    spec_elapsed(s, now) >= 0,
            ;
        },
        Some(CurveV::SaturatingLinear(sl)) => {
            if now < sl.min_x {
            } else if now > sl.max_x {
            } else {
                lemma_mul_ratio_le(sl.max_y - sl.min_y, now - sl.min_x, sl.max_x - sl.min_x);
            }
        },
        Some(CurveV::PiecewiseLinear(steps)) => {
            lemma_pwl_bounds(steps, now);
        },
    }
}

/// The unlocked quantity of a well-formed stream never decreases with
/// time.
proof fn lemma_unlocked_monotone(s: StreamV, t1: u64, t2: u64)
    requires
        s.wf(),
        t1 <= t2,
    ensures
        spec_unlocked(s, t1) <= spec_unlocked(s, t2),
{
    match s.curve {
        None => {
            lemma_mul_ratio_monotone(s.deposit as int, spec_elapsed(s, t1), spec_elapsed(s, t2),
                s.stop_time - s.start_time);
        },
        Some(CurveV::Constant { y }) => {
            assert((y as int) * spec_elapsed(s, t1) <= (y as int) * spec_elapsed(s, t2))
                by (nonlinear_arith)
                requires
                    y as int >= 0,
                    0 <= spec_elapsed(s, t1) <= spec_elapsed(s, t2),
            ;
        },
        Some(CurveV::SaturatingLinear(sl)) => {
            lemma_satlin_monotone(sl, t1, t2);
        },
        Some(CurveV::PiecewiseLinear(steps)) => {
            lemma_pwl_monotone(steps, t1, t2);
        },
    }
}

/// For every well-formed stream whose curve stays within the deposit and
/// every time: the claimable balance lies between zero and the remaining
/// balance, which lies within the deposit.
pub proof fn law_claimable_bounded(s: StreamV, now: u64)
    requires
        s.wf(),
        spec_curve_capped(s),
    ensures
        0 <= spec_claimable(s, now),
        spec_claimable(s, now) <= s.remaining_balance,
        s.remaining_balance <= s.deposit,
{
    if now >= s.stop_time {
    } else {
        lemma_unlocked_bounds(s, now);
    }
}

/// Nothing is claimable up to the start of the window, however early the
/// stream's curve begins to rise.
pub proof fn law_nothing_claimable_before_start(s: StreamV, now: u64)
    requires
        s.wf(),
        now <= s.start_time,
    ensures
        spec_claimable(s, now) == 0,
{
}

/// Terminal exactness: at or after the end of the window the claimable
/// balance equals the remaining balance exactly, whatever the curve and
/// whatever fixed-point rounding did earlier.
pub proof fn law_terminal_exactness(s: StreamV, now: u64)
    requires
        s.wf(),
        now >= s.stop_time,
    ensures
        spec_claimable(s, now) == s.remaining_balance,
{
}

/// Monotonicity: with the stream state fixed, the claimable balance never
/// decreases as time passes.
pub proof fn law_claimable_monotonic(s: StreamV, t1: u64, t2: u64)
    requires
        s.wf(),
        spec_curve_capped(s),
        t1 <= t2,
    ensures
        spec_claimable(s, t1) <= spec_claimable(s, t2),
{
    if t1 >= s.stop_time {
    } else if t2 >= s.stop_time {
        law_claimable_bounded(s, t1);
    } else {
        lemma_unlocked_monotone(s, t1, t2);
    }
}

/// Idempotent rejection: when the whole remaining balance is claimable,
/// claiming it succeeds, and any further positive claim at the very same
/// time is rejected for exceeding the now-empty available balance.
pub proof fn law_idempotent_rejection(
    l: LedgerV,
    caller: Seq<char>,
    now: u64,
    recipient: Seq<char>,
    stream_idx: u64,
    amount2: u128,
)
    requires
        l.wf(),
        1 <= stream_idx <= l.streams.len(),
        l.streams[stream_idx - 1].recipient == caller,
        spec_curve_capped(l.streams[stream_idx - 1]),
        spec_claimable(l.streams[stream_idx - 1], now) == l.streams[stream_idx
            - 1].remaining_balance,
        l.streams[stream_idx - 1].remaining_balance > 0,
        amount2 > 0,
    ensures
        spec_claim_check(l, caller, now, recipient, l.streams[stream_idx - 1].remaining_balance,
            Some(stream_idx)) == Ok::<int, ContractError>(stream_idx - 1),
        spec_claim_check(
            spec_ledger_after_claim(l, stream_idx - 1, l.streams[stream_idx
                - 1].remaining_balance),
            caller,
            now,
            recipient,
            amount2,
            Some(stream_idx),
        ) == Err::<int, ContractError>(ContractError::NotEnoughAvailableBalance {}),
{
    let j = stream_idx - 1;
    let s = l.streams[j];
    let s2 = spec_stream_after_claim(s, s.remaining_balance);
    let l2 = spec_ledger_after_claim(l, j, s.remaining_balance);
    assert(l2.streams[j] == s2);
    assert(s2.remaining_balance == 0);
    if now >= s.stop_time {
    } else {
        lemma_unlocked_bounds(s, now);
        assert(spec_unlocked(s2, now) == spec_unlocked(s, now));
        assert(spec_claimable(s2, now) == 0);
    }
}

/// The total quantity a payout list instructs to move.
pub open spec fn spec_payout_sum(ps: Seq<PayoutV>) -> int
    decreases ps.len(),
{
    if ps.len() == 0 {
        0
    } else {
        ps[0].amount + spec_payout_sum(ps.drop_first())
    }
}

/// Conservation at cancellation: the payouts a cancellation emits move
/// exactly the remaining balance, so together with the claims already
/// paid (each of which lowered the remaining balance by exactly its
/// amount) every unit of the original deposit is accounted for.
pub proof fn law_cancel_conserves_deposit(s: StreamV, now: u64)
    requires
        s.wf(),
        spec_curve_capped(s),
    ensures
        spec_payout_sum(spec_cancel_payouts(s, now)) == s.remaining_balance,
        spec_payout_sum(spec_cancel_payouts(s, now)) + spec_already_paid(s) == s.deposit,
{
    law_claimable_bounded(s, now);
    let ps = spec_cancel_payouts(s, now);
    let c = spec_claimable(s, now);
    if c > 0 {
        let dp = ps.drop_first();
        assert(dp.len() == 1);
        assert(dp[0] == ps[1]);
        assert(spec_payout_sum(dp.drop_first()) == 0);
        assert(spec_payout_sum(dp) == dp[0].amount);
        assert(spec_payout_sum(ps) == ps[0].amount + dp[0].amount);
        assert(ps[0].amount == c);
        assert(ps[1].amount == s.remaining_balance - c);
    } else {
        assert(spec_payout_sum(ps.drop_first()) == 0);
        assert(spec_payout_sum(ps) == ps[0].amount);
        assert(ps[0].amount == s.remaining_balance - c);
    }
}

/// Conservation at claim: a successful claim moves the paid-out total up
/// by exactly its amount and leaves the deposit untouched.
pub proof fn law_claim_conserves_deposit(s: StreamV, amount: u128)
    requires
        amount <= s.remaining_balance,
    ensures
        spec_stream_after_claim(s, amount).deposit == s.deposit,
        spec_already_paid(spec_stream_after_claim(s, amount)) == spec_already_paid(s) + amount,
{
}

} // verus!

verus! {

/// The total of a list of claim amounts.
pub open spec fn spec_claims_sum(amounts: Seq<u128>) -> int
    decreases amounts.len(),
{
    if amounts.len() == 0 {
        0
    } else {
        amounts[0] + spec_claims_sum(amounts.drop_first())
    }
}

/// The stream after paying the given claims out of it, one after another.
pub open spec fn spec_stream_after_claims(s: StreamV, amounts: Seq<u128>) -> StreamV
    decreases amounts.len(),
{
    if amounts.len() == 0 {
        s
    } else {
        spec_stream_after_claims(spec_stream_after_claim(s, amounts[0]), amounts.drop_first())
    }
}

/// Each claim in turn fits in what then remains of the stream.
pub open spec fn spec_claims_valid(s: StreamV, amounts: Seq<u128>) -> bool
    decreases amounts.len(),
{
    amounts.len() == 0 || (amounts[0] <= s.remaining_balance && spec_claims_valid(
        spec_stream_after_claim(s, amounts[0]),
        amounts.drop_first(),
    ))
}

/// Successive claims leave the deposit, the window and the curve alone
/// and lower the remaining balance by exactly their total.
proof fn lemma_after_claims(s: StreamV, amounts: Seq<u128>)
    requires
        s.wf(),
        spec_claims_valid(s, amounts),
    ensures
        ({
            let after = spec_stream_after_claims(s, amounts);
            &&& after.wf()
            &&& after.deposit == s.deposit
            &&& after.curve == s.curve
            &&& after.remaining_balance == s.remaining_balance - spec_claims_sum(amounts)
        }),
    decreases amounts.len(),
{
    if amounts.len() == 0 {
    } else {
        let s1 = spec_stream_after_claim(s, amounts[0]);
        assert(s1.wf());
        lemma_after_claims(s1, amounts.drop_first());
    }
}

/// Conservation over a whole stream lifetime: any run of successful
/// claims followed by a cancellation moves exactly the original deposit,
/// the claims by their amounts and the cancellation by the rest.
pub proof fn law_claims_then_cancel_conserve(s: StreamV, amounts: Seq<u128>, now: u64)
    requires
        s.wf(),
        spec_curve_capped(s),
        s.remaining_balance == s.deposit,
        spec_claims_valid(s, amounts),
    ensures
        spec_claims_sum(amounts) + spec_payout_sum(
            spec_cancel_payouts(spec_stream_after_claims(s, amounts), now),
        ) == s.deposit,
{
    lemma_after_claims(s, amounts);
    let after = spec_stream_after_claims(s, amounts);
    assert(spec_curve_capped(after));
    law_cancel_conserves_deposit(after, now);
}

} // verus!

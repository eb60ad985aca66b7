//! The curve model: tagged release-curve variants, their evaluation
//! `value(x)` giving the cumulative unlocked quantity at time `x`, and the
//! shape validation that stream creation runs.

use vstd::prelude::*;

verus! {

use crate::math::{spec_mul_ratio, mul_ratio};

/// A curve whose shape was rejected at stream creation.
#[derive(Debug, Clone, Copy, PartialEq, Eq, Structural)]
pub enum CurveError {
    NotMonotonic,
    PointsOutOfOrder,
    MissingSteps,
}

/// `min_y` at `min_x`, `max_y` at `max_x`, linear in between, flat outside.
#[derive(Debug, Clone, Copy, PartialEq, Eq, Structural)]
pub struct SaturatingLinear {
    pub min_x: u64,
    pub min_y: u128,
    pub max_x: u64,
    pub max_y: u128,
}

/// Ordered `(x, y)` steps; linear interpolation between neighbouring steps,
/// first `y` before the first step, last `y` after the last.
#[derive(Debug, PartialEq)]
pub struct PiecewiseLinear {
    pub steps: Vec<(u64, u128)>,
}

/// A release curve: cumulative unlocked quantity as a function of time.
#[derive(Debug, PartialEq)]
pub enum Curve {
    Constant { y: u128 },
    SaturatingLinear(SaturatingLinear),
    PiecewiseLinear(PiecewiseLinear),
}

/// The mathematical content of a `Curve`: the same variants with the step
/// vector abstracted to a sequence.
#[verifier::ext_equal]
pub enum CurveV {
    Constant { y: u128 },
    SaturatingLinear(SaturatingLinear),
    PiecewiseLinear(Seq<(u64, u128)>),
}

impl View for PiecewiseLinear {
    type V = Seq<(u64, u128)>;

    open spec fn view(&self) -> Seq<(u64, u128)> {
        self.steps@
    }
}

impl View for Curve {
    type V = CurveV;

    open spec fn view(&self) -> CurveV {
        match self {
            Curve::Constant { y } => CurveV::Constant { y: *y },
            Curve::SaturatingLinear(s) => CurveV::SaturatingLinear(*s),
            Curve::PiecewiseLinear(p) => CurveV::PiecewiseLinear(p.steps@),
        }
    }
}

/// Linear interpolation between `(x1, y1)` and `(x2, y2)` at `x`, with
/// floor rounding; defined for `x1 <= x <= x2` and `x1 < x2`.
pub open spec fn spec_interpolate(x1: int, y1: int, x2: int, y2: int, x: int) -> int {
    if y2 >= y1 {
        y1 + spec_mul_ratio(y2 - y1, x - x1, x2 - x1)
    } else {
        y1 - spec_mul_ratio(y1 - y2, x - x1, x2 - x1)
    }
}

/// The step x coordinates strictly increase.
pub open spec fn spec_strict_xs(steps: Seq<(u64, u128)>) -> bool {
    forall|i: int, j: int| 0 <= i < j < steps.len() ==> steps[i].0 < steps[j].0
}

/// The step y values never decrease.
pub open spec fn spec_ys_non_decreasing(steps: Seq<(u64, u128)>) -> bool {
    forall|i: int, j: int| 0 <= i < j < steps.len() ==> steps[i].1 <= steps[j].1
}

/// The first step sits at a positive x, as step validation demands.
pub open spec fn spec_positive_start(steps: Seq<(u64, u128)>) -> bool {
    steps.len() > 0 ==> steps[0].0 > 0
}

/// What step validation accepts: non-empty, strictly increasing x starting
/// above zero.
pub open spec fn spec_steps_ordered(steps: Seq<(u64, u128)>) -> bool {
    steps.len() >= 1 && spec_strict_xs(steps) && spec_positive_start(steps)
}

/// Cumulative value of an ordered step sequence at `x`: the first y before
/// the first step, the last y after the last step, linear interpolation
/// between the two bracketing steps otherwise.
pub open spec fn spec_pwl_value(steps: Seq<(u64, u128)>, x: u64) -> int
    recommends
        steps.len() >= 1,
    decreases steps.len(),
{
    if steps.len() <= 1 {
        steps[0].1 as int
    } else if x < steps[1].0 {
        if x < steps[0].0 {
            steps[0].1 as int
        } else {
            spec_interpolate(steps[0].0 as int, steps[0].1 as int, steps[1].0 as int,
                steps[1].1 as int, x as int)
        }
    } else {
        spec_pwl_value(steps.drop_first(), x)
    }
}

impl CurveV {
    /// Well-shaped for evaluation.
    pub open spec fn evaluable(self) -> bool {
        match self {
            CurveV::Constant { .. } => true,
            CurveV::SaturatingLinear(s) => s.spec_valid(),
            CurveV::PiecewiseLinear(steps) => steps.len() >= 1 && spec_strict_xs(steps),
        }
    }

    /// What `validate_monotonic_increasing` accepts: a well-shaped curve
    /// that never decreases.
    pub open spec fn monotone_ok(self) -> bool {
        match self {
            CurveV::Constant { .. } => true,
            CurveV::SaturatingLinear(s) => s.spec_valid() && s.spec_monotonic(),
            CurveV::PiecewiseLinear(steps) => spec_steps_ordered(steps) && spec_ys_non_decreasing(
                steps,
            ),
        }
    }

    /// The curve's value at `x`.  A constant curve reports its flat value;
    /// the accrual engine turns it into a cumulative quantity.
    pub open spec fn value_at(self, x: u64) -> int {
        match self {
            CurveV::Constant { y } => y as int,
            CurveV::SaturatingLinear(s) => s.spec_value(x),
            CurveV::PiecewiseLinear(steps) => spec_pwl_value(steps, x),
        }
    }
}

impl SaturatingLinear {
    /// Well-shaped: a non-empty x interval.
    pub open spec fn spec_valid(self) -> bool {
        self.min_x < self.max_x
    }

    /// Non-decreasing in x.
    pub open spec fn spec_monotonic(self) -> bool {
        self.min_y <= self.max_y
    }

    /// Cumulative unlocked quantity at `x`: nothing before the window,
    /// `max_y` after it, linear interpolation inside it.
    pub open spec fn spec_value(self, x: u64) -> int {
        if x < self.min_x {
            0
        } else if x > self.max_x {
            self.max_y as int
        } else {
            spec_interpolate(self.min_x as int, self.min_y as int, self.max_x as int,
                self.max_y as int, x as int)
        }
    }

    /// Evaluates the curve at `x`.
    pub fn value(&self, x: u64) -> (r: u128)
        requires
            self.spec_valid(),
        ensures
            r == self.spec_value(x),
    {
        if x < self.min_x {
            0
        } else if x > self.max_x {
            self.max_y
        } else {
            let dx: u64 = x - self.min_x;
            let dxx: u64 = self.max_x - self.min_x;
            if self.max_y >= self.min_y {
                let dy: u128 = self.max_y - self.min_y;
                let part = mul_ratio(dy, dx, dxx);
                self.min_y + part
            } else {
                let dy: u128 = self.min_y - self.max_y;
                let part = mul_ratio(dy, dx, dxx);
                self.min_y - part
            }
        }
    }

    /// Rejects an empty x interval or a decreasing y range, the checks run
    /// for curves that must be monotonically non-decreasing.
    pub fn validate_monotonic_increasing(&self) -> (r: Result<(), CurveError>)
        ensures
            r == Ok::<(), CurveError>(()) <==> self.spec_valid() && self.spec_monotonic(),
            !self.spec_valid() ==> r == Err::<(), CurveError>(CurveError::PointsOutOfOrder),
            self.spec_valid() && !self.spec_monotonic() ==> r == Err::<(), CurveError>(
                CurveError::NotMonotonic),
    {
        if self.max_x <= self.min_x {
            return Err(CurveError::PointsOutOfOrder);
        }
        if self.max_y < self.min_y {
            return Err(CurveError::NotMonotonic);
        }
        Ok(())
    }
}

impl PiecewiseLinear {
    /// Evaluates the curve at `x`.
    pub fn value(&self, x: u64) -> (r: u128)
        requires
            self@.len() >= 1,
            spec_strict_xs(self@),
        ensures
            r == spec_pwl_value(self@, x),
    {
        let n: usize = self.steps.len();
        let mut i: usize = 0;
        proof {
            assert(self.steps@.skip(0) =~= self.steps@);
        }
        while i + 1 < n && x >= self.steps[i + 1].0
            invariant
                n == self.steps@.len(),
                1 <= n,
                i < n,
                spec_strict_xs(self.steps@),
                spec_pwl_value(self.steps@, x) == spec_pwl_value(self.steps@.skip(i as int), x),
            decreases n - i,
        {
            proof {
                let tail = self.steps@.skip(i as int);
                assert(tail.len() >= 2);
                assert(tail[1] == self.steps@[i + 1]);
                assert(tail.drop_first() =~= self.steps@.skip(i as int + 1));
            }
            i = i + 1;
        }
        proof {
            let tail = self.steps@.skip(i as int);
            assert(tail[0] == self.steps@[i as int]);
            if i + 1 < n {
                assert(tail[1] == self.steps@[i + 1]);
            }
        }
        if i + 1 == n {
            self.steps[i].1
        } else if x < self.steps[i].0 {
            self.steps[i].1
        } else {
            let x1: u64 = self.steps[i].0;
            let y1: u128 = self.steps[i].1;
            let x2: u64 = self.steps[i + 1].0;
            let y2: u128 = self.steps[i + 1].1;
            proof {
                assert(x1 < x2);
            }
            let dx: u64 = x - x1;
            let dxx: u64 = x2 - x1;
            if y2 >= y1 {
                y1 + mul_ratio(y2 - y1, dx, dxx)
            } else {
                y1 - mul_ratio(y1 - y2, dx, dxx)
            }
        }
    }

    /// Rejects an empty step list (`MissingSteps`) and x coordinates that do
    /// not strictly increase from a positive start (`PointsOutOfOrder`).
    pub fn validate(&self) -> (r: Result<(), CurveError>)
        ensures
            r == Ok::<(), CurveError>(()) <==> spec_steps_ordered(self@),
            self@.len() == 0 ==> r == Err::<(), CurveError>(CurveError::MissingSteps),
            self@.len() >= 1 && !spec_steps_ordered(self@) ==> r == Err::<(), CurveError>(
                CurveError::PointsOutOfOrder),
    {
        let n: usize = self.steps.len();
        if n == 0 {
            return Err(CurveError::MissingSteps);
        }
        let mut last: u64 = 0;
        let mut k: usize = 0;
        while k < n
            invariant
                n == self.steps@.len(),
                k <= n,
                forall|i: int, j: int| 0 <= i < j < k ==> self.steps@[i].0 < self.steps@[j].0,
                forall|i: int| 0 <= i < k ==> self.steps@[i].0 > 0,
                k > 0 ==> last == self.steps@[k - 1].0,
                k == 0 ==> last == 0,
            decreases n - k,
        {
            let x: u64 = self.steps[k].0;
            if x <= last {
                proof {
                    if k == 0 {
                        assert(!spec_positive_start(self.steps@));
                    } else {
                        assert(self.steps@[k - 1].0 >= self.steps@[k as int].0);
                        assert(!spec_strict_xs(self.steps@));
                    }
                }
                return Err(CurveError::PointsOutOfOrder);
            }
            last = x;
            k = k + 1;
        }
        Ok(())
    }

    /// Runs `validate` and then rejects any decrease in the y values
    /// (`NotMonotonic`).
    pub fn validate_monotonic_increasing(&self) -> (r: Result<(), CurveError>)
        ensures
            r == Ok::<(), CurveError>(()) <==> spec_steps_ordered(self@) && spec_ys_non_decreasing(
                self@),
            self@.len() == 0 ==> r == Err::<(), CurveError>(CurveError::MissingSteps),
            self@.len() >= 1 && !spec_steps_ordered(self@) ==> r == Err::<(), CurveError>(
                CurveError::PointsOutOfOrder),
            spec_steps_ordered(self@) && !spec_ys_non_decreasing(self@) ==> r == Err::<(),
                CurveError>(CurveError::NotMonotonic),
    {
        match self.validate() {
            Err(e) => Err(e),
            Ok(()) => {
                let n: usize = self.steps.len();
                let mut k: usize = 1;
                while k < n
                    invariant
                        spec_steps_ordered(self.steps@),
                        n == self.steps@.len(),
                        1 <= k,
                        k <= n,
                        forall|i: int, j: int|
                            0 <= i < j < k ==> self.steps@[i].1 <= self.steps@[j].1,
                    decreases n - k,
                {
                    if self.steps[k].1 < self.steps[k - 1].1 {
                        proof {
                            assert(self.steps@[k - 1].1 > self.steps@[k as int].1);
                        }
                        return Err(CurveError::NotMonotonic);
                    }
                    proof {
                        assert forall|i: int, j: int| 0 <= i < j < k + 1 implies self.steps@[i].1
                            <= self.steps@[j].1 by {
                            if j == k {
                                assert(self.steps@[i].1 <= self.steps@[k - 1].1);
                            }
                        }
                    }
                    k = k + 1;
                }
                Ok(())
            },
        }
    }
}

impl Clone for PiecewiseLinear {
    fn clone(&self) -> (r: Self)
        ensures
            r@ == self@,
    {
        let n: usize = self.steps.len();
        let mut steps: Vec<(u64, u128)> = Vec::new();
        let mut k: usize = 0;
        while k < n
            invariant
                n == self.steps@.len(),
                k <= n,
                steps@ =~= self.steps@.subrange(0, k as int),
            decreases n - k,
        {
            steps.push(self.steps[k]);
            k = k + 1;
        }
        proof {
            assert(steps@ =~= self.steps@);
        }
        PiecewiseLinear { steps }
    }
}

impl Clone for Curve {
    fn clone(&self) -> (r: Self)
        ensures
            r@ == self@,
    {
        match self {
            Curve::Constant { y } => Curve::Constant { y: *y },
            Curve::SaturatingLinear(s) => Curve::SaturatingLinear(*s),
            Curve::PiecewiseLinear(p) => Curve::PiecewiseLinear(p.clone()),
        }
    }
}

/// The error `validate_monotonic_increasing` reports for a curve it
/// rejects: the first failed check decides.
pub open spec fn spec_monotone_err(c: CurveV) -> CurveError {
    match c {
        CurveV::Constant { .. } => CurveError::NotMonotonic,
        CurveV::SaturatingLinear(s) => if !s.spec_valid() {
            CurveError::PointsOutOfOrder
        } else {
            CurveError::NotMonotonic
        },
        CurveV::PiecewiseLinear(steps) => if steps.len() == 0 {
            CurveError::MissingSteps
        } else if !spec_steps_ordered(steps) {
            CurveError::PointsOutOfOrder
        } else {
            CurveError::NotMonotonic
        },
    }
}

impl Curve {
    /// Evaluates the curve at `x`.
    pub fn value(&self, x: u64) -> (r: u128)
        requires
            self@.evaluable(),
        ensures
            r == self@.value_at(x),
    {
        match self {
            Curve::Constant { y } => *y,
            Curve::SaturatingLinear(s) => s.value(x),
            Curve::PiecewiseLinear(p) => p.value(x),
        }
    }

    /// Accepts exactly the well-shaped, non-decreasing curves; the error
    /// names the first check that failed.
    pub fn validate_monotonic_increasing(&self) -> (r: Result<(), CurveError>)
        ensures
            r == Ok::<(), CurveError>(()) <==> self@.monotone_ok(),
            !self@.monotone_ok() ==> r == Err::<(), CurveError>(spec_monotone_err(self@)),
    {
        match self {
            Curve::Constant { .. } => Ok(()),
            Curve::SaturatingLinear(s) => s.validate_monotonic_increasing(),
            Curve::PiecewiseLinear(p) => p.validate_monotonic_increasing(),
        }
    }
}

} // verus!

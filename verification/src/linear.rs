//! The linear model: a two-state machine (unfit, fit) around the
//! closed-form ordinary-least-squares estimate of slope and intercept.

use vstd::prelude::*;

use crate::arith64::add_bits;
use crate::arith64::add64;
use crate::arith64::count_bits;
use crate::arith64::count64;
use crate::arith64::div_bits;
use crate::arith64::div64;
use crate::arith64::mul_bits;
use crate::arith64::mul64;
use crate::arith64::sub_bits;
use crate::arith64::sub64;

verus! {

/// Why a call of `fit` was refused. Every refusal happens before any
/// mutation: a refused `fit` leaves the model exactly as it was.
#[derive(Clone, Copy, Debug, PartialEq, Eq, Structural)]
pub enum FitError {
    /// The model was already fitted; it can be fitted only once.
    AlreadyFitted,
    /// The two input sequences differ in length.
    LengthMismatch,
    /// Fewer than two data points were given; one point cannot determine
    /// both slope and intercept.
    InsufficientData,
}

/// Why a call of `predict` was refused.
#[derive(Clone, Copy, Debug, PartialEq, Eq, Structural)]
pub enum PredictError {
    /// The model has not been fitted yet.
    NotFitted,
}

/// The running sum of a sequence of binary64 values, accumulated left to
/// right from zero (whose bit pattern is `0u64`).
pub open spec fn sum_of(s: Seq<u64>) -> u64
    decreases s.len(),
{
    if s.len() == 0 {
        0u64
    } else {
        add_bits(sum_of(s.drop_last()), s.last())
    }
}

/// The running sum of the squares of a sequence of binary64 values,
/// accumulated left to right from zero.
pub open spec fn sum_sq_of(s: Seq<u64>) -> u64
    decreases s.len(),
{
    if s.len() == 0 {
        0u64
    } else {
        add_bits(sum_sq_of(s.drop_last()), mul_bits(s.last(), s.last()))
    }
}

/// The running sum of the pairwise products of two sequences of binary64
/// values, accumulated left to right from zero.
pub open spec fn sum_prod_of(x: Seq<u64>, y: Seq<u64>) -> u64
    recommends
        x.len() == y.len(),
    decreases x.len(),
{
    if x.len() == 0 {
        0u64
    } else {
        add_bits(sum_prod_of(x.drop_last(), y.drop_last()), mul_bits(x.last(), y.last()))
    }
}

/// The shared denominator of the normal equations, `n * sum(x^2) - sum(x)^2`.
/// It is zero when all `x` values are identical; the quotients below then
/// come out as infinity or NaN bit patterns, exactly as the formulas say.
pub open spec fn denom_of(x: Seq<u64>) -> u64 {
    sub_bits(
        mul_bits(count_bits(x.len() as usize), sum_sq_of(x)),
        mul_bits(sum_of(x), sum_of(x)),
    )
}

/// The ordinary-least-squares intercept,
/// `(sum(y) * sum(x^2) - sum(x) * sum(x*y)) / (n * sum(x^2) - sum(x)^2)`.
pub open spec fn intercept_of(x: Seq<u64>, y: Seq<u64>) -> u64 {
    div_bits(
        sub_bits(mul_bits(sum_of(y), sum_sq_of(x)), mul_bits(sum_of(x), sum_prod_of(x, y))),
        denom_of(x),
    )
}

/// The ordinary-least-squares slope,
/// `(n * sum(x*y) - sum(x) * sum(y)) / (n * sum(x^2) - sum(x)^2)`.
pub open spec fn slope_of(x: Seq<u64>, y: Seq<u64>) -> u64 {
    div_bits(
        sub_bits(
            mul_bits(count_bits(x.len() as usize), sum_prod_of(x, y)),
            mul_bits(sum_of(x), sum_of(y)),
        ),
        denom_of(x),
    )
}

/// A simple linear model `y = slope * x + intercept`. It starts unfit, is
/// fitted at most once, and is immutable from then on. Slope and intercept
/// are binary64 bit patterns, set together or not at all.
pub struct Linear {
    slope: Option<u64>,
    intercept: Option<u64>,
}

/// The predicted value for one input: `intercept + slope * v`, with the
/// multiplication first, as binary64 arithmetic on the bit patterns.
pub open spec fn line_at(slope: u64, intercept: u64, v: u64) -> u64 {
    add_bits(intercept, mul_bits(slope, v))
}

/// The predictions for a whole input sequence: the line evaluated at each
/// element, in input order, one output per input.
pub open spec fn predictions(slope: u64, intercept: u64, v: Seq<u64>) -> Seq<u64> {
    Seq::new(v.len(), |i: int| line_at(slope, intercept, v[i]))
}

/// The outcome of the checks that guard `fit`, in the order they are made:
/// a fitted model is refused first, then unequal lengths, then too little
/// data. `Ok` exactly when the model is unfit and the input is two or more
/// pairs.
pub open spec fn fit_check(m: Linear, xlen: nat, ylen: nat) -> Result<(), FitError> {
    if !m.is_unfit() {
        Err(FitError::AlreadyFitted)
    } else if xlen != ylen {
        Err(FitError::LengthMismatch)
    } else if xlen <= 1 {
        Err(FitError::InsufficientData)
    } else {
        Ok(())
    }
}

/// The model that a successful `fit` on `x`, `y` produces: both parameters
/// set to the closed-form ordinary-least-squares estimates.
pub closed spec fn fitted_model(x: Seq<u64>, y: Seq<u64>) -> Linear {
    Linear { slope: Some(slope_of(x, y)), intercept: Some(intercept_of(x, y)) }
}

impl Linear {
    /// The slope parameter, if the model is fitted.
    pub closed spec fn spec_slope(self) -> Option<u64> {
        self.slope
    }

    /// The intercept parameter, if the model is fitted.
    pub closed spec fn spec_intercept(self) -> Option<u64> {
        self.intercept
    }

    /// The model is fitted: both parameters are set.
    pub open spec fn is_fitted(self) -> bool {
        self.spec_slope() is Some && self.spec_intercept() is Some
    }

    /// The model is unfit: neither parameter is set.
    pub open spec fn is_unfit(self) -> bool {
        self.spec_slope() is None && self.spec_intercept() is None
    }

    /// The parameters are set together or not at all. Every model built by
    /// this crate satisfies this; `new` establishes it and `fit` keeps it.
    pub open spec fn wf(self) -> bool {
        self.is_fitted() || self.is_unfit()
    }

    /// The slope bits of a fitted model.
    pub open spec fn slope_bits(self) -> u64
        recommends
            self.is_fitted(),
    {
        self.spec_slope()->0
    }

    /// The intercept bits of a fitted model.
    pub open spec fn intercept_bits(self) -> u64
        recommends
            self.is_fitted(),
    {
        self.spec_intercept()->0
    }

    /// Produces a model in the unfit state. Cannot fail; no side effects.
    pub fn new() -> (m: Linear)
        ensures
            m.is_unfit(),
            m.wf(),
    {
        Linear { slope: None, intercept: None }
    }

    /// Fits the line by ordinary least squares: one pass accumulates
    /// `sum(x)`, `sum(y)`, `sum(x^2)` and `sum(x*y)` in input order, then the
    /// normal equations give intercept and slope over the shared
    /// denominator. Refused, before any mutation, on a model already
    /// fitted, on inputs of unequal length, and on fewer than two pairs.
    pub fn fit(&mut self, x: &Vec<u64>, y: &Vec<u64>) -> (result: Result<(), FitError>)
        ensures
            result == fit_check(*old(self), x@.len(), y@.len()),
            result is Err ==> *final(self) == *old(self),
            result is Ok ==> *final(self) == fitted_model(x@, y@),
            result is Ok ==> final(self).spec_slope() == Some(slope_of(x@, y@))
                && final(self).spec_intercept() == Some(intercept_of(x@, y@))
                && final(self).is_fitted(),
            old(self).wf() ==> final(self).wf(),
    {
        if self.slope.is_some() || self.intercept.is_some() {
            return Err(FitError::AlreadyFitted);
        }
        if x.len() != y.len() {
            return Err(FitError::LengthMismatch);
        }
        if x.len() <= 1 {
            return Err(FitError::InsufficientData);
        }

        let n = x.len();
        let nb = count64(n);
        let mut sx: u64 = 0;
        let mut sy: u64 = 0;
        let mut sxx: u64 = 0;
        let mut sxy: u64 = 0;
        let mut i: usize = 0;
        while i < n
            invariant
                n == x@.len(),
                n == y@.len(),
                i <= n,
                sx == sum_of(x@.take(i as int)),
                sy == sum_of(y@.take(i as int)),
                sxx == sum_sq_of(x@.take(i as int)),
                sxy == sum_prod_of(x@.take(i as int), y@.take(i as int)),
            decreases n - i,
        {
            let xi = x[i];
            let yi = y[i];
            proof {
                assert(x@.take(i + 1).drop_last() =~= x@.take(i as int));
                assert(y@.take(i + 1).drop_last() =~= y@.take(i as int));
                assert(x@.take(i + 1).last() == xi);
                assert(y@.take(i + 1).last() == yi);
            }
            sx = add64(sx, xi);
            sy = add64(sy, yi);
            sxx = add64(sxx, mul64(xi, xi));
            sxy = add64(sxy, mul64(xi, yi));
            i = i + 1;
        }
        proof {
            assert(x@.take(n as int) =~= x@);
            assert(y@.take(n as int) =~= y@);
        }

        let denom = sub64(mul64(nb, sxx), mul64(sx, sx));
        self.intercept = Some(div64(sub64(mul64(sy, sxx), mul64(sx, sxy)), denom));
        self.slope = Some(div64(sub64(mul64(nb, sxy), mul64(sx, sy)), denom));
        Ok(())
    }

    /// Predicts `y = slope * x + intercept` for each input value, in input
    /// order, one output per input. Pure: the model is not changed.
    /// Refused exactly when the model is unfit, whatever the input.
    pub fn predict(&self, values: &Vec<u64>) -> (result: Result<Vec<u64>, PredictError>)
        ensures
            result is Ok <==> self.is_fitted(),
            match result {
                Ok(out) => out@ == predictions(self.slope_bits(), self.intercept_bits(), values@)
                    && out@.len() == values@.len()
                    && (forall|i: int|
                        0 <= i < values@.len() ==> out@[i] == line_at(
                            self.slope_bits(),
                            self.intercept_bits(),
                            values@[i],
                        )),
                Err(e) => e == PredictError::NotFitted,
            },
    {
        let (slp, inter) = match (self.slope, self.intercept) {
            (Some(s), Some(c)) => (s, c),
            _ => {
                return Err(PredictError::NotFitted);
            },
        };
        let mut out: Vec<u64> = Vec::new();
        let mut i: usize = 0;
        while i < values.len()
            invariant
                i <= values@.len(),
                slp == self.slope_bits(),
                inter == self.intercept_bits(),
                out@.len() == i,
                forall|j: int| 0 <= j < i ==> out@[j] == line_at(slp, inter, values@[j]),
            decreases values@.len() - i,
        {
            out.push(add64(inter, mul64(slp, values[i])));
            i = i + 1;
        }
        proof {
            assert(out@ =~= predictions(slp, inter, values@));
        }
        Ok(out)
    }
}

/// Law: a fitted model refuses every further call of `fit` with
/// `AlreadyFitted`, whatever the input. Since a successful `fit` leaves the
/// model fitted, fitting a second time always fails this way.
pub proof fn lemma_refit_always_fails(m: Linear, xlen: nat, ylen: nat)
    requires
        m.is_fitted(),
    ensures
        fit_check(m, xlen, ylen) == Err::<(), FitError>(FitError::AlreadyFitted),
{
}

/// Law: on an unfit model, inputs of unequal length are always refused
/// with `LengthMismatch`.
pub proof fn lemma_length_mismatch_fails(m: Linear, xlen: nat, ylen: nat)
    requires
        m.is_unfit(),
        xlen != ylen,
    ensures
        fit_check(m, xlen, ylen) == Err::<(), FitError>(FitError::LengthMismatch),
{
}

/// Law: on an unfit model, fewer than two data points are always refused
/// with `InsufficientData`. The two lengths must agree: where they differ,
/// `LengthMismatch` is reported instead.
pub proof fn lemma_insufficient_data_fails(m: Linear, len: nat)
    requires
        m.is_unfit(),
        len <= 1,
    ensures
        fit_check(m, len, len) == Err::<(), FitError>(FitError::InsufficientData),
{
}

/// Law: prediction is a pure function of the fitted parameters and the
/// input. Any two sequences that `predict`'s contract admits for the same
/// parameters and input are identical, so two calls of `predict` on one
/// fitted model with one input return the same values.
pub proof fn lemma_predict_deterministic(
    slope: u64,
    intercept: u64,
    v: Seq<u64>,
    r1: Seq<u64>,
    r2: Seq<u64>,
)
    requires
        r1 == predictions(slope, intercept, v),
        r2 == predictions(slope, intercept, v),
    ensures
        r1 == r2,
{
}

} // verus!

//! Verified decision core for two single-variable calculus primitives: a
//! central-difference derivative estimator with adaptive step sizing, and a
//! single quasi-Newton root-refinement step built on top of it.
//!
//! The floating-point arithmetic itself — evaluating the caller's function,
//! forming the central difference, applying the Newton update — cannot be
//! carried out here; it lives with the caller. What this crate fixes, over
//! IEEE-754 binary64 bit patterns, is every decision the two operations make:
//! when the typical-scale hint is rejected with [`NumlError::TypError`], which
//! magnitude the differentiation step is scaled by, when a computed derivative
//! of exact zero aborts the Newton update with
//! [`NumlError::DerivativeZeroError`], and that a differentiator error passes
//! through the Newton stage verbatim.

use vstd::prelude::*;

pub mod fbits;

verus! {

use crate::fbits::is_zero_bits;
use crate::fbits::magnitude_gt_bits;
use crate::fbits::is_zero;
use crate::fbits::magnitude_exceeds;
use crate::fbits::lemma_abs_bits_sign_blind;
use crate::fbits::ABS_MASK;
use crate::fbits::SIGN_MASK;

/// The errors the calculus operations can return.
#[derive(Clone, Copy, Debug, PartialEq, Eq, Structural)]
pub enum NumlError {
    /// A typical value of exactly zero was passed to an operation that needs a
    /// nonzero one.
    ///
    /// The typical value keeps the differentiation step well-conditioned when
    /// the evaluation point is small; at exactly zero it could collapse the
    /// step to zero. A typical value of very small magnitude degrades accuracy
    /// but is deliberately not rejected: only the exact zero is an error.
    TypError,
    /// The derivative was computed to be exactly zero where a nonzero one is
    /// needed, because dividing by it would otherwise turn into a silent
    /// divide by zero. A near-zero nonzero derivative is allowed through.
    DerivativeZeroError,
}

impl NumlError {
    /// A short description of the error, in place of a `Display` impl.
    pub fn message(&self) -> (r: &'static str)
        ensures
            self is TypError ==> r@ == "Typ must be positive"@,
            self is DerivativeZeroError ==> r@
                == "Derivative calculated to zero, but needs to be nonzero"@,
    {
        match self {
            NumlError::TypError => "Typ must be positive",
            NumlError::DerivativeZeroError => "Derivative calculated to zero, but needs to be nonzero",
        }
    }
}

/// Which magnitude the differentiation step size is scaled by.
///
/// With `e` the cube root of machine epsilon, `FromPoint` stands for
/// `h = e * x` and `FromTyp` for `h = e * |typ|`: the step follows the larger
/// of the point's own magnitude and its typical scale, so that truncation
/// error and floating-point cancellation stay balanced and `h` cannot
/// collapse to zero near the origin.
#[derive(Clone, Copy, Debug, PartialEq, Eq, Structural)]
pub enum StepScale {
    /// The evaluation point dominates: scale the step by `x`.
    FromPoint,
    /// The typical scale dominates (or ties, or a NaN is involved): scale the
    /// step by `|typ|`.
    FromTyp,
}

/// The decision the derivative estimator makes, on the bit patterns of the
/// evaluation point `x` and the typical-scale hint `typ`: reject a zero hint
/// with `TypError` before any function evaluation, otherwise pick the step
/// scaling by whether `|x| > |typ|`.
pub open spec fn derivative_plan_spec(x: u64, typ: u64) -> Result<StepScale, NumlError> {
    if is_zero_bits(typ) {
        Err(NumlError::TypError)
    } else if magnitude_gt_bits(x, typ) {
        Ok(StepScale::FromPoint)
    } else {
        Ok(StepScale::FromTyp)
    }
}

/// Decision stage of the derivative estimator.
///
/// Takes the bit patterns (`f64::to_bits`) of the evaluation point and of the
/// typical-scale hint, and returns either the step scaling to use or the
/// error: `TypError` exactly when the hint is a floating-point zero of either
/// sign, `FromPoint` exactly when the point's magnitude strictly exceeds the
/// hint's under IEEE-754 comparison, and `FromTyp` otherwise. The caller then
/// evaluates its function at `x + h` and `x - h` and forms the central
/// difference `(f(x+h) - f(x-h)) / (2*h)`.
pub fn derivative_plan(x: u64, typ: u64) -> (r: Result<StepScale, NumlError>)
    ensures
        r == derivative_plan_spec(x, typ),
{
    if is_zero(typ) {
        Err(NumlError::TypError)
    } else if magnitude_exceeds(x, typ) {
        Ok(StepScale::FromPoint)
    } else {
        Ok(StepScale::FromTyp)
    }
}

/// The decision the Newton step makes of the derivative stage's outcome: an
/// error passes through unchanged, a derivative of exact floating-point zero
/// is rejected with `DerivativeZeroError`, and any other derivative is the one
/// to divide by.
pub open spec fn newton_decision_spec(d: Result<u64, NumlError>) -> Result<u64, NumlError> {
    match d {
        Err(e) => Err(e),
        Ok(g) => if is_zero_bits(g) {
            Err(NumlError::DerivativeZeroError)
        } else {
            Ok(g)
        },
    }
}

/// Decision stage of the quasi-Newton step.
///
/// Takes the derivative stage's outcome — the computed derivative's bit
/// pattern, or its error — and returns the derivative the update
/// `x - f(x) / derivative` may divide by. A zero derivative (either sign) is
/// rejected with `DerivativeZeroError` before the division; an incoming error
/// is forwarded verbatim, never wrapped or reclassified.
pub fn newton_decision(d: Result<u64, NumlError>) -> (r: Result<u64, NumlError>)
    ensures
        r == newton_decision_spec(d),
{
    match d {
        Err(e) => Err(e),
        Ok(g) => if is_zero(g) {
            Err(NumlError::DerivativeZeroError)
        } else {
            Ok(g)
        },
    }
}

/// Law: the derivative estimator fails, and fails with `TypError`, exactly on
/// a typical-scale hint of floating-point zero; every nonzero hint yields a
/// step scaling.
pub proof fn lemma_typ_error_iff(x: u64, typ: u64)
    ensures
        derivative_plan_spec(x, typ) is Err <==> is_zero_bits(typ),
        is_zero_bits(typ) ==> derivative_plan_spec(x, typ) == Err::<StepScale, NumlError>(
            NumlError::TypError,
        ),
{
}

/// Law: the derivative plan reads the typical-scale hint only through its
/// magnitude, so a negative hint plans exactly as its absolute value does:
/// toggling the hint's sign bit (negation) or clearing it (absolute value)
/// leaves the plan unchanged.
pub proof fn lemma_typ_sign_irrelevant(x: u64, typ: u64)
    ensures
        derivative_plan_spec(x, typ ^ SIGN_MASK) == derivative_plan_spec(x, typ),
        derivative_plan_spec(x, typ & ABS_MASK) == derivative_plan_spec(x, typ),
{
    lemma_abs_bits_sign_blind(typ);
}

/// Law: a computed derivative of exact floating-point zero, of either sign, is
/// rejected with `DerivativeZeroError` before any division takes place.
pub proof fn lemma_zero_derivative_rejected(d: u64)
    requires
        is_zero_bits(d),
    ensures
        newton_decision_spec(Ok(d)) == Err::<u64, NumlError>(NumlError::DerivativeZeroError),
{
}

/// Law: the Newton stage never wraps or reclassifies an error of the
/// derivative stage — it forwards it verbatim, keeping one flat error
/// taxonomy across both operations.
pub proof fn lemma_error_passthrough(e: NumlError)
    ensures
        newton_decision_spec(Err(e)) == Err::<u64, NumlError>(e),
{
}

/// Law: error precedence. With a zero typical-scale hint the derivative stage
/// already fails with `TypError`, before any derivative exists, and the Newton
/// stage forwards that error verbatim — so the Newton step reports `TypError`,
/// never `DerivativeZeroError`, whatever derivative the estimator would have
/// produced.
pub proof fn lemma_typ_error_precedence(x: u64, typ: u64)
    requires
        is_zero_bits(typ),
    ensures
        derivative_plan_spec(x, typ) == Err::<StepScale, NumlError>(NumlError::TypError),
        newton_decision_spec(Err(NumlError::TypError)) == Err::<u64, NumlError>(
            NumlError::TypError,
        ),
{
    lemma_error_passthrough(NumlError::TypError);
}

/// Law: both decision stages are pure functions of their inputs. Two
/// invocations on identical inputs yield the identical outcome — the same
/// value or the same error kind — so in particular a failure repeats
/// identically.
pub proof fn lemma_failure_idempotent(
    x1: u64,
    typ1: u64,
    d1: Result<u64, NumlError>,
    x2: u64,
    typ2: u64,
    d2: Result<u64, NumlError>,
)
    requires
        x1 == x2,
        typ1 == typ2,
        d1 == d2,
    ensures
        derivative_plan_spec(x1, typ1) == derivative_plan_spec(x2, typ2),
        newton_decision_spec(d1) == newton_decision_spec(d2),
{
}

} // verus!

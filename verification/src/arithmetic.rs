use vstd::prelude::*;
use crate::scalar::Scalar;

verus! {

/// One request to an arithmetic unit: an operation of single-precision
/// arithmetic together with its operands.
#[derive(Clone, Copy, Debug)]
pub enum Operation {
    /// The sum of the two operands.
    Add(Scalar, Scalar),
    /// The first operand less the second.
    Sub(Scalar, Scalar),
    /// The product of the two operands.
    Mul(Scalar, Scalar),
    /// The first operand divided by the second.
    Div(Scalar, Scalar),
    /// The operand raised to the second power.
    Square(Scalar),
    /// The square root of the operand.
    Sqrt(Scalar),
    /// The sine of the operand, an angle in radians.
    Sin(Scalar),
    /// The cosine of the operand, an angle in radians.
    Cos(Scalar),
    /// The arctangent of the operand, in radians, between -pi/2 and pi/2.
    Atan(Scalar),
}

/// `unit` answers every request.
pub open spec fn answers_all<U: Fn(Operation) -> Scalar>(unit: &U) -> bool {
    forall|op: Operation| unit.requires((op,))
}

/// `r` is an answer that `unit` may give to `op`.
///
/// A unit need not be a function of its operands: the precision of the
/// transcendental operations, and the pattern of a NaN, are left to it.
pub open spec fn may_give<U: Fn(Operation) -> Scalar>(unit: &U, op: Operation, r: Scalar) -> bool {
    unit.ensures((op,), r)
}

/// `r` is the Euclidean norm of `(a, b)` as `unit` computes it: the square
/// root of the sum of the two squares.
pub open spec fn is_norm<U: Fn(Operation) -> Scalar>(
    unit: &U,
    a: Scalar,
    b: Scalar,
    r: Scalar,
) -> bool {
    exists|a2: Scalar, b2: Scalar, sum: Scalar|
        {
            &&& may_give(unit, Operation::Square(a), a2)
            &&& may_give(unit, Operation::Square(b), b2)
            &&& #[trigger] may_give(unit, Operation::Add(a2, b2), sum)
            &&& may_give(unit, Operation::Sqrt(sum), r)
        }
}

/// `theta` is the angle of the slope `rise / run` as `unit` computes it: the
/// arctangent of the quotient. The quotient alone decides the angle, so
/// `(run, rise)` and `(-run, -rise)` get the same one, and a `run` of zero
/// is divided by like any other.
pub open spec fn is_slope_angle<U: Fn(Operation) -> Scalar>(
    unit: &U,
    rise: Scalar,
    run: Scalar,
    theta: Scalar,
) -> bool {
    exists|slope: Scalar|
        {
            &&& #[trigger] may_give(unit, Operation::Div(rise, run), slope)
            &&& may_give(unit, Operation::Atan(slope), theta)
        }
}

/// The Euclidean norm of `(a, b)`: `sqrt(a^2 + b^2)`.
pub fn norm<U: Fn(Operation) -> Scalar>(a: Scalar, b: Scalar, unit: &U) -> (r: Scalar)
    requires
        answers_all(unit),
    ensures
        is_norm(unit, a, b, r),
{
    let a2 = unit(Operation::Square(a));
    let b2 = unit(Operation::Square(b));
    let sum = unit(Operation::Add(a2, b2));
    let r = unit(Operation::Sqrt(sum));
    assert(is_norm(unit, a, b, r)) by {
        assert(may_give(unit, Operation::Add(a2, b2), sum));
    }
    r
}

/// The angle of the slope `rise / run`: `atan(rise / run)`.
pub fn slope_angle<U: Fn(Operation) -> Scalar>(rise: Scalar, run: Scalar, unit: &U) -> (theta:
    Scalar)
    requires
        answers_all(unit),
    ensures
        is_slope_angle(unit, rise, run, theta),
{
    let slope = unit(Operation::Div(rise, run));
    let theta = unit(Operation::Atan(slope));
    assert(is_slope_angle(unit, rise, run, theta)) by {
        assert(may_give(unit, Operation::Div(rise, run), slope));
    }
    theta
}

} // verus!

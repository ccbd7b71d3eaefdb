use vstd::prelude::*;
use crate::arithmetic::{is_norm, may_give, Operation};
use crate::scalar::Scalar;
use crate::two_dimension::{ComponentVector, DistanceVector, Point, Vector};

verus! {

/// The sums that `unit` gives do not depend on the order of the operands:
/// what it gives for `a + b` agrees with what it gives for `b + a`.
pub open spec fn addition_commutes<U: Fn(Operation) -> Scalar>(unit: &U) -> bool {
    forall|a: Scalar, b: Scalar, r: Scalar, s: Scalar|
        #[trigger] may_give(unit, Operation::Add(a, b), r) && #[trigger] may_give(
            unit,
            Operation::Add(b, a),
            s,
        ) ==> r.agrees_with(s)
}

/// Taking positive zero from a number leaves the number: what `unit` gives
/// for `a - 0` agrees with `a`.
pub open spec fn zero_subtracts_to_nothing<U: Fn(Operation) -> Scalar>(unit: &U) -> bool {
    forall|a: Scalar, r: Scalar| #[trigger]
        may_give(unit, Operation::Sub(a, Scalar::spec_zero()), r) ==> r.agrees_with(a)
}

/// Componentwise agreement of two displacements.
pub open spec fn components_agree(a: ComponentVector, b: ComponentVector) -> bool {
    a.i.agrees_with(b.i) && a.j.agrees_with(b.j)
}

/// Where the unit's addition commutes, the components of a sum do not
/// depend on the order of the two vectors; where none of them is a NaN, the
/// two component vectors are equal.
pub proof fn sum_components_commute<U: Fn(Operation) -> Scalar>(
    unit: &U,
    a: Vector,
    b: Vector,
    ab: Vector,
    ba: Vector,
)
    requires
        addition_commutes(unit),
        ab.is_sum(a, b, unit),
        ba.is_sum(b, a, unit),
    ensures
        components_agree(ab.component_vector, ba.component_vector),
        !ab.component_vector.i.spec_is_nan() && !ab.component_vector.j.spec_is_nan() ==> {
            &&& ab.component_vector == ba.component_vector
            &&& ab.component_vector.same_numbers(ba.component_vector)
        },
{
}

/// Where taking zero away changes nothing, a distance vector that starts
/// at the origin holds the coordinates of its end point exchanged: the y
/// coordinate first, the x coordinate second.
pub proof fn displacement_from_origin_is_exchanged<U: Fn(Operation) -> Scalar>(
    unit: &U,
    d: DistanceVector,
)
    requires
        zero_subtracts_to_nothing(unit),
        d.p1 == Point::spec_origin(),
        d.is_derived(unit),
    ensures
        d.distance_vector.i.agrees_with(d.p2.y),
        d.distance_vector.j.agrees_with(d.p2.x),
{
}

/// Where taking zero away changes nothing, the vector built from the
/// components `(i, j)` holds `(j, i)` as the displacement of its distance
/// vector, not `(i, j)`.
pub proof fn components_are_exchanged<U: Fn(Operation) -> Scalar>(
    unit: &U,
    c: ComponentVector,
    v: Vector,
)
    requires
        zero_subtracts_to_nothing(unit),
        v.is_from_components(c, unit),
    ensures
        components_agree(v.distance_vector.distance_vector, c.exchanged()),
        !c.i.spec_is_nan() && !c.j.spec_is_nan() ==> v.distance_vector.distance_vector
            == c.exchanged(),
{
    displacement_from_origin_is_exchanged(unit, v.distance_vector);
}

/// A vector built around a derived distance vector has the norm of its
/// components for magnitude, though the magnitude was copied and not
/// computed again.
pub proof fn derived_distance_keeps_magnitude<U: Fn(Operation) -> Scalar>(
    unit: &U,
    d: DistanceVector,
    v: Vector,
)
    requires
        d.is_derived(unit),
        v.is_from_distance(d, unit),
    ensures
        is_norm(
            unit,
            v.component_vector.i,
            v.component_vector.j,
            v.magnitude_vector.magnitude,
        ),
{
}

} // verus!

use vstd::prelude::*;
use vstd::std_specs::cmp::PartialEqSpecImpl;
use crate::arithmetic::{answers_all, is_norm, is_slope_angle, may_give, norm, slope_angle, Operation};
use crate::scalar::Scalar;

verus! {

/// A location in the plane.
#[derive(Debug)]
pub struct Point {
    pub x: Scalar,
    pub y: Scalar,
}

/// A displacement by its Cartesian components.
#[derive(Clone, Copy, Debug)]
pub struct ComponentVector {
    pub i: Scalar,
    pub j: Scalar,
}

/// A displacement by its length and its angle in radians, measured from the
/// positive i-axis.
#[derive(Debug)]
pub struct MagnitudeVector {
    pub magnitude: Scalar,
    pub theta: Scalar,
}

/// The displacement from `p1` to `p2`, with its length and its direction.
///
/// The displacement is held with its axes exchanged: `distance_vector.i` is
/// the difference of the y coordinates and `distance_vector.j` that of the
/// x coordinates.
#[derive(Debug)]
pub struct DistanceVector {
    pub p1: Point,
    pub p2: Point,
    pub distance_vector: ComponentVector,
    pub magnitude: Scalar,
    pub unit_vector: ComponentVector,
}

/// A planar vector in its three forms at once.
#[derive(Debug)]
pub struct Vector {
    pub component_vector: ComponentVector,
    pub magnitude_vector: MagnitudeVector,
    pub distance_vector: DistanceVector,
}

impl PartialEq for Point {
    fn eq(&self, other: &Point) -> (r: bool) {
        self.x == other.x && self.y == other.y
    }
}

impl PartialEqSpecImpl for Point {
    open spec fn obeys_eq_spec() -> bool {
        true
    }

    open spec fn eq_spec(&self, other: &Point) -> bool {
        self.same_numbers(*other)
    }
}

impl PartialEq for ComponentVector {
    fn eq(&self, other: &ComponentVector) -> (r: bool) {
        self.i == other.i && self.j == other.j
    }
}

impl PartialEqSpecImpl for ComponentVector {
    open spec fn obeys_eq_spec() -> bool {
        true
    }

    open spec fn eq_spec(&self, other: &ComponentVector) -> bool {
        self.same_numbers(*other)
    }
}

impl PartialEq for MagnitudeVector {
    fn eq(&self, other: &MagnitudeVector) -> (r: bool) {
        self.magnitude == other.magnitude && self.theta == other.theta
    }
}

impl PartialEqSpecImpl for MagnitudeVector {
    open spec fn obeys_eq_spec() -> bool {
        true
    }

    open spec fn eq_spec(&self, other: &MagnitudeVector) -> bool {
        self.same_numbers(*other)
    }
}

impl PartialEq for DistanceVector {
    fn eq(&self, other: &DistanceVector) -> (r: bool) {
        self.p1 == other.p1 && self.p2 == other.p2 && self.distance_vector
            == other.distance_vector && self.magnitude == other.magnitude && self.unit_vector
            == other.unit_vector
    }
}

impl PartialEqSpecImpl for DistanceVector {
    open spec fn obeys_eq_spec() -> bool {
        true
    }

    open spec fn eq_spec(&self, other: &DistanceVector) -> bool {
        self.same_numbers(*other)
    }
}

impl PartialEq for Vector {
    fn eq(&self, other: &Vector) -> (r: bool) {
        self.component_vector == other.component_vector && self.magnitude_vector
            == other.magnitude_vector && self.distance_vector == other.distance_vector
    }
}

impl PartialEqSpecImpl for Vector {
    open spec fn obeys_eq_spec() -> bool {
        true
    }

    open spec fn eq_spec(&self, other: &Vector) -> bool {
        self.same_numbers(*other)
    }
}

impl Point {
    /// The two points have coordinates that are equal as numbers.
    pub open spec fn same_numbers(self, other: Point) -> bool {
        self.x.same_number(other.x) && self.y.same_number(other.y)
    }

    /// The point `(0, 0)`, both coordinates positive zero.
    pub open spec fn spec_origin() -> Point {
        Point { x: Scalar::spec_zero(), y: Scalar::spec_zero() }
    }

    #[verifier::when_used_as_spec(spec_origin)]
    pub fn origin() -> (p: Point)
        ensures
            p == Point::spec_origin(),
    {
        Point { x: Scalar::zero(), y: Scalar::zero() }
    }

    /// `sum` is `p + q`, coordinate by coordinate, as `unit` computes it.
    pub open spec fn is_sum<U: Fn(Operation) -> Scalar>(unit: &U, p: Point, q: Point, sum: Point) -> bool {
        &&& may_give(unit, Operation::Add(p.x, q.x), sum.x)
        &&& may_give(unit, Operation::Add(p.y, q.y), sum.y)
    }
}

impl ComponentVector {
    /// The two displacements have components that are equal as numbers.
    pub open spec fn same_numbers(self, other: ComponentVector) -> bool {
        self.i.same_number(other.i) && self.j.same_number(other.j)
    }

    /// The displacement with its two components exchanged: `(j, i)`.
    pub open spec fn exchanged(self) -> ComponentVector {
        ComponentVector { i: self.j, j: self.i }
    }

    /// `sum` is `a + b`, component by component, as `unit` computes it.
    pub open spec fn is_sum<U: Fn(Operation) -> Scalar>(
        unit: &U,
        a: ComponentVector,
        b: ComponentVector,
        sum: ComponentVector,
    ) -> bool {
        &&& may_give(unit, Operation::Add(a.i, b.i), sum.i)
        &&& may_give(unit, Operation::Add(a.j, b.j), sum.j)
    }

    /// `c` is the displacement of length `m.magnitude` at angle `m.theta`,
    /// as `unit` computes it: `(magnitude * cos(theta), magnitude * sin(theta))`.
    pub open spec fn is_projection<U: Fn(Operation) -> Scalar>(
        unit: &U,
        m: MagnitudeVector,
        c: ComponentVector,
    ) -> bool {
        exists|cos: Scalar, sin: Scalar|
            {
                &&& may_give(unit, Operation::Cos(m.theta), cos)
                &&& may_give(unit, Operation::Sin(m.theta), sin)
                &&& #[trigger] may_give(unit, Operation::Mul(m.magnitude, cos), c.i)
                &&& #[trigger] may_give(unit, Operation::Mul(m.magnitude, sin), c.j)
            }
    }
}

impl MagnitudeVector {
    /// The two polar forms have magnitudes and angles that are equal as
    /// numbers: angles a full turn apart are different angles.
    pub open spec fn same_numbers(self, other: MagnitudeVector) -> bool {
        self.magnitude.same_number(other.magnitude) && self.theta.same_number(other.theta)
    }
}

impl DistanceVector {
    /// The two distance vectors are equal as numbers in all their parts.
    pub open spec fn same_numbers(self, other: DistanceVector) -> bool {
        &&& self.p1.same_numbers(other.p1)
        &&& self.p2.same_numbers(other.p2)
        &&& self.distance_vector.same_numbers(other.distance_vector)
        &&& self.magnitude.same_number(other.magnitude)
        &&& self.unit_vector.same_numbers(other.unit_vector)
    }

    /// The displacement, length and direction of `self` are those that
    /// `unit` computes from its two points:
    /// `distance_vector = (p2.y - p1.y, p2.x - p1.x)`, with the axes
    /// exchanged; `magnitude` its norm; `unit_vector` the displacement
    /// divided by the magnitude, component by component.
    pub open spec fn is_derived<U: Fn(Operation) -> Scalar>(self, unit: &U) -> bool {
        &&& may_give(unit, Operation::Sub(self.p2.y, self.p1.y), self.distance_vector.i)
        &&& may_give(unit, Operation::Sub(self.p2.x, self.p1.x), self.distance_vector.j)
        &&& is_norm(unit, self.distance_vector.i, self.distance_vector.j, self.magnitude)
        &&& may_give(
            unit,
            Operation::Div(self.distance_vector.i, self.magnitude),
            self.unit_vector.i,
        )
        &&& may_give(
            unit,
            Operation::Div(self.distance_vector.j, self.magnitude),
            self.unit_vector.j,
        )
    }

    /// The distance vector from `p1` to `p2`.
    ///
    /// Nothing is checked: where the two points coincide the magnitude is
    /// zero and the unit vector is whatever `unit` makes of a division by it.
    pub fn new<U: Fn(Operation) -> Scalar>(p1: Point, p2: Point, unit: &U) -> (d: DistanceVector)
        requires
            answers_all(unit),
        ensures
            d.p1 == p1,
            d.p2 == p2,
            d.is_derived(unit),
    {
        let distance_vector = ComponentVector {
            i: unit(Operation::Sub(p2.y, p1.y)),
            j: unit(Operation::Sub(p2.x, p1.x)),
        };
        let magnitude = norm(distance_vector.i, distance_vector.j, unit);
        let unit_vector = ComponentVector {
            i: unit(Operation::Div(distance_vector.i, magnitude)),
            j: unit(Operation::Div(distance_vector.j, magnitude)),
        };
        DistanceVector { p1, p2, distance_vector, magnitude, unit_vector }
    }
}

impl Vector {
    /// The two vectors are equal as numbers in all three of their forms.
    pub open spec fn same_numbers(self, other: Vector) -> bool {
        &&& self.component_vector.same_numbers(other.component_vector)
        &&& self.magnitude_vector.same_numbers(other.magnitude_vector)
        &&& self.distance_vector.same_numbers(other.distance_vector)
    }

    /// `self` is the vector that `unit` builds from the components `c`:
    /// the components are kept as given, magnitude and angle are computed
    /// from them, and the distance vector runs from the origin to `(c.i, c.j)`.
    pub open spec fn is_from_components<U: Fn(Operation) -> Scalar>(
        self,
        c: ComponentVector,
        unit: &U,
    ) -> bool {
        &&& self.component_vector == c
        &&& is_norm(unit, c.i, c.j, self.magnitude_vector.magnitude)
        &&& is_slope_angle(unit, c.j, c.i, self.magnitude_vector.theta)
        &&& self.distance_vector.p1 == Point::spec_origin()
        &&& self.distance_vector.p2 == (Point { x: c.i, y: c.j })
        &&& self.distance_vector.is_derived(unit)
    }

    /// `self` is the vector that `unit` builds from the polar form `m`:
    /// magnitude and angle are kept as given, the components are computed
    /// from them, and the distance vector runs from the origin to the
    /// point that the components name.
    pub open spec fn is_from_magnitude<U: Fn(Operation) -> Scalar>(
        self,
        m: MagnitudeVector,
        unit: &U,
    ) -> bool {
        &&& self.magnitude_vector == m
        &&& ComponentVector::is_projection(unit, m, self.component_vector)
        &&& self.distance_vector.p1 == Point::spec_origin()
        &&& self.distance_vector.p2 == (Point {
            x: self.component_vector.i,
            y: self.component_vector.j,
        })
        &&& self.distance_vector.is_derived(unit)
    }

    /// `self` is the vector that `unit` builds around the distance vector
    /// `d`: `d` is kept whole, its displacement becomes the components and
    /// its magnitude the magnitude, neither computed again; only the angle
    /// is computed, from the displacement.
    pub open spec fn is_from_distance<U: Fn(Operation) -> Scalar>(
        self,
        d: DistanceVector,
        unit: &U,
    ) -> bool {
        &&& self.distance_vector == d
        &&& self.component_vector == d.distance_vector
        &&& self.magnitude_vector.magnitude == d.magnitude
        &&& is_slope_angle(
            unit,
            d.distance_vector.j,
            d.distance_vector.i,
            self.magnitude_vector.theta,
        )
    }

    /// `self` is the sum of `a` and `b` as `unit` computes it: the
    /// components are added, magnitude and angle are computed from the new
    /// components, the two start points are added and the two end points
    /// are added, and the distance vector is derived from the new points.
    pub open spec fn is_sum<U: Fn(Operation) -> Scalar>(self, a: Vector, b: Vector, unit: &U) -> bool {
        &&& ComponentVector::is_sum(unit, a.component_vector, b.component_vector, self.component_vector)
        &&& is_norm(
            unit,
            self.component_vector.i,
            self.component_vector.j,
            self.magnitude_vector.magnitude,
        )
        &&& is_slope_angle(
            unit,
            self.component_vector.j,
            self.component_vector.i,
            self.magnitude_vector.theta,
        )
        &&& Point::is_sum(unit, a.distance_vector.p1, b.distance_vector.p1, self.distance_vector.p1)
        &&& Point::is_sum(unit, a.distance_vector.p2, b.distance_vector.p2, self.distance_vector.p2)
        &&& self.distance_vector.is_derived(unit)
    }

    /// The vector with the components `component_vector`.
    pub fn new_with_components<U: Fn(Operation) -> Scalar>(
        component_vector: ComponentVector,
        unit: &U,
    ) -> (v: Vector)
        requires
            answers_all(unit),
        ensures
            v.component_vector == component_vector,
            v.is_from_components(component_vector, unit),
    {
        let magnitude = norm(component_vector.i, component_vector.j, unit);
        let theta = slope_angle(component_vector.j, component_vector.i, unit);
        let p1 = Point::origin();
        let p2 = Point { x: component_vector.i, y: component_vector.j };
        Vector {
            component_vector,
            magnitude_vector: MagnitudeVector { magnitude, theta },
            distance_vector: DistanceVector::new(p1, p2, unit),
        }
    }

    /// The vector of length `magnitude_vector.magnitude` at angle
    /// `magnitude_vector.theta`.
    pub fn new_with_magnitude<U: Fn(Operation) -> Scalar>(
        magnitude_vector: MagnitudeVector,
        unit: &U,
    ) -> (v: Vector)
        requires
            answers_all(unit),
        ensures
            v.magnitude_vector == magnitude_vector,
            v.is_from_magnitude(magnitude_vector, unit),
    {
        let cos = unit(Operation::Cos(magnitude_vector.theta));
        let sin = unit(Operation::Sin(magnitude_vector.theta));
        let i = unit(Operation::Mul(magnitude_vector.magnitude, cos));
        let j = unit(Operation::Mul(magnitude_vector.magnitude, sin));
        let p1 = Point::origin();
        let p2 = Point { x: i, y: j };
        let component_vector = ComponentVector { i, j };
        assert(ComponentVector::is_projection(unit, magnitude_vector, component_vector)) by {
            assert(may_give(
                unit,
                Operation::Mul(magnitude_vector.magnitude, cos),
                component_vector.i,
            ));
            assert(may_give(
                unit,
                Operation::Mul(magnitude_vector.magnitude, sin),
                component_vector.j,
            ));
        }
        Vector {
            component_vector,
            magnitude_vector,
            distance_vector: DistanceVector::new(p1, p2, unit),
        }
    }

    /// The vector around a distance vector that the caller has made.
    ///
    /// The distance vector is trusted as it stands: where its parts do not
    /// agree with each other, the three forms of the result do not either.
    pub fn new_with_distance<U: Fn(Operation) -> Scalar>(
        distance_vector: DistanceVector,
        unit: &U,
    ) -> (v: Vector)
        requires
            answers_all(unit),
        ensures
            v.distance_vector == distance_vector,
            v.component_vector == distance_vector.distance_vector,
            v.magnitude_vector.magnitude == distance_vector.magnitude,
            v.is_from_distance(distance_vector, unit),
    {
        let theta = slope_angle(
            distance_vector.distance_vector.j,
            distance_vector.distance_vector.i,
            unit,
        );
        Vector {
            component_vector: distance_vector.distance_vector,
            magnitude_vector: MagnitudeVector { magnitude: distance_vector.magnitude, theta },
            distance_vector,
        }
    }

    /// The sum of two vectors. Both are consumed.
    ///
    /// The points of the sum are the sums of the operands' points, start
    /// with start and end with end; the operands are not laid head to tail.
    pub fn add<U: Fn(Operation) -> Scalar>(self, rhs: Vector, unit: &U) -> (v: Vector)
        requires
            answers_all(unit),
        ensures
            v.is_sum(self, rhs, unit),
    {
        let i = unit(Operation::Add(self.component_vector.i, rhs.component_vector.i));
        let j = unit(Operation::Add(self.component_vector.j, rhs.component_vector.j));
        let magnitude = norm(i, j, unit);
        let theta = slope_angle(j, i, unit);
        let p1 = Point {
            x: unit(Operation::Add(self.distance_vector.p1.x, rhs.distance_vector.p1.x)),
            y: unit(Operation::Add(self.distance_vector.p1.y, rhs.distance_vector.p1.y)),
        };
        let p2 = Point {
            x: unit(Operation::Add(self.distance_vector.p2.x, rhs.distance_vector.p2.x)),
            y: unit(Operation::Add(self.distance_vector.p2.y, rhs.distance_vector.p2.y)),
        };
        Vector {
            component_vector: ComponentVector { i, j },
            magnitude_vector: MagnitudeVector { magnitude, theta },
            distance_vector: DistanceVector::new(p1, p2, unit),
        }
    }
}

} // verus!

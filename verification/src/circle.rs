use crate::vector::{can_subtract, difference, is_difference};
use core::ops::Sub;
use vstd::prelude::*;
use vstd::std_specs::cmp::PartialEqSpec;
use vector2d::Vector2D;

verus! {

/// A circle, given by its center and its radius.
///
/// The scalar type `T` is left open: the library stores the parameters,
/// hands them back unchanged, compares them and subtracts the center from a
/// point. It does no other arithmetic on them.
#[derive(Debug)]
#[verifier::reject_recursive_types(T)]
pub struct Circle<T> {
    center: Vector2D<T>,
    radius: T,
}

impl<T> Circle<T> {
    /// The center this circle was built with.
    pub closed spec fn spec_center(&self) -> Vector2D<T> {
        self.center
    }

    /// The radius this circle was built with.
    pub closed spec fn spec_radius(&self) -> T {
        self.radius
    }
}

impl<T: PartialEq> PartialEq for Circle<T> {
    /// Compares the centers, coordinate by coordinate, and then the radii.
    fn eq(&self, other: &Self) -> (equal: bool) {
        self.center.x == other.center.x && self.center.y == other.center.y && self.radius
            == other.radius
    }
}

impl<T: PartialEq> vstd::std_specs::cmp::PartialEqSpecImpl for Circle<T> {
    open spec fn obeys_eq_spec() -> bool {
        T::obeys_eq_spec()
    }

    open spec fn eq_spec(&self, other: &Self) -> bool {
        &&& self.spec_center().x.eq_spec(&other.spec_center().x)
        &&& self.spec_center().y.eq_spec(&other.spec_center().y)
        &&& self.spec_radius().eq_spec(&other.spec_radius())
    }
}

impl<T: Copy> Circle<T> {
    pub fn new(center: Vector2D<T>, radius: T) -> (circle: Self)
        ensures
            circle.spec_center() == center,
            circle.spec_radius() == radius,
    {
        Circle { center, radius }
    }

    pub fn center(&self) -> (center: Vector2D<T>)
        ensures
            center == self.spec_center(),
    {
        self.center
    }

    pub fn radius(&self) -> (radius: T)
        ensures
            radius == self.spec_radius(),
    {
        self.radius
    }
}

impl<T: Copy + Sub<T, Output = T>> Circle<T> {
    /// The point as seen from the center of the circle: `point - center`.
    pub fn offset_from_center(&self, point: &Vector2D<T>) -> (offset: Vector2D<T>)
        requires
            can_subtract(*point, self.spec_center()),
        ensures
            is_difference(*point, self.spec_center(), offset),
    {
        difference(*point, self.center)
    }
}

impl<T: PartialEq> Circle<T> {
    /// Circles are the same exactly when their centers and their radii are.
    pub proof fn lemma_equal_iff_same_parameters(a: Self, b: Self)
        ensures
            a == b <==> (a.spec_center() == b.spec_center() && a.spec_radius() == b.spec_radius()),
    {
    }

    /// Where `==` on the scalars tells whether two scalars are the same,
    /// `==` on circles tells whether two circles are the same: built from
    /// the same parameters they compare equal, and with one parameter
    /// changed they do not.
    pub proof fn lemma_eq_is_structural(a: Self, b: Self)
        requires
            forall|x: T, y: T| #[trigger] x.eq_spec(&y) <==> x == y,
        ensures
            a.eq_spec(&b) <==> a == b,
    {
    }
}

} // verus!

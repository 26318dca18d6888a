use crate::vector::{can_subtract, difference, is_difference};
use crate::HexagonOrientation;
use core::ops::Sub;
use vstd::prelude::*;
use vstd::std_specs::cmp::PartialEqSpec;
use vector2d::Vector2D;

verus! {

/// A regular hexagon, given by its center, the radius of the circle through
/// its vertices, and the way it is turned.
#[derive(Debug)]
#[verifier::reject_recursive_types(T)]
pub struct Hexagon<T> {
    center: Vector2D<T>,
    circumradius: T,
    orientation: HexagonOrientation,
}

impl<T> Hexagon<T> {
    pub closed spec fn spec_center(&self) -> Vector2D<T> {
        self.center
    }

    pub closed spec fn spec_circumradius(&self) -> T {
        self.circumradius
    }

    pub closed spec fn spec_orientation(&self) -> HexagonOrientation {
        self.orientation
    }
}

impl<T: PartialEq> PartialEq for Hexagon<T> {
    /// Compares center, circumradius and orientation, in this order.
    fn eq(&self, other: &Self) -> (equal: bool) {
        self.center.x == other.center.x && self.center.y == other.center.y && self.circumradius
            == other.circumradius && self.orientation == other.orientation
    }
}

impl<T: PartialEq> vstd::std_specs::cmp::PartialEqSpecImpl for Hexagon<T> {
    open spec fn obeys_eq_spec() -> bool {
        T::obeys_eq_spec()
    }

    open spec fn eq_spec(&self, other: &Self) -> bool {
        &&& self.spec_center().x.eq_spec(&other.spec_center().x)
        &&& self.spec_center().y.eq_spec(&other.spec_center().y)
        &&& self.spec_circumradius().eq_spec(&other.spec_circumradius())
        &&& self.spec_orientation() == other.spec_orientation()
    }
}

impl<T: Copy> Hexagon<T> {
    pub fn new(center: Vector2D<T>, circumradius: T, orientation: HexagonOrientation) -> (hexagon:
        Self)
        ensures
            hexagon.spec_center() == center,
            hexagon.spec_circumradius() == circumradius,
            hexagon.spec_orientation() == orientation,
    {
        Hexagon { center, circumradius, orientation }
    }

    pub fn center(&self) -> (center: Vector2D<T>)
        ensures
            center == self.spec_center(),
    {
        self.center
    }

    pub fn circumradius(&self) -> (circumradius: T)
        ensures
            circumradius == self.spec_circumradius(),
    {
        self.circumradius
    }

    pub fn orientation(&self) -> (orientation: HexagonOrientation)
        ensures
            orientation == self.spec_orientation(),
    {
        self.orientation
    }

    /// The length of one side, which in a regular hexagon is the
    /// circumradius.
    pub fn side_length(&self) -> (side: T)
        ensures
            side == self.spec_circumradius(),
    {
        self.circumradius()
    }
}

impl<T: Copy + Sub<T, Output = T>> Hexagon<T> {
    /// The point as seen from the center of the hexagon, before any turn:
    /// `point - center`.
    pub fn offset_from_center(&self, point: &Vector2D<T>) -> (offset: Vector2D<T>)
        requires
            can_subtract(*point, self.spec_center()),
        ensures
            is_difference(*point, self.spec_center(), offset),
    {
        difference(*point, self.center)
    }
}

impl<T: PartialEq> Hexagon<T> {
    /// Hexagons are the same exactly when all three of their parameters
    /// are.
    pub proof fn lemma_equal_iff_same_parameters(a: Self, b: Self)
        ensures
            a == b <==> {
                &&& a.spec_center() == b.spec_center()
                &&& a.spec_circumradius() == b.spec_circumradius()
                &&& a.spec_orientation() == b.spec_orientation()
            },
    {
    }

    /// Where `==` on the scalars tells whether two scalars are the same,
    /// `==` on hexagons tells whether two hexagons are the same: built from
    /// the same parameters they compare equal, and with one parameter
    /// changed they do not.
    pub proof fn lemma_eq_is_structural(a: Self, b: Self)
        requires
            forall|x: T, y: T| #[trigger] x.eq_spec(&y) <==> x == y,
        ensures
            a.eq_spec(&b) <==> a == b,
    {
    }
}

} // verus!

use crate::corner::{Corner, Sign};
use crate::vector::{can_subtract, difference, is_difference};
use core::ops::Sub;
use vstd::prelude::*;
use vstd::std_specs::cmp::PartialEqSpec;
use vector2d::Vector2D;

verus! {

/// The rounding radius of each corner of a rectangle.
#[derive(Copy, Debug, Default)]
pub struct RoundFactors<T> {
    top_left: T,
    top_right: T,
    bottom_left: T,
    bottom_right: T,
}

impl<T: Copy> Clone for RoundFactors<T> {
    fn clone(&self) -> (copy: Self)
        ensures
            copy == *self,
    {
        *self
    }
}

impl<T> RoundFactors<T> {
    /// The radius stored for `corner`.
    pub closed spec fn spec_at(&self, corner: Corner) -> T {
        match corner {
            Corner::TopLeft => self.top_left,
            Corner::TopRight => self.top_right,
            Corner::BottomLeft => self.bottom_left,
            Corner::BottomRight => self.bottom_right,
        }
    }
}

impl<T: PartialEq> PartialEq for RoundFactors<T> {
    /// Compares the radii corner by corner.
    fn eq(&self, other: &Self) -> (equal: bool) {
        self.top_left == other.top_left && self.top_right == other.top_right && self.bottom_left
            == other.bottom_left && self.bottom_right == other.bottom_right
    }
}

impl<T: PartialEq> vstd::std_specs::cmp::PartialEqSpecImpl for RoundFactors<T> {
    open spec fn obeys_eq_spec() -> bool {
        T::obeys_eq_spec()
    }

    open spec fn eq_spec(&self, other: &Self) -> bool {
        &&& self.spec_at(Corner::TopLeft).eq_spec(&other.spec_at(Corner::TopLeft))
        &&& self.spec_at(Corner::TopRight).eq_spec(&other.spec_at(Corner::TopRight))
        &&& self.spec_at(Corner::BottomLeft).eq_spec(&other.spec_at(Corner::BottomLeft))
        &&& self.spec_at(Corner::BottomRight).eq_spec(&other.spec_at(Corner::BottomRight))
    }
}

impl<T: Copy> RoundFactors<T> {
    pub fn new(top_left: T, top_right: T, bottom_left: T, bottom_right: T) -> (factors: Self)
        ensures
            factors.spec_at(Corner::TopLeft) == top_left,
            factors.spec_at(Corner::TopRight) == top_right,
            factors.spec_at(Corner::BottomLeft) == bottom_left,
            factors.spec_at(Corner::BottomRight) == bottom_right,
    {
        RoundFactors { top_left, top_right, bottom_left, bottom_right }
    }

    /// The same radius at all four corners.
    pub fn uniform(radius: T) -> (factors: Self)
        ensures
            forall|corner: Corner| #[trigger] factors.spec_at(corner) == radius,
    {
        RoundFactors {
            top_left: radius,
            top_right: radius,
            bottom_left: radius,
            bottom_right: radius,
        }
    }

    pub fn at(&self, corner: Corner) -> (radius: T)
        ensures
            radius == self.spec_at(corner),
    {
        match corner {
            Corner::TopLeft => self.top_left,
            Corner::TopRight => self.top_right,
            Corner::BottomLeft => self.bottom_left,
            Corner::BottomRight => self.bottom_right,
        }
    }
}

impl<T: PartialEq> RoundFactors<T> {
    /// Round factors are the same exactly when they agree at every corner.
    pub proof fn lemma_equal_iff_same_parameters(a: Self, b: Self)
        ensures
            a == b <==> (forall|corner: Corner| #[trigger] a.spec_at(corner) == b.spec_at(corner)),
    {
        if forall|corner: Corner| #[trigger] a.spec_at(corner) == b.spec_at(corner) {
            assert(a.spec_at(Corner::TopLeft) == b.spec_at(Corner::TopLeft));
            assert(a.spec_at(Corner::TopRight) == b.spec_at(Corner::TopRight));
            assert(a.spec_at(Corner::BottomLeft) == b.spec_at(Corner::BottomLeft));
            assert(a.spec_at(Corner::BottomRight) == b.spec_at(Corner::BottomRight));
        }
    }

    /// Where `==` on the scalars tells whether two scalars are the same,
    /// `==` on round factors tells whether they agree at every corner.
    pub proof fn lemma_eq_is_structural(a: Self, b: Self)
        requires
            forall|x: T, y: T| #[trigger] x.eq_spec(&y) <==> x == y,
        ensures
            a.eq_spec(&b) <==> a == b,
    {
    }
}

/// A rectangle, given by its center, its full width and height, the angle
/// in degrees by which it is turned about its center, and the rounding
/// radius of each corner.
#[derive(Copy, Debug)]
#[verifier::reject_recursive_types(T)]
pub struct Rectangle<T> {
    center: Vector2D<T>,
    dimensions: Vector2D<T>,
    rotation_angle_in_degrees: T,
    round_factors: RoundFactors<T>,
}

impl<T: Copy> Clone for Rectangle<T> {
    fn clone(&self) -> (copy: Self)
        ensures
            copy == *self,
    {
        *self
    }
}

impl<T> Rectangle<T> {
    pub closed spec fn spec_center(&self) -> Vector2D<T> {
        self.center
    }

    /// Full width in `x`, full height in `y`.
    pub closed spec fn spec_dimensions(&self) -> Vector2D<T> {
        self.dimensions
    }

    pub closed spec fn spec_rotation_angle_in_degrees(&self) -> T {
        self.rotation_angle_in_degrees
    }

    pub closed spec fn spec_round_factors(&self) -> RoundFactors<T> {
        self.round_factors
    }
}

impl<T: PartialEq> PartialEq for Rectangle<T> {
    /// Compares center, dimensions, angle and round factors, in this order.
    fn eq(&self, other: &Self) -> (equal: bool) {
        self.center.x == other.center.x && self.center.y == other.center.y && self.dimensions.x
            == other.dimensions.x && self.dimensions.y == other.dimensions.y
            && self.rotation_angle_in_degrees == other.rotation_angle_in_degrees
            && self.round_factors == other.round_factors
    }
}

impl<T: PartialEq> vstd::std_specs::cmp::PartialEqSpecImpl for Rectangle<T> {
    open spec fn obeys_eq_spec() -> bool {
        T::obeys_eq_spec()
    }

    open spec fn eq_spec(&self, other: &Self) -> bool {
        &&& self.spec_center().x.eq_spec(&other.spec_center().x)
        &&& self.spec_center().y.eq_spec(&other.spec_center().y)
        &&& self.spec_dimensions().x.eq_spec(&other.spec_dimensions().x)
        &&& self.spec_dimensions().y.eq_spec(&other.spec_dimensions().y)
        &&& self.spec_rotation_angle_in_degrees().eq_spec(&other.spec_rotation_angle_in_degrees())
        &&& PartialEqSpec::eq_spec(&self.spec_round_factors(), &other.spec_round_factors())
    }
}

impl<T: Copy> Rectangle<T> {
    /// The rounding radius that applies to a point whose coordinates in the
    /// rectangle's frame have the signs `x` and `y`: that of the corner in
    /// the point's quadrant, and none where a coordinate is unordered.
    pub open spec fn spec_round_factor_for(&self, x: Sign, y: Sign) -> Option<T> {
        match Corner::spec_select(x, y) {
            Some(corner) => Some(self.spec_round_factors().spec_at(corner)),
            None => None,
        }
    }

    pub fn new(
        center: Vector2D<T>,
        dimensions: Vector2D<T>,
        rotation_angle_in_degrees: T,
        round_factors: RoundFactors<T>,
    ) -> (rectangle: Self)
        ensures
            rectangle.spec_center() == center,
            rectangle.spec_dimensions() == dimensions,
            rectangle.spec_rotation_angle_in_degrees() == rotation_angle_in_degrees,
            rectangle.spec_round_factors() == round_factors,
    {
        Rectangle { center, dimensions, rotation_angle_in_degrees, round_factors }
    }

    pub fn center(&self) -> (center: Vector2D<T>)
        ensures
            center == self.spec_center(),
    {
        self.center
    }

    pub fn dimensions(&self) -> (dimensions: Vector2D<T>)
        ensures
            dimensions == self.spec_dimensions(),
    {
        self.dimensions
    }

    pub fn rotation_angle_in_degrees(&self) -> (angle: T)
        ensures
            angle == self.spec_rotation_angle_in_degrees(),
    {
        self.rotation_angle_in_degrees
    }

    pub fn round_factors(&self) -> (factors: RoundFactors<T>)
        ensures
            factors == self.spec_round_factors(),
    {
        RoundFactors {
            top_left: self.round_factors.top_left,
            top_right: self.round_factors.top_right,
            bottom_left: self.round_factors.bottom_left,
            bottom_right: self.round_factors.bottom_right,
        }
    }

    pub fn width(&self) -> (width: T)
        ensures
            width == self.spec_dimensions().x,
    {
        self.dimensions.x
    }

    pub fn height(&self) -> (height: T)
        ensures
            height == self.spec_dimensions().y,
    {
        self.dimensions.y
    }

    /// The rounding radius to use in the distance to a point, from the signs
    /// of the point's coordinates in the rectangle's frame.
    pub fn round_factor_for(&self, x: Sign, y: Sign) -> (radius: Option<T>)
        ensures
            radius == self.spec_round_factor_for(x, y),
    {
        match Corner::select(x, y) {
            Some(corner) => Some(self.round_factors.at(corner)),
            None => None,
        }
    }

    /// With the same radius at every corner, every ordered point gets that
    /// radius, whatever its quadrant.
    pub proof fn lemma_uniform_round_factor(&self, radius: T, x: Sign, y: Sign)
        requires
            forall|corner: Corner| #[trigger] self.spec_round_factors().spec_at(corner) == radius,
            !(x is Unordered),
            !(y is Unordered),
        ensures
            self.spec_round_factor_for(x, y) == Some(radius),
    {
    }
}

impl<T: Copy + Sub<T, Output = T>> Rectangle<T> {
    /// The point as seen from the center of the rectangle, before any
    /// turn: `point - center`.
    pub fn offset_from_center(&self, point: &Vector2D<T>) -> (offset: Vector2D<T>)
        requires
            can_subtract(*point, self.spec_center()),
        ensures
            is_difference(*point, self.spec_center(), offset),
    {
        difference(*point, self.center)
    }
}

impl<T: PartialEq> Rectangle<T> {
    /// Rectangles are the same exactly when all four of their parameters
    /// are.
    pub proof fn lemma_equal_iff_same_parameters(a: Self, b: Self)
        ensures
            a == b <==> {
                &&& a.spec_center() == b.spec_center()
                &&& a.spec_dimensions() == b.spec_dimensions()
                &&& a.spec_rotation_angle_in_degrees() == b.spec_rotation_angle_in_degrees()
                &&& a.spec_round_factors() == b.spec_round_factors()
            },
    {
    }

    /// Where `==` on the scalars tells whether two scalars are the same,
    /// `==` on rectangles tells whether two rectangles are the same: built
    /// from the same parameters they compare equal, and with one parameter
    /// changed they do not.
    pub proof fn lemma_eq_is_structural(a: Self, b: Self)
        requires
            forall|x: T, y: T| #[trigger] x.eq_spec(&y) <==> x == y,
        ensures
            a.eq_spec(&b) <==> a == b,
    {
        RoundFactors::lemma_eq_is_structural(a.spec_round_factors(), b.spec_round_factors());
    }
}

} // verus!

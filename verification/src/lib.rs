//! Two-dimensional shapes: a circle, a rectangle that may be turned and
//! may have rounded corners, and a regular hexagon.
//!
//! The shapes are generic in their scalar type. The library builds them,
//! hands their parameters back, compares them, and takes the first steps of
//! measuring a distance to them: it places a point relative to the center
//! of a shape, picks the corner of a rectangle that rounds the quadrant of
//! a point, and tells whether a hexagon turns the point first.
//! A grid stores one value per cell, row by row.

pub mod circle;
pub mod corner;
pub mod grid_2d;
pub mod hexagon;
pub mod rectangle;
pub mod vector;

use crate::circle::Circle;
use crate::hexagon::Hexagon;
use crate::rectangle::{Rectangle, RoundFactors};
use vstd::prelude::*;
use vector2d::Vector2D;

verus! {

/// How a hexagon is turned: `Horizontal` is pointy-top, `Vertical` is
/// flat-top.
#[derive(Clone, Copy, Debug, PartialEq, Eq, Structural)]
pub enum HexagonOrientation {
    Horizontal,
    Vertical,
}

impl HexagonOrientation {
    /// Whether a point has to be turned by 30 degrees before its distance to
    /// the hexagon is measured against the pointy-top edges: so for the
    /// flat-top hexagon, and for no other.
    pub open spec fn spec_turns_point(self) -> bool {
        self is Vertical
    }

    pub fn turns_point(&self) -> (turns: bool)
        ensures
            turns == self.spec_turns_point(),
    {
        match self {
            HexagonOrientation::Horizontal => false,
            HexagonOrientation::Vertical => true,
        }
    }
}

/// Builds each kind of shape from its parameters.
pub struct ShapeFactory;

impl ShapeFactory {
    pub fn new_circle<T: Copy>(center: Vector2D<T>, radius: T) -> (circle: Circle<T>)
        ensures
            circle.spec_center() == center,
            circle.spec_radius() == radius,
    {
        Circle::new(center, radius)
    }

    pub fn new_hexagon_vertical<T: Copy>(center: Vector2D<T>, circumradius: T) -> (hexagon: Hexagon<
        T,
    >)
        ensures
            hexagon.spec_center() == center,
            hexagon.spec_circumradius() == circumradius,
            hexagon.spec_orientation() == HexagonOrientation::Vertical,
    {
        Hexagon::new(center, circumradius, HexagonOrientation::Vertical)
    }

    pub fn new_hexagon_horizontal<T: Copy>(center: Vector2D<T>, circumradius: T) -> (hexagon:
        Hexagon<T>)
        ensures
            hexagon.spec_center() == center,
            hexagon.spec_circumradius() == circumradius,
            hexagon.spec_orientation() == HexagonOrientation::Horizontal,
    {
        Hexagon::new(center, circumradius, HexagonOrientation::Horizontal)
    }

    pub fn new_rectangle_rounded_oriented<T: Copy>(
        center: Vector2D<T>,
        dimensions: Vector2D<T>,
        rotation_angle_in_degrees: T,
        round_factors: RoundFactors<T>,
    ) -> (rectangle: Rectangle<T>)
        ensures
            rectangle.spec_center() == center,
            rectangle.spec_dimensions() == dimensions,
            rectangle.spec_rotation_angle_in_degrees() == rotation_angle_in_degrees,
            rectangle.spec_round_factors() == round_factors,
    {
        Rectangle::new(center, dimensions, rotation_angle_in_degrees, round_factors)
    }
}

} // verus!

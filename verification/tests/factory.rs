use sdf_shapes::circle::Circle;
use sdf_shapes::hexagon::Hexagon;
use sdf_shapes::rectangle::{Rectangle, RoundFactors};
use sdf_shapes::{HexagonOrientation, ShapeFactory};
use vector2d::Vector2D;

#[test]
fn factory_builds_the_circle_it_is_given() {
    let circle = ShapeFactory::new_circle(Vector2D::new(10.0, 10.0), 10.0);

    assert_eq!(circle, Circle::new(Vector2D::new(10.0, 10.0), 10.0));
}

#[test]
fn factory_builds_a_flat_top_hexagon() {
    let hexagon = ShapeFactory::new_hexagon_vertical(Vector2D::new(10.0, 10.0), 10.0);

    assert_eq!(
        hexagon,
        Hexagon::new(Vector2D::new(10.0, 10.0), 10.0, HexagonOrientation::Vertical)
    );
    assert_eq!(hexagon.orientation(), HexagonOrientation::Vertical);
}

#[test]
fn factory_builds_a_pointy_top_hexagon() {
    let hexagon = ShapeFactory::new_hexagon_horizontal(Vector2D::new(10.0, 10.0), 10.0);

    assert_eq!(
        hexagon,
        Hexagon::new(Vector2D::new(10.0, 10.0), 10.0, HexagonOrientation::Horizontal)
    );
    assert_eq!(hexagon.orientation(), HexagonOrientation::Horizontal);
}

#[test]
fn factory_builds_the_rectangle_it_is_given() {
    let rectangle = ShapeFactory::new_rectangle_rounded_oriented(
        Vector2D::new(10.0, 10.0),
        Vector2D::new(20.0, 30.0),
        45.0,
        RoundFactors::new(1.0, 2.0, 3.0, 4.0),
    );

    assert_eq!(
        rectangle,
        Rectangle::new(
            Vector2D::new(10.0, 10.0),
            Vector2D::new(20.0, 30.0),
            45.0,
            RoundFactors::new(1.0, 2.0, 3.0, 4.0),
        )
    );
    assert_eq!(rectangle.width(), 20.0);
    assert_eq!(rectangle.height(), 30.0);
    assert_eq!(rectangle.rotation_angle_in_degrees(), 45.0);
}

use sdf_shapes::circle::Circle;
use vector2d::Vector2D;

#[test]
fn create_circle() {
    let circle = Circle::new(Vector2D::new(10.0, 10.0), 10.0);

    assert_eq!(
        format!("The circle is: {circle:?}"),
        "The circle is: Circle { center: Vector2D { x: 10.0, y: 10.0 }, radius: 10.0 }"
    );

    assert_eq!(circle.center().x, 10.0);
    assert_eq!(circle.center().y, 10.0);
    assert_eq!(circle.radius(), 10.0);
}

#[test]
fn circle_equality() {
    let circle1 = Circle::new(Vector2D::new(10.0, 10.0), 10.0);
    let circle2 = Circle::new(Vector2D::new(10.0, 10.0), 10.0);
    let circle3 = Circle::new(Vector2D::new(11.0, 11.0), 11.0);

    assert_eq!(circle1 == circle2, true);
    assert_eq!(circle1 != circle3, true);
}

#[test]
fn circle_differs_when_one_parameter_differs() {
    let circle = Circle::new(Vector2D::new(10.0, 10.0), 10.0);

    assert!(circle != Circle::new(Vector2D::new(10.5, 10.0), 10.0));
    assert!(circle != Circle::new(Vector2D::new(10.0, 10.5), 10.0));
    assert!(circle != Circle::new(Vector2D::new(10.0, 10.0), 10.5));
    assert!(circle == Circle::new(Vector2D::new(10.0, 10.0), 10.0));
}

#[test]
fn circle_keeps_degenerate_parameters() {
    let point = Circle::new(Vector2D::new(-3.5, 2.25), 0.0);
    assert_eq!(point.radius(), 0.0);
    assert_eq!(point.center(), Vector2D::new(-3.5, 2.25));

    let negative = Circle::new(Vector2D::new(0.0, 0.0), -4.0);
    assert_eq!(negative.radius(), -4.0);
}

#[test]
fn circle_over_integers() {
    let circle: Circle<i64> = Circle::new(Vector2D::new(3, -4), 5);
    assert_eq!(circle.center().x, 3);
    assert_eq!(circle.center().y, -4);
    assert_eq!(circle.radius(), 5);
}

#[test]
fn circle_offset_is_point_minus_center() {
    let circle = Circle::new(Vector2D::new(10.0, 10.0), 10.0);

    assert_eq!(
        circle.offset_from_center(&Vector2D::new(5.0, 12.5)),
        Vector2D::new(-5.0, 2.5)
    );
    assert_eq!(
        circle.offset_from_center(&circle.center()),
        Vector2D::new(0.0, 0.0)
    );

    let whole: Circle<i64> = Circle::new(Vector2D::new(3, -4), 5);
    assert_eq!(
        whole.offset_from_center(&Vector2D::new(-1, 6)),
        Vector2D::new(-4, 10)
    );
}

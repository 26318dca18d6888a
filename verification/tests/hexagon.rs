use sdf_shapes::hexagon::Hexagon;
use sdf_shapes::HexagonOrientation;
use vector2d::Vector2D;

#[test]
fn create_hexagon() {
    let hexagon = Hexagon::new(
        Vector2D::new(10.0, 10.0),
        10.0,
        HexagonOrientation::Vertical,
    );

    assert_eq!(
        format!("The hexagon is: {hexagon:?}"),
        "The hexagon is: Hexagon { center: Vector2D { x: 10.0, y: 10.0 }, circumradius: 10.0, orientation: Vertical }"
    );

    assert_eq!(hexagon.center().x, 10.0);
    assert_eq!(hexagon.center().y, 10.0);
    assert_eq!(hexagon.circumradius(), 10.0);
    assert_eq!(hexagon.side_length(), 10.0);
}

#[test]
fn hexagon_equality() {
    let hexagon1 = Hexagon::new(
        Vector2D::new(10.0, 10.0),
        10.0,
        HexagonOrientation::Vertical,
    );
    let hexagon2 = Hexagon::new(
        Vector2D::new(10.0, 10.0),
        10.0,
        HexagonOrientation::Vertical,
    );
    let hexagon3 = Hexagon::new(
        Vector2D::new(11.0, 11.0),
        11.0,
        HexagonOrientation::Vertical,
    );

    assert_eq!(hexagon1 == hexagon2, true);
    assert_eq!(hexagon1 != hexagon3, true);
}

#[test]
fn hexagon_differs_when_one_parameter_differs() {
    let hexagon = Hexagon::new(
        Vector2D::new(10.0, 10.0),
        10.0,
        HexagonOrientation::Vertical,
    );

    assert!(
        hexagon
            != Hexagon::new(
                Vector2D::new(10.0, 12.0),
                10.0,
                HexagonOrientation::Vertical
            )
    );
    assert!(
        hexagon
            != Hexagon::new(
                Vector2D::new(10.0, 10.0),
                12.0,
                HexagonOrientation::Vertical
            )
    );
    assert!(
        hexagon
            != Hexagon::new(
                Vector2D::new(10.0, 10.0),
                10.0,
                HexagonOrientation::Horizontal
            )
    );
}

#[test]
fn hexagon_hands_back_its_orientation() {
    let flat = Hexagon::new(Vector2D::new(0.0, 0.0), 1.0, HexagonOrientation::Vertical);
    let pointy = Hexagon::new(Vector2D::new(0.0, 0.0), 1.0, HexagonOrientation::Horizontal);

    assert_eq!(flat.orientation(), HexagonOrientation::Vertical);
    assert_eq!(pointy.orientation(), HexagonOrientation::Horizontal);
}

#[test]
fn only_the_flat_top_hexagon_turns_the_point() {
    assert_eq!(HexagonOrientation::Vertical.turns_point(), true);
    assert_eq!(HexagonOrientation::Horizontal.turns_point(), false);
}

#[test]
fn hexagon_side_length_is_the_circumradius() {
    let hexagon = Hexagon::new(
        Vector2D::new(1.0, 2.0),
        7.25,
        HexagonOrientation::Horizontal,
    );

    assert_eq!(hexagon.side_length(), hexagon.circumradius());
    assert_eq!(hexagon.side_length(), 7.25);
}

#[test]
fn hexagon_offset_is_point_minus_center() {
    let hexagon = Hexagon::new(
        Vector2D::new(10.0, 10.0),
        10.0,
        HexagonOrientation::Vertical,
    );

    assert_eq!(
        hexagon.offset_from_center(&Vector2D::new(1.339, 10.0)),
        Vector2D::new(1.339 - 10.0, 0.0)
    );
    assert_eq!(
        hexagon.offset_from_center(&Vector2D::new(-10.0, -10.0)),
        Vector2D::new(-20.0, -20.0)
    );
}

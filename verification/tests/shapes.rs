use conveyor_city::shapes::{
    color_from_index, random_color, random_shape, shape_from_index, shape_texture_path, Shape,
    ShapeColor,
};

#[test]
fn shape_enumeration_order() {
    assert_eq!(shape_from_index(0), Shape::Triangle);
    assert_eq!(shape_from_index(1), Shape::Circle);
    assert_eq!(shape_from_index(2), Shape::Square);
    assert_eq!(shape_from_index(3), Shape::Star);
    assert_eq!(shape_from_index(4), Shape::Rectangle);
}

#[test]
fn color_enumeration_order() {
    assert_eq!(color_from_index(0), ShapeColor::Red);
    assert_eq!(color_from_index(1), ShapeColor::Orange);
    assert_eq!(color_from_index(2), ShapeColor::Yellow);
    assert_eq!(color_from_index(3), ShapeColor::Green);
    assert_eq!(color_from_index(4), ShapeColor::Blue);
    assert_eq!(color_from_index(5), ShapeColor::Purple);
    assert_eq!(color_from_index(6), ShapeColor::Pink);
}

#[test]
fn random_draws_stay_in_the_enumerations() {
    for _ in 0..200 {
        let shape = random_shape();
        assert!(matches!(
            shape,
            Shape::Triangle | Shape::Circle | Shape::Square | Shape::Star | Shape::Rectangle
        ));
        let color = random_color();
        assert!(matches!(
            color,
            ShapeColor::Red
                | ShapeColor::Orange
                | ShapeColor::Yellow
                | ShapeColor::Green
                | ShapeColor::Blue
                | ShapeColor::Purple
                | ShapeColor::Pink
        ));
    }
}

#[test]
fn texture_path_of_mapped_kind() {
    let path = shape_texture_path(Shape::Triangle, ShapeColor::Red);
    assert_eq!(path, "textures/shape_triangle_gray.png");
    let path = shape_texture_path(Shape::Square, ShapeColor::Pink);
    assert_eq!(path, "textures/shape_square_gray.png");
}

#[test]
fn texture_path_falls_back_for_unmapped_kinds() {
    let path = shape_texture_path(Shape::Star, ShapeColor::Blue);
    assert_eq!(path, "textures/shape_circle_gray.png");
    let path = shape_texture_path(Shape::Rectangle, ShapeColor::Green);
    assert_eq!(path, "textures/shape_circle_gray.png");
}

//! The shapes that ride the conveyor: their kinds, their colors, the random
//! draws that pick them, and the texture path under which each is rendered.

use rand::Rng;
use vstd::prelude::*;
use vstd::string::StringExecFns;

verus! {

/// The kind of a shape riding the conveyor.
#[derive(Clone, Copy, Debug, PartialEq, Eq, Structural)]
pub enum Shape {
    Triangle,
    Circle,
    Square,
    Star,
    Rectangle,
}

/// The color of a shape riding the conveyor.
#[derive(Clone, Copy, Debug, PartialEq, Eq, Structural)]
pub enum ShapeColor {
    Red,
    Orange,
    Yellow,
    Green,
    Blue,
    Purple,
    Pink,
}

/// How many shape kinds there are.
pub const SHAPE_KIND_COUNT: u32 = 5;

/// How many shape colors there are.
pub const SHAPE_COLOR_COUNT: u32 = 7;

/// The shape kind standing at each position of the fixed enumeration.
pub open spec fn index_shape(index: int) -> Shape {
    if index == 0 {
        Shape::Triangle
    } else if index == 1 {
        Shape::Circle
    } else if index == 2 {
        Shape::Square
    } else if index == 3 {
        Shape::Star
    } else {
        Shape::Rectangle
    }
}

/// The shape color standing at each position of the fixed enumeration.
pub open spec fn index_color(index: int) -> ShapeColor {
    if index == 0 {
        ShapeColor::Red
    } else if index == 1 {
        ShapeColor::Orange
    } else if index == 2 {
        ShapeColor::Yellow
    } else if index == 3 {
        ShapeColor::Green
    } else if index == 4 {
        ShapeColor::Blue
    } else if index == 5 {
        ShapeColor::Purple
    } else {
        ShapeColor::Pink
    }
}

/// Relies on `rand::thread_rng` and `rand::Rng::gen_range`: sampling the
/// range `0..bound` panics on an empty range and otherwise returns a value
/// drawn uniformly from it, in particular one strictly below `bound`.
#[verifier::external_body]
fn random_below(bound: u32) -> (drawn: u32)
    requires
        1 <= bound,
    ensures
        drawn < bound,
{
    rand::thread_rng().gen_range(0..bound)
}

/// The shape kind at `index` in the fixed enumeration.
pub fn shape_from_index(index: u32) -> (shape: Shape)
    requires
        index < SHAPE_KIND_COUNT,
    ensures
        shape == index_shape(index as int),
{
    match index {
        0 => Shape::Triangle,
        1 => Shape::Circle,
        2 => Shape::Square,
        3 => Shape::Star,
        _ => Shape::Rectangle,
    }
}

/// The shape color at `index` in the fixed enumeration.
pub fn color_from_index(index: u32) -> (color: ShapeColor)
    requires
        index < SHAPE_COLOR_COUNT,
    ensures
        color == index_color(index as int),
{
    match index {
        0 => ShapeColor::Red,
        1 => ShapeColor::Orange,
        2 => ShapeColor::Yellow,
        3 => ShapeColor::Green,
        4 => ShapeColor::Blue,
        5 => ShapeColor::Purple,
        _ => ShapeColor::Pink,
    }
}

/// Draws a shape kind uniformly at random from the fixed enumeration.
/// Which kind comes out is random; every outcome lies in the enumeration.
pub fn random_shape() -> (shape: Shape)
    ensures
        exists|index: int| 0 <= index < SHAPE_KIND_COUNT && shape == index_shape(index),
{
    let index = random_below(SHAPE_KIND_COUNT);
    let shape = shape_from_index(index);
    proof {
        assert(0 <= index < SHAPE_KIND_COUNT && shape == index_shape(index as int));
    }
    shape
}

/// Draws a shape color uniformly at random from the fixed enumeration.
/// Which color comes out is random; every outcome lies in the enumeration.
pub fn random_color() -> (color: ShapeColor)
    ensures
        exists|index: int| 0 <= index < SHAPE_COLOR_COUNT && color == index_color(index),
{
    let index = random_below(SHAPE_COLOR_COUNT);
    let color = color_from_index(index);
    proof {
        assert(0 <= index < SHAPE_COLOR_COUNT && color == index_color(index as int));
    }
    color
}

/// The file-name stem used for a shape kind's texture. Only the triangle,
/// circle and square have sprites of their own; the remaining kinds fall back
/// to the circle texture.
pub open spec fn shape_name(shape: Shape) -> Seq<char> {
    match shape {
        Shape::Triangle => "triangle"@,
        Shape::Circle => "circle"@,
        Shape::Square => "square"@,
        Shape::Star => "circle"@,
        Shape::Rectangle => "circle"@,
    }
}

/// The file-name stem used for a shape color's texture. No colored sprites
/// exist yet, so every color falls back to the gray texture.
pub open spec fn color_name(color: ShapeColor) -> Seq<char> {
    "gray"@
}

/// The asset path of a shape's texture:
/// `textures/shape_<kind>_<color>.png`.
pub open spec fn shape_texture_path_spec(shape: Shape, color: ShapeColor) -> Seq<char> {
    "textures/shape_"@ + shape_name(shape) + "_"@ + color_name(color) + ".png"@
}

/// The file-name stem of a shape kind's texture.
pub fn shape_name_str(shape: Shape) -> (name: &'static str)
    ensures
        name@ == shape_name(shape),
{
    match shape {
        Shape::Triangle => "triangle",
        Shape::Circle => "circle",
        Shape::Square => "square",
        Shape::Star => "circle",
        Shape::Rectangle => "circle",
    }
}

/// The file-name stem of a shape color's texture.
pub fn color_name_str(color: ShapeColor) -> (name: &'static str)
    ensures
        name@ == color_name(color),
{
    match color {
        ShapeColor::Red => "gray",
        ShapeColor::Orange => "gray",
        ShapeColor::Yellow => "gray",
        ShapeColor::Green => "gray",
        ShapeColor::Blue => "gray",
        ShapeColor::Purple => "gray",
        ShapeColor::Pink => "gray",
    }
}

/// Builds the asset path under which a shape with this kind and color is
/// rendered.
pub fn shape_texture_path(shape: Shape, color: ShapeColor) -> (path: String)
    ensures
        path@ == shape_texture_path_spec(shape, color),
{
    let mut path = "textures/shape_".to_owned();
    path.append(shape_name_str(shape));
    path.append("_");
    path.append(color_name_str(color));
    path.append(".png");
    proof {
        assert(path@ =~= shape_texture_path_spec(shape, color));
    }
    path
}

} // verus!

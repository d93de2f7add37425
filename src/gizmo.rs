//! One function for each kind of primitive: each returns the text of the
//! command that draws it, ready to be logged in a `gizmo` field.

use vstd::prelude::*;
use crate::color::Color;
use crate::command::GizmoCommand;
use crate::geometry::{Isometry2d, Isometry3d, Mat4, UVec2, UVec3, Vec2, Vec3};
use crate::scalar::Scalar;

verus! {

/// The text of [`GizmoCommand::Arc2d`]. An arc in the plane: `arc_angle` radians of a circle of `radius`, placed by `isometry`.
pub fn arc_2d(isometry: Isometry2d, arc_angle: Scalar, radius: Scalar, color: Color) -> (r: String)
    ensures
        r@ == (GizmoCommand::Arc2d { isometry, arc_angle, radius, color }).enc(),
{
    (GizmoCommand::Arc2d { isometry, arc_angle, radius, color }).to_text()
}

/// The text of [`GizmoCommand::Arc3d`]. An arc in space: `angle` radians of a circle of `radius`, placed by `isometry`.
pub fn arc_3d(angle: Scalar, radius: Scalar, isometry: Isometry3d, color: Color) -> (r: String)
    ensures
        r@ == (GizmoCommand::Arc3d { angle, radius, isometry, color }).enc(),
{
    (GizmoCommand::Arc3d { angle, radius, isometry, color }).to_text()
}

/// The text of [`GizmoCommand::Arrow`]. An arrow in space from `start` to `end`.
pub fn arrow(start: Vec3, end: Vec3, color: Color) -> (r: String)
    ensures
        r@ == (GizmoCommand::Arrow { start, end, color }).enc(),
{
    (GizmoCommand::Arrow { start, end, color }).to_text()
}

/// The text of [`GizmoCommand::Arrow2d`]. An arrow in the plane from `start` to `end`.
pub fn arrow_2d(start: Vec2, end: Vec2, color: Color) -> (r: String)
    ensures
        r@ == (GizmoCommand::Arrow2d { start, end, color }).enc(),
{
    (GizmoCommand::Arrow2d { start, end, color }).to_text()
}

/// The text of [`GizmoCommand::Axes`]. The three axes of the frame `transform`, each `base_length` long.
pub fn axes(transform: Mat4, base_length: Scalar) -> (r: String)
    ensures
        r@ == (GizmoCommand::Axes { transform, base_length }).enc(),
{
    (GizmoCommand::Axes { transform, base_length }).to_text()
}

/// The text of [`GizmoCommand::Axes2d`]. The two axes of the frame `transform`, each `base_length` long.
pub fn axes_2d(transform: Mat4, base_length: Scalar) -> (r: String)
    ensures
        r@ == (GizmoCommand::Axes2d { transform, base_length }).enc(),
{
    (GizmoCommand::Axes2d { transform, base_length }).to_text()
}

/// The text of [`GizmoCommand::Circle`]. A circle in space, placed by `isometry`.
pub fn circle(isometry: Isometry3d, radius: Scalar, color: Color) -> (r: String)
    ensures
        r@ == (GizmoCommand::Circle { isometry, radius, color }).enc(),
{
    (GizmoCommand::Circle { isometry, radius, color }).to_text()
}

/// The text of [`GizmoCommand::Circle2d`]. A circle in the plane around `position`.
pub fn circle_2d(position: Vec2, radius: Scalar, color: Color) -> (r: String)
    ensures
        r@ == (GizmoCommand::Circle2d { position, radius, color }).enc(),
{
    (GizmoCommand::Circle2d { position, radius, color }).to_text()
}

/// The text of [`GizmoCommand::Cuboid`]. The unit cube mapped by `transform`.
pub fn cuboid(transform: Mat4, color: Color) -> (r: String)
    ensures
        r@ == (GizmoCommand::Cuboid { transform, color }).enc(),
{
    (GizmoCommand::Cuboid { transform, color }).to_text()
}

/// The text of [`GizmoCommand::Ellipse`]. An ellipse in space, placed by `isometry`.
pub fn ellipse(isometry: Isometry3d, half_size: Vec2, color: Color) -> (r: String)
    ensures
        r@ == (GizmoCommand::Ellipse { isometry, half_size, color }).enc(),
{
    (GizmoCommand::Ellipse { isometry, half_size, color }).to_text()
}

/// The text of [`GizmoCommand::Ellipse2d`]. An ellipse in the plane, placed by `isometry`.
pub fn ellipse_2d(isometry: Isometry2d, half_size: Vec2, color: Color) -> (r: String)
    ensures
        r@ == (GizmoCommand::Ellipse2d { isometry, half_size, color }).enc(),
{
    (GizmoCommand::Ellipse2d { isometry, half_size, color }).to_text()
}

/// The text of [`GizmoCommand::Grid`]. A flat grid in space, placed by `isometry`.
pub fn grid(isometry: Isometry3d, cell_count: UVec2, spacing: Vec2, color: Color) -> (r: String)
    ensures
        r@ == (GizmoCommand::Grid { isometry, cell_count, spacing, color }).enc(),
{
    (GizmoCommand::Grid { isometry, cell_count, spacing, color }).to_text()
}

/// The text of [`GizmoCommand::Grid2d`]. A grid in the plane, placed by `isometry`.
pub fn grid_2d(isometry: Isometry2d, cell_count: UVec2, spacing: Vec2, color: Color) -> (r: String)
    ensures
        r@ == (GizmoCommand::Grid2d { isometry, cell_count, spacing, color }).enc(),
{
    (GizmoCommand::Grid2d { isometry, cell_count, spacing, color }).to_text()
}

/// The text of [`GizmoCommand::Grid3d`]. A grid of cells in space, placed by `isometry`.
pub fn grid_3d(isometry: Isometry3d, cell_count: UVec3, spacing: Vec3, color: Color) -> (r: String)
    ensures
        r@ == (GizmoCommand::Grid3d { isometry, cell_count, spacing, color }).enc(),
{
    (GizmoCommand::Grid3d { isometry, cell_count, spacing, color }).to_text()
}

/// The text of [`GizmoCommand::Line`]. A segment in space.
pub fn line(start: Vec3, end: Vec3, color: Color) -> (r: String)
    ensures
        r@ == (GizmoCommand::Line { start, end, color }).enc(),
{
    (GizmoCommand::Line { start, end, color }).to_text()
}

/// The text of [`GizmoCommand::Line2d`]. A segment in the plane.
pub fn line_2d(start: Vec2, end: Vec2, color: Color) -> (r: String)
    ensures
        r@ == (GizmoCommand::Line2d { start, end, color }).enc(),
{
    (GizmoCommand::Line2d { start, end, color }).to_text()
}

/// The text of [`GizmoCommand::LineGradient`]. A segment in space whose color runs from `start_color` to `end_color`.
pub fn line_gradient(start: Vec3, end: Vec3, start_color: Color, end_color: Color) -> (r: String)
    ensures
        r@ == (GizmoCommand::LineGradient { start, end, start_color, end_color }).enc(),
{
    (GizmoCommand::LineGradient { start, end, start_color, end_color }).to_text()
}

/// The text of [`GizmoCommand::LineGradient2d`]. A segment in the plane whose color runs from `start_color` to `end_color`.
pub fn line_gradient_2d(start: Vec2, end: Vec2, start_color: Color, end_color: Color) -> (r: String)
    ensures
        r@ == (GizmoCommand::LineGradient2d { start, end, start_color, end_color }).enc(),
{
    (GizmoCommand::LineGradient2d { start, end, start_color, end_color }).to_text()
}

/// The text of [`GizmoCommand::Linestrip`]. A polyline in space through `positions`, in order.
pub fn linestrip(positions: Vec<Vec3>, color: Color) -> (r: String)
    ensures
        r@ == (GizmoCommand::Linestrip { positions, color }).enc(),
{
    (GizmoCommand::Linestrip { positions, color }).to_text()
}

/// The text of [`GizmoCommand::Linestrip2d`]. A polyline in the plane through `positions`, in order.
pub fn linestrip_2d(positions: Vec<Vec2>, color: Color) -> (r: String)
    ensures
        r@ == (GizmoCommand::Linestrip2d { positions, color }).enc(),
{
    (GizmoCommand::Linestrip2d { positions, color }).to_text()
}

/// The text of [`GizmoCommand::LinestripGradient`]. A polyline in space, each point with its own color.
pub fn linestrip_gradient(points: Vec<(Vec3, Color)>) -> (r: String)
    ensures
        r@ == (GizmoCommand::LinestripGradient { points }).enc(),
{
    (GizmoCommand::LinestripGradient { points }).to_text()
}

/// The text of [`GizmoCommand::LinestripGradient2d`]. A polyline in the plane, each point with its own color.
pub fn linestrip_gradient_2d(positions: Vec<(Vec2, Color)>) -> (r: String)
    ensures
        r@ == (GizmoCommand::LinestripGradient2d { positions }).enc(),
{
    (GizmoCommand::LinestripGradient2d { positions }).to_text()
}

/// The text of [`GizmoCommand::LongArc3dBetween`]. The longer arc around `center` from `from` to `to`.
pub fn long_arc_3d_between(center: Vec3, from: Vec3, to: Vec3, color: Color) -> (r: String)
    ensures
        r@ == (GizmoCommand::LongArc3dBetween { center, from, to, color }).enc(),
{
    (GizmoCommand::LongArc3dBetween { center, from, to, color }).to_text()
}

/// The text of [`GizmoCommand::Ray`]. A segment in space from `start` along `vector`.
pub fn ray(start: Vec3, vector: Vec3, color: Color) -> (r: String)
    ensures
        r@ == (GizmoCommand::Ray { start, vector, color }).enc(),
{
    (GizmoCommand::Ray { start, vector, color }).to_text()
}

/// The text of [`GizmoCommand::Ray2d`]. A segment in the plane from `start` along `vector`.
pub fn ray_2d(start: Vec2, vector: Vec2, color: Color) -> (r: String)
    ensures
        r@ == (GizmoCommand::Ray2d { start, vector, color }).enc(),
{
    (GizmoCommand::Ray2d { start, vector, color }).to_text()
}

/// The text of [`GizmoCommand::RayGradient`]. A segment in space from `start` along `vector`, with a color gradient.
pub fn ray_gradient(start: Vec3, vector: Vec3, start_color: Color, end_color: Color) -> (r: String)
    ensures
        r@ == (GizmoCommand::RayGradient { start, vector, start_color, end_color }).enc(),
{
    (GizmoCommand::RayGradient { start, vector, start_color, end_color }).to_text()
}

/// The text of [`GizmoCommand::RayGradient2d`]. A segment in the plane from `start` along `vector`, with a color gradient.
pub fn ray_gradient_2d(start: Vec2, vector: Vec2, start_color: Color, end_color: Color) -> (r: String)
    ensures
        r@ == (GizmoCommand::RayGradient2d { start, vector, start_color, end_color }).enc(),
{
    (GizmoCommand::RayGradient2d { start, vector, start_color, end_color }).to_text()
}

/// The text of [`GizmoCommand::Rect`]. A rectangle in space, placed by `isometry`.
pub fn rect(isometry: Isometry3d, size: Vec2, color: Color) -> (r: String)
    ensures
        r@ == (GizmoCommand::Rect { isometry, size, color }).enc(),
{
    (GizmoCommand::Rect { isometry, size, color }).to_text()
}

/// The text of [`GizmoCommand::Rect2d`]. A rectangle in the plane, placed by `isometry`.
pub fn rect_2d(isometry: Isometry2d, size: Vec2, color: Color) -> (r: String)
    ensures
        r@ == (GizmoCommand::Rect2d { isometry, size, color }).enc(),
{
    (GizmoCommand::Rect2d { isometry, size, color }).to_text()
}

/// The text of [`GizmoCommand::RoundedCuboid`]. A cuboid with rounded edges, placed by `isometry`.
pub fn rounded_cuboid(isometry: Isometry3d, size: Vec3, color: Color) -> (r: String)
    ensures
        r@ == (GizmoCommand::RoundedCuboid { isometry, size, color }).enc(),
{
    (GizmoCommand::RoundedCuboid { isometry, size, color }).to_text()
}

/// The text of [`GizmoCommand::RoundedRect`]. A rectangle with rounded corners in space, placed by `isometry`.
pub fn rounded_rect(isometry: Isometry3d, size: Vec2, color: Color) -> (r: String)
    ensures
        r@ == (GizmoCommand::RoundedRect { isometry, size, color }).enc(),
{
    (GizmoCommand::RoundedRect { isometry, size, color }).to_text()
}

/// The text of [`GizmoCommand::RoundedRect2d`]. A rectangle with rounded corners in the plane, placed by `isometry`.
pub fn rounded_rect_2d(isometry: Isometry2d, size: Vec2, color: Color) -> (r: String)
    ensures
        r@ == (GizmoCommand::RoundedRect2d { isometry, size, color }).enc(),
{
    (GizmoCommand::RoundedRect2d { isometry, size, color }).to_text()
}

/// The text of [`GizmoCommand::ShortArc3dBetween`]. The shorter arc around `center` from `from` to `to`.
pub fn short_arc_3d_between(center: Vec3, from: Vec3, to: Vec3, color: Color) -> (r: String)
    ensures
        r@ == (GizmoCommand::ShortArc3dBetween { center, from, to, color }).enc(),
{
    (GizmoCommand::ShortArc3dBetween { center, from, to, color }).to_text()
}

/// The text of [`GizmoCommand::Sphere`]. A sphere, placed by `isometry`.
pub fn sphere(isometry: Isometry3d, radius: Scalar, color: Color) -> (r: String)
    ensures
        r@ == (GizmoCommand::Sphere { isometry, radius, color }).enc(),
{
    (GizmoCommand::Sphere { isometry, radius, color }).to_text()
}

} // verus!

//! The drawing commands, their text, and their dispatch to a drawing surface.

use vstd::prelude::*;
use crate::color::{lemma_color_no_space, parse_color, Color};
use crate::geometry::{
    lemma_isometry2d_no_space, lemma_isometry3d_no_space, lemma_mat4_no_space,
    lemma_uvec2_no_space, lemma_uvec3_no_space, lemma_vec2_no_space, lemma_vec3_no_space,
    parse_isometry2d, parse_isometry3d, parse_mat4, parse_uvec2, parse_uvec3, parse_vec2,
    parse_vec3, Isometry2d, Isometry3d, Mat4, UVec2, UVec3, Vec2, Vec3,
};
use crate::points::{
    colored2_same, colored3_same, points2_same, points3_same, colored2_enc, colored2_wf, colored3_enc, colored3_wf, lemma_colored2_no_space,
    lemma_colored3_no_space, lemma_points2_no_space, lemma_points3_no_space, parse_colored2,
    parse_colored3, parse_points2, parse_points3, points2_enc, points2_wf, points3_enc,
    points3_wf, write_colored2, write_colored3, write_points2, write_points3,
};
use crate::scalar::{lemma_number_no_space, parse_scalar, Scalar};
use crate::text::{
    lemma_occurs_pair, lemma_occurs_trans, lemma_occurs_whole, same_text,
    expect, expect_char, lemma_no_space_concat, lemma_occurs_concat, lemma_occurs_one, no_space,
    occurs_at, one, push_str, string_of,
};

verus! {

broadcast use lemma_occurs_concat, lemma_occurs_one, lemma_no_space_concat;

/// One drawing request. Each variant is one kind of primitive, with the
/// geometry and colors it is drawn with.
#[derive(Clone, Debug, PartialEq)]
pub enum GizmoCommand {
    /// An arc in the plane: `arc_angle` radians of a circle of `radius`, placed by `isometry`.
    Arc2d { isometry: Isometry2d, arc_angle: Scalar, radius: Scalar, color: Color },
    /// An arc in space: `angle` radians of a circle of `radius`, placed by `isometry`.
    Arc3d { angle: Scalar, radius: Scalar, isometry: Isometry3d, color: Color },
    /// An arrow in space from `start` to `end`.
    Arrow { start: Vec3, end: Vec3, color: Color },
    /// An arrow in the plane from `start` to `end`.
    Arrow2d { start: Vec2, end: Vec2, color: Color },
    /// The three axes of the frame `transform`, each `base_length` long.
    Axes { transform: Mat4, base_length: Scalar },
    /// The two axes of the frame `transform`, each `base_length` long.
    Axes2d { transform: Mat4, base_length: Scalar },
    /// A circle in space, placed by `isometry`.
    Circle { isometry: Isometry3d, radius: Scalar, color: Color },
    /// A circle in the plane around `position`.
    Circle2d { position: Vec2, radius: Scalar, color: Color },
    /// The unit cube mapped by `transform`.
    Cuboid { transform: Mat4, color: Color },
    /// An ellipse in space, placed by `isometry`.
    Ellipse { isometry: Isometry3d, half_size: Vec2, color: Color },
    /// An ellipse in the plane, placed by `isometry`.
    Ellipse2d { isometry: Isometry2d, half_size: Vec2, color: Color },
    /// A flat grid in space, placed by `isometry`.
    Grid { isometry: Isometry3d, cell_count: UVec2, spacing: Vec2, color: Color },
    /// A grid in the plane, placed by `isometry`.
    Grid2d { isometry: Isometry2d, cell_count: UVec2, spacing: Vec2, color: Color },
    /// A grid of cells in space, placed by `isometry`.
    Grid3d { isometry: Isometry3d, cell_count: UVec3, spacing: Vec3, color: Color },
    /// A segment in space.
    Line { start: Vec3, end: Vec3, color: Color },
    /// A segment in the plane.
    Line2d { start: Vec2, end: Vec2, color: Color },
    /// A segment in space whose color runs from `start_color` to `end_color`.
    LineGradient { start: Vec3, end: Vec3, start_color: Color, end_color: Color },
    /// A segment in the plane whose color runs from `start_color` to `end_color`.
    LineGradient2d { start: Vec2, end: Vec2, start_color: Color, end_color: Color },
    /// A polyline in space through `positions`, in order.
    Linestrip { positions: Vec<Vec3>, color: Color },
    /// A polyline in the plane through `positions`, in order.
    Linestrip2d { positions: Vec<Vec2>, color: Color },
    /// A polyline in space, each point with its own color.
    LinestripGradient { points: Vec<(Vec3, Color)> },
    /// A polyline in the plane, each point with its own color.
    LinestripGradient2d { positions: Vec<(Vec2, Color)> },
    /// The longer arc around `center` from `from` to `to`.
    LongArc3dBetween { center: Vec3, from: Vec3, to: Vec3, color: Color },
    /// A segment in space from `start` along `vector`.
    Ray { start: Vec3, vector: Vec3, color: Color },
    /// A segment in the plane from `start` along `vector`.
    Ray2d { start: Vec2, vector: Vec2, color: Color },
    /// A segment in space from `start` along `vector`, with a color gradient.
    RayGradient { start: Vec3, vector: Vec3, start_color: Color, end_color: Color },
    /// A segment in the plane from `start` along `vector`, with a color gradient.
    RayGradient2d { start: Vec2, vector: Vec2, start_color: Color, end_color: Color },
    /// A rectangle in space, placed by `isometry`.
    Rect { isometry: Isometry3d, size: Vec2, color: Color },
    /// A rectangle in the plane, placed by `isometry`.
    Rect2d { isometry: Isometry2d, size: Vec2, color: Color },
    /// A cuboid with rounded edges, placed by `isometry`.
    RoundedCuboid { isometry: Isometry3d, size: Vec3, color: Color },
    /// A rectangle with rounded corners in space, placed by `isometry`.
    RoundedRect { isometry: Isometry3d, size: Vec2, color: Color },
    /// A rectangle with rounded corners in the plane, placed by `isometry`.
    RoundedRect2d { isometry: Isometry2d, size: Vec2, color: Color },
    /// The shorter arc around `center` from `from` to `to`.
    ShortArc3dBetween { center: Vec3, from: Vec3, to: Vec3, color: Color },
    /// A sphere, placed by `isometry`.
    Sphere { isometry: Isometry3d, radius: Scalar, color: Color },
}

/// A drawing surface: one operation for each kind of primitive, taking the
/// fields of the matching [`GizmoCommand`] variant.
///
/// The surface is the renderer that the host provides. Its model is the
/// sequence of primitives drawn on it so far; each operation draws one more,
/// with exactly the values it was given.
pub trait GizmoSurface {
    /// The primitives drawn on the surface so far, oldest first, each as the
    /// command that describes it.
    spec fn drawn(&self) -> Drawn;

    fn arc_2d(&mut self, isometry: Isometry2d, arc_angle: Scalar, radius: Scalar, color: Color)
        ensures
            final(self).drawn() == old(self).drawn().push((GizmoCommand::Arc2d { isometry, arc_angle, radius, color })),
    ;

    fn arc_3d(&mut self, angle: Scalar, radius: Scalar, isometry: Isometry3d, color: Color)
        ensures
            final(self).drawn() == old(self).drawn().push((GizmoCommand::Arc3d { angle, radius, isometry, color })),
    ;

    fn arrow(&mut self, start: Vec3, end: Vec3, color: Color)
        ensures
            final(self).drawn() == old(self).drawn().push((GizmoCommand::Arrow { start, end, color })),
    ;

    fn arrow_2d(&mut self, start: Vec2, end: Vec2, color: Color)
        ensures
            final(self).drawn() == old(self).drawn().push((GizmoCommand::Arrow2d { start, end, color })),
    ;

    fn axes(&mut self, transform: Mat4, base_length: Scalar)
        ensures
            final(self).drawn() == old(self).drawn().push((GizmoCommand::Axes { transform, base_length })),
    ;

    fn axes_2d(&mut self, transform: Mat4, base_length: Scalar)
        ensures
            final(self).drawn() == old(self).drawn().push((GizmoCommand::Axes2d { transform, base_length })),
    ;

    fn circle(&mut self, isometry: Isometry3d, radius: Scalar, color: Color)
        ensures
            final(self).drawn() == old(self).drawn().push((GizmoCommand::Circle { isometry, radius, color })),
    ;

    fn circle_2d(&mut self, position: Vec2, radius: Scalar, color: Color)
        ensures
            final(self).drawn() == old(self).drawn().push((GizmoCommand::Circle2d { position, radius, color })),
    ;

    fn cuboid(&mut self, transform: Mat4, color: Color)
        ensures
            final(self).drawn() == old(self).drawn().push((GizmoCommand::Cuboid { transform, color })),
    ;

    fn ellipse(&mut self, isometry: Isometry3d, half_size: Vec2, color: Color)
        ensures
            final(self).drawn() == old(self).drawn().push((GizmoCommand::Ellipse { isometry, half_size, color })),
    ;

    fn ellipse_2d(&mut self, isometry: Isometry2d, half_size: Vec2, color: Color)
        ensures
            final(self).drawn() == old(self).drawn().push((GizmoCommand::Ellipse2d { isometry, half_size, color })),
    ;

    fn grid(&mut self, isometry: Isometry3d, cell_count: UVec2, spacing: Vec2, color: Color)
        ensures
            final(self).drawn() == old(self).drawn().push((GizmoCommand::Grid { isometry, cell_count, spacing, color })),
    ;

    fn grid_2d(&mut self, isometry: Isometry2d, cell_count: UVec2, spacing: Vec2, color: Color)
        ensures
            final(self).drawn() == old(self).drawn().push((GizmoCommand::Grid2d { isometry, cell_count, spacing, color })),
    ;

    fn grid_3d(&mut self, isometry: Isometry3d, cell_count: UVec3, spacing: Vec3, color: Color)
        ensures
            final(self).drawn() == old(self).drawn().push((GizmoCommand::Grid3d { isometry, cell_count, spacing, color })),
    ;

    fn line(&mut self, start: Vec3, end: Vec3, color: Color)
        ensures
            final(self).drawn() == old(self).drawn().push((GizmoCommand::Line { start, end, color })),
    ;

    fn line_2d(&mut self, start: Vec2, end: Vec2, color: Color)
        ensures
            final(self).drawn() == old(self).drawn().push((GizmoCommand::Line2d { start, end, color })),
    ;

    fn line_gradient(&mut self, start: Vec3, end: Vec3, start_color: Color, end_color: Color)
        ensures
            final(self).drawn() == old(self).drawn().push((GizmoCommand::LineGradient { start, end, start_color, end_color })),
    ;

    fn line_gradient_2d(&mut self, start: Vec2, end: Vec2, start_color: Color, end_color: Color)
        ensures
            final(self).drawn() == old(self).drawn().push((GizmoCommand::LineGradient2d { start, end, start_color, end_color })),
    ;

    fn linestrip(&mut self, positions: Vec<Vec3>, color: Color)
        ensures
            final(self).drawn() == old(self).drawn().push((GizmoCommand::Linestrip { positions, color })),
    ;

    fn linestrip_2d(&mut self, positions: Vec<Vec2>, color: Color)
        ensures
            final(self).drawn() == old(self).drawn().push((GizmoCommand::Linestrip2d { positions, color })),
    ;

    fn linestrip_gradient(&mut self, points: Vec<(Vec3, Color)>)
        ensures
            final(self).drawn() == old(self).drawn().push((GizmoCommand::LinestripGradient { points })),
    ;

    fn linestrip_gradient_2d(&mut self, positions: Vec<(Vec2, Color)>)
        ensures
            final(self).drawn() == old(self).drawn().push((GizmoCommand::LinestripGradient2d { positions })),
    ;

    fn long_arc_3d_between(&mut self, center: Vec3, from: Vec3, to: Vec3, color: Color)
        ensures
            final(self).drawn() == old(self).drawn().push((GizmoCommand::LongArc3dBetween { center, from, to, color })),
    ;

    fn ray(&mut self, start: Vec3, vector: Vec3, color: Color)
        ensures
            final(self).drawn() == old(self).drawn().push((GizmoCommand::Ray { start, vector, color })),
    ;

    fn ray_2d(&mut self, start: Vec2, vector: Vec2, color: Color)
        ensures
            final(self).drawn() == old(self).drawn().push((GizmoCommand::Ray2d { start, vector, color })),
    ;

    fn ray_gradient(&mut self, start: Vec3, vector: Vec3, start_color: Color, end_color: Color)
        ensures
            final(self).drawn() == old(self).drawn().push((GizmoCommand::RayGradient { start, vector, start_color, end_color })),
    ;

    fn ray_gradient_2d(&mut self, start: Vec2, vector: Vec2, start_color: Color, end_color: Color)
        ensures
            final(self).drawn() == old(self).drawn().push((GizmoCommand::RayGradient2d { start, vector, start_color, end_color })),
    ;

    fn rect(&mut self, isometry: Isometry3d, size: Vec2, color: Color)
        ensures
            final(self).drawn() == old(self).drawn().push((GizmoCommand::Rect { isometry, size, color })),
    ;

    fn rect_2d(&mut self, isometry: Isometry2d, size: Vec2, color: Color)
        ensures
            final(self).drawn() == old(self).drawn().push((GizmoCommand::Rect2d { isometry, size, color })),
    ;

    fn rounded_cuboid(&mut self, isometry: Isometry3d, size: Vec3, color: Color)
        ensures
            final(self).drawn() == old(self).drawn().push((GizmoCommand::RoundedCuboid { isometry, size, color })),
    ;

    fn rounded_rect(&mut self, isometry: Isometry3d, size: Vec2, color: Color)
        ensures
            final(self).drawn() == old(self).drawn().push((GizmoCommand::RoundedRect { isometry, size, color })),
    ;

    fn rounded_rect_2d(&mut self, isometry: Isometry2d, size: Vec2, color: Color)
        ensures
            final(self).drawn() == old(self).drawn().push((GizmoCommand::RoundedRect2d { isometry, size, color })),
    ;

    fn short_arc_3d_between(&mut self, center: Vec3, from: Vec3, to: Vec3, color: Color)
        ensures
            final(self).drawn() == old(self).drawn().push((GizmoCommand::ShortArc3dBetween { center, from, to, color })),
    ;

    fn sphere(&mut self, isometry: Isometry3d, radius: Scalar, color: Color)
        ensures
            final(self).drawn() == old(self).drawn().push((GizmoCommand::Sphere { isometry, radius, color })),
    ;
}

/// The model of a [`GizmoSurface`]: the commands drawn on it, oldest first.
pub type Drawn = Seq<GizmoCommand>;

/// A surface that keeps the commands handed to it instead of rendering them.
pub struct DrawLog {
    commands: Vec<GizmoCommand>,
}

impl DrawLog {
    /// A log with nothing drawn.
    pub fn new() -> (r: DrawLog)
        ensures
            r.drawn() == Seq::<GizmoCommand>::empty(),
    {
        DrawLog { commands: Vec::new() }
    }

    /// The commands drawn so far, oldest first.
    pub fn commands(&self) -> (r: &Vec<GizmoCommand>)
        ensures
            r@ == self.drawn(),
    {
        &self.commands
    }
}

impl GizmoSurface for DrawLog {
    closed spec fn drawn(&self) -> Seq<GizmoCommand> {
        self.commands@
    }

    fn arc_2d(&mut self, isometry: Isometry2d, arc_angle: Scalar, radius: Scalar, color: Color) {
        self.commands.push(GizmoCommand::Arc2d { isometry, arc_angle, radius, color });
    }

    fn arc_3d(&mut self, angle: Scalar, radius: Scalar, isometry: Isometry3d, color: Color) {
        self.commands.push(GizmoCommand::Arc3d { angle, radius, isometry, color });
    }

    fn arrow(&mut self, start: Vec3, end: Vec3, color: Color) {
        self.commands.push(GizmoCommand::Arrow { start, end, color });
    }

    fn arrow_2d(&mut self, start: Vec2, end: Vec2, color: Color) {
        self.commands.push(GizmoCommand::Arrow2d { start, end, color });
    }

    fn axes(&mut self, transform: Mat4, base_length: Scalar) {
        self.commands.push(GizmoCommand::Axes { transform, base_length });
    }

    fn axes_2d(&mut self, transform: Mat4, base_length: Scalar) {
        self.commands.push(GizmoCommand::Axes2d { transform, base_length });
    }

    fn circle(&mut self, isometry: Isometry3d, radius: Scalar, color: Color) {
        self.commands.push(GizmoCommand::Circle { isometry, radius, color });
    }

    fn circle_2d(&mut self, position: Vec2, radius: Scalar, color: Color) {
        self.commands.push(GizmoCommand::Circle2d { position, radius, color });
    }

    fn cuboid(&mut self, transform: Mat4, color: Color) {
        self.commands.push(GizmoCommand::Cuboid { transform, color });
    }

    fn ellipse(&mut self, isometry: Isometry3d, half_size: Vec2, color: Color) {
        self.commands.push(GizmoCommand::Ellipse { isometry, half_size, color });
    }

    fn ellipse_2d(&mut self, isometry: Isometry2d, half_size: Vec2, color: Color) {
        self.commands.push(GizmoCommand::Ellipse2d { isometry, half_size, color });
    }

    fn grid(&mut self, isometry: Isometry3d, cell_count: UVec2, spacing: Vec2, color: Color) {
        self.commands.push(GizmoCommand::Grid { isometry, cell_count, spacing, color });
    }

    fn grid_2d(&mut self, isometry: Isometry2d, cell_count: UVec2, spacing: Vec2, color: Color) {
        self.commands.push(GizmoCommand::Grid2d { isometry, cell_count, spacing, color });
    }

    fn grid_3d(&mut self, isometry: Isometry3d, cell_count: UVec3, spacing: Vec3, color: Color) {
        self.commands.push(GizmoCommand::Grid3d { isometry, cell_count, spacing, color });
    }

    fn line(&mut self, start: Vec3, end: Vec3, color: Color) {
        self.commands.push(GizmoCommand::Line { start, end, color });
    }

    fn line_2d(&mut self, start: Vec2, end: Vec2, color: Color) {
        self.commands.push(GizmoCommand::Line2d { start, end, color });
    }

    fn line_gradient(&mut self, start: Vec3, end: Vec3, start_color: Color, end_color: Color) {
        self.commands.push(GizmoCommand::LineGradient { start, end, start_color, end_color });
    }

    fn line_gradient_2d(&mut self, start: Vec2, end: Vec2, start_color: Color, end_color: Color) {
        self.commands.push(GizmoCommand::LineGradient2d { start, end, start_color, end_color });
    }

    fn linestrip(&mut self, positions: Vec<Vec3>, color: Color) {
        self.commands.push(GizmoCommand::Linestrip { positions, color });
    }

    fn linestrip_2d(&mut self, positions: Vec<Vec2>, color: Color) {
        self.commands.push(GizmoCommand::Linestrip2d { positions, color });
    }

    fn linestrip_gradient(&mut self, points: Vec<(Vec3, Color)>) {
        self.commands.push(GizmoCommand::LinestripGradient { points });
    }

    fn linestrip_gradient_2d(&mut self, positions: Vec<(Vec2, Color)>) {
        self.commands.push(GizmoCommand::LinestripGradient2d { positions });
    }

    fn long_arc_3d_between(&mut self, center: Vec3, from: Vec3, to: Vec3, color: Color) {
        self.commands.push(GizmoCommand::LongArc3dBetween { center, from, to, color });
    }

    fn ray(&mut self, start: Vec3, vector: Vec3, color: Color) {
        self.commands.push(GizmoCommand::Ray { start, vector, color });
    }

    fn ray_2d(&mut self, start: Vec2, vector: Vec2, color: Color) {
        self.commands.push(GizmoCommand::Ray2d { start, vector, color });
    }

    fn ray_gradient(&mut self, start: Vec3, vector: Vec3, start_color: Color, end_color: Color) {
        self.commands.push(GizmoCommand::RayGradient { start, vector, start_color, end_color });
    }

    fn ray_gradient_2d(&mut self, start: Vec2, vector: Vec2, start_color: Color, end_color: Color) {
        self.commands.push(GizmoCommand::RayGradient2d { start, vector, start_color, end_color });
    }

    fn rect(&mut self, isometry: Isometry3d, size: Vec2, color: Color) {
        self.commands.push(GizmoCommand::Rect { isometry, size, color });
    }

    fn rect_2d(&mut self, isometry: Isometry2d, size: Vec2, color: Color) {
        self.commands.push(GizmoCommand::Rect2d { isometry, size, color });
    }

    fn rounded_cuboid(&mut self, isometry: Isometry3d, size: Vec3, color: Color) {
        self.commands.push(GizmoCommand::RoundedCuboid { isometry, size, color });
    }

    fn rounded_rect(&mut self, isometry: Isometry3d, size: Vec2, color: Color) {
        self.commands.push(GizmoCommand::RoundedRect { isometry, size, color });
    }

    fn rounded_rect_2d(&mut self, isometry: Isometry2d, size: Vec2, color: Color) {
        self.commands.push(GizmoCommand::RoundedRect2d { isometry, size, color });
    }

    fn short_arc_3d_between(&mut self, center: Vec3, from: Vec3, to: Vec3, color: Color) {
        self.commands.push(GizmoCommand::ShortArc3dBetween { center, from, to, color });
    }

    fn sphere(&mut self, isometry: Isometry3d, radius: Scalar, color: Color) {
        self.commands.push(GizmoCommand::Sphere { isometry, radius, color });
    }
}

impl GizmoCommand {
    /// The position of the command's variant in the declaration of [`GizmoCommand`].
    pub open spec fn kind(&self) -> nat {
        match self {
            GizmoCommand::Arc2d { .. } => 0,
            GizmoCommand::Arc3d { .. } => 1,
            GizmoCommand::Arrow { .. } => 2,
            GizmoCommand::Arrow2d { .. } => 3,
            GizmoCommand::Axes { .. } => 4,
            GizmoCommand::Axes2d { .. } => 5,
            GizmoCommand::Circle { .. } => 6,
            GizmoCommand::Circle2d { .. } => 7,
            GizmoCommand::Cuboid { .. } => 8,
            GizmoCommand::Ellipse { .. } => 9,
            GizmoCommand::Ellipse2d { .. } => 10,
            GizmoCommand::Grid { .. } => 11,
            GizmoCommand::Grid2d { .. } => 12,
            GizmoCommand::Grid3d { .. } => 13,
            GizmoCommand::Line { .. } => 14,
            GizmoCommand::Line2d { .. } => 15,
            GizmoCommand::LineGradient { .. } => 16,
            GizmoCommand::LineGradient2d { .. } => 17,
            GizmoCommand::Linestrip { .. } => 18,
            GizmoCommand::Linestrip2d { .. } => 19,
            GizmoCommand::LinestripGradient { .. } => 20,
            GizmoCommand::LinestripGradient2d { .. } => 21,
            GizmoCommand::LongArc3dBetween { .. } => 22,
            GizmoCommand::Ray { .. } => 23,
            GizmoCommand::Ray2d { .. } => 24,
            GizmoCommand::RayGradient { .. } => 25,
            GizmoCommand::RayGradient2d { .. } => 26,
            GizmoCommand::Rect { .. } => 27,
            GizmoCommand::Rect2d { .. } => 28,
            GizmoCommand::RoundedCuboid { .. } => 29,
            GizmoCommand::RoundedRect { .. } => 30,
            GizmoCommand::RoundedRect2d { .. } => 31,
            GizmoCommand::ShortArc3dBetween { .. } => 32,
            GizmoCommand::Sphere { .. } => 33,
        }
    }

    /// Every number of the command is a number text.
    pub open spec fn wf(&self) -> bool {
        match self {
            GizmoCommand::Arc2d { isometry, arc_angle, radius, color } => isometry.wf() && arc_angle.wf() && radius.wf() && color.wf(),
            GizmoCommand::Arc3d { angle, radius, isometry, color } => angle.wf() && radius.wf() && isometry.wf() && color.wf(),
            GizmoCommand::Arrow { start, end, color } => start.wf() && end.wf() && color.wf(),
            GizmoCommand::Arrow2d { start, end, color } => start.wf() && end.wf() && color.wf(),
            GizmoCommand::Axes { transform, base_length } => transform.wf() && base_length.wf(),
            GizmoCommand::Axes2d { transform, base_length } => transform.wf() && base_length.wf(),
            GizmoCommand::Circle { isometry, radius, color } => isometry.wf() && radius.wf() && color.wf(),
            GizmoCommand::Circle2d { position, radius, color } => position.wf() && radius.wf() && color.wf(),
            GizmoCommand::Cuboid { transform, color } => transform.wf() && color.wf(),
            GizmoCommand::Ellipse { isometry, half_size, color } => isometry.wf() && half_size.wf() && color.wf(),
            GizmoCommand::Ellipse2d { isometry, half_size, color } => isometry.wf() && half_size.wf() && color.wf(),
            GizmoCommand::Grid { isometry, cell_count, spacing, color } => isometry.wf() && cell_count.wf() && spacing.wf() && color.wf(),
            GizmoCommand::Grid2d { isometry, cell_count, spacing, color } => isometry.wf() && cell_count.wf() && spacing.wf() && color.wf(),
            GizmoCommand::Grid3d { isometry, cell_count, spacing, color } => isometry.wf() && cell_count.wf() && spacing.wf() && color.wf(),
            GizmoCommand::Line { start, end, color } => start.wf() && end.wf() && color.wf(),
            GizmoCommand::Line2d { start, end, color } => start.wf() && end.wf() && color.wf(),
            GizmoCommand::LineGradient { start, end, start_color, end_color } => start.wf() && end.wf() && start_color.wf() && end_color.wf(),
            GizmoCommand::LineGradient2d { start, end, start_color, end_color } => start.wf() && end.wf() && start_color.wf() && end_color.wf(),
            GizmoCommand::Linestrip { positions, color } => points3_wf(positions@) && color.wf(),
            GizmoCommand::Linestrip2d { positions, color } => points2_wf(positions@) && color.wf(),
            GizmoCommand::LinestripGradient { points } => colored3_wf(points@),
            GizmoCommand::LinestripGradient2d { positions } => colored2_wf(positions@),
            GizmoCommand::LongArc3dBetween { center, from, to, color } => center.wf() && from.wf() && to.wf() && color.wf(),
            GizmoCommand::Ray { start, vector, color } => start.wf() && vector.wf() && color.wf(),
            GizmoCommand::Ray2d { start, vector, color } => start.wf() && vector.wf() && color.wf(),
            GizmoCommand::RayGradient { start, vector, start_color, end_color } => start.wf() && vector.wf() && start_color.wf() && end_color.wf(),
            GizmoCommand::RayGradient2d { start, vector, start_color, end_color } => start.wf() && vector.wf() && start_color.wf() && end_color.wf(),
            GizmoCommand::Rect { isometry, size, color } => isometry.wf() && size.wf() && color.wf(),
            GizmoCommand::Rect2d { isometry, size, color } => isometry.wf() && size.wf() && color.wf(),
            GizmoCommand::RoundedCuboid { isometry, size, color } => isometry.wf() && size.wf() && color.wf(),
            GizmoCommand::RoundedRect { isometry, size, color } => isometry.wf() && size.wf() && color.wf(),
            GizmoCommand::RoundedRect2d { isometry, size, color } => isometry.wf() && size.wf() && color.wf(),
            GizmoCommand::ShortArc3dBetween { center, from, to, color } => center.wf() && from.wf() && to.wf() && color.wf(),
            GizmoCommand::Sphere { isometry, radius, color } => isometry.wf() && radius.wf() && color.wf(),
        }
    }

    /// The text of the command: its variant's name, then each field as `name:value`
    /// in declaration order, separated by commas and enclosed in parentheses.
    pub open spec fn enc(&self) -> Seq<char> {
        match self {
            GizmoCommand::Arc2d { isometry, arc_angle, radius, color } => "Arc2d"@ + one('(') + "isometry:"@ + isometry.enc() + one(',') + "arc_angle:"@ + arc_angle@ + one(',') + "radius:"@ + radius@ + one(',') + "color:"@ + color.enc() + one(')'),
            GizmoCommand::Arc3d { angle, radius, isometry, color } => "Arc3d"@ + one('(') + "angle:"@ + angle@ + one(',') + "radius:"@ + radius@ + one(',') + "isometry:"@ + isometry.enc() + one(',') + "color:"@ + color.enc() + one(')'),
            GizmoCommand::Arrow { start, end, color } => "Arrow"@ + one('(') + "start:"@ + start.enc() + one(',') + "end:"@ + end.enc() + one(',') + "color:"@ + color.enc() + one(')'),
            GizmoCommand::Arrow2d { start, end, color } => "Arrow2d"@ + one('(') + "start:"@ + start.enc() + one(',') + "end:"@ + end.enc() + one(',') + "color:"@ + color.enc() + one(')'),
            GizmoCommand::Axes { transform, base_length } => "Axes"@ + one('(') + "transform:"@ + transform.enc() + one(',') + "base_length:"@ + base_length@ + one(')'),
            GizmoCommand::Axes2d { transform, base_length } => "Axes2d"@ + one('(') + "transform:"@ + transform.enc() + one(',') + "base_length:"@ + base_length@ + one(')'),
            GizmoCommand::Circle { isometry, radius, color } => "Circle"@ + one('(') + "isometry:"@ + isometry.enc() + one(',') + "radius:"@ + radius@ + one(',') + "color:"@ + color.enc() + one(')'),
            GizmoCommand::Circle2d { position, radius, color } => "Circle2d"@ + one('(') + "position:"@ + position.enc() + one(',') + "radius:"@ + radius@ + one(',') + "color:"@ + color.enc() + one(')'),
            GizmoCommand::Cuboid { transform, color } => "Cuboid"@ + one('(') + "transform:"@ + transform.enc() + one(',') + "color:"@ + color.enc() + one(')'),
            GizmoCommand::Ellipse { isometry, half_size, color } => "Ellipse"@ + one('(') + "isometry:"@ + isometry.enc() + one(',') + "half_size:"@ + half_size.enc() + one(',') + "color:"@ + color.enc() + one(')'),
            GizmoCommand::Ellipse2d { isometry, half_size, color } => "Ellipse2d"@ + one('(') + "isometry:"@ + isometry.enc() + one(',') + "half_size:"@ + half_size.enc() + one(',') + "color:"@ + color.enc() + one(')'),
            GizmoCommand::Grid { isometry, cell_count, spacing, color } => "Grid"@ + one('(') + "isometry:"@ + isometry.enc() + one(',') + "cell_count:"@ + cell_count.enc() + one(',') + "spacing:"@ + spacing.enc() + one(',') + "color:"@ + color.enc() + one(')'),
            GizmoCommand::Grid2d { isometry, cell_count, spacing, color } => "Grid2d"@ + one('(') + "isometry:"@ + isometry.enc() + one(',') + "cell_count:"@ + cell_count.enc() + one(',') + "spacing:"@ + spacing.enc() + one(',') + "color:"@ + color.enc() + one(')'),
            GizmoCommand::Grid3d { isometry, cell_count, spacing, color } => "Grid3d"@ + one('(') + "isometry:"@ + isometry.enc() + one(',') + "cell_count:"@ + cell_count.enc() + one(',') + "spacing:"@ + spacing.enc() + one(',') + "color:"@ + color.enc() + one(')'),
            GizmoCommand::Line { start, end, color } => "Line"@ + one('(') + "start:"@ + start.enc() + one(',') + "end:"@ + end.enc() + one(',') + "color:"@ + color.enc() + one(')'),
            GizmoCommand::Line2d { start, end, color } => "Line2d"@ + one('(') + "start:"@ + start.enc() + one(',') + "end:"@ + end.enc() + one(',') + "color:"@ + color.enc() + one(')'),
            GizmoCommand::LineGradient { start, end, start_color, end_color } => "LineGradient"@ + one('(') + "start:"@ + start.enc() + one(',') + "end:"@ + end.enc() + one(',') + "start_color:"@ + start_color.enc() + one(',') + "end_color:"@ + end_color.enc() + one(')'),
            GizmoCommand::LineGradient2d { start, end, start_color, end_color } => "LineGradient2d"@ + one('(') + "start:"@ + start.enc() + one(',') + "end:"@ + end.enc() + one(',') + "start_color:"@ + start_color.enc() + one(',') + "end_color:"@ + end_color.enc() + one(')'),
            GizmoCommand::Linestrip { positions, color } => "Linestrip"@ + one('(') + "positions:"@ + points3_enc(positions@) + one(',') + "color:"@ + color.enc() + one(')'),
            GizmoCommand::Linestrip2d { positions, color } => "Linestrip2d"@ + one('(') + "positions:"@ + points2_enc(positions@) + one(',') + "color:"@ + color.enc() + one(')'),
            GizmoCommand::LinestripGradient { points } => "LinestripGradient"@ + one('(') + "points:"@ + colored3_enc(points@) + one(')'),
            GizmoCommand::LinestripGradient2d { positions } => "LinestripGradient2d"@ + one('(') + "positions:"@ + colored2_enc(positions@) + one(')'),
            GizmoCommand::LongArc3dBetween { center, from, to, color } => "LongArc3dBetween"@ + one('(') + "center:"@ + center.enc() + one(',') + "from:"@ + from.enc() + one(',') + "to:"@ + to.enc() + one(',') + "color:"@ + color.enc() + one(')'),
            GizmoCommand::Ray { start, vector, color } => "Ray"@ + one('(') + "start:"@ + start.enc() + one(',') + "vector:"@ + vector.enc() + one(',') + "color:"@ + color.enc() + one(')'),
            GizmoCommand::Ray2d { start, vector, color } => "Ray2d"@ + one('(') + "start:"@ + start.enc() + one(',') + "vector:"@ + vector.enc() + one(',') + "color:"@ + color.enc() + one(')'),
            GizmoCommand::RayGradient { start, vector, start_color, end_color } => "RayGradient"@ + one('(') + "start:"@ + start.enc() + one(',') + "vector:"@ + vector.enc() + one(',') + "start_color:"@ + start_color.enc() + one(',') + "end_color:"@ + end_color.enc() + one(')'),
            GizmoCommand::RayGradient2d { start, vector, start_color, end_color } => "RayGradient2d"@ + one('(') + "start:"@ + start.enc() + one(',') + "vector:"@ + vector.enc() + one(',') + "start_color:"@ + start_color.enc() + one(',') + "end_color:"@ + end_color.enc() + one(')'),
            GizmoCommand::Rect { isometry, size, color } => "Rect"@ + one('(') + "isometry:"@ + isometry.enc() + one(',') + "size:"@ + size.enc() + one(',') + "color:"@ + color.enc() + one(')'),
            GizmoCommand::Rect2d { isometry, size, color } => "Rect2d"@ + one('(') + "isometry:"@ + isometry.enc() + one(',') + "size:"@ + size.enc() + one(',') + "color:"@ + color.enc() + one(')'),
            GizmoCommand::RoundedCuboid { isometry, size, color } => "RoundedCuboid"@ + one('(') + "isometry:"@ + isometry.enc() + one(',') + "size:"@ + size.enc() + one(',') + "color:"@ + color.enc() + one(')'),
            GizmoCommand::RoundedRect { isometry, size, color } => "RoundedRect"@ + one('(') + "isometry:"@ + isometry.enc() + one(',') + "size:"@ + size.enc() + one(',') + "color:"@ + color.enc() + one(')'),
            GizmoCommand::RoundedRect2d { isometry, size, color } => "RoundedRect2d"@ + one('(') + "isometry:"@ + isometry.enc() + one(',') + "size:"@ + size.enc() + one(',') + "color:"@ + color.enc() + one(')'),
            GizmoCommand::ShortArc3dBetween { center, from, to, color } => "ShortArc3dBetween"@ + one('(') + "center:"@ + center.enc() + one(',') + "from:"@ + from.enc() + one(',') + "to:"@ + to.enc() + one(',') + "color:"@ + color.enc() + one(')'),
            GizmoCommand::Sphere { isometry, radius, color } => "Sphere"@ + one('(') + "isometry:"@ + isometry.enc() + one(',') + "radius:"@ + radius@ + one(',') + "color:"@ + color.enc() + one(')'),
        }
    }

    /// Appends the text of the command.
    pub(crate) fn write(&self, out: &mut Vec<char>)
        ensures
            final(out)@ == old(out)@ + self.enc(),
    {
        match self {
            GizmoCommand::Arc2d { .. } => write_arc_2d(self, out),
            GizmoCommand::Arc3d { .. } => write_arc_3d(self, out),
            GizmoCommand::Arrow { .. } => write_arrow(self, out),
            GizmoCommand::Arrow2d { .. } => write_arrow_2d(self, out),
            GizmoCommand::Axes { .. } => write_axes(self, out),
            GizmoCommand::Axes2d { .. } => write_axes_2d(self, out),
            GizmoCommand::Circle { .. } => write_circle(self, out),
            GizmoCommand::Circle2d { .. } => write_circle_2d(self, out),
            GizmoCommand::Cuboid { .. } => write_cuboid(self, out),
            GizmoCommand::Ellipse { .. } => write_ellipse(self, out),
            GizmoCommand::Ellipse2d { .. } => write_ellipse_2d(self, out),
            GizmoCommand::Grid { .. } => write_grid(self, out),
            GizmoCommand::Grid2d { .. } => write_grid_2d(self, out),
            GizmoCommand::Grid3d { .. } => write_grid_3d(self, out),
            GizmoCommand::Line { .. } => write_line(self, out),
            GizmoCommand::Line2d { .. } => write_line_2d(self, out),
            GizmoCommand::LineGradient { .. } => write_line_gradient(self, out),
            GizmoCommand::LineGradient2d { .. } => write_line_gradient_2d(self, out),
            GizmoCommand::Linestrip { .. } => write_linestrip(self, out),
            GizmoCommand::Linestrip2d { .. } => write_linestrip_2d(self, out),
            GizmoCommand::LinestripGradient { .. } => write_linestrip_gradient(self, out),
            GizmoCommand::LinestripGradient2d { .. } => write_linestrip_gradient_2d(self, out),
            GizmoCommand::LongArc3dBetween { .. } => write_long_arc_3d_between(self, out),
            GizmoCommand::Ray { .. } => write_ray(self, out),
            GizmoCommand::Ray2d { .. } => write_ray_2d(self, out),
            GizmoCommand::RayGradient { .. } => write_ray_gradient(self, out),
            GizmoCommand::RayGradient2d { .. } => write_ray_gradient_2d(self, out),
            GizmoCommand::Rect { .. } => write_rect(self, out),
            GizmoCommand::Rect2d { .. } => write_rect_2d(self, out),
            GizmoCommand::RoundedCuboid { .. } => write_rounded_cuboid(self, out),
            GizmoCommand::RoundedRect { .. } => write_rounded_rect(self, out),
            GizmoCommand::RoundedRect2d { .. } => write_rounded_rect_2d(self, out),
            GizmoCommand::ShortArc3dBetween { .. } => write_short_arc_3d_between(self, out),
            GizmoCommand::Sphere { .. } => write_sphere(self, out),
        }
    }

    /// The text of the command.
    pub fn to_text(&self) -> (r: String)
        ensures
            r@ == self.enc(),
    {
        let mut out: Vec<char> = Vec::new();
        self.write(&mut out);
        string_of(&out)
    }

    /// Hands the command to the matching operation of `surface`, with the
    /// command's fields as they are: the surface draws exactly this command,
    /// once.
    pub fn draw<S: GizmoSurface>(self, surface: &mut S)
        ensures
            final(surface).drawn() == old(surface).drawn().push(self),
    {
        match self {
            GizmoCommand::Arc2d { isometry, arc_angle, radius, color } => surface.arc_2d(isometry, arc_angle, radius, color),
            GizmoCommand::Arc3d { angle, radius, isometry, color } => surface.arc_3d(angle, radius, isometry, color),
            GizmoCommand::Arrow { start, end, color } => surface.arrow(start, end, color),
            GizmoCommand::Arrow2d { start, end, color } => surface.arrow_2d(start, end, color),
            GizmoCommand::Axes { transform, base_length } => surface.axes(transform, base_length),
            GizmoCommand::Axes2d { transform, base_length } => surface.axes_2d(transform, base_length),
            GizmoCommand::Circle { isometry, radius, color } => surface.circle(isometry, radius, color),
            GizmoCommand::Circle2d { position, radius, color } => surface.circle_2d(position, radius, color),
            GizmoCommand::Cuboid { transform, color } => surface.cuboid(transform, color),
            GizmoCommand::Ellipse { isometry, half_size, color } => surface.ellipse(isometry, half_size, color),
            GizmoCommand::Ellipse2d { isometry, half_size, color } => surface.ellipse_2d(isometry, half_size, color),
            GizmoCommand::Grid { isometry, cell_count, spacing, color } => surface.grid(isometry, cell_count, spacing, color),
            GizmoCommand::Grid2d { isometry, cell_count, spacing, color } => surface.grid_2d(isometry, cell_count, spacing, color),
            GizmoCommand::Grid3d { isometry, cell_count, spacing, color } => surface.grid_3d(isometry, cell_count, spacing, color),
            GizmoCommand::Line { start, end, color } => surface.line(start, end, color),
            GizmoCommand::Line2d { start, end, color } => surface.line_2d(start, end, color),
            GizmoCommand::LineGradient { start, end, start_color, end_color } => surface.line_gradient(start, end, start_color, end_color),
            GizmoCommand::LineGradient2d { start, end, start_color, end_color } => surface.line_gradient_2d(start, end, start_color, end_color),
            GizmoCommand::Linestrip { positions, color } => surface.linestrip(positions, color),
            GizmoCommand::Linestrip2d { positions, color } => surface.linestrip_2d(positions, color),
            GizmoCommand::LinestripGradient { points } => surface.linestrip_gradient(points),
            GizmoCommand::LinestripGradient2d { positions } => surface.linestrip_gradient_2d(positions),
            GizmoCommand::LongArc3dBetween { center, from, to, color } => surface.long_arc_3d_between(center, from, to, color),
            GizmoCommand::Ray { start, vector, color } => surface.ray(start, vector, color),
            GizmoCommand::Ray2d { start, vector, color } => surface.ray_2d(start, vector, color),
            GizmoCommand::RayGradient { start, vector, start_color, end_color } => surface.ray_gradient(start, vector, start_color, end_color),
            GizmoCommand::RayGradient2d { start, vector, start_color, end_color } => surface.ray_gradient_2d(start, vector, start_color, end_color),
            GizmoCommand::Rect { isometry, size, color } => surface.rect(isometry, size, color),
            GizmoCommand::Rect2d { isometry, size, color } => surface.rect_2d(isometry, size, color),
            GizmoCommand::RoundedCuboid { isometry, size, color } => surface.rounded_cuboid(isometry, size, color),
            GizmoCommand::RoundedRect { isometry, size, color } => surface.rounded_rect(isometry, size, color),
            GizmoCommand::RoundedRect2d { isometry, size, color } => surface.rounded_rect_2d(isometry, size, color),
            GizmoCommand::ShortArc3dBetween { center, from, to, color } => surface.short_arc_3d_between(center, from, to, color),
            GizmoCommand::Sphere { isometry, radius, color } => surface.sphere(isometry, radius, color),
        }
    }
}

fn write_arc_2d(c: &GizmoCommand, out: &mut Vec<char>)
    requires
        c is Arc2d,
    ensures
        final(out)@ == old(out)@ + c.enc(),
{
    match c {
        GizmoCommand::Arc2d { isometry, arc_angle, radius, color } => {
            push_str(out, "Arc2d");
            out.push('(');
            push_str(out, "isometry:");
            isometry.write(out);
            out.push(',');
            push_str(out, "arc_angle:");
            arc_angle.write(out);
            out.push(',');
            push_str(out, "radius:");
            radius.write(out);
            out.push(',');
            push_str(out, "color:");
            color.write(out);
            out.push(')');
            proof {
                assert(final(out)@ =~= old(out)@ + c.enc());
            }
        },
        _ => {},
    }
}

fn write_arc_3d(c: &GizmoCommand, out: &mut Vec<char>)
    requires
        c is Arc3d,
    ensures
        final(out)@ == old(out)@ + c.enc(),
{
    match c {
        GizmoCommand::Arc3d { angle, radius, isometry, color } => {
            push_str(out, "Arc3d");
            out.push('(');
            push_str(out, "angle:");
            angle.write(out);
            out.push(',');
            push_str(out, "radius:");
            radius.write(out);
            out.push(',');
            push_str(out, "isometry:");
            isometry.write(out);
            out.push(',');
            push_str(out, "color:");
            color.write(out);
            out.push(')');
            proof {
                assert(final(out)@ =~= old(out)@ + c.enc());
            }
        },
        _ => {},
    }
}

fn write_arrow(c: &GizmoCommand, out: &mut Vec<char>)
    requires
        c is Arrow,
    ensures
        final(out)@ == old(out)@ + c.enc(),
{
    match c {
        GizmoCommand::Arrow { start, end, color } => {
            push_str(out, "Arrow");
            out.push('(');
            push_str(out, "start:");
            start.write(out);
            out.push(',');
            push_str(out, "end:");
            end.write(out);
            out.push(',');
            push_str(out, "color:");
            color.write(out);
            out.push(')');
            proof {
                assert(final(out)@ =~= old(out)@ + c.enc());
            }
        },
        _ => {},
    }
}

fn write_arrow_2d(c: &GizmoCommand, out: &mut Vec<char>)
    requires
        c is Arrow2d,
    ensures
        final(out)@ == old(out)@ + c.enc(),
{
    match c {
        GizmoCommand::Arrow2d { start, end, color } => {
            push_str(out, "Arrow2d");
            out.push('(');
            push_str(out, "start:");
            start.write(out);
            out.push(',');
            push_str(out, "end:");
            end.write(out);
            out.push(',');
            push_str(out, "color:");
            color.write(out);
            out.push(')');
            proof {
                assert(final(out)@ =~= old(out)@ + c.enc());
            }
        },
        _ => {},
    }
}

fn write_axes(c: &GizmoCommand, out: &mut Vec<char>)
    requires
        c is Axes,
    ensures
        final(out)@ == old(out)@ + c.enc(),
{
    match c {
        GizmoCommand::Axes { transform, base_length } => {
            push_str(out, "Axes");
            out.push('(');
            push_str(out, "transform:");
            transform.write(out);
            out.push(',');
            push_str(out, "base_length:");
            base_length.write(out);
            out.push(')');
            proof {
                assert(final(out)@ =~= old(out)@ + c.enc());
            }
        },
        _ => {},
    }
}

fn write_axes_2d(c: &GizmoCommand, out: &mut Vec<char>)
    requires
        c is Axes2d,
    ensures
        final(out)@ == old(out)@ + c.enc(),
{
    match c {
        GizmoCommand::Axes2d { transform, base_length } => {
            push_str(out, "Axes2d");
            out.push('(');
            push_str(out, "transform:");
            transform.write(out);
            out.push(',');
            push_str(out, "base_length:");
            base_length.write(out);
            out.push(')');
            proof {
                assert(final(out)@ =~= old(out)@ + c.enc());
            }
        },
        _ => {},
    }
}

fn write_circle(c: &GizmoCommand, out: &mut Vec<char>)
    requires
        c is Circle,
    ensures
        final(out)@ == old(out)@ + c.enc(),
{
    match c {
        GizmoCommand::Circle { isometry, radius, color } => {
            push_str(out, "Circle");
            out.push('(');
            push_str(out, "isometry:");
            isometry.write(out);
            out.push(',');
            push_str(out, "radius:");
            radius.write(out);
            out.push(',');
            push_str(out, "color:");
            color.write(out);
            out.push(')');
            proof {
                assert(final(out)@ =~= old(out)@ + c.enc());
            }
        },
        _ => {},
    }
}

fn write_circle_2d(c: &GizmoCommand, out: &mut Vec<char>)
    requires
        c is Circle2d,
    ensures
        final(out)@ == old(out)@ + c.enc(),
{
    match c {
        GizmoCommand::Circle2d { position, radius, color } => {
            push_str(out, "Circle2d");
            out.push('(');
            push_str(out, "position:");
            position.write(out);
            out.push(',');
            push_str(out, "radius:");
            radius.write(out);
            out.push(',');
            push_str(out, "color:");
            color.write(out);
            out.push(')');
            proof {
                assert(final(out)@ =~= old(out)@ + c.enc());
            }
        },
        _ => {},
    }
}

fn write_cuboid(c: &GizmoCommand, out: &mut Vec<char>)
    requires
        c is Cuboid,
    ensures
        final(out)@ == old(out)@ + c.enc(),
{
    match c {
        GizmoCommand::Cuboid { transform, color } => {
            push_str(out, "Cuboid");
            out.push('(');
            push_str(out, "transform:");
            transform.write(out);
            out.push(',');
            push_str(out, "color:");
            color.write(out);
            out.push(')');
            proof {
                assert(final(out)@ =~= old(out)@ + c.enc());
            }
        },
        _ => {},
    }
}

fn write_ellipse(c: &GizmoCommand, out: &mut Vec<char>)
    requires
        c is Ellipse,
    ensures
        final(out)@ == old(out)@ + c.enc(),
{
    match c {
        GizmoCommand::Ellipse { isometry, half_size, color } => {
            push_str(out, "Ellipse");
            out.push('(');
            push_str(out, "isometry:");
            isometry.write(out);
            out.push(',');
            push_str(out, "half_size:");
            half_size.write(out);
            out.push(',');
            push_str(out, "color:");
            color.write(out);
            out.push(')');
            proof {
                assert(final(out)@ =~= old(out)@ + c.enc());
            }
        },
        _ => {},
    }
}

fn write_ellipse_2d(c: &GizmoCommand, out: &mut Vec<char>)
    requires
        c is Ellipse2d,
    ensures
        final(out)@ == old(out)@ + c.enc(),
{
    match c {
        GizmoCommand::Ellipse2d { isometry, half_size, color } => {
            push_str(out, "Ellipse2d");
            out.push('(');
            push_str(out, "isometry:");
            isometry.write(out);
            out.push(',');
            push_str(out, "half_size:");
            half_size.write(out);
            out.push(',');
            push_str(out, "color:");
            color.write(out);
            out.push(')');
            proof {
                assert(final(out)@ =~= old(out)@ + c.enc());
            }
        },
        _ => {},
    }
}

fn write_grid(c: &GizmoCommand, out: &mut Vec<char>)
    requires
        c is Grid,
    ensures
        final(out)@ == old(out)@ + c.enc(),
{
    match c {
        GizmoCommand::Grid { isometry, cell_count, spacing, color } => {
            push_str(out, "Grid");
            out.push('(');
            push_str(out, "isometry:");
            isometry.write(out);
            out.push(',');
            push_str(out, "cell_count:");
            cell_count.write(out);
            out.push(',');
            push_str(out, "spacing:");
            spacing.write(out);
            out.push(',');
            push_str(out, "color:");
            color.write(out);
            out.push(')');
            proof {
                assert(final(out)@ =~= old(out)@ + c.enc());
            }
        },
        _ => {},
    }
}

fn write_grid_2d(c: &GizmoCommand, out: &mut Vec<char>)
    requires
        c is Grid2d,
    ensures
        final(out)@ == old(out)@ + c.enc(),
{
    match c {
        GizmoCommand::Grid2d { isometry, cell_count, spacing, color } => {
            push_str(out, "Grid2d");
            out.push('(');
            push_str(out, "isometry:");
            isometry.write(out);
            out.push(',');
            push_str(out, "cell_count:");
            cell_count.write(out);
            out.push(',');
            push_str(out, "spacing:");
            spacing.write(out);
            out.push(',');
            push_str(out, "color:");
            color.write(out);
            out.push(')');
            proof {
                assert(final(out)@ =~= old(out)@ + c.enc());
            }
        },
        _ => {},
    }
}

fn write_grid_3d(c: &GizmoCommand, out: &mut Vec<char>)
    requires
        c is Grid3d,
    ensures
        final(out)@ == old(out)@ + c.enc(),
{
    match c {
        GizmoCommand::Grid3d { isometry, cell_count, spacing, color } => {
            push_str(out, "Grid3d");
            out.push('(');
            push_str(out, "isometry:");
            isometry.write(out);
            out.push(',');
            push_str(out, "cell_count:");
            cell_count.write(out);
            out.push(',');
            push_str(out, "spacing:");
            spacing.write(out);
            out.push(',');
            push_str(out, "color:");
            color.write(out);
            out.push(')');
            proof {
                assert(final(out)@ =~= old(out)@ + c.enc());
            }
        },
        _ => {},
    }
}

fn write_line(c: &GizmoCommand, out: &mut Vec<char>)
    requires
        c is Line,
    ensures
        final(out)@ == old(out)@ + c.enc(),
{
    match c {
        GizmoCommand::Line { start, end, color } => {
            push_str(out, "Line");
            out.push('(');
            push_str(out, "start:");
            start.write(out);
            out.push(',');
            push_str(out, "end:");
            end.write(out);
            out.push(',');
            push_str(out, "color:");
            color.write(out);
            out.push(')');
            proof {
                assert(final(out)@ =~= old(out)@ + c.enc());
            }
        },
        _ => {},
    }
}

fn write_line_2d(c: &GizmoCommand, out: &mut Vec<char>)
    requires
        c is Line2d,
    ensures
        final(out)@ == old(out)@ + c.enc(),
{
    match c {
        GizmoCommand::Line2d { start, end, color } => {
            push_str(out, "Line2d");
            out.push('(');
            push_str(out, "start:");
            start.write(out);
            out.push(',');
            push_str(out, "end:");
            end.write(out);
            out.push(',');
            push_str(out, "color:");
            color.write(out);
            out.push(')');
            proof {
                assert(final(out)@ =~= old(out)@ + c.enc());
            }
        },
        _ => {},
    }
}

fn write_line_gradient(c: &GizmoCommand, out: &mut Vec<char>)
    requires
        c is LineGradient,
    ensures
        final(out)@ == old(out)@ + c.enc(),
{
    match c {
        GizmoCommand::LineGradient { start, end, start_color, end_color } => {
            push_str(out, "LineGradient");
            out.push('(');
            push_str(out, "start:");
            start.write(out);
            out.push(',');
            push_str(out, "end:");
            end.write(out);
            out.push(',');
            push_str(out, "start_color:");
            start_color.write(out);
            out.push(',');
            push_str(out, "end_color:");
            end_color.write(out);
            out.push(')');
            proof {
                assert(final(out)@ =~= old(out)@ + c.enc());
            }
        },
        _ => {},
    }
}

fn write_line_gradient_2d(c: &GizmoCommand, out: &mut Vec<char>)
    requires
        c is LineGradient2d,
    ensures
        final(out)@ == old(out)@ + c.enc(),
{
    match c {
        GizmoCommand::LineGradient2d { start, end, start_color, end_color } => {
            push_str(out, "LineGradient2d");
            out.push('(');
            push_str(out, "start:");
            start.write(out);
            out.push(',');
            push_str(out, "end:");
            end.write(out);
            out.push(',');
            push_str(out, "start_color:");
            start_color.write(out);
            out.push(',');
            push_str(out, "end_color:");
            end_color.write(out);
            out.push(')');
            proof {
                assert(final(out)@ =~= old(out)@ + c.enc());
            }
        },
        _ => {},
    }
}

fn write_linestrip(c: &GizmoCommand, out: &mut Vec<char>)
    requires
        c is Linestrip,
    ensures
        final(out)@ == old(out)@ + c.enc(),
{
    match c {
        GizmoCommand::Linestrip { positions, color } => {
            push_str(out, "Linestrip");
            out.push('(');
            push_str(out, "positions:");
            write_points3(positions, out);
            out.push(',');
            push_str(out, "color:");
            color.write(out);
            out.push(')');
            proof {
                assert(final(out)@ =~= old(out)@ + c.enc());
            }
        },
        _ => {},
    }
}

fn write_linestrip_2d(c: &GizmoCommand, out: &mut Vec<char>)
    requires
        c is Linestrip2d,
    ensures
        final(out)@ == old(out)@ + c.enc(),
{
    match c {
        GizmoCommand::Linestrip2d { positions, color } => {
            push_str(out, "Linestrip2d");
            out.push('(');
            push_str(out, "positions:");
            write_points2(positions, out);
            out.push(',');
            push_str(out, "color:");
            color.write(out);
            out.push(')');
            proof {
                assert(final(out)@ =~= old(out)@ + c.enc());
            }
        },
        _ => {},
    }
}

fn write_linestrip_gradient(c: &GizmoCommand, out: &mut Vec<char>)
    requires
        c is LinestripGradient,
    ensures
        final(out)@ == old(out)@ + c.enc(),
{
    match c {
        GizmoCommand::LinestripGradient { points } => {
            push_str(out, "LinestripGradient");
            out.push('(');
            push_str(out, "points:");
            write_colored3(points, out);
            out.push(')');
            proof {
                assert(final(out)@ =~= old(out)@ + c.enc());
            }
        },
        _ => {},
    }
}

fn write_linestrip_gradient_2d(c: &GizmoCommand, out: &mut Vec<char>)
    requires
        c is LinestripGradient2d,
    ensures
        final(out)@ == old(out)@ + c.enc(),
{
    match c {
        GizmoCommand::LinestripGradient2d { positions } => {
            push_str(out, "LinestripGradient2d");
            out.push('(');
            push_str(out, "positions:");
            write_colored2(positions, out);
            out.push(')');
            proof {
                assert(final(out)@ =~= old(out)@ + c.enc());
            }
        },
        _ => {},
    }
}

fn write_long_arc_3d_between(c: &GizmoCommand, out: &mut Vec<char>)
    requires
        c is LongArc3dBetween,
    ensures
        final(out)@ == old(out)@ + c.enc(),
{
    match c {
        GizmoCommand::LongArc3dBetween { center, from, to, color } => {
            push_str(out, "LongArc3dBetween");
            out.push('(');
            push_str(out, "center:");
            center.write(out);
            out.push(',');
            push_str(out, "from:");
            from.write(out);
            out.push(',');
            push_str(out, "to:");
            to.write(out);
            out.push(',');
            push_str(out, "color:");
            color.write(out);
            out.push(')');
            proof {
                assert(final(out)@ =~= old(out)@ + c.enc());
            }
        },
        _ => {},
    }
}

fn write_ray(c: &GizmoCommand, out: &mut Vec<char>)
    requires
        c is Ray,
    ensures
        final(out)@ == old(out)@ + c.enc(),
{
    match c {
        GizmoCommand::Ray { start, vector, color } => {
            push_str(out, "Ray");
            out.push('(');
            push_str(out, "start:");
            start.write(out);
            out.push(',');
            push_str(out, "vector:");
            vector.write(out);
            out.push(',');
            push_str(out, "color:");
            color.write(out);
            out.push(')');
            proof {
                assert(final(out)@ =~= old(out)@ + c.enc());
            }
        },
        _ => {},
    }
}

fn write_ray_2d(c: &GizmoCommand, out: &mut Vec<char>)
    requires
        c is Ray2d,
    ensures
        final(out)@ == old(out)@ + c.enc(),
{
    match c {
        GizmoCommand::Ray2d { start, vector, color } => {
            push_str(out, "Ray2d");
            out.push('(');
            push_str(out, "start:");
            start.write(out);
            out.push(',');
            push_str(out, "vector:");
            vector.write(out);
            out.push(',');
            push_str(out, "color:");
            color.write(out);
            out.push(')');
            proof {
                assert(final(out)@ =~= old(out)@ + c.enc());
            }
        },
        _ => {},
    }
}

fn write_ray_gradient(c: &GizmoCommand, out: &mut Vec<char>)
    requires
        c is RayGradient,
    ensures
        final(out)@ == old(out)@ + c.enc(),
{
    match c {
        GizmoCommand::RayGradient { start, vector, start_color, end_color } => {
            push_str(out, "RayGradient");
            out.push('(');
            push_str(out, "start:");
            start.write(out);
            out.push(',');
            push_str(out, "vector:");
            vector.write(out);
            out.push(',');
            push_str(out, "start_color:");
            start_color.write(out);
            out.push(',');
            push_str(out, "end_color:");
            end_color.write(out);
            out.push(')');
            proof {
                assert(final(out)@ =~= old(out)@ + c.enc());
            }
        },
        _ => {},
    }
}

fn write_ray_gradient_2d(c: &GizmoCommand, out: &mut Vec<char>)
    requires
        c is RayGradient2d,
    ensures
        final(out)@ == old(out)@ + c.enc(),
{
    match c {
        GizmoCommand::RayGradient2d { start, vector, start_color, end_color } => {
            push_str(out, "RayGradient2d");
            out.push('(');
            push_str(out, "start:");
            start.write(out);
            out.push(',');
            push_str(out, "vector:");
            vector.write(out);
            out.push(',');
            push_str(out, "start_color:");
            start_color.write(out);
            out.push(',');
            push_str(out, "end_color:");
            end_color.write(out);
            out.push(')');
            proof {
                assert(final(out)@ =~= old(out)@ + c.enc());
            }
        },
        _ => {},
    }
}

fn write_rect(c: &GizmoCommand, out: &mut Vec<char>)
    requires
        c is Rect,
    ensures
        final(out)@ == old(out)@ + c.enc(),
{
    match c {
        GizmoCommand::Rect { isometry, size, color } => {
            push_str(out, "Rect");
            out.push('(');
            push_str(out, "isometry:");
            isometry.write(out);
            out.push(',');
            push_str(out, "size:");
            size.write(out);
            out.push(',');
            push_str(out, "color:");
            color.write(out);
            out.push(')');
            proof {
                assert(final(out)@ =~= old(out)@ + c.enc());
            }
        },
        _ => {},
    }
}

fn write_rect_2d(c: &GizmoCommand, out: &mut Vec<char>)
    requires
        c is Rect2d,
    ensures
        final(out)@ == old(out)@ + c.enc(),
{
    match c {
        GizmoCommand::Rect2d { isometry, size, color } => {
            push_str(out, "Rect2d");
            out.push('(');
            push_str(out, "isometry:");
            isometry.write(out);
            out.push(',');
            push_str(out, "size:");
            size.write(out);
            out.push(',');
            push_str(out, "color:");
            color.write(out);
            out.push(')');
            proof {
                assert(final(out)@ =~= old(out)@ + c.enc());
            }
        },
        _ => {},
    }
}

fn write_rounded_cuboid(c: &GizmoCommand, out: &mut Vec<char>)
    requires
        c is RoundedCuboid,
    ensures
        final(out)@ == old(out)@ + c.enc(),
{
    match c {
        GizmoCommand::RoundedCuboid { isometry, size, color } => {
            push_str(out, "RoundedCuboid");
            out.push('(');
            push_str(out, "isometry:");
            isometry.write(out);
            out.push(',');
            push_str(out, "size:");
            size.write(out);
            out.push(',');
            push_str(out, "color:");
            color.write(out);
            out.push(')');
            proof {
                assert(final(out)@ =~= old(out)@ + c.enc());
            }
        },
        _ => {},
    }
}

fn write_rounded_rect(c: &GizmoCommand, out: &mut Vec<char>)
    requires
        c is RoundedRect,
    ensures
        final(out)@ == old(out)@ + c.enc(),
{
    match c {
        GizmoCommand::RoundedRect { isometry, size, color } => {
            push_str(out, "RoundedRect");
            out.push('(');
            push_str(out, "isometry:");
            isometry.write(out);
            out.push(',');
            push_str(out, "size:");
            size.write(out);
            out.push(',');
            push_str(out, "color:");
            color.write(out);
            out.push(')');
            proof {
                assert(final(out)@ =~= old(out)@ + c.enc());
            }
        },
        _ => {},
    }
}

fn write_rounded_rect_2d(c: &GizmoCommand, out: &mut Vec<char>)
    requires
        c is RoundedRect2d,
    ensures
        final(out)@ == old(out)@ + c.enc(),
{
    match c {
        GizmoCommand::RoundedRect2d { isometry, size, color } => {
            push_str(out, "RoundedRect2d");
            out.push('(');
            push_str(out, "isometry:");
            isometry.write(out);
            out.push(',');
            push_str(out, "size:");
            size.write(out);
            out.push(',');
            push_str(out, "color:");
            color.write(out);
            out.push(')');
            proof {
                assert(final(out)@ =~= old(out)@ + c.enc());
            }
        },
        _ => {},
    }
}

fn write_short_arc_3d_between(c: &GizmoCommand, out: &mut Vec<char>)
    requires
        c is ShortArc3dBetween,
    ensures
        final(out)@ == old(out)@ + c.enc(),
{
    match c {
        GizmoCommand::ShortArc3dBetween { center, from, to, color } => {
            push_str(out, "ShortArc3dBetween");
            out.push('(');
            push_str(out, "center:");
            center.write(out);
            out.push(',');
            push_str(out, "from:");
            from.write(out);
            out.push(',');
            push_str(out, "to:");
            to.write(out);
            out.push(',');
            push_str(out, "color:");
            color.write(out);
            out.push(')');
            proof {
                assert(final(out)@ =~= old(out)@ + c.enc());
            }
        },
        _ => {},
    }
}

fn write_sphere(c: &GizmoCommand, out: &mut Vec<char>)
    requires
        c is Sphere,
    ensures
        final(out)@ == old(out)@ + c.enc(),
{
    match c {
        GizmoCommand::Sphere { isometry, radius, color } => {
            push_str(out, "Sphere");
            out.push('(');
            push_str(out, "isometry:");
            isometry.write(out);
            out.push(',');
            push_str(out, "radius:");
            radius.write(out);
            out.push(',');
            push_str(out, "color:");
            color.write(out);
            out.push(')');
            proof {
                assert(final(out)@ =~= old(out)@ + c.enc());
            }
        },
        _ => {},
    }
}

#[verifier::rlimit(30)]
fn parse_arc_2d(s: &Vec<char>) -> (r: Option<GizmoCommand>)
    ensures
        r matches Some(d) ==> d.wf(),
        forall|c: GizmoCommand|
            c is Arc2d && c.wf() && #[trigger] occurs_at(s@, 0, c.enc()) ==> (r matches Some(d)
                && d.enc() == c.enc() && d.same(&c)),
{
    let i: usize = 0;
    let i = expect(s, i, "Arc2d")?;
    let i = expect_char(s, i, '(')?;
    let i = expect(s, i, "isometry:")?;
    let (isometry, i) = parse_isometry2d(s, i)?;
    let i = expect_char(s, i, ',')?;
    let i = expect(s, i, "arc_angle:")?;
    let (arc_angle, i) = parse_scalar(s, i)?;
    let i = expect_char(s, i, ',')?;
    let i = expect(s, i, "radius:")?;
    let (radius, i) = parse_scalar(s, i)?;
    let i = expect_char(s, i, ',')?;
    let i = expect(s, i, "color:")?;
    let (color, i) = parse_color(s, i)?;
    let i = expect_char(s, i, ')')?;
    Some(GizmoCommand::Arc2d { isometry, arc_angle, radius, color })
}

#[verifier::rlimit(30)]
fn parse_arc_3d(s: &Vec<char>) -> (r: Option<GizmoCommand>)
    ensures
        r matches Some(d) ==> d.wf(),
        forall|c: GizmoCommand|
            c is Arc3d && c.wf() && #[trigger] occurs_at(s@, 0, c.enc()) ==> (r matches Some(d)
                && d.enc() == c.enc() && d.same(&c)),
{
    let i: usize = 0;
    let i = expect(s, i, "Arc3d")?;
    let i = expect_char(s, i, '(')?;
    let i = expect(s, i, "angle:")?;
    let (angle, i) = parse_scalar(s, i)?;
    let i = expect_char(s, i, ',')?;
    let i = expect(s, i, "radius:")?;
    let (radius, i) = parse_scalar(s, i)?;
    let i = expect_char(s, i, ',')?;
    let i = expect(s, i, "isometry:")?;
    let (isometry, i) = parse_isometry3d(s, i)?;
    let i = expect_char(s, i, ',')?;
    let i = expect(s, i, "color:")?;
    let (color, i) = parse_color(s, i)?;
    let i = expect_char(s, i, ')')?;
    Some(GizmoCommand::Arc3d { angle, radius, isometry, color })
}

#[verifier::rlimit(30)]
fn parse_arrow(s: &Vec<char>) -> (r: Option<GizmoCommand>)
    ensures
        r matches Some(d) ==> d.wf(),
        forall|c: GizmoCommand|
            c is Arrow && c.wf() && #[trigger] occurs_at(s@, 0, c.enc()) ==> (r matches Some(d)
                && d.enc() == c.enc() && d.same(&c)),
{
    let i: usize = 0;
    let i = expect(s, i, "Arrow")?;
    let i = expect_char(s, i, '(')?;
    let i = expect(s, i, "start:")?;
    let (start, i) = parse_vec3(s, i)?;
    let i = expect_char(s, i, ',')?;
    let i = expect(s, i, "end:")?;
    let (end, i) = parse_vec3(s, i)?;
    let i = expect_char(s, i, ',')?;
    let i = expect(s, i, "color:")?;
    let (color, i) = parse_color(s, i)?;
    let i = expect_char(s, i, ')')?;
    Some(GizmoCommand::Arrow { start, end, color })
}

#[verifier::rlimit(30)]
fn parse_arrow_2d(s: &Vec<char>) -> (r: Option<GizmoCommand>)
    ensures
        r matches Some(d) ==> d.wf(),
        forall|c: GizmoCommand|
            c is Arrow2d && c.wf() && #[trigger] occurs_at(s@, 0, c.enc()) ==> (r matches Some(d)
                && d.enc() == c.enc() && d.same(&c)),
{
    let i: usize = 0;
    let i = expect(s, i, "Arrow2d")?;
    let i = expect_char(s, i, '(')?;
    let i = expect(s, i, "start:")?;
    let (start, i) = parse_vec2(s, i)?;
    let i = expect_char(s, i, ',')?;
    let i = expect(s, i, "end:")?;
    let (end, i) = parse_vec2(s, i)?;
    let i = expect_char(s, i, ',')?;
    let i = expect(s, i, "color:")?;
    let (color, i) = parse_color(s, i)?;
    let i = expect_char(s, i, ')')?;
    Some(GizmoCommand::Arrow2d { start, end, color })
}

#[verifier::rlimit(30)]
fn parse_axes(s: &Vec<char>) -> (r: Option<GizmoCommand>)
    ensures
        r matches Some(d) ==> d.wf(),
        forall|c: GizmoCommand|
            c is Axes && c.wf() && #[trigger] occurs_at(s@, 0, c.enc()) ==> (r matches Some(d)
                && d.enc() == c.enc() && d.same(&c)),
{
    let i: usize = 0;
    let i = expect(s, i, "Axes")?;
    let i = expect_char(s, i, '(')?;
    let i = expect(s, i, "transform:")?;
    let (transform, i) = parse_mat4(s, i)?;
    let i = expect_char(s, i, ',')?;
    let i = expect(s, i, "base_length:")?;
    let (base_length, i) = parse_scalar(s, i)?;
    let i = expect_char(s, i, ')')?;
    Some(GizmoCommand::Axes { transform, base_length })
}

#[verifier::rlimit(30)]
fn parse_axes_2d(s: &Vec<char>) -> (r: Option<GizmoCommand>)
    ensures
        r matches Some(d) ==> d.wf(),
        forall|c: GizmoCommand|
            c is Axes2d && c.wf() && #[trigger] occurs_at(s@, 0, c.enc()) ==> (r matches Some(d)
                && d.enc() == c.enc() && d.same(&c)),
{
    let i: usize = 0;
    let i = expect(s, i, "Axes2d")?;
    let i = expect_char(s, i, '(')?;
    let i = expect(s, i, "transform:")?;
    let (transform, i) = parse_mat4(s, i)?;
    let i = expect_char(s, i, ',')?;
    let i = expect(s, i, "base_length:")?;
    let (base_length, i) = parse_scalar(s, i)?;
    let i = expect_char(s, i, ')')?;
    Some(GizmoCommand::Axes2d { transform, base_length })
}

#[verifier::rlimit(30)]
fn parse_circle(s: &Vec<char>) -> (r: Option<GizmoCommand>)
    ensures
        r matches Some(d) ==> d.wf(),
        forall|c: GizmoCommand|
            c is Circle && c.wf() && #[trigger] occurs_at(s@, 0, c.enc()) ==> (r matches Some(d)
                && d.enc() == c.enc() && d.same(&c)),
{
    let i: usize = 0;
    let i = expect(s, i, "Circle")?;
    let i = expect_char(s, i, '(')?;
    let i = expect(s, i, "isometry:")?;
    let (isometry, i) = parse_isometry3d(s, i)?;
    let i = expect_char(s, i, ',')?;
    let i = expect(s, i, "radius:")?;
    let (radius, i) = parse_scalar(s, i)?;
    let i = expect_char(s, i, ',')?;
    let i = expect(s, i, "color:")?;
    let (color, i) = parse_color(s, i)?;
    let i = expect_char(s, i, ')')?;
    Some(GizmoCommand::Circle { isometry, radius, color })
}

#[verifier::rlimit(30)]
fn parse_circle_2d(s: &Vec<char>) -> (r: Option<GizmoCommand>)
    ensures
        r matches Some(d) ==> d.wf(),
        forall|c: GizmoCommand|
            c is Circle2d && c.wf() && #[trigger] occurs_at(s@, 0, c.enc()) ==> (r matches Some(d)
                && d.enc() == c.enc() && d.same(&c)),
{
    let i: usize = 0;
    let i = expect(s, i, "Circle2d")?;
    let i = expect_char(s, i, '(')?;
    let i = expect(s, i, "position:")?;
    let (position, i) = parse_vec2(s, i)?;
    let i = expect_char(s, i, ',')?;
    let i = expect(s, i, "radius:")?;
    let (radius, i) = parse_scalar(s, i)?;
    let i = expect_char(s, i, ',')?;
    let i = expect(s, i, "color:")?;
    let (color, i) = parse_color(s, i)?;
    let i = expect_char(s, i, ')')?;
    Some(GizmoCommand::Circle2d { position, radius, color })
}

#[verifier::rlimit(30)]
fn parse_cuboid(s: &Vec<char>) -> (r: Option<GizmoCommand>)
    ensures
        r matches Some(d) ==> d.wf(),
        forall|c: GizmoCommand|
            c is Cuboid && c.wf() && #[trigger] occurs_at(s@, 0, c.enc()) ==> (r matches Some(d)
                && d.enc() == c.enc() && d.same(&c)),
{
    let i: usize = 0;
    let i = expect(s, i, "Cuboid")?;
    let i = expect_char(s, i, '(')?;
    let i = expect(s, i, "transform:")?;
    let (transform, i) = parse_mat4(s, i)?;
    let i = expect_char(s, i, ',')?;
    let i = expect(s, i, "color:")?;
    let (color, i) = parse_color(s, i)?;
    let i = expect_char(s, i, ')')?;
    Some(GizmoCommand::Cuboid { transform, color })
}

#[verifier::rlimit(30)]
fn parse_ellipse(s: &Vec<char>) -> (r: Option<GizmoCommand>)
    ensures
        r matches Some(d) ==> d.wf(),
        forall|c: GizmoCommand|
            c is Ellipse && c.wf() && #[trigger] occurs_at(s@, 0, c.enc()) ==> (r matches Some(d)
                && d.enc() == c.enc() && d.same(&c)),
{
    let i: usize = 0;
    let i = expect(s, i, "Ellipse")?;
    let i = expect_char(s, i, '(')?;
    let i = expect(s, i, "isometry:")?;
    let (isometry, i) = parse_isometry3d(s, i)?;
    let i = expect_char(s, i, ',')?;
    let i = expect(s, i, "half_size:")?;
    let (half_size, i) = parse_vec2(s, i)?;
    let i = expect_char(s, i, ',')?;
    let i = expect(s, i, "color:")?;
    let (color, i) = parse_color(s, i)?;
    let i = expect_char(s, i, ')')?;
    Some(GizmoCommand::Ellipse { isometry, half_size, color })
}

#[verifier::rlimit(30)]
fn parse_ellipse_2d(s: &Vec<char>) -> (r: Option<GizmoCommand>)
    ensures
        r matches Some(d) ==> d.wf(),
        forall|c: GizmoCommand|
            c is Ellipse2d && c.wf() && #[trigger] occurs_at(s@, 0, c.enc()) ==> (r matches Some(d)
                && d.enc() == c.enc() && d.same(&c)),
{
    let i: usize = 0;
    let i = expect(s, i, "Ellipse2d")?;
    let i = expect_char(s, i, '(')?;
    let i = expect(s, i, "isometry:")?;
    let (isometry, i) = parse_isometry2d(s, i)?;
    let i = expect_char(s, i, ',')?;
    let i = expect(s, i, "half_size:")?;
    let (half_size, i) = parse_vec2(s, i)?;
    let i = expect_char(s, i, ',')?;
    let i = expect(s, i, "color:")?;
    let (color, i) = parse_color(s, i)?;
    let i = expect_char(s, i, ')')?;
    Some(GizmoCommand::Ellipse2d { isometry, half_size, color })
}

#[verifier::rlimit(30)]
fn parse_grid(s: &Vec<char>) -> (r: Option<GizmoCommand>)
    ensures
        r matches Some(d) ==> d.wf(),
        forall|c: GizmoCommand|
            c is Grid && c.wf() && #[trigger] occurs_at(s@, 0, c.enc()) ==> (r matches Some(d)
                && d.enc() == c.enc() && d.same(&c)),
{
    let i: usize = 0;
    let i = expect(s, i, "Grid")?;
    let i = expect_char(s, i, '(')?;
    let i = expect(s, i, "isometry:")?;
    let (isometry, i) = parse_isometry3d(s, i)?;
    let i = expect_char(s, i, ',')?;
    let i = expect(s, i, "cell_count:")?;
    let (cell_count, i) = parse_uvec2(s, i)?;
    let i = expect_char(s, i, ',')?;
    let i = expect(s, i, "spacing:")?;
    let (spacing, i) = parse_vec2(s, i)?;
    let i = expect_char(s, i, ',')?;
    let i = expect(s, i, "color:")?;
    let (color, i) = parse_color(s, i)?;
    let i = expect_char(s, i, ')')?;
    Some(GizmoCommand::Grid { isometry, cell_count, spacing, color })
}

#[verifier::rlimit(30)]
fn parse_grid_2d(s: &Vec<char>) -> (r: Option<GizmoCommand>)
    ensures
        r matches Some(d) ==> d.wf(),
        forall|c: GizmoCommand|
            c is Grid2d && c.wf() && #[trigger] occurs_at(s@, 0, c.enc()) ==> (r matches Some(d)
                && d.enc() == c.enc() && d.same(&c)),
{
    let i: usize = 0;
    let i = expect(s, i, "Grid2d")?;
    let i = expect_char(s, i, '(')?;
    let i = expect(s, i, "isometry:")?;
    let (isometry, i) = parse_isometry2d(s, i)?;
    let i = expect_char(s, i, ',')?;
    let i = expect(s, i, "cell_count:")?;
    let (cell_count, i) = parse_uvec2(s, i)?;
    let i = expect_char(s, i, ',')?;
    let i = expect(s, i, "spacing:")?;
    let (spacing, i) = parse_vec2(s, i)?;
    let i = expect_char(s, i, ',')?;
    let i = expect(s, i, "color:")?;
    let (color, i) = parse_color(s, i)?;
    let i = expect_char(s, i, ')')?;
    Some(GizmoCommand::Grid2d { isometry, cell_count, spacing, color })
}

#[verifier::rlimit(30)]
fn parse_grid_3d(s: &Vec<char>) -> (r: Option<GizmoCommand>)
    ensures
        r matches Some(d) ==> d.wf(),
        forall|c: GizmoCommand|
            c is Grid3d && c.wf() && #[trigger] occurs_at(s@, 0, c.enc()) ==> (r matches Some(d)
                && d.enc() == c.enc() && d.same(&c)),
{
    let i: usize = 0;
    let i = expect(s, i, "Grid3d")?;
    let i = expect_char(s, i, '(')?;
    let i = expect(s, i, "isometry:")?;
    let (isometry, i) = parse_isometry3d(s, i)?;
    let i = expect_char(s, i, ',')?;
    let i = expect(s, i, "cell_count:")?;
    let (cell_count, i) = parse_uvec3(s, i)?;
    let i = expect_char(s, i, ',')?;
    let i = expect(s, i, "spacing:")?;
    let (spacing, i) = parse_vec3(s, i)?;
    let i = expect_char(s, i, ',')?;
    let i = expect(s, i, "color:")?;
    let (color, i) = parse_color(s, i)?;
    let i = expect_char(s, i, ')')?;
    Some(GizmoCommand::Grid3d { isometry, cell_count, spacing, color })
}

#[verifier::rlimit(30)]
fn parse_line(s: &Vec<char>) -> (r: Option<GizmoCommand>)
    ensures
        r matches Some(d) ==> d.wf(),
        forall|c: GizmoCommand|
            c is Line && c.wf() && #[trigger] occurs_at(s@, 0, c.enc()) ==> (r matches Some(d)
                && d.enc() == c.enc() && d.same(&c)),
{
    let i: usize = 0;
    let i = expect(s, i, "Line")?;
    let i = expect_char(s, i, '(')?;
    let i = expect(s, i, "start:")?;
    let (start, i) = parse_vec3(s, i)?;
    let i = expect_char(s, i, ',')?;
    let i = expect(s, i, "end:")?;
    let (end, i) = parse_vec3(s, i)?;
    let i = expect_char(s, i, ',')?;
    let i = expect(s, i, "color:")?;
    let (color, i) = parse_color(s, i)?;
    let i = expect_char(s, i, ')')?;
    Some(GizmoCommand::Line { start, end, color })
}

#[verifier::rlimit(30)]
fn parse_line_2d(s: &Vec<char>) -> (r: Option<GizmoCommand>)
    ensures
        r matches Some(d) ==> d.wf(),
        forall|c: GizmoCommand|
            c is Line2d && c.wf() && #[trigger] occurs_at(s@, 0, c.enc()) ==> (r matches Some(d)
                && d.enc() == c.enc() && d.same(&c)),
{
    let i: usize = 0;
    let i = expect(s, i, "Line2d")?;
    let i = expect_char(s, i, '(')?;
    let i = expect(s, i, "start:")?;
    let (start, i) = parse_vec2(s, i)?;
    let i = expect_char(s, i, ',')?;
    let i = expect(s, i, "end:")?;
    let (end, i) = parse_vec2(s, i)?;
    let i = expect_char(s, i, ',')?;
    let i = expect(s, i, "color:")?;
    let (color, i) = parse_color(s, i)?;
    let i = expect_char(s, i, ')')?;
    Some(GizmoCommand::Line2d { start, end, color })
}

#[verifier::rlimit(30)]
fn parse_line_gradient(s: &Vec<char>) -> (r: Option<GizmoCommand>)
    ensures
        r matches Some(d) ==> d.wf(),
        forall|c: GizmoCommand|
            c is LineGradient && c.wf() && #[trigger] occurs_at(s@, 0, c.enc()) ==> (r matches Some(d)
                && d.enc() == c.enc() && d.same(&c)),
{
    let i: usize = 0;
    let i = expect(s, i, "LineGradient")?;
    let i = expect_char(s, i, '(')?;
    let i = expect(s, i, "start:")?;
    let (start, i) = parse_vec3(s, i)?;
    let i = expect_char(s, i, ',')?;
    let i = expect(s, i, "end:")?;
    let (end, i) = parse_vec3(s, i)?;
    let i = expect_char(s, i, ',')?;
    let i = expect(s, i, "start_color:")?;
    let (start_color, i) = parse_color(s, i)?;
    let i = expect_char(s, i, ',')?;
    let i = expect(s, i, "end_color:")?;
    let (end_color, i) = parse_color(s, i)?;
    let i = expect_char(s, i, ')')?;
    Some(GizmoCommand::LineGradient { start, end, start_color, end_color })
}

#[verifier::rlimit(30)]
fn parse_line_gradient_2d(s: &Vec<char>) -> (r: Option<GizmoCommand>)
    ensures
        r matches Some(d) ==> d.wf(),
        forall|c: GizmoCommand|
            c is LineGradient2d && c.wf() && #[trigger] occurs_at(s@, 0, c.enc()) ==> (r matches Some(d)
                && d.enc() == c.enc() && d.same(&c)),
{
    let i: usize = 0;
    let i = expect(s, i, "LineGradient2d")?;
    let i = expect_char(s, i, '(')?;
    let i = expect(s, i, "start:")?;
    let (start, i) = parse_vec2(s, i)?;
    let i = expect_char(s, i, ',')?;
    let i = expect(s, i, "end:")?;
    let (end, i) = parse_vec2(s, i)?;
    let i = expect_char(s, i, ',')?;
    let i = expect(s, i, "start_color:")?;
    let (start_color, i) = parse_color(s, i)?;
    let i = expect_char(s, i, ',')?;
    let i = expect(s, i, "end_color:")?;
    let (end_color, i) = parse_color(s, i)?;
    let i = expect_char(s, i, ')')?;
    Some(GizmoCommand::LineGradient2d { start, end, start_color, end_color })
}

#[verifier::rlimit(30)]
fn parse_linestrip(s: &Vec<char>) -> (r: Option<GizmoCommand>)
    ensures
        r matches Some(d) ==> d.wf(),
        forall|c: GizmoCommand|
            c is Linestrip && c.wf() && #[trigger] occurs_at(s@, 0, c.enc()) ==> (r matches Some(d)
                && d.enc() == c.enc() && d.same(&c)),
{
    let i: usize = 0;
    let i = expect(s, i, "Linestrip")?;
    let i = expect_char(s, i, '(')?;
    let i = expect(s, i, "positions:")?;
    let (positions, i) = parse_points3(s, i)?;
    let i = expect_char(s, i, ',')?;
    let i = expect(s, i, "color:")?;
    let (color, i) = parse_color(s, i)?;
    let i = expect_char(s, i, ')')?;
    Some(GizmoCommand::Linestrip { positions, color })
}

#[verifier::rlimit(30)]
fn parse_linestrip_2d(s: &Vec<char>) -> (r: Option<GizmoCommand>)
    ensures
        r matches Some(d) ==> d.wf(),
        forall|c: GizmoCommand|
            c is Linestrip2d && c.wf() && #[trigger] occurs_at(s@, 0, c.enc()) ==> (r matches Some(d)
                && d.enc() == c.enc() && d.same(&c)),
{
    let i: usize = 0;
    let i = expect(s, i, "Linestrip2d")?;
    let i = expect_char(s, i, '(')?;
    let i = expect(s, i, "positions:")?;
    let (positions, i) = parse_points2(s, i)?;
    let i = expect_char(s, i, ',')?;
    let i = expect(s, i, "color:")?;
    let (color, i) = parse_color(s, i)?;
    let i = expect_char(s, i, ')')?;
    Some(GizmoCommand::Linestrip2d { positions, color })
}

#[verifier::rlimit(30)]
fn parse_linestrip_gradient(s: &Vec<char>) -> (r: Option<GizmoCommand>)
    ensures
        r matches Some(d) ==> d.wf(),
        forall|c: GizmoCommand|
            c is LinestripGradient && c.wf() && #[trigger] occurs_at(s@, 0, c.enc()) ==> (r matches Some(d)
                && d.enc() == c.enc() && d.same(&c)),
{
    let i: usize = 0;
    let i = expect(s, i, "LinestripGradient")?;
    let i = expect_char(s, i, '(')?;
    let i = expect(s, i, "points:")?;
    let (points, i) = parse_colored3(s, i)?;
    let i = expect_char(s, i, ')')?;
    Some(GizmoCommand::LinestripGradient { points })
}

#[verifier::rlimit(30)]
fn parse_linestrip_gradient_2d(s: &Vec<char>) -> (r: Option<GizmoCommand>)
    ensures
        r matches Some(d) ==> d.wf(),
        forall|c: GizmoCommand|
            c is LinestripGradient2d && c.wf() && #[trigger] occurs_at(s@, 0, c.enc()) ==> (r matches Some(d)
                && d.enc() == c.enc() && d.same(&c)),
{
    let i: usize = 0;
    let i = expect(s, i, "LinestripGradient2d")?;
    let i = expect_char(s, i, '(')?;
    let i = expect(s, i, "positions:")?;
    let (positions, i) = parse_colored2(s, i)?;
    let i = expect_char(s, i, ')')?;
    Some(GizmoCommand::LinestripGradient2d { positions })
}

#[verifier::rlimit(30)]
fn parse_long_arc_3d_between(s: &Vec<char>) -> (r: Option<GizmoCommand>)
    ensures
        r matches Some(d) ==> d.wf(),
        forall|c: GizmoCommand|
            c is LongArc3dBetween && c.wf() && #[trigger] occurs_at(s@, 0, c.enc()) ==> (r matches Some(d)
                && d.enc() == c.enc() && d.same(&c)),
{
    let i: usize = 0;
    let i = expect(s, i, "LongArc3dBetween")?;
    let i = expect_char(s, i, '(')?;
    let i = expect(s, i, "center:")?;
    let (center, i) = parse_vec3(s, i)?;
    let i = expect_char(s, i, ',')?;
    let i = expect(s, i, "from:")?;
    let (from, i) = parse_vec3(s, i)?;
    let i = expect_char(s, i, ',')?;
    let i = expect(s, i, "to:")?;
    let (to, i) = parse_vec3(s, i)?;
    let i = expect_char(s, i, ',')?;
    let i = expect(s, i, "color:")?;
    let (color, i) = parse_color(s, i)?;
    let i = expect_char(s, i, ')')?;
    Some(GizmoCommand::LongArc3dBetween { center, from, to, color })
}

#[verifier::rlimit(30)]
fn parse_ray(s: &Vec<char>) -> (r: Option<GizmoCommand>)
    ensures
        r matches Some(d) ==> d.wf(),
        forall|c: GizmoCommand|
            c is Ray && c.wf() && #[trigger] occurs_at(s@, 0, c.enc()) ==> (r matches Some(d)
                && d.enc() == c.enc() && d.same(&c)),
{
    let i: usize = 0;
    let i = expect(s, i, "Ray")?;
    let i = expect_char(s, i, '(')?;
    let i = expect(s, i, "start:")?;
    let (start, i) = parse_vec3(s, i)?;
    let i = expect_char(s, i, ',')?;
    let i = expect(s, i, "vector:")?;
    let (vector, i) = parse_vec3(s, i)?;
    let i = expect_char(s, i, ',')?;
    let i = expect(s, i, "color:")?;
    let (color, i) = parse_color(s, i)?;
    let i = expect_char(s, i, ')')?;
    Some(GizmoCommand::Ray { start, vector, color })
}

#[verifier::rlimit(30)]
fn parse_ray_2d(s: &Vec<char>) -> (r: Option<GizmoCommand>)
    ensures
        r matches Some(d) ==> d.wf(),
        forall|c: GizmoCommand|
            c is Ray2d && c.wf() && #[trigger] occurs_at(s@, 0, c.enc()) ==> (r matches Some(d)
                && d.enc() == c.enc() && d.same(&c)),
{
    let i: usize = 0;
    let i = expect(s, i, "Ray2d")?;
    let i = expect_char(s, i, '(')?;
    let i = expect(s, i, "start:")?;
    let (start, i) = parse_vec2(s, i)?;
    let i = expect_char(s, i, ',')?;
    let i = expect(s, i, "vector:")?;
    let (vector, i) = parse_vec2(s, i)?;
    let i = expect_char(s, i, ',')?;
    let i = expect(s, i, "color:")?;
    let (color, i) = parse_color(s, i)?;
    let i = expect_char(s, i, ')')?;
    Some(GizmoCommand::Ray2d { start, vector, color })
}

#[verifier::rlimit(30)]
fn parse_ray_gradient(s: &Vec<char>) -> (r: Option<GizmoCommand>)
    ensures
        r matches Some(d) ==> d.wf(),
        forall|c: GizmoCommand|
            c is RayGradient && c.wf() && #[trigger] occurs_at(s@, 0, c.enc()) ==> (r matches Some(d)
                && d.enc() == c.enc() && d.same(&c)),
{
    let i: usize = 0;
    let i = expect(s, i, "RayGradient")?;
    let i = expect_char(s, i, '(')?;
    let i = expect(s, i, "start:")?;
    let (start, i) = parse_vec3(s, i)?;
    let i = expect_char(s, i, ',')?;
    let i = expect(s, i, "vector:")?;
    let (vector, i) = parse_vec3(s, i)?;
    let i = expect_char(s, i, ',')?;
    let i = expect(s, i, "start_color:")?;
    let (start_color, i) = parse_color(s, i)?;
    let i = expect_char(s, i, ',')?;
    let i = expect(s, i, "end_color:")?;
    let (end_color, i) = parse_color(s, i)?;
    let i = expect_char(s, i, ')')?;
    Some(GizmoCommand::RayGradient { start, vector, start_color, end_color })
}

#[verifier::rlimit(30)]
fn parse_ray_gradient_2d(s: &Vec<char>) -> (r: Option<GizmoCommand>)
    ensures
        r matches Some(d) ==> d.wf(),
        forall|c: GizmoCommand|
            c is RayGradient2d && c.wf() && #[trigger] occurs_at(s@, 0, c.enc()) ==> (r matches Some(d)
                && d.enc() == c.enc() && d.same(&c)),
{
    let i: usize = 0;
    let i = expect(s, i, "RayGradient2d")?;
    let i = expect_char(s, i, '(')?;
    let i = expect(s, i, "start:")?;
    let (start, i) = parse_vec2(s, i)?;
    let i = expect_char(s, i, ',')?;
    let i = expect(s, i, "vector:")?;
    let (vector, i) = parse_vec2(s, i)?;
    let i = expect_char(s, i, ',')?;
    let i = expect(s, i, "start_color:")?;
    let (start_color, i) = parse_color(s, i)?;
    let i = expect_char(s, i, ',')?;
    let i = expect(s, i, "end_color:")?;
    let (end_color, i) = parse_color(s, i)?;
    let i = expect_char(s, i, ')')?;
    Some(GizmoCommand::RayGradient2d { start, vector, start_color, end_color })
}

#[verifier::rlimit(30)]
fn parse_rect(s: &Vec<char>) -> (r: Option<GizmoCommand>)
    ensures
        r matches Some(d) ==> d.wf(),
        forall|c: GizmoCommand|
            c is Rect && c.wf() && #[trigger] occurs_at(s@, 0, c.enc()) ==> (r matches Some(d)
                && d.enc() == c.enc() && d.same(&c)),
{
    let i: usize = 0;
    let i = expect(s, i, "Rect")?;
    let i = expect_char(s, i, '(')?;
    let i = expect(s, i, "isometry:")?;
    let (isometry, i) = parse_isometry3d(s, i)?;
    let i = expect_char(s, i, ',')?;
    let i = expect(s, i, "size:")?;
    let (size, i) = parse_vec2(s, i)?;
    let i = expect_char(s, i, ',')?;
    let i = expect(s, i, "color:")?;
    let (color, i) = parse_color(s, i)?;
    let i = expect_char(s, i, ')')?;
    Some(GizmoCommand::Rect { isometry, size, color })
}

#[verifier::rlimit(30)]
fn parse_rect_2d(s: &Vec<char>) -> (r: Option<GizmoCommand>)
    ensures
        r matches Some(d) ==> d.wf(),
        forall|c: GizmoCommand|
            c is Rect2d && c.wf() && #[trigger] occurs_at(s@, 0, c.enc()) ==> (r matches Some(d)
                && d.enc() == c.enc() && d.same(&c)),
{
    let i: usize = 0;
    let i = expect(s, i, "Rect2d")?;
    let i = expect_char(s, i, '(')?;
    let i = expect(s, i, "isometry:")?;
    let (isometry, i) = parse_isometry2d(s, i)?;
    let i = expect_char(s, i, ',')?;
    let i = expect(s, i, "size:")?;
    let (size, i) = parse_vec2(s, i)?;
    let i = expect_char(s, i, ',')?;
    let i = expect(s, i, "color:")?;
    let (color, i) = parse_color(s, i)?;
    let i = expect_char(s, i, ')')?;
    Some(GizmoCommand::Rect2d { isometry, size, color })
}

#[verifier::rlimit(30)]
fn parse_rounded_cuboid(s: &Vec<char>) -> (r: Option<GizmoCommand>)
    ensures
        r matches Some(d) ==> d.wf(),
        forall|c: GizmoCommand|
            c is RoundedCuboid && c.wf() && #[trigger] occurs_at(s@, 0, c.enc()) ==> (r matches Some(d)
                && d.enc() == c.enc() && d.same(&c)),
{
    let i: usize = 0;
    let i = expect(s, i, "RoundedCuboid")?;
    let i = expect_char(s, i, '(')?;
    let i = expect(s, i, "isometry:")?;
    let (isometry, i) = parse_isometry3d(s, i)?;
    let i = expect_char(s, i, ',')?;
    let i = expect(s, i, "size:")?;
    let (size, i) = parse_vec3(s, i)?;
    let i = expect_char(s, i, ',')?;
    let i = expect(s, i, "color:")?;
    let (color, i) = parse_color(s, i)?;
    let i = expect_char(s, i, ')')?;
    Some(GizmoCommand::RoundedCuboid { isometry, size, color })
}

#[verifier::rlimit(30)]
fn parse_rounded_rect(s: &Vec<char>) -> (r: Option<GizmoCommand>)
    ensures
        r matches Some(d) ==> d.wf(),
        forall|c: GizmoCommand|
            c is RoundedRect && c.wf() && #[trigger] occurs_at(s@, 0, c.enc()) ==> (r matches Some(d)
                && d.enc() == c.enc() && d.same(&c)),
{
    let i: usize = 0;
    let i = expect(s, i, "RoundedRect")?;
    let i = expect_char(s, i, '(')?;
    let i = expect(s, i, "isometry:")?;
    let (isometry, i) = parse_isometry3d(s, i)?;
    let i = expect_char(s, i, ',')?;
    let i = expect(s, i, "size:")?;
    let (size, i) = parse_vec2(s, i)?;
    let i = expect_char(s, i, ',')?;
    let i = expect(s, i, "color:")?;
    let (color, i) = parse_color(s, i)?;
    let i = expect_char(s, i, ')')?;
    Some(GizmoCommand::RoundedRect { isometry, size, color })
}

#[verifier::rlimit(30)]
fn parse_rounded_rect_2d(s: &Vec<char>) -> (r: Option<GizmoCommand>)
    ensures
        r matches Some(d) ==> d.wf(),
        forall|c: GizmoCommand|
            c is RoundedRect2d && c.wf() && #[trigger] occurs_at(s@, 0, c.enc()) ==> (r matches Some(d)
                && d.enc() == c.enc() && d.same(&c)),
{
    let i: usize = 0;
    let i = expect(s, i, "RoundedRect2d")?;
    let i = expect_char(s, i, '(')?;
    let i = expect(s, i, "isometry:")?;
    let (isometry, i) = parse_isometry2d(s, i)?;
    let i = expect_char(s, i, ',')?;
    let i = expect(s, i, "size:")?;
    let (size, i) = parse_vec2(s, i)?;
    let i = expect_char(s, i, ',')?;
    let i = expect(s, i, "color:")?;
    let (color, i) = parse_color(s, i)?;
    let i = expect_char(s, i, ')')?;
    Some(GizmoCommand::RoundedRect2d { isometry, size, color })
}

#[verifier::rlimit(30)]
fn parse_short_arc_3d_between(s: &Vec<char>) -> (r: Option<GizmoCommand>)
    ensures
        r matches Some(d) ==> d.wf(),
        forall|c: GizmoCommand|
            c is ShortArc3dBetween && c.wf() && #[trigger] occurs_at(s@, 0, c.enc()) ==> (r matches Some(d)
                && d.enc() == c.enc() && d.same(&c)),
{
    let i: usize = 0;
    let i = expect(s, i, "ShortArc3dBetween")?;
    let i = expect_char(s, i, '(')?;
    let i = expect(s, i, "center:")?;
    let (center, i) = parse_vec3(s, i)?;
    let i = expect_char(s, i, ',')?;
    let i = expect(s, i, "from:")?;
    let (from, i) = parse_vec3(s, i)?;
    let i = expect_char(s, i, ',')?;
    let i = expect(s, i, "to:")?;
    let (to, i) = parse_vec3(s, i)?;
    let i = expect_char(s, i, ',')?;
    let i = expect(s, i, "color:")?;
    let (color, i) = parse_color(s, i)?;
    let i = expect_char(s, i, ')')?;
    Some(GizmoCommand::ShortArc3dBetween { center, from, to, color })
}

#[verifier::rlimit(30)]
fn parse_sphere(s: &Vec<char>) -> (r: Option<GizmoCommand>)
    ensures
        r matches Some(d) ==> d.wf(),
        forall|c: GizmoCommand|
            c is Sphere && c.wf() && #[trigger] occurs_at(s@, 0, c.enc()) ==> (r matches Some(d)
                && d.enc() == c.enc() && d.same(&c)),
{
    let i: usize = 0;
    let i = expect(s, i, "Sphere")?;
    let i = expect_char(s, i, '(')?;
    let i = expect(s, i, "isometry:")?;
    let (isometry, i) = parse_isometry3d(s, i)?;
    let i = expect_char(s, i, ',')?;
    let i = expect(s, i, "radius:")?;
    let (radius, i) = parse_scalar(s, i)?;
    let i = expect_char(s, i, ',')?;
    let i = expect(s, i, "color:")?;
    let (color, i) = parse_color(s, i)?;
    let i = expect_char(s, i, ')')?;
    Some(GizmoCommand::Sphere { isometry, radius, color })
}

proof fn lemma_arc_2d_no_space(c: GizmoCommand)
    requires
        c is Arc2d,
        c.wf(),
    ensures
        no_space(c.enc()),
{
    match c {
        GizmoCommand::Arc2d { isometry, arc_angle, radius, color } => {
            reveal_strlit("Arc2d");
            assert(no_space("Arc2d"@));
            reveal_strlit("isometry:");
            assert(no_space("isometry:"@));
            lemma_isometry2d_no_space(isometry);
            reveal_strlit("arc_angle:");
            assert(no_space("arc_angle:"@));
            lemma_number_no_space(arc_angle@);
            reveal_strlit("radius:");
            assert(no_space("radius:"@));
            lemma_number_no_space(radius@);
            reveal_strlit("color:");
            assert(no_space("color:"@));
            lemma_color_no_space(color);
        },
        _ => {},
    }
}

proof fn lemma_arc_3d_no_space(c: GizmoCommand)
    requires
        c is Arc3d,
        c.wf(),
    ensures
        no_space(c.enc()),
{
    match c {
        GizmoCommand::Arc3d { angle, radius, isometry, color } => {
            reveal_strlit("Arc3d");
            assert(no_space("Arc3d"@));
            reveal_strlit("angle:");
            assert(no_space("angle:"@));
            lemma_number_no_space(angle@);
            reveal_strlit("radius:");
            assert(no_space("radius:"@));
            lemma_number_no_space(radius@);
            reveal_strlit("isometry:");
            assert(no_space("isometry:"@));
            lemma_isometry3d_no_space(isometry);
            reveal_strlit("color:");
            assert(no_space("color:"@));
            lemma_color_no_space(color);
        },
        _ => {},
    }
}

proof fn lemma_arrow_no_space(c: GizmoCommand)
    requires
        c is Arrow,
        c.wf(),
    ensures
        no_space(c.enc()),
{
    match c {
        GizmoCommand::Arrow { start, end, color } => {
            reveal_strlit("Arrow");
            assert(no_space("Arrow"@));
            reveal_strlit("start:");
            assert(no_space("start:"@));
            lemma_vec3_no_space(start);
            reveal_strlit("end:");
            assert(no_space("end:"@));
            lemma_vec3_no_space(end);
            reveal_strlit("color:");
            assert(no_space("color:"@));
            lemma_color_no_space(color);
        },
        _ => {},
    }
}

proof fn lemma_arrow_2d_no_space(c: GizmoCommand)
    requires
        c is Arrow2d,
        c.wf(),
    ensures
        no_space(c.enc()),
{
    match c {
        GizmoCommand::Arrow2d { start, end, color } => {
            reveal_strlit("Arrow2d");
            assert(no_space("Arrow2d"@));
            reveal_strlit("start:");
            assert(no_space("start:"@));
            lemma_vec2_no_space(start);
            reveal_strlit("end:");
            assert(no_space("end:"@));
            lemma_vec2_no_space(end);
            reveal_strlit("color:");
            assert(no_space("color:"@));
            lemma_color_no_space(color);
        },
        _ => {},
    }
}

proof fn lemma_axes_no_space(c: GizmoCommand)
    requires
        c is Axes,
        c.wf(),
    ensures
        no_space(c.enc()),
{
    match c {
        GizmoCommand::Axes { transform, base_length } => {
            reveal_strlit("Axes");
            assert(no_space("Axes"@));
            reveal_strlit("transform:");
            assert(no_space("transform:"@));
            lemma_mat4_no_space(transform);
            reveal_strlit("base_length:");
            assert(no_space("base_length:"@));
            lemma_number_no_space(base_length@);
        },
        _ => {},
    }
}

proof fn lemma_axes_2d_no_space(c: GizmoCommand)
    requires
        c is Axes2d,
        c.wf(),
    ensures
        no_space(c.enc()),
{
    match c {
        GizmoCommand::Axes2d { transform, base_length } => {
            reveal_strlit("Axes2d");
            assert(no_space("Axes2d"@));
            reveal_strlit("transform:");
            assert(no_space("transform:"@));
            lemma_mat4_no_space(transform);
            reveal_strlit("base_length:");
            assert(no_space("base_length:"@));
            lemma_number_no_space(base_length@);
        },
        _ => {},
    }
}

proof fn lemma_circle_no_space(c: GizmoCommand)
    requires
        c is Circle,
        c.wf(),
    ensures
        no_space(c.enc()),
{
    match c {
        GizmoCommand::Circle { isometry, radius, color } => {
            reveal_strlit("Circle");
            assert(no_space("Circle"@));
            reveal_strlit("isometry:");
            assert(no_space("isometry:"@));
            lemma_isometry3d_no_space(isometry);
            reveal_strlit("radius:");
            assert(no_space("radius:"@));
            lemma_number_no_space(radius@);
            reveal_strlit("color:");
            assert(no_space("color:"@));
            lemma_color_no_space(color);
        },
        _ => {},
    }
}

proof fn lemma_circle_2d_no_space(c: GizmoCommand)
    requires
        c is Circle2d,
        c.wf(),
    ensures
        no_space(c.enc()),
{
    match c {
        GizmoCommand::Circle2d { position, radius, color } => {
            reveal_strlit("Circle2d");
            assert(no_space("Circle2d"@));
            reveal_strlit("position:");
            assert(no_space("position:"@));
            lemma_vec2_no_space(position);
            reveal_strlit("radius:");
            assert(no_space("radius:"@));
            lemma_number_no_space(radius@);
            reveal_strlit("color:");
            assert(no_space("color:"@));
            lemma_color_no_space(color);
        },
        _ => {},
    }
}

proof fn lemma_cuboid_no_space(c: GizmoCommand)
    requires
        c is Cuboid,
        c.wf(),
    ensures
        no_space(c.enc()),
{
    match c {
        GizmoCommand::Cuboid { transform, color } => {
            reveal_strlit("Cuboid");
            assert(no_space("Cuboid"@));
            reveal_strlit("transform:");
            assert(no_space("transform:"@));
            lemma_mat4_no_space(transform);
            reveal_strlit("color:");
            assert(no_space("color:"@));
            lemma_color_no_space(color);
        },
        _ => {},
    }
}

proof fn lemma_ellipse_no_space(c: GizmoCommand)
    requires
        c is Ellipse,
        c.wf(),
    ensures
        no_space(c.enc()),
{
    match c {
        GizmoCommand::Ellipse { isometry, half_size, color } => {
            reveal_strlit("Ellipse");
            assert(no_space("Ellipse"@));
            reveal_strlit("isometry:");
            assert(no_space("isometry:"@));
            lemma_isometry3d_no_space(isometry);
            reveal_strlit("half_size:");
            assert(no_space("half_size:"@));
            lemma_vec2_no_space(half_size);
            reveal_strlit("color:");
            assert(no_space("color:"@));
            lemma_color_no_space(color);
        },
        _ => {},
    }
}

proof fn lemma_ellipse_2d_no_space(c: GizmoCommand)
    requires
        c is Ellipse2d,
        c.wf(),
    ensures
        no_space(c.enc()),
{
    match c {
        GizmoCommand::Ellipse2d { isometry, half_size, color } => {
            reveal_strlit("Ellipse2d");
            assert(no_space("Ellipse2d"@));
            reveal_strlit("isometry:");
            assert(no_space("isometry:"@));
            lemma_isometry2d_no_space(isometry);
            reveal_strlit("half_size:");
            assert(no_space("half_size:"@));
            lemma_vec2_no_space(half_size);
            reveal_strlit("color:");
            assert(no_space("color:"@));
            lemma_color_no_space(color);
        },
        _ => {},
    }
}

proof fn lemma_grid_no_space(c: GizmoCommand)
    requires
        c is Grid,
        c.wf(),
    ensures
        no_space(c.enc()),
{
    match c {
        GizmoCommand::Grid { isometry, cell_count, spacing, color } => {
            reveal_strlit("Grid");
            assert(no_space("Grid"@));
            reveal_strlit("isometry:");
            assert(no_space("isometry:"@));
            lemma_isometry3d_no_space(isometry);
            reveal_strlit("cell_count:");
            assert(no_space("cell_count:"@));
            lemma_uvec2_no_space(cell_count);
            reveal_strlit("spacing:");
            assert(no_space("spacing:"@));
            lemma_vec2_no_space(spacing);
            reveal_strlit("color:");
            assert(no_space("color:"@));
            lemma_color_no_space(color);
        },
        _ => {},
    }
}

proof fn lemma_grid_2d_no_space(c: GizmoCommand)
    requires
        c is Grid2d,
        c.wf(),
    ensures
        no_space(c.enc()),
{
    match c {
        GizmoCommand::Grid2d { isometry, cell_count, spacing, color } => {
            reveal_strlit("Grid2d");
            assert(no_space("Grid2d"@));
            reveal_strlit("isometry:");
            assert(no_space("isometry:"@));
            lemma_isometry2d_no_space(isometry);
            reveal_strlit("cell_count:");
            assert(no_space("cell_count:"@));
            lemma_uvec2_no_space(cell_count);
            reveal_strlit("spacing:");
            assert(no_space("spacing:"@));
            lemma_vec2_no_space(spacing);
            reveal_strlit("color:");
            assert(no_space("color:"@));
            lemma_color_no_space(color);
        },
        _ => {},
    }
}

proof fn lemma_grid_3d_no_space(c: GizmoCommand)
    requires
        c is Grid3d,
        c.wf(),
    ensures
        no_space(c.enc()),
{
    match c {
        GizmoCommand::Grid3d { isometry, cell_count, spacing, color } => {
            reveal_strlit("Grid3d");
            assert(no_space("Grid3d"@));
            reveal_strlit("isometry:");
            assert(no_space("isometry:"@));
            lemma_isometry3d_no_space(isometry);
            reveal_strlit("cell_count:");
            assert(no_space("cell_count:"@));
            lemma_uvec3_no_space(cell_count);
            reveal_strlit("spacing:");
            assert(no_space("spacing:"@));
            lemma_vec3_no_space(spacing);
            reveal_strlit("color:");
            assert(no_space("color:"@));
            lemma_color_no_space(color);
        },
        _ => {},
    }
}

proof fn lemma_line_no_space(c: GizmoCommand)
    requires
        c is Line,
        c.wf(),
    ensures
        no_space(c.enc()),
{
    match c {
        GizmoCommand::Line { start, end, color } => {
            reveal_strlit("Line");
            assert(no_space("Line"@));
            reveal_strlit("start:");
            assert(no_space("start:"@));
            lemma_vec3_no_space(start);
            reveal_strlit("end:");
            assert(no_space("end:"@));
            lemma_vec3_no_space(end);
            reveal_strlit("color:");
            assert(no_space("color:"@));
            lemma_color_no_space(color);
        },
        _ => {},
    }
}

proof fn lemma_line_2d_no_space(c: GizmoCommand)
    requires
        c is Line2d,
        c.wf(),
    ensures
        no_space(c.enc()),
{
    match c {
        GizmoCommand::Line2d { start, end, color } => {
            reveal_strlit("Line2d");
            assert(no_space("Line2d"@));
            reveal_strlit("start:");
            assert(no_space("start:"@));
            lemma_vec2_no_space(start);
            reveal_strlit("end:");
            assert(no_space("end:"@));
            lemma_vec2_no_space(end);
            reveal_strlit("color:");
            assert(no_space("color:"@));
            lemma_color_no_space(color);
        },
        _ => {},
    }
}

proof fn lemma_line_gradient_no_space(c: GizmoCommand)
    requires
        c is LineGradient,
        c.wf(),
    ensures
        no_space(c.enc()),
{
    match c {
        GizmoCommand::LineGradient { start, end, start_color, end_color } => {
            reveal_strlit("LineGradient");
            assert(no_space("LineGradient"@));
            reveal_strlit("start:");
            assert(no_space("start:"@));
            lemma_vec3_no_space(start);
            reveal_strlit("end:");
            assert(no_space("end:"@));
            lemma_vec3_no_space(end);
            reveal_strlit("start_color:");
            assert(no_space("start_color:"@));
            lemma_color_no_space(start_color);
            reveal_strlit("end_color:");
            assert(no_space("end_color:"@));
            lemma_color_no_space(end_color);
        },
        _ => {},
    }
}

proof fn lemma_line_gradient_2d_no_space(c: GizmoCommand)
    requires
        c is LineGradient2d,
        c.wf(),
    ensures
        no_space(c.enc()),
{
    match c {
        GizmoCommand::LineGradient2d { start, end, start_color, end_color } => {
            reveal_strlit("LineGradient2d");
            assert(no_space("LineGradient2d"@));
            reveal_strlit("start:");
            assert(no_space("start:"@));
            lemma_vec2_no_space(start);
            reveal_strlit("end:");
            assert(no_space("end:"@));
            lemma_vec2_no_space(end);
            reveal_strlit("start_color:");
            assert(no_space("start_color:"@));
            lemma_color_no_space(start_color);
            reveal_strlit("end_color:");
            assert(no_space("end_color:"@));
            lemma_color_no_space(end_color);
        },
        _ => {},
    }
}

proof fn lemma_linestrip_no_space(c: GizmoCommand)
    requires
        c is Linestrip,
        c.wf(),
    ensures
        no_space(c.enc()),
{
    match c {
        GizmoCommand::Linestrip { positions, color } => {
            reveal_strlit("Linestrip");
            assert(no_space("Linestrip"@));
            reveal_strlit("positions:");
            assert(no_space("positions:"@));
            lemma_points3_no_space(positions@);
            reveal_strlit("color:");
            assert(no_space("color:"@));
            lemma_color_no_space(color);
        },
        _ => {},
    }
}

proof fn lemma_linestrip_2d_no_space(c: GizmoCommand)
    requires
        c is Linestrip2d,
        c.wf(),
    ensures
        no_space(c.enc()),
{
    match c {
        GizmoCommand::Linestrip2d { positions, color } => {
            reveal_strlit("Linestrip2d");
            assert(no_space("Linestrip2d"@));
            reveal_strlit("positions:");
            assert(no_space("positions:"@));
            lemma_points2_no_space(positions@);
            reveal_strlit("color:");
            assert(no_space("color:"@));
            lemma_color_no_space(color);
        },
        _ => {},
    }
}

proof fn lemma_linestrip_gradient_no_space(c: GizmoCommand)
    requires
        c is LinestripGradient,
        c.wf(),
    ensures
        no_space(c.enc()),
{
    match c {
        GizmoCommand::LinestripGradient { points } => {
            reveal_strlit("LinestripGradient");
            assert(no_space("LinestripGradient"@));
            reveal_strlit("points:");
            assert(no_space("points:"@));
            lemma_colored3_no_space(points@);
        },
        _ => {},
    }
}

proof fn lemma_linestrip_gradient_2d_no_space(c: GizmoCommand)
    requires
        c is LinestripGradient2d,
        c.wf(),
    ensures
        no_space(c.enc()),
{
    match c {
        GizmoCommand::LinestripGradient2d { positions } => {
            reveal_strlit("LinestripGradient2d");
            assert(no_space("LinestripGradient2d"@));
            reveal_strlit("positions:");
            assert(no_space("positions:"@));
            lemma_colored2_no_space(positions@);
        },
        _ => {},
    }
}

proof fn lemma_long_arc_3d_between_no_space(c: GizmoCommand)
    requires
        c is LongArc3dBetween,
        c.wf(),
    ensures
        no_space(c.enc()),
{
    match c {
        GizmoCommand::LongArc3dBetween { center, from, to, color } => {
            reveal_strlit("LongArc3dBetween");
            assert(no_space("LongArc3dBetween"@));
            reveal_strlit("center:");
            assert(no_space("center:"@));
            lemma_vec3_no_space(center);
            reveal_strlit("from:");
            assert(no_space("from:"@));
            lemma_vec3_no_space(from);
            reveal_strlit("to:");
            assert(no_space("to:"@));
            lemma_vec3_no_space(to);
            reveal_strlit("color:");
            assert(no_space("color:"@));
            lemma_color_no_space(color);
        },
        _ => {},
    }
}

proof fn lemma_ray_no_space(c: GizmoCommand)
    requires
        c is Ray,
        c.wf(),
    ensures
        no_space(c.enc()),
{
    match c {
        GizmoCommand::Ray { start, vector, color } => {
            reveal_strlit("Ray");
            assert(no_space("Ray"@));
            reveal_strlit("start:");
            assert(no_space("start:"@));
            lemma_vec3_no_space(start);
            reveal_strlit("vector:");
            assert(no_space("vector:"@));
            lemma_vec3_no_space(vector);
            reveal_strlit("color:");
            assert(no_space("color:"@));
            lemma_color_no_space(color);
        },
        _ => {},
    }
}

proof fn lemma_ray_2d_no_space(c: GizmoCommand)
    requires
        c is Ray2d,
        c.wf(),
    ensures
        no_space(c.enc()),
{
    match c {
        GizmoCommand::Ray2d { start, vector, color } => {
            reveal_strlit("Ray2d");
            assert(no_space("Ray2d"@));
            reveal_strlit("start:");
            assert(no_space("start:"@));
            lemma_vec2_no_space(start);
            reveal_strlit("vector:");
            assert(no_space("vector:"@));
            lemma_vec2_no_space(vector);
            reveal_strlit("color:");
            assert(no_space("color:"@));
            lemma_color_no_space(color);
        },
        _ => {},
    }
}

proof fn lemma_ray_gradient_no_space(c: GizmoCommand)
    requires
        c is RayGradient,
        c.wf(),
    ensures
        no_space(c.enc()),
{
    match c {
        GizmoCommand::RayGradient { start, vector, start_color, end_color } => {
            reveal_strlit("RayGradient");
            assert(no_space("RayGradient"@));
            reveal_strlit("start:");
            assert(no_space("start:"@));
            lemma_vec3_no_space(start);
            reveal_strlit("vector:");
            assert(no_space("vector:"@));
            lemma_vec3_no_space(vector);
            reveal_strlit("start_color:");
            assert(no_space("start_color:"@));
            lemma_color_no_space(start_color);
            reveal_strlit("end_color:");
            assert(no_space("end_color:"@));
            lemma_color_no_space(end_color);
        },
        _ => {},
    }
}

proof fn lemma_ray_gradient_2d_no_space(c: GizmoCommand)
    requires
        c is RayGradient2d,
        c.wf(),
    ensures
        no_space(c.enc()),
{
    match c {
        GizmoCommand::RayGradient2d { start, vector, start_color, end_color } => {
            reveal_strlit("RayGradient2d");
            assert(no_space("RayGradient2d"@));
            reveal_strlit("start:");
            assert(no_space("start:"@));
            lemma_vec2_no_space(start);
            reveal_strlit("vector:");
            assert(no_space("vector:"@));
            lemma_vec2_no_space(vector);
            reveal_strlit("start_color:");
            assert(no_space("start_color:"@));
            lemma_color_no_space(start_color);
            reveal_strlit("end_color:");
            assert(no_space("end_color:"@));
            lemma_color_no_space(end_color);
        },
        _ => {},
    }
}

proof fn lemma_rect_no_space(c: GizmoCommand)
    requires
        c is Rect,
        c.wf(),
    ensures
        no_space(c.enc()),
{
    match c {
        GizmoCommand::Rect { isometry, size, color } => {
            reveal_strlit("Rect");
            assert(no_space("Rect"@));
            reveal_strlit("isometry:");
            assert(no_space("isometry:"@));
            lemma_isometry3d_no_space(isometry);
            reveal_strlit("size:");
            assert(no_space("size:"@));
            lemma_vec2_no_space(size);
            reveal_strlit("color:");
            assert(no_space("color:"@));
            lemma_color_no_space(color);
        },
        _ => {},
    }
}

proof fn lemma_rect_2d_no_space(c: GizmoCommand)
    requires
        c is Rect2d,
        c.wf(),
    ensures
        no_space(c.enc()),
{
    match c {
        GizmoCommand::Rect2d { isometry, size, color } => {
            reveal_strlit("Rect2d");
            assert(no_space("Rect2d"@));
            reveal_strlit("isometry:");
            assert(no_space("isometry:"@));
            lemma_isometry2d_no_space(isometry);
            reveal_strlit("size:");
            assert(no_space("size:"@));
            lemma_vec2_no_space(size);
            reveal_strlit("color:");
            assert(no_space("color:"@));
            lemma_color_no_space(color);
        },
        _ => {},
    }
}

proof fn lemma_rounded_cuboid_no_space(c: GizmoCommand)
    requires
        c is RoundedCuboid,
        c.wf(),
    ensures
        no_space(c.enc()),
{
    match c {
        GizmoCommand::RoundedCuboid { isometry, size, color } => {
            reveal_strlit("RoundedCuboid");
            assert(no_space("RoundedCuboid"@));
            reveal_strlit("isometry:");
            assert(no_space("isometry:"@));
            lemma_isometry3d_no_space(isometry);
            reveal_strlit("size:");
            assert(no_space("size:"@));
            lemma_vec3_no_space(size);
            reveal_strlit("color:");
            assert(no_space("color:"@));
            lemma_color_no_space(color);
        },
        _ => {},
    }
}

proof fn lemma_rounded_rect_no_space(c: GizmoCommand)
    requires
        c is RoundedRect,
        c.wf(),
    ensures
        no_space(c.enc()),
{
    match c {
        GizmoCommand::RoundedRect { isometry, size, color } => {
            reveal_strlit("RoundedRect");
            assert(no_space("RoundedRect"@));
            reveal_strlit("isometry:");
            assert(no_space("isometry:"@));
            lemma_isometry3d_no_space(isometry);
            reveal_strlit("size:");
            assert(no_space("size:"@));
            lemma_vec2_no_space(size);
            reveal_strlit("color:");
            assert(no_space("color:"@));
            lemma_color_no_space(color);
        },
        _ => {},
    }
}

proof fn lemma_rounded_rect_2d_no_space(c: GizmoCommand)
    requires
        c is RoundedRect2d,
        c.wf(),
    ensures
        no_space(c.enc()),
{
    match c {
        GizmoCommand::RoundedRect2d { isometry, size, color } => {
            reveal_strlit("RoundedRect2d");
            assert(no_space("RoundedRect2d"@));
            reveal_strlit("isometry:");
            assert(no_space("isometry:"@));
            lemma_isometry2d_no_space(isometry);
            reveal_strlit("size:");
            assert(no_space("size:"@));
            lemma_vec2_no_space(size);
            reveal_strlit("color:");
            assert(no_space("color:"@));
            lemma_color_no_space(color);
        },
        _ => {},
    }
}

proof fn lemma_short_arc_3d_between_no_space(c: GizmoCommand)
    requires
        c is ShortArc3dBetween,
        c.wf(),
    ensures
        no_space(c.enc()),
{
    match c {
        GizmoCommand::ShortArc3dBetween { center, from, to, color } => {
            reveal_strlit("ShortArc3dBetween");
            assert(no_space("ShortArc3dBetween"@));
            reveal_strlit("center:");
            assert(no_space("center:"@));
            lemma_vec3_no_space(center);
            reveal_strlit("from:");
            assert(no_space("from:"@));
            lemma_vec3_no_space(from);
            reveal_strlit("to:");
            assert(no_space("to:"@));
            lemma_vec3_no_space(to);
            reveal_strlit("color:");
            assert(no_space("color:"@));
            lemma_color_no_space(color);
        },
        _ => {},
    }
}

proof fn lemma_sphere_no_space(c: GizmoCommand)
    requires
        c is Sphere,
        c.wf(),
    ensures
        no_space(c.enc()),
{
    match c {
        GizmoCommand::Sphere { isometry, radius, color } => {
            reveal_strlit("Sphere");
            assert(no_space("Sphere"@));
            reveal_strlit("isometry:");
            assert(no_space("isometry:"@));
            lemma_isometry3d_no_space(isometry);
            reveal_strlit("radius:");
            assert(no_space("radius:"@));
            lemma_number_no_space(radius@);
            reveal_strlit("color:");
            assert(no_space("color:"@));
            lemma_color_no_space(color);
        },
        _ => {},
    }
}

/// The text of a well-formed command holds no whitespace.
pub proof fn lemma_command_no_space(c: GizmoCommand)
    requires
        c.wf(),
    ensures
        no_space(c.enc()),
{
    match c {
        GizmoCommand::Arc2d { .. } => lemma_arc_2d_no_space(c),
        GizmoCommand::Arc3d { .. } => lemma_arc_3d_no_space(c),
        GizmoCommand::Arrow { .. } => lemma_arrow_no_space(c),
        GizmoCommand::Arrow2d { .. } => lemma_arrow_2d_no_space(c),
        GizmoCommand::Axes { .. } => lemma_axes_no_space(c),
        GizmoCommand::Axes2d { .. } => lemma_axes_2d_no_space(c),
        GizmoCommand::Circle { .. } => lemma_circle_no_space(c),
        GizmoCommand::Circle2d { .. } => lemma_circle_2d_no_space(c),
        GizmoCommand::Cuboid { .. } => lemma_cuboid_no_space(c),
        GizmoCommand::Ellipse { .. } => lemma_ellipse_no_space(c),
        GizmoCommand::Ellipse2d { .. } => lemma_ellipse_2d_no_space(c),
        GizmoCommand::Grid { .. } => lemma_grid_no_space(c),
        GizmoCommand::Grid2d { .. } => lemma_grid_2d_no_space(c),
        GizmoCommand::Grid3d { .. } => lemma_grid_3d_no_space(c),
        GizmoCommand::Line { .. } => lemma_line_no_space(c),
        GizmoCommand::Line2d { .. } => lemma_line_2d_no_space(c),
        GizmoCommand::LineGradient { .. } => lemma_line_gradient_no_space(c),
        GizmoCommand::LineGradient2d { .. } => lemma_line_gradient_2d_no_space(c),
        GizmoCommand::Linestrip { .. } => lemma_linestrip_no_space(c),
        GizmoCommand::Linestrip2d { .. } => lemma_linestrip_2d_no_space(c),
        GizmoCommand::LinestripGradient { .. } => lemma_linestrip_gradient_no_space(c),
        GizmoCommand::LinestripGradient2d { .. } => lemma_linestrip_gradient_2d_no_space(c),
        GizmoCommand::LongArc3dBetween { .. } => lemma_long_arc_3d_between_no_space(c),
        GizmoCommand::Ray { .. } => lemma_ray_no_space(c),
        GizmoCommand::Ray2d { .. } => lemma_ray_2d_no_space(c),
        GizmoCommand::RayGradient { .. } => lemma_ray_gradient_no_space(c),
        GizmoCommand::RayGradient2d { .. } => lemma_ray_gradient_2d_no_space(c),
        GizmoCommand::Rect { .. } => lemma_rect_no_space(c),
        GizmoCommand::Rect2d { .. } => lemma_rect_2d_no_space(c),
        GizmoCommand::RoundedCuboid { .. } => lemma_rounded_cuboid_no_space(c),
        GizmoCommand::RoundedRect { .. } => lemma_rounded_rect_no_space(c),
        GizmoCommand::RoundedRect2d { .. } => lemma_rounded_rect_2d_no_space(c),
        GizmoCommand::ShortArc3dBetween { .. } => lemma_short_arc_3d_between_no_space(c),
        GizmoCommand::Sphere { .. } => lemma_sphere_no_space(c),
    }
}

impl GizmoCommand {
    /// The two commands are of one variant, and each field of one has the
    /// view of the same field of the other: the same number texts, counts,
    /// color spaces and list items.
    pub open spec fn same(&self, other: &GizmoCommand) -> bool {
        match (*self, *other) {
            (GizmoCommand::Arc2d { isometry: isometry_a, arc_angle: arc_angle_a, radius: radius_a, color: color_a }, GizmoCommand::Arc2d { isometry: isometry_b, arc_angle: arc_angle_b, radius: radius_b, color: color_b }) => isometry_a@ == isometry_b@ && arc_angle_a@ == arc_angle_b@ && radius_a@ == radius_b@ && color_a@ == color_b@,
            (GizmoCommand::Arc3d { angle: angle_a, radius: radius_a, isometry: isometry_a, color: color_a }, GizmoCommand::Arc3d { angle: angle_b, radius: radius_b, isometry: isometry_b, color: color_b }) => angle_a@ == angle_b@ && radius_a@ == radius_b@ && isometry_a@ == isometry_b@ && color_a@ == color_b@,
            (GizmoCommand::Arrow { start: start_a, end: end_a, color: color_a }, GizmoCommand::Arrow { start: start_b, end: end_b, color: color_b }) => start_a@ == start_b@ && end_a@ == end_b@ && color_a@ == color_b@,
            (GizmoCommand::Arrow2d { start: start_a, end: end_a, color: color_a }, GizmoCommand::Arrow2d { start: start_b, end: end_b, color: color_b }) => start_a@ == start_b@ && end_a@ == end_b@ && color_a@ == color_b@,
            (GizmoCommand::Axes { transform: transform_a, base_length: base_length_a }, GizmoCommand::Axes { transform: transform_b, base_length: base_length_b }) => transform_a@ == transform_b@ && base_length_a@ == base_length_b@,
            (GizmoCommand::Axes2d { transform: transform_a, base_length: base_length_a }, GizmoCommand::Axes2d { transform: transform_b, base_length: base_length_b }) => transform_a@ == transform_b@ && base_length_a@ == base_length_b@,
            (GizmoCommand::Circle { isometry: isometry_a, radius: radius_a, color: color_a }, GizmoCommand::Circle { isometry: isometry_b, radius: radius_b, color: color_b }) => isometry_a@ == isometry_b@ && radius_a@ == radius_b@ && color_a@ == color_b@,
            (GizmoCommand::Circle2d { position: position_a, radius: radius_a, color: color_a }, GizmoCommand::Circle2d { position: position_b, radius: radius_b, color: color_b }) => position_a@ == position_b@ && radius_a@ == radius_b@ && color_a@ == color_b@,
            (GizmoCommand::Cuboid { transform: transform_a, color: color_a }, GizmoCommand::Cuboid { transform: transform_b, color: color_b }) => transform_a@ == transform_b@ && color_a@ == color_b@,
            (GizmoCommand::Ellipse { isometry: isometry_a, half_size: half_size_a, color: color_a }, GizmoCommand::Ellipse { isometry: isometry_b, half_size: half_size_b, color: color_b }) => isometry_a@ == isometry_b@ && half_size_a@ == half_size_b@ && color_a@ == color_b@,
            (GizmoCommand::Ellipse2d { isometry: isometry_a, half_size: half_size_a, color: color_a }, GizmoCommand::Ellipse2d { isometry: isometry_b, half_size: half_size_b, color: color_b }) => isometry_a@ == isometry_b@ && half_size_a@ == half_size_b@ && color_a@ == color_b@,
            (GizmoCommand::Grid { isometry: isometry_a, cell_count: cell_count_a, spacing: spacing_a, color: color_a }, GizmoCommand::Grid { isometry: isometry_b, cell_count: cell_count_b, spacing: spacing_b, color: color_b }) => isometry_a@ == isometry_b@ && cell_count_a@ == cell_count_b@ && spacing_a@ == spacing_b@ && color_a@ == color_b@,
            (GizmoCommand::Grid2d { isometry: isometry_a, cell_count: cell_count_a, spacing: spacing_a, color: color_a }, GizmoCommand::Grid2d { isometry: isometry_b, cell_count: cell_count_b, spacing: spacing_b, color: color_b }) => isometry_a@ == isometry_b@ && cell_count_a@ == cell_count_b@ && spacing_a@ == spacing_b@ && color_a@ == color_b@,
            (GizmoCommand::Grid3d { isometry: isometry_a, cell_count: cell_count_a, spacing: spacing_a, color: color_a }, GizmoCommand::Grid3d { isometry: isometry_b, cell_count: cell_count_b, spacing: spacing_b, color: color_b }) => isometry_a@ == isometry_b@ && cell_count_a@ == cell_count_b@ && spacing_a@ == spacing_b@ && color_a@ == color_b@,
            (GizmoCommand::Line { start: start_a, end: end_a, color: color_a }, GizmoCommand::Line { start: start_b, end: end_b, color: color_b }) => start_a@ == start_b@ && end_a@ == end_b@ && color_a@ == color_b@,
            (GizmoCommand::Line2d { start: start_a, end: end_a, color: color_a }, GizmoCommand::Line2d { start: start_b, end: end_b, color: color_b }) => start_a@ == start_b@ && end_a@ == end_b@ && color_a@ == color_b@,
            (GizmoCommand::LineGradient { start: start_a, end: end_a, start_color: start_color_a, end_color: end_color_a }, GizmoCommand::LineGradient { start: start_b, end: end_b, start_color: start_color_b, end_color: end_color_b }) => start_a@ == start_b@ && end_a@ == end_b@ && start_color_a@ == start_color_b@ && end_color_a@ == end_color_b@,
            (GizmoCommand::LineGradient2d { start: start_a, end: end_a, start_color: start_color_a, end_color: end_color_a }, GizmoCommand::LineGradient2d { start: start_b, end: end_b, start_color: start_color_b, end_color: end_color_b }) => start_a@ == start_b@ && end_a@ == end_b@ && start_color_a@ == start_color_b@ && end_color_a@ == end_color_b@,
            (GizmoCommand::Linestrip { positions: positions_a, color: color_a }, GizmoCommand::Linestrip { positions: positions_b, color: color_b }) => points3_same(positions_a@, positions_b@) && color_a@ == color_b@,
            (GizmoCommand::Linestrip2d { positions: positions_a, color: color_a }, GizmoCommand::Linestrip2d { positions: positions_b, color: color_b }) => points2_same(positions_a@, positions_b@) && color_a@ == color_b@,
            (GizmoCommand::LinestripGradient { points: points_a }, GizmoCommand::LinestripGradient { points: points_b }) => colored3_same(points_a@, points_b@),
            (GizmoCommand::LinestripGradient2d { positions: positions_a }, GizmoCommand::LinestripGradient2d { positions: positions_b }) => colored2_same(positions_a@, positions_b@),
            (GizmoCommand::LongArc3dBetween { center: center_a, from: from_a, to: to_a, color: color_a }, GizmoCommand::LongArc3dBetween { center: center_b, from: from_b, to: to_b, color: color_b }) => center_a@ == center_b@ && from_a@ == from_b@ && to_a@ == to_b@ && color_a@ == color_b@,
            (GizmoCommand::Ray { start: start_a, vector: vector_a, color: color_a }, GizmoCommand::Ray { start: start_b, vector: vector_b, color: color_b }) => start_a@ == start_b@ && vector_a@ == vector_b@ && color_a@ == color_b@,
            (GizmoCommand::Ray2d { start: start_a, vector: vector_a, color: color_a }, GizmoCommand::Ray2d { start: start_b, vector: vector_b, color: color_b }) => start_a@ == start_b@ && vector_a@ == vector_b@ && color_a@ == color_b@,
            (GizmoCommand::RayGradient { start: start_a, vector: vector_a, start_color: start_color_a, end_color: end_color_a }, GizmoCommand::RayGradient { start: start_b, vector: vector_b, start_color: start_color_b, end_color: end_color_b }) => start_a@ == start_b@ && vector_a@ == vector_b@ && start_color_a@ == start_color_b@ && end_color_a@ == end_color_b@,
            (GizmoCommand::RayGradient2d { start: start_a, vector: vector_a, start_color: start_color_a, end_color: end_color_a }, GizmoCommand::RayGradient2d { start: start_b, vector: vector_b, start_color: start_color_b, end_color: end_color_b }) => start_a@ == start_b@ && vector_a@ == vector_b@ && start_color_a@ == start_color_b@ && end_color_a@ == end_color_b@,
            (GizmoCommand::Rect { isometry: isometry_a, size: size_a, color: color_a }, GizmoCommand::Rect { isometry: isometry_b, size: size_b, color: color_b }) => isometry_a@ == isometry_b@ && size_a@ == size_b@ && color_a@ == color_b@,
            (GizmoCommand::Rect2d { isometry: isometry_a, size: size_a, color: color_a }, GizmoCommand::Rect2d { isometry: isometry_b, size: size_b, color: color_b }) => isometry_a@ == isometry_b@ && size_a@ == size_b@ && color_a@ == color_b@,
            (GizmoCommand::RoundedCuboid { isometry: isometry_a, size: size_a, color: color_a }, GizmoCommand::RoundedCuboid { isometry: isometry_b, size: size_b, color: color_b }) => isometry_a@ == isometry_b@ && size_a@ == size_b@ && color_a@ == color_b@,
            (GizmoCommand::RoundedRect { isometry: isometry_a, size: size_a, color: color_a }, GizmoCommand::RoundedRect { isometry: isometry_b, size: size_b, color: color_b }) => isometry_a@ == isometry_b@ && size_a@ == size_b@ && color_a@ == color_b@,
            (GizmoCommand::RoundedRect2d { isometry: isometry_a, size: size_a, color: color_a }, GizmoCommand::RoundedRect2d { isometry: isometry_b, size: size_b, color: color_b }) => isometry_a@ == isometry_b@ && size_a@ == size_b@ && color_a@ == color_b@,
            (GizmoCommand::ShortArc3dBetween { center: center_a, from: from_a, to: to_a, color: color_a }, GizmoCommand::ShortArc3dBetween { center: center_b, from: from_b, to: to_b, color: color_b }) => center_a@ == center_b@ && from_a@ == from_b@ && to_a@ == to_b@ && color_a@ == color_b@,
            (GizmoCommand::Sphere { isometry: isometry_a, radius: radius_a, color: color_a }, GizmoCommand::Sphere { isometry: isometry_b, radius: radius_b, color: color_b }) => isometry_a@ == isometry_b@ && radius_a@ == radius_b@ && color_a@ == color_b@,
            _ => false,
        }
    }
}


/// Reads a command of the variant at position `k` from the whole of `s`.
pub(crate) fn parse_kind(s: &Vec<char>, k: usize) -> (r: Option<GizmoCommand>)
    ensures
        r matches Some(d) ==> d.wf(),
        forall|c: GizmoCommand|
            c.kind() == k && c.wf() && #[trigger] occurs_at(s@, 0, c.enc()) ==> (r matches Some(d)
                && d.enc() == c.enc() && d.same(&c)),
{
    if k == 0 {
        parse_arc_2d(s)
    } else if k == 1 {
        parse_arc_3d(s)
    } else if k == 2 {
        parse_arrow(s)
    } else if k == 3 {
        parse_arrow_2d(s)
    } else if k == 4 {
        parse_axes(s)
    } else if k == 5 {
        parse_axes_2d(s)
    } else if k == 6 {
        parse_circle(s)
    } else if k == 7 {
        parse_circle_2d(s)
    } else if k == 8 {
        parse_cuboid(s)
    } else if k == 9 {
        parse_ellipse(s)
    } else if k == 10 {
        parse_ellipse_2d(s)
    } else if k == 11 {
        parse_grid(s)
    } else if k == 12 {
        parse_grid_2d(s)
    } else if k == 13 {
        parse_grid_3d(s)
    } else if k == 14 {
        parse_line(s)
    } else if k == 15 {
        parse_line_2d(s)
    } else if k == 16 {
        parse_line_gradient(s)
    } else if k == 17 {
        parse_line_gradient_2d(s)
    } else if k == 18 {
        parse_linestrip(s)
    } else if k == 19 {
        parse_linestrip_2d(s)
    } else if k == 20 {
        parse_linestrip_gradient(s)
    } else if k == 21 {
        parse_linestrip_gradient_2d(s)
    } else if k == 22 {
        parse_long_arc_3d_between(s)
    } else if k == 23 {
        parse_ray(s)
    } else if k == 24 {
        parse_ray_2d(s)
    } else if k == 25 {
        parse_ray_gradient(s)
    } else if k == 26 {
        parse_ray_gradient_2d(s)
    } else if k == 27 {
        parse_rect(s)
    } else if k == 28 {
        parse_rect_2d(s)
    } else if k == 29 {
        parse_rounded_cuboid(s)
    } else if k == 30 {
        parse_rounded_rect(s)
    } else if k == 31 {
        parse_rounded_rect_2d(s)
    } else if k == 32 {
        parse_short_arc_3d_between(s)
    } else if k == 33 {
        parse_sphere(s)
    } else {
        None
    }
}

} // verus!

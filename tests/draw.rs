#![allow(dead_code)]

use gizmo_log::color::Color;
use gizmo_log::command::{DrawLog, GizmoCommand};
use gizmo_log::geometry::{Isometry2d, Isometry3d, Mat4, Quat, Rot2, UVec2, UVec3, Vec2, Vec3, Vec4};
use gizmo_log::scalar::Scalar;
use gizmo_log::wire::decode;

fn n(s: &str) -> Scalar {
    Scalar::parse(s).unwrap()
}

fn v2(x: &str, y: &str) -> Vec2 {
    Vec2 { x: n(x), y: n(y) }
}

fn v3(x: &str, y: &str, z: &str) -> Vec3 {
    Vec3 { x: n(x), y: n(y), z: n(z) }
}

fn v4(x: &str, y: &str, z: &str, w: &str) -> Vec4 {
    Vec4 { x: n(x), y: n(y), z: n(z), w: n(w) }
}

fn white() -> Color {
    Color::Srgba { red: n("1.0"), green: n("1.0"), blue: n("1.0"), alpha: n("1.0") }
}

fn hsva() -> Color {
    Color::Hsva { hue: n("60.0"), saturation: n("0.004"), value: n("1.0"), alpha: n("1.0") }
}

fn iso2() -> Isometry2d {
    Isometry2d { rotation: Rot2 { cos: n("1.0"), sin: n("0.0") }, translation: v2("0.0", "0.0") }
}

fn iso3() -> Isometry3d {
    Isometry3d {
        rotation: Quat { x: n("0.0"), y: n("0.0"), z: n("0.0"), w: n("1.0") },
        translation: v3("-340282350000000000000000000000000000000.0", "NaN", "-inf"),
    }
}

fn identity() -> Mat4 {
    Mat4 {
        x_axis: v4("1.0", "0.0", "0.0", "0.0"),
        y_axis: v4("0.0", "1.0", "0.0", "0.0"),
        z_axis: v4("0.0", "0.0", "1.0", "0.0"),
        w_axis: v4("0.0", "0.0", "0.0", "1.0"),
    }
}

/// One command of every variant.
fn one_of_each() -> Vec<GizmoCommand> {
    vec![
        GizmoCommand::Arc2d { isometry: iso2(), arc_angle: n("2.5"), radius: n("2.5"), color: white() },
        GizmoCommand::Arc3d { angle: n("2.5"), radius: n("2.5"), isometry: iso3(), color: white() },
        GizmoCommand::Arrow { start: v3("1.0", "2.0", "3.0"), end: v3("1.0", "2.0", "3.0"), color: white() },
        GizmoCommand::Arrow2d { start: v2("0.0", "-1.5"), end: v2("0.0", "-1.5"), color: white() },
        GizmoCommand::Axes { transform: identity(), base_length: n("2.5") },
        GizmoCommand::Axes2d { transform: identity(), base_length: n("2.5") },
        GizmoCommand::Circle { isometry: iso3(), radius: n("2.5"), color: white() },
        GizmoCommand::Circle2d { position: v2("0.0", "-1.5"), radius: n("2.5"), color: white() },
        GizmoCommand::Cuboid { transform: identity(), color: white() },
        GizmoCommand::Ellipse { isometry: iso3(), half_size: v2("0.0", "-1.5"), color: white() },
        GizmoCommand::Ellipse2d { isometry: iso2(), half_size: v2("0.0", "-1.5"), color: white() },
        GizmoCommand::Grid { isometry: iso3(), cell_count: UVec2 { x: 10, y: 4294967295 }, spacing: v2("0.0", "-1.5"), color: white() },
        GizmoCommand::Grid2d { isometry: iso2(), cell_count: UVec2 { x: 10, y: 4294967295 }, spacing: v2("0.0", "-1.5"), color: white() },
        GizmoCommand::Grid3d { isometry: iso3(), cell_count: UVec3 { x: 0, y: 1, z: 7 }, spacing: v3("1.0", "2.0", "3.0"), color: white() },
        GizmoCommand::Line { start: v3("1.0", "2.0", "3.0"), end: v3("1.0", "2.0", "3.0"), color: white() },
        GizmoCommand::Line2d { start: v2("0.0", "-1.5"), end: v2("0.0", "-1.5"), color: white() },
        GizmoCommand::LineGradient { start: v3("1.0", "2.0", "3.0"), end: v3("1.0", "2.0", "3.0"), start_color: white(), end_color: white() },
        GizmoCommand::LineGradient2d { start: v2("0.0", "-1.5"), end: v2("0.0", "-1.5"), start_color: white(), end_color: white() },
        GizmoCommand::Linestrip { positions: vec![v3("0.0", "0.0", "0.0")], color: white() },
        GizmoCommand::Linestrip2d { positions: vec![v2("0.0", "0.0"), v2("1.0", "0.0")], color: white() },
        GizmoCommand::LinestripGradient { points: vec![] },
        GizmoCommand::LinestripGradient2d { positions: vec![(v2("0.0", "0.0"), white()), (v2("60.0", "0.004"), hsva())] },
        GizmoCommand::LongArc3dBetween { center: v3("1.0", "2.0", "3.0"), from: v3("1.0", "2.0", "3.0"), to: v3("1.0", "2.0", "3.0"), color: white() },
        GizmoCommand::Ray { start: v3("1.0", "2.0", "3.0"), vector: v3("1.0", "2.0", "3.0"), color: white() },
        GizmoCommand::Ray2d { start: v2("0.0", "-1.5"), vector: v2("0.0", "-1.5"), color: white() },
        GizmoCommand::RayGradient { start: v3("1.0", "2.0", "3.0"), vector: v3("1.0", "2.0", "3.0"), start_color: white(), end_color: white() },
        GizmoCommand::RayGradient2d { start: v2("0.0", "-1.5"), vector: v2("0.0", "-1.5"), start_color: white(), end_color: white() },
        GizmoCommand::Rect { isometry: iso3(), size: v2("0.0", "-1.5"), color: white() },
        GizmoCommand::Rect2d { isometry: iso2(), size: v2("0.0", "-1.5"), color: white() },
        GizmoCommand::RoundedCuboid { isometry: iso3(), size: v3("1.0", "2.0", "3.0"), color: white() },
        GizmoCommand::RoundedRect { isometry: iso3(), size: v2("0.0", "-1.5"), color: white() },
        GizmoCommand::RoundedRect2d { isometry: iso2(), size: v2("0.0", "-1.5"), color: white() },
        GizmoCommand::ShortArc3dBetween { center: v3("1.0", "2.0", "3.0"), from: v3("1.0", "2.0", "3.0"), to: v3("1.0", "2.0", "3.0"), color: white() },
        GizmoCommand::Sphere { isometry: iso3(), radius: n("2.5"), color: white() },
    ]
}

#[test]
fn every_variant_is_drawn_once_as_it_is() {
    for c in one_of_each() {
        let mut surface = DrawLog::new();
        c.clone().draw(&mut surface);
        assert_eq!(surface.commands(), &vec![c]);
    }
}

#[test]
fn drawing_keeps_the_order_of_commands() {
    let mut surface = DrawLog::new();
    for c in one_of_each() {
        c.draw(&mut surface);
    }
    assert_eq!(surface.commands(), &one_of_each());
}

#[test]
fn logged_circle_is_drawn_with_its_values() {
    let text = gizmo_log::gizmo::circle_2d(v2("0.0", "0.0"), n("256.0"), white());
    let decoded = decode(&text).unwrap();
    let mut surface = DrawLog::new();
    decoded.draw(&mut surface);
    let expected = GizmoCommand::Circle2d { position: v2("0.0", "0.0"), radius: n("256.0"), color: white() };
    assert_eq!(surface.commands(), &vec![expected]);
}

#![allow(dead_code)]

use gizmo_log::color::Color;
use gizmo_log::command::{GizmoCommand, GizmoSurface};
use gizmo_log::geometry::{Isometry2d, Isometry3d, Mat4, Quat, Rot2, UVec2, UVec3, Vec2, Vec3, Vec4};
use gizmo_log::scalar::Scalar;
use gizmo_log::gizmo;
use gizmo_log::wire::decode;

fn n(s: &str) -> Scalar {
    Scalar::parse(s).unwrap()
}

fn v2(x: &str, y: &str) -> Vec2 {
    Vec2 { x: n(x), y: n(y) }
}

fn v3(x: &str, y: &str, z: &str) -> Vec3 {
    Vec3 { x: n(x), y: n(y), z: n(z) }
}

fn v4(x: &str, y: &str, z: &str, w: &str) -> Vec4 {
    Vec4 { x: n(x), y: n(y), z: n(z), w: n(w) }
}

fn white() -> Color {
    Color::Srgba { red: n("1.0"), green: n("1.0"), blue: n("1.0"), alpha: n("1.0") }
}

fn hsva() -> Color {
    Color::Hsva { hue: n("60.0"), saturation: n("0.004"), value: n("1.0"), alpha: n("1.0") }
}

fn iso2() -> Isometry2d {
    Isometry2d { rotation: Rot2 { cos: n("1.0"), sin: n("0.0") }, translation: v2("0.0", "0.0") }
}

fn iso3() -> Isometry3d {
    Isometry3d {
        rotation: Quat { x: n("0.0"), y: n("0.0"), z: n("0.0"), w: n("1.0") },
        translation: v3("-340282350000000000000000000000000000000.0", "NaN", "-inf"),
    }
}

fn identity() -> Mat4 {
    Mat4 {
        x_axis: v4("1.0", "0.0", "0.0", "0.0"),
        y_axis: v4("0.0", "1.0", "0.0", "0.0"),
        z_axis: v4("0.0", "0.0", "1.0", "0.0"),
        w_axis: v4("0.0", "0.0", "0.0", "1.0"),
    }
}

/// One command of every variant.
fn one_of_each() -> Vec<GizmoCommand> {
    vec![
        GizmoCommand::Arc2d { isometry: iso2(), arc_angle: n("2.5"), radius: n("2.5"), color: white() },
        GizmoCommand::Arc3d { angle: n("2.5"), radius: n("2.5"), isometry: iso3(), color: white() },
        GizmoCommand::Arrow { start: v3("1.0", "2.0", "3.0"), end: v3("1.0", "2.0", "3.0"), color: white() },
        GizmoCommand::Arrow2d { start: v2("0.0", "-1.5"), end: v2("0.0", "-1.5"), color: white() },
        GizmoCommand::Axes { transform: identity(), base_length: n("2.5") },
        GizmoCommand::Axes2d { transform: identity(), base_length: n("2.5") },
        GizmoCommand::Circle { isometry: iso3(), radius: n("2.5"), color: white() },
        GizmoCommand::Circle2d { position: v2("0.0", "-1.5"), radius: n("2.5"), color: white() },
        GizmoCommand::Cuboid { transform: identity(), color: white() },
        GizmoCommand::Ellipse { isometry: iso3(), half_size: v2("0.0", "-1.5"), color: white() },
        GizmoCommand::Ellipse2d { isometry: iso2(), half_size: v2("0.0", "-1.5"), color: white() },
        GizmoCommand::Grid { isometry: iso3(), cell_count: UVec2 { x: 10, y: 4294967295 }, spacing: v2("0.0", "-1.5"), color: white() },
        GizmoCommand::Grid2d { isometry: iso2(), cell_count: UVec2 { x: 10, y: 4294967295 }, spacing: v2("0.0", "-1.5"), color: white() },
        GizmoCommand::Grid3d { isometry: iso3(), cell_count: UVec3 { x: 0, y: 1, z: 7 }, spacing: v3("1.0", "2.0", "3.0"), color: white() },
        GizmoCommand::Line { start: v3("1.0", "2.0", "3.0"), end: v3("1.0", "2.0", "3.0"), color: white() },
        GizmoCommand::Line2d { start: v2("0.0", "-1.5"), end: v2("0.0", "-1.5"), color: white() },
        GizmoCommand::LineGradient { start: v3("1.0", "2.0", "3.0"), end: v3("1.0", "2.0", "3.0"), start_color: white(), end_color: white() },
        GizmoCommand::LineGradient2d { start: v2("0.0", "-1.5"), end: v2("0.0", "-1.5"), start_color: white(), end_color: white() },
        GizmoCommand::Linestrip { positions: vec![v3("0.0", "0.0", "0.0")], color: white() },
        GizmoCommand::Linestrip2d { positions: vec![v2("0.0", "0.0"), v2("1.0", "0.0")], color: white() },
        GizmoCommand::LinestripGradient { points: vec![] },
        GizmoCommand::LinestripGradient2d { positions: vec![(v2("0.0", "0.0"), white()), (v2("60.0", "0.004"), hsva())] },
        GizmoCommand::LongArc3dBetween { center: v3("1.0", "2.0", "3.0"), from: v3("1.0", "2.0", "3.0"), to: v3("1.0", "2.0", "3.0"), color: white() },
        GizmoCommand::Ray { start: v3("1.0", "2.0", "3.0"), vector: v3("1.0", "2.0", "3.0"), color: white() },
        GizmoCommand::Ray2d { start: v2("0.0", "-1.5"), vector: v2("0.0", "-1.5"), color: white() },
        GizmoCommand::RayGradient { start: v3("1.0", "2.0", "3.0"), vector: v3("1.0", "2.0", "3.0"), start_color: white(), end_color: white() },
        GizmoCommand::RayGradient2d { start: v2("0.0", "-1.5"), vector: v2("0.0", "-1.5"), start_color: white(), end_color: white() },
        GizmoCommand::Rect { isometry: iso3(), size: v2("0.0", "-1.5"), color: white() },
        GizmoCommand::Rect2d { isometry: iso2(), size: v2("0.0", "-1.5"), color: white() },
        GizmoCommand::RoundedCuboid { isometry: iso3(), size: v3("1.0", "2.0", "3.0"), color: white() },
        GizmoCommand::RoundedRect { isometry: iso3(), size: v2("0.0", "-1.5"), color: white() },
        GizmoCommand::RoundedRect2d { isometry: iso2(), size: v2("0.0", "-1.5"), color: white() },
        GizmoCommand::ShortArc3dBetween { center: v3("1.0", "2.0", "3.0"), from: v3("1.0", "2.0", "3.0"), to: v3("1.0", "2.0", "3.0"), color: white() },
        GizmoCommand::Sphere { isometry: iso3(), radius: n("2.5"), color: white() },
    ]
}

#[test]
fn each_builder_writes_its_command() {
    assert_eq!(gizmo::arc_2d(iso2(), n("2.5"), n("2.5"), white()), (GizmoCommand::Arc2d { isometry: iso2(), arc_angle: n("2.5"), radius: n("2.5"), color: white() }).to_text());
    assert_eq!(gizmo::arc_3d(n("2.5"), n("2.5"), iso3(), white()), (GizmoCommand::Arc3d { angle: n("2.5"), radius: n("2.5"), isometry: iso3(), color: white() }).to_text());
    assert_eq!(gizmo::arrow(v3("1.0", "2.0", "3.0"), v3("1.0", "2.0", "3.0"), white()), (GizmoCommand::Arrow { start: v3("1.0", "2.0", "3.0"), end: v3("1.0", "2.0", "3.0"), color: white() }).to_text());
    assert_eq!(gizmo::arrow_2d(v2("0.0", "-1.5"), v2("0.0", "-1.5"), white()), (GizmoCommand::Arrow2d { start: v2("0.0", "-1.5"), end: v2("0.0", "-1.5"), color: white() }).to_text());
    assert_eq!(gizmo::axes(identity(), n("2.5")), (GizmoCommand::Axes { transform: identity(), base_length: n("2.5") }).to_text());
    assert_eq!(gizmo::axes_2d(identity(), n("2.5")), (GizmoCommand::Axes2d { transform: identity(), base_length: n("2.5") }).to_text());
    assert_eq!(gizmo::circle(iso3(), n("2.5"), white()), (GizmoCommand::Circle { isometry: iso3(), radius: n("2.5"), color: white() }).to_text());
    assert_eq!(gizmo::circle_2d(v2("0.0", "-1.5"), n("2.5"), white()), (GizmoCommand::Circle2d { position: v2("0.0", "-1.5"), radius: n("2.5"), color: white() }).to_text());
    assert_eq!(gizmo::cuboid(identity(), white()), (GizmoCommand::Cuboid { transform: identity(), color: white() }).to_text());
    assert_eq!(gizmo::ellipse(iso3(), v2("0.0", "-1.5"), white()), (GizmoCommand::Ellipse { isometry: iso3(), half_size: v2("0.0", "-1.5"), color: white() }).to_text());
    assert_eq!(gizmo::ellipse_2d(iso2(), v2("0.0", "-1.5"), white()), (GizmoCommand::Ellipse2d { isometry: iso2(), half_size: v2("0.0", "-1.5"), color: white() }).to_text());
    assert_eq!(gizmo::grid(iso3(), UVec2 { x: 10, y: 4294967295 }, v2("0.0", "-1.5"), white()), (GizmoCommand::Grid { isometry: iso3(), cell_count: UVec2 { x: 10, y: 4294967295 }, spacing: v2("0.0", "-1.5"), color: white() }).to_text());
    assert_eq!(gizmo::grid_2d(iso2(), UVec2 { x: 10, y: 4294967295 }, v2("0.0", "-1.5"), white()), (GizmoCommand::Grid2d { isometry: iso2(), cell_count: UVec2 { x: 10, y: 4294967295 }, spacing: v2("0.0", "-1.5"), color: white() }).to_text());
    assert_eq!(gizmo::grid_3d(iso3(), UVec3 { x: 0, y: 1, z: 7 }, v3("1.0", "2.0", "3.0"), white()), (GizmoCommand::Grid3d { isometry: iso3(), cell_count: UVec3 { x: 0, y: 1, z: 7 }, spacing: v3("1.0", "2.0", "3.0"), color: white() }).to_text());
    assert_eq!(gizmo::line(v3("1.0", "2.0", "3.0"), v3("1.0", "2.0", "3.0"), white()), (GizmoCommand::Line { start: v3("1.0", "2.0", "3.0"), end: v3("1.0", "2.0", "3.0"), color: white() }).to_text());
    assert_eq!(gizmo::line_2d(v2("0.0", "-1.5"), v2("0.0", "-1.5"), white()), (GizmoCommand::Line2d { start: v2("0.0", "-1.5"), end: v2("0.0", "-1.5"), color: white() }).to_text());
    assert_eq!(gizmo::line_gradient(v3("1.0", "2.0", "3.0"), v3("1.0", "2.0", "3.0"), white(), white()), (GizmoCommand::LineGradient { start: v3("1.0", "2.0", "3.0"), end: v3("1.0", "2.0", "3.0"), start_color: white(), end_color: white() }).to_text());
    assert_eq!(gizmo::line_gradient_2d(v2("0.0", "-1.5"), v2("0.0", "-1.5"), white(), white()), (GizmoCommand::LineGradient2d { start: v2("0.0", "-1.5"), end: v2("0.0", "-1.5"), start_color: white(), end_color: white() }).to_text());
    assert_eq!(gizmo::linestrip(vec![v3("0.0", "0.0", "0.0")], white()), (GizmoCommand::Linestrip { positions: vec![v3("0.0", "0.0", "0.0")], color: white() }).to_text());
    assert_eq!(gizmo::linestrip_2d(vec![v2("0.0", "0.0"), v2("1.0", "0.0")], white()), (GizmoCommand::Linestrip2d { positions: vec![v2("0.0", "0.0"), v2("1.0", "0.0")], color: white() }).to_text());
    assert_eq!(gizmo::linestrip_gradient(vec![]), (GizmoCommand::LinestripGradient { points: vec![] }).to_text());
    assert_eq!(gizmo::linestrip_gradient_2d(vec![(v2("0.0", "0.0"), white()), (v2("60.0", "0.004"), hsva())]), (GizmoCommand::LinestripGradient2d { positions: vec![(v2("0.0", "0.0"), white()), (v2("60.0", "0.004"), hsva())] }).to_text());
    assert_eq!(gizmo::long_arc_3d_between(v3("1.0", "2.0", "3.0"), v3("1.0", "2.0", "3.0"), v3("1.0", "2.0", "3.0"), white()), (GizmoCommand::LongArc3dBetween { center: v3("1.0", "2.0", "3.0"), from: v3("1.0", "2.0", "3.0"), to: v3("1.0", "2.0", "3.0"), color: white() }).to_text());
    assert_eq!(gizmo::ray(v3("1.0", "2.0", "3.0"), v3("1.0", "2.0", "3.0"), white()), (GizmoCommand::Ray { start: v3("1.0", "2.0", "3.0"), vector: v3("1.0", "2.0", "3.0"), color: white() }).to_text());
    assert_eq!(gizmo::ray_2d(v2("0.0", "-1.5"), v2("0.0", "-1.5"), white()), (GizmoCommand::Ray2d { start: v2("0.0", "-1.5"), vector: v2("0.0", "-1.5"), color: white() }).to_text());
    assert_eq!(gizmo::ray_gradient(v3("1.0", "2.0", "3.0"), v3("1.0", "2.0", "3.0"), white(), white()), (GizmoCommand::RayGradient { start: v3("1.0", "2.0", "3.0"), vector: v3("1.0", "2.0", "3.0"), start_color: white(), end_color: white() }).to_text());
    assert_eq!(gizmo::ray_gradient_2d(v2("0.0", "-1.5"), v2("0.0", "-1.5"), white(), white()), (GizmoCommand::RayGradient2d { start: v2("0.0", "-1.5"), vector: v2("0.0", "-1.5"), start_color: white(), end_color: white() }).to_text());
    assert_eq!(gizmo::rect(iso3(), v2("0.0", "-1.5"), white()), (GizmoCommand::Rect { isometry: iso3(), size: v2("0.0", "-1.5"), color: white() }).to_text());
    assert_eq!(gizmo::rect_2d(iso2(), v2("0.0", "-1.5"), white()), (GizmoCommand::Rect2d { isometry: iso2(), size: v2("0.0", "-1.5"), color: white() }).to_text());
    assert_eq!(gizmo::rounded_cuboid(iso3(), v3("1.0", "2.0", "3.0"), white()), (GizmoCommand::RoundedCuboid { isometry: iso3(), size: v3("1.0", "2.0", "3.0"), color: white() }).to_text());
    assert_eq!(gizmo::rounded_rect(iso3(), v2("0.0", "-1.5"), white()), (GizmoCommand::RoundedRect { isometry: iso3(), size: v2("0.0", "-1.5"), color: white() }).to_text());
    assert_eq!(gizmo::rounded_rect_2d(iso2(), v2("0.0", "-1.5"), white()), (GizmoCommand::RoundedRect2d { isometry: iso2(), size: v2("0.0", "-1.5"), color: white() }).to_text());
    assert_eq!(gizmo::short_arc_3d_between(v3("1.0", "2.0", "3.0"), v3("1.0", "2.0", "3.0"), v3("1.0", "2.0", "3.0"), white()), (GizmoCommand::ShortArc3dBetween { center: v3("1.0", "2.0", "3.0"), from: v3("1.0", "2.0", "3.0"), to: v3("1.0", "2.0", "3.0"), color: white() }).to_text());
    assert_eq!(gizmo::sphere(iso3(), n("2.5"), white()), (GizmoCommand::Sphere { isometry: iso3(), radius: n("2.5"), color: white() }).to_text());
}

#[test]
fn line_strip_keeps_points_in_order() {
    let text = gizmo::linestrip_2d(vec![v2("0.0", "0.0"), v2("1.0", "0.0"), v2("2.0", "1.0")], white());
    assert_eq!(text, "Linestrip2d(positions:[(0.0,0.0),(1.0,0.0),(2.0,1.0)],color:Srgba((red:1.0,green:1.0,blue:1.0,alpha:1.0)))");
    match decode(&text) {
        Some(GizmoCommand::Linestrip2d { positions, .. }) => {
            assert_eq!(positions, vec![v2("0.0", "0.0"), v2("1.0", "0.0"), v2("2.0", "1.0")]);
        },
        other => panic!("unexpected {:?}", other),
    }
}

#[test]
fn empty_line_strip_is_an_empty_list() {
    let text = gizmo::linestrip_2d(vec![], white());
    assert_eq!(text, "Linestrip2d(positions:[],color:Srgba((red:1.0,green:1.0,blue:1.0,alpha:1.0)))");
    assert_eq!(decode(&text), Some(GizmoCommand::Linestrip2d { positions: vec![], color: white() }));
}

#[test]
fn gradient_strip_keeps_each_point_with_its_color() {
    let text = gizmo::linestrip_gradient_2d(vec![(v2("0.0", "0.0"), white()), (v2("60.0", "0.004"), hsva())]);
    assert_eq!(
        text,
        "LinestripGradient2d(positions:[((0.0,0.0),Srgba((red:1.0,green:1.0,blue:1.0,alpha:1.0))),((60.0,0.004),Hsva((hue:60.0,saturation:0.004,value:1.0,alpha:1.0)))])"
    );
}

#[test]
fn circle_2d_builder_text() {
    let text = gizmo::circle_2d(v2("0.0", "0.0"), n("256.0"), white());
    assert_eq!(text, "Circle2d(position:(0.0,0.0),radius:256.0,color:Srgba((red:1.0,green:1.0,blue:1.0,alpha:1.0)))");
}

#[test]
fn arrow_builder_text() {
    let text = gizmo::arrow(v3("0.0", "0.0", "0.0"), v3("1.0", "1.0", "1.0"), Color::LinearRgba { red: n("1.0"), green: n("0.0"), blue: n("0.0"), alpha: n("1.0") });
    assert_eq!(text, "Arrow(start:(0.0,0.0,0.0),end:(1.0,1.0,1.0),color:LinearRgba((red:1.0,green:0.0,blue:0.0,alpha:1.0)))");
}

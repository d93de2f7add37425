#![allow(dead_code)]

use gizmo_log::color::Color;
use gizmo_log::command::{GizmoCommand, GizmoSurface};
use gizmo_log::geometry::{Isometry2d, Isometry3d, Mat4, Quat, Rot2, UVec2, UVec3, Vec2, Vec3, Vec4};
use gizmo_log::scalar::Scalar;
use gizmo_log::wire::decode;

fn n(s: &str) -> Scalar {
    Scalar::parse(s).unwrap()
}

fn v2(x: &str, y: &str) -> Vec2 {
    Vec2 { x: n(x), y: n(y) }
}

fn v3(x: &str, y: &str, z: &str) -> Vec3 {
    Vec3 { x: n(x), y: n(y), z: n(z) }
}

fn v4(x: &str, y: &str, z: &str, w: &str) -> Vec4 {
    Vec4 { x: n(x), y: n(y), z: n(z), w: n(w) }
}

fn white() -> Color {
    Color::Srgba { red: n("1.0"), green: n("1.0"), blue: n("1.0"), alpha: n("1.0") }
}

fn hsva() -> Color {
    Color::Hsva { hue: n("60.0"), saturation: n("0.004"), value: n("1.0"), alpha: n("1.0") }
}

fn iso2() -> Isometry2d {
    Isometry2d { rotation: Rot2 { cos: n("1.0"), sin: n("0.0") }, translation: v2("0.0", "0.0") }
}

fn iso3() -> Isometry3d {
    Isometry3d {
        rotation: Quat { x: n("0.0"), y: n("0.0"), z: n("0.0"), w: n("1.0") },
        translation: v3("-340282350000000000000000000000000000000.0", "NaN", "-inf"),
    }
}

fn identity() -> Mat4 {
    Mat4 {
        x_axis: v4("1.0", "0.0", "0.0", "0.0"),
        y_axis: v4("0.0", "1.0", "0.0", "0.0"),
        z_axis: v4("0.0", "0.0", "1.0", "0.0"),
        w_axis: v4("0.0", "0.0", "0.0", "1.0"),
    }
}

/// One command of every variant.
fn one_of_each() -> Vec<GizmoCommand> {
    vec![
        GizmoCommand::Arc2d { isometry: iso2(), arc_angle: n("2.5"), radius: n("2.5"), color: white() },
        GizmoCommand::Arc3d { angle: n("2.5"), radius: n("2.5"), isometry: iso3(), color: white() },
        GizmoCommand::Arrow { start: v3("1.0", "2.0", "3.0"), end: v3("1.0", "2.0", "3.0"), color: white() },
        GizmoCommand::Arrow2d { start: v2("0.0", "-1.5"), end: v2("0.0", "-1.5"), color: white() },
        GizmoCommand::Axes { transform: identity(), base_length: n("2.5") },
        GizmoCommand::Axes2d { transform: identity(), base_length: n("2.5") },
        GizmoCommand::Circle { isometry: iso3(), radius: n("2.5"), color: white() },
        GizmoCommand::Circle2d { position: v2("0.0", "-1.5"), radius: n("2.5"), color: white() },
        GizmoCommand::Cuboid { transform: identity(), color: white() },
        GizmoCommand::Ellipse { isometry: iso3(), half_size: v2("0.0", "-1.5"), color: white() },
        GizmoCommand::Ellipse2d { isometry: iso2(), half_size: v2("0.0", "-1.5"), color: white() },
        GizmoCommand::Grid { isometry: iso3(), cell_count: UVec2 { x: 10, y: 4294967295 }, spacing: v2("0.0", "-1.5"), color: white() },
        GizmoCommand::Grid2d { isometry: iso2(), cell_count: UVec2 { x: 10, y: 4294967295 }, spacing: v2("0.0", "-1.5"), color: white() },
        GizmoCommand::Grid3d { isometry: iso3(), cell_count: UVec3 { x: 0, y: 1, z: 7 }, spacing: v3("1.0", "2.0", "3.0"), color: white() },
        GizmoCommand::Line { start: v3("1.0", "2.0", "3.0"), end: v3("1.0", "2.0", "3.0"), color: white() },
        GizmoCommand::Line2d { start: v2("0.0", "-1.5"), end: v2("0.0", "-1.5"), color: white() },
        GizmoCommand::LineGradient { start: v3("1.0", "2.0", "3.0"), end: v3("1.0", "2.0", "3.0"), start_color: white(), end_color: white() },
        GizmoCommand::LineGradient2d { start: v2("0.0", "-1.5"), end: v2("0.0", "-1.5"), start_color: white(), end_color: white() },
        GizmoCommand::Linestrip { positions: vec![v3("0.0", "0.0", "0.0")], color: white() },
        GizmoCommand::Linestrip2d { positions: vec![v2("0.0", "0.0"), v2("1.0", "0.0")], color: white() },
        GizmoCommand::LinestripGradient { points: vec![] },
        GizmoCommand::LinestripGradient2d { positions: vec![(v2("0.0", "0.0"), white()), (v2("60.0", "0.004"), hsva())] },
        GizmoCommand::LongArc3dBetween { center: v3("1.0", "2.0", "3.0"), from: v3("1.0", "2.0", "3.0"), to: v3("1.0", "2.0", "3.0"), color: white() },
        GizmoCommand::Ray { start: v3("1.0", "2.0", "3.0"), vector: v3("1.0", "2.0", "3.0"), color: white() },
        GizmoCommand::Ray2d { start: v2("0.0", "-1.5"), vector: v2("0.0", "-1.5"), color: white() },
        GizmoCommand::RayGradient { start: v3("1.0", "2.0", "3.0"), vector: v3("1.0", "2.0", "3.0"), start_color: white(), end_color: white() },
        GizmoCommand::RayGradient2d { start: v2("0.0", "-1.5"), vector: v2("0.0", "-1.5"), start_color: white(), end_color: white() },
        GizmoCommand::Rect { isometry: iso3(), size: v2("0.0", "-1.5"), color: white() },
        GizmoCommand::Rect2d { isometry: iso2(), size: v2("0.0", "-1.5"), color: white() },
        GizmoCommand::RoundedCuboid { isometry: iso3(), size: v3("1.0", "2.0", "3.0"), color: white() },
        GizmoCommand::RoundedRect { isometry: iso3(), size: v2("0.0", "-1.5"), color: white() },
        GizmoCommand::RoundedRect2d { isometry: iso2(), size: v2("0.0", "-1.5"), color: white() },
        GizmoCommand::ShortArc3dBetween { center: v3("1.0", "2.0", "3.0"), from: v3("1.0", "2.0", "3.0"), to: v3("1.0", "2.0", "3.0"), color: white() },
        GizmoCommand::Sphere { isometry: iso3(), radius: n("2.5"), color: white() },
    ]
}

#[test]
fn every_variant_survives_a_round_trip() {
    for c in one_of_each() {
        let text = c.to_text();
        assert_eq!(decode(&text), Some(c.clone()), "{}", text);
    }
}

#[test]
fn each_variant_is_decoded_under_its_own_tag() {
    let all = one_of_each();
    assert_eq!(all.len(), 34);
    for c in all {
        let decoded = decode(&c.to_text()).unwrap();
        assert_eq!(std::mem::discriminant(&decoded), std::mem::discriminant(&c));
    }
}

#[test]
fn circle_2d_text_is_exact() {
    let c = GizmoCommand::Circle2d { position: v2("0.0", "0.0"), radius: n("256.0"), color: white() };
    assert_eq!(c.to_text(), "Circle2d(position:(0.0,0.0),radius:256.0,color:Srgba((red:1.0,green:1.0,blue:1.0,alpha:1.0)))");
}

#[test]
fn isometry_and_matrix_texts_are_exact() {
    let c = GizmoCommand::Ellipse2d { isometry: iso2(), half_size: v2("1.0", "2.0"), color: hsva() };
    assert_eq!(
        c.to_text(),
        "Ellipse2d(isometry:(rotation:(cos:1.0,sin:0.0),translation:(0.0,0.0)),half_size:(1.0,2.0),color:Hsva((hue:60.0,saturation:0.004,value:1.0,alpha:1.0)))"
    );
    let a = GizmoCommand::Axes { transform: identity(), base_length: n("1.0") };
    assert_eq!(
        a.to_text(),
        "Axes(transform:(1.0,0.0,0.0,0.0,0.0,1.0,0.0,0.0,0.0,0.0,1.0,0.0,0.0,0.0,0.0,1.0),base_length:1.0)"
    );
}

#[test]
fn counts_are_written_in_decimal() {
    let c = GizmoCommand::Grid3d {
        isometry: iso3(),
        cell_count: UVec3 { x: 0, y: 10, z: 4294967295 },
        spacing: v3("1.0", "1.0", "1.0"),
        color: white(),
    };
    let text = c.to_text();
    assert!(text.contains("cell_count:(0,10,4294967295)"));
    assert_eq!(decode(&text), Some(c));
}

#[test]
fn whitespace_between_symbols_is_ignored() {
    let text = " Circle2d (\n  position: (0.0, 0.0),\n  radius: 256.0,\n  color: Srgba((red: 1.0, green: 1.0, blue: 1.0, alpha: 1.0)),\n)";
    // the trailing comma above is not part of the format
    assert_eq!(decode(text), None);
    let text = " Circle2d (\n  position: (0.0, 0.0),\n  radius: 256.0,\n  color: Srgba((red: 1.0, green: 1.0, blue: 1.0, alpha: 1.0))\n)\t";
    let expected = GizmoCommand::Circle2d { position: v2("0.0", "0.0"), radius: n("256.0"), color: white() };
    assert_eq!(decode(text), Some(expected));
}

#[test]
fn whitespace_inside_names_and_numbers_is_rejected() {
    assert_eq!(decode("Circle2d(position:(0.0,0.0),radius:25 6.0,color:Srgba((red:1.0,green:1.0,blue:1.0,alpha:1.0)))"), None);
    assert_eq!(decode("Circle 2d(position:(0.0,0.0),radius:256.0,color:Srgba((red:1.0,green:1.0,blue:1.0,alpha:1.0)))"), None);
    assert_eq!(decode("Circle2d(posi\ttion:(0.0,0.0),radius:256.0,color:Srgba((red:1.0,green:1.0,blue:1.0,alpha:1.0)))"), None);
    assert_eq!(decode("Circle2d(position:(0.0,0.0),radius:256.0,color:Srg ba((red:1.0,green:1.0,blue:1.0,alpha:1.0)))"), None);
}

#[test]
fn unknown_variant_is_rejected() {
    assert_eq!(decode("Circle3d(position:(0.0,0.0),radius:256.0,color:Srgba((red:1.0,green:1.0,blue:1.0,alpha:1.0)))"), None);
    assert_eq!(decode("Circle2d(position:(0.0,0.0),radius:256.0,color:Rgb((red:1.0,green:1.0,blue:1.0,alpha:1.0)))"), None);
}

#[test]
fn missing_or_renamed_field_is_rejected() {
    assert_eq!(decode("Circle2d(position:(0.0,0.0),color:Srgba((red:1.0,green:1.0,blue:1.0,alpha:1.0)))"), None);
    assert_eq!(decode("Circle2d(center:(0.0,0.0),radius:256.0,color:Srgba((red:1.0,green:1.0,blue:1.0,alpha:1.0)))"), None);
    assert_eq!(decode("Circle2d(radius:256.0,position:(0.0,0.0),color:Srgba((red:1.0,green:1.0,blue:1.0,alpha:1.0)))"), None);
}

#[test]
fn mistyped_field_is_rejected() {
    assert_eq!(decode("Circle2d(position:(0.0,0.0,0.0),radius:256.0,color:Srgba((red:1.0,green:1.0,blue:1.0,alpha:1.0)))"), None);
    assert_eq!(decode("Circle2d(position:(0.0,0.0),radius:big,color:Srgba((red:1.0,green:1.0,blue:1.0,alpha:1.0)))"), None);
    assert_eq!(decode("Grid2d(isometry:(rotation:(cos:1.0,sin:0.0),translation:(0.0,0.0)),cell_count:(1.5,2),spacing:(1.0,1.0),color:Srgba((red:1.0,green:1.0,blue:1.0,alpha:1.0)))"), None);
    assert_eq!(decode("Grid2d(isometry:(rotation:(cos:1.0,sin:0.0),translation:(0.0,0.0)),cell_count:(4294967296,2),spacing:(1.0,1.0),color:Srgba((red:1.0,green:1.0,blue:1.0,alpha:1.0)))"), None);
    assert_eq!(decode("Grid2d(isometry:(rotation:(cos:1.0,sin:0.0),translation:(0.0,0.0)),cell_count:(01,2),spacing:(1.0,1.0),color:Srgba((red:1.0,green:1.0,blue:1.0,alpha:1.0)))"), None);
}

#[test]
fn malformed_text_is_rejected() {
    assert_eq!(decode(""), None);
    assert_eq!(decode("hello world"), None);
    assert_eq!(decode("Circle2d(position:(0.0,0.0),radius:256.0,color:Srgba((red:1.0,green:1.0,blue:1.0,alpha:1.0))"), None);
    assert_eq!(decode("Circle2d(position:(0.0,0.0),radius:256.0,color:Srgba((red:1.0,green:1.0,blue:1.0,alpha:1.0))))"), None);
}

#[test]
fn empty_and_single_point_lists_survive_a_round_trip() {
    let cases = vec![
        GizmoCommand::Linestrip { positions: vec![], color: white() },
        GizmoCommand::Linestrip { positions: vec![v3("0.0", "0.0", "0.0")], color: white() },
        GizmoCommand::LinestripGradient { points: vec![(v3("1.0", "2.0", "3.0"), hsva())] },
        GizmoCommand::LinestripGradient2d { positions: vec![] },
        GizmoCommand::Linestrip2d { positions: vec![v2("0.0", "0.0"), v2("0.0", "0.0")], color: white() },
    ];
    for c in cases {
        assert_eq!(decode(&c.to_text()), Some(c.clone()));
    }
}

#[test]
fn number_texts() {
    for ok in ["0.0", "256.0", "-0.5", "1", "007.25", "inf", "-inf", "NaN", "340282350000000000000000000000000000000.0"] {
        assert_eq!(Scalar::parse(ok).map(|s| s.to_text()), Some(ok.to_string()));
    }
    for bad in ["", "-", "1.", ".5", "1.2.3", "--1", "1e5", "nan", "+1.0", "1 0", "0x10"] {
        assert_eq!(Scalar::parse(bad), None, "{}", bad);
    }
}

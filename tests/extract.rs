#![allow(dead_code)]

use gizmo_log::color::Color;
use gizmo_log::command::GizmoCommand;
use gizmo_log::extract::{extract, FieldValue, LogField};
use gizmo_log::geometry::Vec2;
use gizmo_log::gizmo::circle_2d;
use gizmo_log::scalar::Scalar;

fn n(s: &str) -> Scalar {
    Scalar::parse(s).unwrap()
}

fn white() -> Color {
    Color::Srgba { red: n("1.0"), green: n("1.0"), blue: n("1.0"), alpha: n("1.0") }
}

fn circle(radius: &str) -> GizmoCommand {
    GizmoCommand::Circle2d { position: Vec2 { x: n("0.0"), y: n("0.0") }, radius: n(radius), color: white() }
}

fn text(name: &str, value: &str) -> LogField {
    LogField { name: name.to_string(), value: FieldValue::Text(value.to_string()) }
}

fn other(name: &str) -> LogField {
    LogField { name: name.to_string(), value: FieldValue::Other }
}

#[test]
fn record_without_gizmo_field_gives_nothing() {
    let fields = vec![text("message", "hello"), other("count"), text("target", &circle("1.0").to_text())];
    assert_eq!(extract(&fields), None);
    assert_eq!(extract(&vec![]), None);
}

#[test]
fn invalid_gizmo_text_gives_nothing() {
    assert_eq!(extract(&vec![text("gizmo", "not a command")]), None);
    assert_eq!(extract(&vec![text("gizmo", "")]), None);
    assert_eq!(extract(&vec![other("gizmo")]), None);
}

#[test]
fn valid_gizmo_text_gives_its_command() {
    let fields = vec![text("message", "drawing"), text("gizmo", &circle("2.0").to_text())];
    assert_eq!(extract(&fields), Some(circle("2.0")));
}

#[test]
fn first_valid_gizmo_field_wins() {
    let fields = vec![
        other("gizmo"),
        text("gizmo", "garbage"),
        text("gizmo", &circle("3.0").to_text()),
        text("gizmo", &circle("4.0").to_text()),
    ];
    assert_eq!(extract(&fields), Some(circle("3.0")));
}

#[test]
fn field_names_must_match_exactly() {
    let fields = vec![text("Gizmo", &circle("1.0").to_text()), text("gizmos", &circle("1.0").to_text())];
    assert_eq!(extract(&fields), None);
}

#[test]
fn logged_circle_is_extracted_with_its_values() {
    let logged = circle_2d(Vec2 { x: n("0.0"), y: n("0.0") }, n("256"), white());
    let got = extract(&vec![text("gizmo", &logged)]).unwrap();
    match got {
        GizmoCommand::Circle2d { position, radius, color } => {
            assert_eq!(position.x.to_text(), "0.0");
            assert_eq!(position.y.to_text(), "0.0");
            assert_eq!(radius.to_text(), "256");
            assert_eq!(color, white());
        },
        other => panic!("unexpected {:?}", other),
    }
}

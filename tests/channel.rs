#![allow(dead_code)]

use gizmo_log::channel::CommandChannel;
use gizmo_log::color::Color;
use gizmo_log::command::GizmoCommand;
use gizmo_log::geometry::Vec2;
use gizmo_log::scalar::Scalar;

fn n(s: &str) -> Scalar {
    Scalar::parse(s).unwrap()
}

fn circle(radius: &str) -> GizmoCommand {
    GizmoCommand::Circle2d {
        position: Vec2 { x: n("0.0"), y: n("0.0") },
        radius: n(radius),
        color: Color::Srgba { red: n("1.0"), green: n("1.0"), blue: n("1.0"), alpha: n("1.0") },
    }
}

#[test]
fn drain_returns_commands_in_send_order() {
    let mut ch = CommandChannel::new();
    ch.send(circle("1.0"));
    ch.send(circle("2.0"));
    ch.send(circle("3.0"));
    assert_eq!(ch.len(), 3);
    assert_eq!(ch.drain(), vec![circle("1.0"), circle("2.0"), circle("3.0")]);
    assert_eq!(ch.len(), 0);
}

#[test]
fn draining_an_empty_channel_gives_nothing() {
    let mut ch = CommandChannel::new();
    assert_eq!(ch.drain(), vec![]);
    assert_eq!(ch.drain(), vec![]);
}

#[test]
fn commands_sent_after_a_drain_wait_for_the_next_one() {
    let mut ch = CommandChannel::new();
    ch.send(circle("1.0"));
    assert_eq!(ch.drain(), vec![circle("1.0")]);
    ch.send(circle("2.0"));
    ch.send(circle("1.0"));
    assert_eq!(ch.drain(), vec![circle("2.0"), circle("1.0")]);
    assert_eq!(ch.drain(), vec![]);
}

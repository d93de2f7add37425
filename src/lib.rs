//! Debug-drawing commands ("gizmos") carried as text.
//!
//! A gizmo is described by a [`command::GizmoCommand`], encoded into a compact,
//! self-describing text form, handed through a log record, decoded again and
//! dispatched to a drawing surface. Numbers travel as their decimal text, so the
//! library itself never computes with floating point values.

pub mod text;
pub mod scalar;
pub mod geometry;
pub mod color;
pub mod points;
pub mod command;
pub mod wire;
pub mod extract;
pub mod channel;
pub mod gizmo;
pub mod tags;

//! Finding a command in a structured log record.

use vstd::prelude::*;
use crate::command::GizmoCommand;
use crate::text::{chars_of, same_text};
use crate::wire::{decode, decodes_to};

verus! {

/// The value of one field of a log record.
#[derive(Clone, Debug, PartialEq)]
pub enum FieldValue {
    /// A string value.
    Text(String),
    /// A value of any other type; its content plays no part here.
    Other,
}

/// One named field of a log record.
#[derive(Clone, Debug, PartialEq)]
pub struct LogField {
    pub name: String,
    pub value: FieldValue,
}

/// `f` is a `gizmo` field whose string value is the text of `c`.
pub open spec fn carries(f: LogField, c: GizmoCommand) -> bool {
    &&& f.name@ == "gizmo"@
    &&& f.value matches FieldValue::Text(t) && decodes_to(t@, c)
}

/// `f` is a `gizmo` field holding the text of some command.
pub open spec fn carries_some(f: LogField) -> bool {
    exists|c: GizmoCommand| carries(f, c)
}

/// The command carried by the first `gizmo` field of `fields` whose value is a
/// string holding the text of a command. Fields of other names, `gizmo` fields
/// of other types and `gizmo` strings that do not decode are passed over; with
/// none left, the result is `None`.
pub fn extract(fields: &Vec<LogField>) -> (r: Option<GizmoCommand>)
    ensures
        r matches Some(c) ==> exists|k: int|
            0 <= k < fields@.len() && carries(#[trigger] fields@[k], c) && forall|j: int|
                0 <= j < k ==> !carries_some(#[trigger] fields@[j]),
        r is None ==> forall|k: int| 0 <= k < fields@.len() ==> !carries_some(#[trigger] fields@[k]),
{
    let mut k: usize = 0;
    while k < fields.len()
        invariant
            k <= fields@.len(),
            forall|j: int| 0 <= j < k ==> !carries_some(#[trigger] fields@[j]),
        decreases fields@.len() - k,
    {
        let f = &fields[k];
        let name = chars_of(f.name.as_str());
        if same_text(&name, "gizmo") {
            if let FieldValue::Text(t) = &f.value {
                if let Some(c) = decode(t.as_str()) {
                    assert(carries(fields@[k as int], c));
                    return Some(c);
                }
            }
        }
        assert(!carries_some(fields@[k as int]));
        k = k + 1;
    }
    None
}

} // verus!

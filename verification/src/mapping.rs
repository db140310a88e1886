//! The fixed mapping table from matrix scan positions to report model
//! fields, and the event application rule of the aggregation activity.
//!
//! A button event carries a matrix coordinate `(column, row)` that is
//! deliberately decoupled from the semantic button name; this module owns
//! the fixed lookup table that binds each coordinate to one field of the
//! report model. Positions outside the table are accepted but produce no
//! state change.

use vstd::prelude::*;
use crate::report::XinputControlReport;
use crate::report::wire_bytes;

verus! {

/// A transient button event: pressed level and matrix scan position.
/// Produced by the debounce activity, consumed exactly once by the
/// aggregation activity.
pub type ButtonEvent = (bool, (usize, usize));

/// Whether a scan position is bound to a report model field by the fixed
/// mapping table: a four-column, three-row matrix.
pub open spec fn position_mapped(col: usize, row: usize) -> bool {
    col <= 3 && row <= 2
}

/// The report model field bound to a mapped position.
pub open spec fn field_at(r: XinputControlReport, col: usize, row: usize) -> bool {
    if col == 0 && row == 0 {
        r.dpad_right
    } else if col == 1 && row == 0 {
        r.dpad_up
    } else if col == 2 && row == 0 {
        r.dpad_left
    } else if col == 3 && row == 0 {
        r.dpad_down
    } else if col == 0 && row == 1 {
        r.button_b
    } else if col == 1 && row == 1 {
        r.button_y
    } else if col == 2 && row == 1 {
        r.button_x
    } else if col == 3 && row == 1 {
        r.button_a
    } else if col == 0 && row == 2 {
        r.button_view
    } else if col == 1 && row == 2 {
        r.button_menu
    } else if col == 2 && row == 2 {
        r.shoulder_left
    } else {
        r.shoulder_right
    }
}

/// The state after applying one button event: the bound field takes the
/// event's level, every other field keeps its value; an unmapped position
/// leaves the state unchanged.
pub open spec fn apply_event_spec(
    r: XinputControlReport,
    pressed: bool,
    col: usize,
    row: usize,
) -> XinputControlReport {
    if !position_mapped(col, row) {
        r
    } else if col == 0 && row == 0 {
        XinputControlReport { dpad_right: pressed, ..r }
    } else if col == 1 && row == 0 {
        XinputControlReport { dpad_up: pressed, ..r }
    } else if col == 2 && row == 0 {
        XinputControlReport { dpad_left: pressed, ..r }
    } else if col == 3 && row == 0 {
        XinputControlReport { dpad_down: pressed, ..r }
    } else if col == 0 && row == 1 {
        XinputControlReport { button_b: pressed, ..r }
    } else if col == 1 && row == 1 {
        XinputControlReport { button_y: pressed, ..r }
    } else if col == 2 && row == 1 {
        XinputControlReport { button_x: pressed, ..r }
    } else if col == 3 && row == 1 {
        XinputControlReport { button_a: pressed, ..r }
    } else if col == 0 && row == 2 {
        XinputControlReport { button_view: pressed, ..r }
    } else if col == 1 && row == 2 {
        XinputControlReport { button_menu: pressed, ..r }
    } else if col == 2 && row == 2 {
        XinputControlReport { shoulder_left: pressed, ..r }
    } else {
        XinputControlReport { shoulder_right: pressed, ..r }
    }
}

/// Apply one button event to the report model. Returns whether the
/// position was bound by the mapping table; an unmapped position leaves
/// the model untouched.
#[verifier::rlimit(60)]
pub fn apply_event(report: &mut XinputControlReport, pressed: bool, col: usize, row: usize) -> (mapped:
    bool)
    ensures
        *final(report) == apply_event_spec(*old(report), pressed, col, row),
        mapped == position_mapped(col, row),
{
    if col == 0 && row == 0 {
        report.dpad_right = pressed;
        true
    } else if col == 1 && row == 0 {
        report.dpad_up = pressed;
        true
    } else if col == 2 && row == 0 {
        report.dpad_left = pressed;
        true
    } else if col == 3 && row == 0 {
        report.dpad_down = pressed;
        true
    } else if col == 0 && row == 1 {
        report.button_b = pressed;
        true
    } else if col == 1 && row == 1 {
        report.button_y = pressed;
        true
    } else if col == 2 && row == 1 {
        report.button_x = pressed;
        true
    } else if col == 3 && row == 1 {
        report.button_a = pressed;
        true
    } else if col == 0 && row == 2 {
        report.button_view = pressed;
        true
    } else if col == 1 && row == 2 {
        report.button_menu = pressed;
        true
    } else if col == 2 && row == 2 {
        report.shoulder_left = pressed;
        true
    } else if col == 3 && row == 2 {
        report.shoulder_right = pressed;
        true
    } else {
        false
    }
}

/// Law: applying an event with a mapped position is a minimal-diff
/// mutation. The field bound to the position takes the event's level, and
/// the field bound to every other mapped position keeps its pre-event
/// value.
pub proof fn lemma_report_minimal_diff(
    r: XinputControlReport,
    pressed: bool,
    col: usize,
    row: usize,
)
    requires
        position_mapped(col, row),
    ensures
        field_at(apply_event_spec(r, pressed, col, row), col, row) == pressed,
        forall|c2: usize, r2: usize|
            position_mapped(c2, r2) && !(c2 == col && r2 == row) ==> field_at(
                apply_event_spec(r, pressed, col, row),
                c2,
                r2,
            ) == field_at(r, c2, r2),
{
}

/// Law: an event whose position is outside the mapping table leaves both
/// the report model and its transmitted wire bytes unchanged.
pub proof fn lemma_unmapped_event_ignored(
    r: XinputControlReport,
    pressed: bool,
    col: usize,
    row: usize,
)
    requires
        !position_mapped(col, row),
    ensures
        apply_event_spec(r, pressed, col, row) == r,
        wire_bytes(apply_event_spec(r, pressed, col, row)) == wire_bytes(r),
{
}

} // verus!

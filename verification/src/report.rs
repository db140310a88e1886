//! The report model: the controller's digital button state and its wire
//! codec.
//!
//! The host-side driver for this device identity expects each input report
//! as a fixed 20-byte message: a message-type byte, a length byte, two
//! button-bitmap bytes, and sixteen bytes of analog/reserved payload that
//! this digital-buttons-only device always leaves zero. Every transmit
//! carries the complete current state; there is no delta encoding.

use vstd::prelude::*;

verus! {

/// Length in bytes of one wire report.
pub const REPORT_LEN: usize = 20;

/// The in-memory representation of the controller's digital button state.
///
/// One instance is live per device session; the aggregation activity
/// mutates it field by field and the writer serializes it as a complete
/// snapshot on every transmit. Booleans have no invalid values, so field
/// mutation needs no validation.
#[derive(Clone, Copy, PartialEq, Eq, Structural, Debug)]
pub struct XinputControlReport {
    pub dpad_up: bool,
    pub dpad_down: bool,
    pub dpad_left: bool,
    pub dpad_right: bool,
    pub button_menu: bool,
    pub button_view: bool,
    pub shoulder_left: bool,
    pub shoulder_right: bool,
    pub button_a: bool,
    pub button_b: bool,
    pub button_x: bool,
    pub button_y: bool,
}

/// The bitmap contribution of one button: its flag value when pressed,
/// zero when released.
pub open spec fn flag(on: bool, value: u8) -> u8 {
    if on {
        value
    } else {
        0u8
    }
}

/// First button-bitmap byte of the wire report: directional pad and the
/// two menu-class buttons.
pub open spec fn buttons_low_spec(r: XinputControlReport) -> u8 {
    (flag(r.dpad_up, 0x01) + flag(r.dpad_down, 0x02) + flag(r.dpad_left, 0x04)
        + flag(r.dpad_right, 0x08) + flag(r.button_menu, 0x10) + flag(r.button_view, 0x20)) as u8
}

/// Second button-bitmap byte of the wire report: shoulder buttons and the
/// four face buttons.
pub open spec fn buttons_high_spec(r: XinputControlReport) -> u8 {
    (flag(r.shoulder_left, 0x01) + flag(r.shoulder_right, 0x02) + flag(r.button_a, 0x10)
        + flag(r.button_b, 0x20) + flag(r.button_x, 0x40) + flag(r.button_y, 0x80)) as u8
}

/// The exact 20-byte wire encoding of a report: message type 0x00, length
/// 0x14, two button bytes, sixteen zero bytes of analog/reserved payload.
pub open spec fn wire_bytes(r: XinputControlReport) -> Seq<u8> {
    seq![
        0x00u8,
        0x14u8,
        buttons_low_spec(r),
        buttons_high_spec(r),
        0u8,
        0u8,
        0u8,
        0u8,
        0u8,
        0u8,
        0u8,
        0u8,
        0u8,
        0u8,
        0u8,
        0u8,
        0u8,
        0u8,
        0u8,
        0u8,
    ]
}

/// The default state: every button released.
pub open spec fn all_released() -> XinputControlReport {
    XinputControlReport {
        dpad_up: false,
        dpad_down: false,
        dpad_left: false,
        dpad_right: false,
        button_menu: false,
        button_view: false,
        shoulder_left: false,
        shoulder_right: false,
        button_a: false,
        button_b: false,
        button_x: false,
        button_y: false,
    }
}

impl Default for XinputControlReport {
    /// A fresh session starts with all buttons released.
    fn default() -> (r: Self)
        ensures
            r == all_released(),
    {
        XinputControlReport {
            dpad_up: false,
            dpad_down: false,
            dpad_left: false,
            dpad_right: false,
            button_menu: false,
            button_view: false,
            shoulder_left: false,
            shoulder_right: false,
            button_a: false,
            button_b: false,
            button_x: false,
            button_y: false,
        }
    }
}

impl XinputControlReport {
    /// First button-bitmap byte of this state.
    pub fn buttons_low(&self) -> (b: u8)
        ensures
            b == buttons_low_spec(*self),
    {
        let mut b: u8 = 0;
        if self.dpad_up {
            b = b + 0x01;
        }
        if self.dpad_down {
            b = b + 0x02;
        }
        if self.dpad_left {
            b = b + 0x04;
        }
        if self.dpad_right {
            b = b + 0x08;
        }
        if self.button_menu {
            b = b + 0x10;
        }
        if self.button_view {
            b = b + 0x20;
        }
        b
    }

    /// Second button-bitmap byte of this state.
    pub fn buttons_high(&self) -> (b: u8)
        ensures
            b == buttons_high_spec(*self),
    {
        let mut b: u8 = 0;
        if self.shoulder_left {
            b = b + 0x01;
        }
        if self.shoulder_right {
            b = b + 0x02;
        }
        if self.button_a {
            b = b + 0x10;
        }
        if self.button_b {
            b = b + 0x20;
        }
        if self.button_x {
            b = b + 0x40;
        }
        if self.button_y {
            b = b + 0x80;
        }
        b
    }

    /// Serialize the complete current state into one wire report.
    pub fn serialize(&self) -> (out: Vec<u8>)
        ensures
            out@ == wire_bytes(*self),
            out@.len() == REPORT_LEN,
    {
        let mut out: Vec<u8> = Vec::new();
        out.push(0x00u8);
        out.push(0x14u8);
        out.push(self.buttons_low());
        out.push(self.buttons_high());
        let mut i: usize = 0;
        while i < 16
            invariant
                i <= 16,
                out@.len() == 4 + i,
                out@ == wire_bytes(*self).take(4 + i as int),
            decreases 16 - i,
        {
            out.push(0u8);
            proof {
                assert(out@ =~= wire_bytes(*self).take(4 + (i + 1) as int));
            }
            i = i + 1;
        }
        proof {
            assert(out@ =~= wire_bytes(*self));
        }
        out
    }
}

} // verus!

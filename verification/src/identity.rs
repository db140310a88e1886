//! The fixed USB device identity this controller presents.
//!
//! The host-side class driver recognizes the device by these fields, so
//! they must be reproduced bit-exact: vendor-specific class codes, the
//! well-known vendor/product pair, the control packet size, the release
//! number and the power attributes. The external USB builder consumes
//! them at configuration time; nothing mutates them afterwards.

use vstd::prelude::*;

verus! {

/// The identity and configuration fields handed to the external USB
/// device builder, fixed for the process lifetime.
pub struct DeviceIdentity {
    pub vendor_id: u16,
    pub product_id: u16,
    pub device_class: u8,
    pub device_sub_class: u8,
    pub device_protocol: u8,
    /// Device release number in binary-coded decimal.
    pub device_release: u16,
    /// Maximum power draw in milliamperes.
    pub max_power: u16,
    /// Maximum packet size of the control endpoint in bytes.
    pub max_packet_size_0: u8,
    pub self_powered: bool,
    pub supports_remote_wakeup: bool,
    pub manufacturer: &'static str,
    pub product: &'static str,
    pub serial_number: &'static str,
}

/// The numeric identity the host-side driver expects for this controller
/// family: vendor 0x045E, product 0x028E, fully vendor-specific class
/// codes, release 1.14, 500 mA self-powered with remote wakeup, and an
/// 8-byte control endpoint.
pub open spec fn is_xinput_identity(c: DeviceIdentity) -> bool {
    &&& c.vendor_id == 0x045E
    &&& c.product_id == 0x028E
    &&& c.device_class == 0xFF
    &&& c.device_sub_class == 0xFF
    &&& c.device_protocol == 0xFF
    &&& c.device_release == 0x0114
    &&& c.max_power == 500
    &&& c.max_packet_size_0 == 8
    &&& c.self_powered
    &&& c.supports_remote_wakeup
}

/// The process-wide device identity, initialized once before any
/// activity starts.
pub fn xinput_identity() -> (c: DeviceIdentity)
    ensures
        is_xinput_identity(c),
        c.manufacturer@ == "TEST"@,
        c.product@ == "TEST CON"@,
        c.serial_number@ == "157F8F9"@,
{
    DeviceIdentity {
        vendor_id: 0x045E,
        product_id: 0x028E,
        device_class: 0xFF,
        device_sub_class: 0xFF,
        device_protocol: 0xFF,
        device_release: 0x0114,
        max_power: 500,
        max_packet_size_0: 8,
        self_powered: true,
        supports_remote_wakeup: true,
        manufacturer: "TEST",
        product: "TEST CON",
        serial_number: "157F8F9",
    }
}

} // verus!

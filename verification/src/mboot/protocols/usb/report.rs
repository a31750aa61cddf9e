//! Report identifiers of the USB-HID link.
use vstd::prelude::*;

verus! {

/// A command, from the host to the device.
pub const CMD_OUT: u8 = 0x01;

/// A data packet, from the host to the device.
pub const DATA_OUT: u8 = 0x02;

/// A response, from the device to the host.
pub const CMD_IN: u8 = 0x03;

/// A data packet, from the device to the host.
pub const DATA_IN: u8 = 0x04;

} // verus!

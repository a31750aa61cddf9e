//! Host-side driver core for the MCU bootloader (mboot) protocol.
//!
//! The crate holds the framed packet codec, the command and property
//! taxonomy, the link-layer rules shared by the serial, I2C and USB-HID
//! transports, and the command engine that drives a device through any
//! [`protocols::Protocol`].
pub use mboot::memory;
pub use mboot::GetPropertyResponse;
pub use mboot::KeyProvisioningResponse;
pub use mboot::McuBoot;
pub use mboot::ReadMemoryResponse;
pub use mboot::packets;
pub use mboot::protocols;
pub use mboot::protocols::CommunicationError;
pub use mboot::tags;

pub mod mboot;
pub mod parsers;

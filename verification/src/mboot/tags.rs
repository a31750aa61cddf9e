//! Tag definitions of the bootloader protocol: commands, command flags,
//! properties, status codes and response kinds, each with its wire value.
use vstd::prelude::*;

pub mod command;
pub mod command_flag;
pub mod command_response;
pub mod masks;
pub mod property;
pub mod status;

verus! {

/// A tagged value that has a one-byte code on the wire.
pub trait ToAddress {
    /// The wire code, as a mathematical value.
    spec fn spec_code(&self) -> u8;

    /// The wire code of this value.
    fn code(&self) -> (c: u8)
        ensures
            c == self.spec_code(),
    ;
}

} // verus!

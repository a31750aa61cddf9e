//! The ping, which opens every connection, and the response to it.
use vstd::prelude::*;

use super::{Packet, PacketParse, PING, PINGR};
use crate::mboot::protocols::{CommunicationError, ResultComm};
use crate::mboot::words::{le_half, u16_from_le};

verus! {

/// What a device answers to a ping.
#[derive(Clone, Copy, Debug, PartialEq, Eq, Structural)]
pub struct PingResponse {
    /// Version of the protocol that the bootloader speaks.
    pub version: u32,
    /// Options of the bootloader.
    pub options: u16,
}

impl PingResponse {
    /// The 32-bit value with the given bytes, most significant first.
    pub open spec fn be_word(b0: u8, b1: u8, b2: u8, b3: u8) -> u32 {
        (0x100_0000 * b0 + 0x1_0000 * b1 + 0x100 * b2 + b3) as u32
    }

    /// The response that a byte string holds: the version in bytes 2 to 5, most
    /// significant byte first, the options in bytes 6 and 7, least significant
    /// byte first. A string of fewer than eight bytes holds none.
    pub open spec fn spec_parse(bytes: Seq<u8>) -> ResultComm<PingResponse> {
        if bytes.len() < 8 {
            Err(CommunicationError::InvalidData)
        } else {
            Ok(
                PingResponse {
                    version: Self::be_word(bytes[2], bytes[3], bytes[4], bytes[5]),
                    options: le_half(bytes[6], bytes[7]),
                },
            )
        }
    }
}

impl PacketParse for PingResponse {
    open spec fn parses_to(bytes: Seq<u8>, r: ResultComm<PingResponse>) -> bool {
        r == Self::spec_parse(bytes)
    }

    fn parse(bytes: &[u8]) -> (r: ResultComm<PingResponse>) {
        if bytes.len() < 8 {
            return Err(CommunicationError::InvalidData);
        }
        let version = 0x100_0000 * (bytes[2] as u32) + 0x1_0000 * (bytes[3] as u32) + 0x100 * (
        bytes[4] as u32) + (bytes[5] as u32);
        Ok(PingResponse { version, options: u16_from_le(bytes[6], bytes[7]) })
    }
}

impl Packet for PingResponse {
    open spec fn spec_get_code() -> u8 {
        PINGR
    }

    fn get_code() -> (code: u8) {
        PINGR
    }
}

/// The ping. It has no payload and travels as the start byte and its packet
/// type alone.
#[derive(Clone, Copy, Debug)]
pub struct Ping;

impl Packet for Ping {
    open spec fn spec_get_code() -> u8 {
        PING
    }

    fn get_code() -> (code: u8) {
        PING
    }
}

} // verus!

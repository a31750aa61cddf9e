//! Rules of the serial link.
use vstd::prelude::*;

use super::{CommunicationError, ResultComm, ACK, ACK_ABORT, NACK};
use crate::mboot::packets::START_BYTE;

verus! {

/// Baud rate of a serial link that is opened without one.
pub const DEFAULT_BAUDRATE: u32 = 57600;

/// What the two bytes that answer a frame mean: the first has to be the start
/// byte and the second tells whether the frame was accepted, refused or
/// accepted with an abort of the data phase. Anything else is a malformed
/// header.
pub open spec fn spec_ack_verdict(b0: u8, b1: u8) -> ResultComm<()> {
    if b0 != START_BYTE {
        Err(CommunicationError::InvalidHeader)
    } else if b1 == ACK {
        Ok(())
    } else if b1 == NACK {
        Err(CommunicationError::NACKSent)
    } else if b1 == ACK_ABORT {
        Err(CommunicationError::Aborted)
    } else {
        Err(CommunicationError::InvalidHeader)
    }
}

/// Judges the two bytes that answer a frame.
pub fn ack_verdict(buf: [u8; 2]) -> (r: ResultComm<()>)
    ensures
        r == spec_ack_verdict(buf[0], buf[1]),
{
    if buf[0] != START_BYTE {
        return Err(CommunicationError::InvalidHeader);
    }
    let kind = buf[1];
    if kind == ACK {
        Ok(())
    } else if kind == NACK {
        Err(CommunicationError::NACKSent)
    } else if kind == ACK_ABORT {
        Err(CommunicationError::Aborted)
    } else {
        Err(CommunicationError::InvalidHeader)
    }
}

} // verus!

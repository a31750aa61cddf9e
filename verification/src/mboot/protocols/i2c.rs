//! Rules of the I2C link.
//!
//! A link is named by the path of its bus device, with the address of the
//! bootloader behind a colon where it is not the default one.
use vstd::prelude::*;
use vstd::string::*;

use super::{CommunicationError, ResultComm, ACK, ACK_ABORT, NACK};
use crate::mboot::packets::START_BYTE;
use crate::parsers::{
    number_error, parse_number, prefix_len, spec_parse_number, split_point,
};

verus! {

/// Address of the bootloader where the identifier names none.
pub const DEFAULT_SLAVE: u8 = 0x10;

/// What the two bytes that answer a frame mean, or `None` where the host has
/// to go on polling: a device that is busy answers with zero bytes, and
/// anything that is no acknowledgment is passed over as well.
pub open spec fn spec_ack_verdict(b0: u8, b1: u8) -> Option<ResultComm<()>> {
    if b0 != START_BYTE {
        None
    } else if b1 == ACK {
        Some(Ok(()))
    } else if b1 == NACK {
        Some(Err(CommunicationError::NACKSent))
    } else if b1 == ACK_ABORT {
        Some(Err(CommunicationError::Aborted))
    } else {
        None
    }
}

/// Judges the two bytes that answer a frame.
pub fn ack_verdict(buf: [u8; 2]) -> (r: Option<ResultComm<()>>)
    ensures
        r == spec_ack_verdict(buf[0], buf[1]),
{
    if buf[0] == 0x00 {
        return None;
    }
    if buf[0] != START_BYTE {
        return None;
    }
    let kind = buf[1];
    if kind == ACK {
        Some(Ok(()))
    } else if kind == NACK {
        Some(Err(CommunicationError::NACKSent))
    } else if kind == ACK_ABORT {
        Some(Err(CommunicationError::Aborted))
    } else {
        None
    }
}

/// What an identifier names.
pub struct I2CIdentifier {
    /// Path of the bus device.
    pub device_path: String,
    /// Address of the bootloader on the bus.
    pub slave_address: u8,
    /// The identifier with the address spelled out, where it names one.
    pub interface: String,
}

/// The contents of an [`I2CIdentifier`].
pub ghost struct I2CIdentifierView {
    /// Path of the bus device.
    pub device_path: Seq<char>,
    /// Address of the bootloader on the bus.
    pub slave_address: u8,
    /// The identifier with the address spelled out, where it names one.
    pub interface: Seq<char>,
}

impl View for I2CIdentifier {
    type V = I2CIdentifierView;

    open spec fn view(&self) -> I2CIdentifierView {
        I2CIdentifierView {
            device_path: self.device_path@,
            slave_address: self.slave_address,
            interface: self.interface@,
        }
    }
}

/// The upper-case hexadecimal digit of a value below sixteen.
pub open spec fn hex_digit(d: int) -> char {
    if d < 10 {
        ('0' as int + d) as char
    } else {
        ('A' as int + d - 10) as char
    }
}

/// A byte in hexadecimal with upper-case digits behind `0x`, without a leading
/// zero.
pub open spec fn hex_text(n: u8) -> Seq<char> {
    if n < 16 {
        seq!['0', 'x', hex_digit(n as int)]
    } else {
        seq!['0', 'x', hex_digit(n as int / 16), hex_digit(n as int % 16)]
    }
}

/// The upper-case hexadecimal digit of a value below sixteen, as a text.
fn hex_digit_text(d: u8) -> (s: &'static str)
    requires
        d < 16,
    ensures
        s@ == seq![hex_digit(d as int)],
{
    let s = match d {
        0 => "0",
        1 => "1",
        2 => "2",
        3 => "3",
        4 => "4",
        5 => "5",
        6 => "6",
        7 => "7",
        8 => "8",
        9 => "9",
        10 => "A",
        11 => "B",
        12 => "C",
        13 => "D",
        14 => "E",
        _ => "F",
    };
    proof {
        reveal_strlit("0");
        reveal_strlit("1");
        reveal_strlit("2");
        reveal_strlit("3");
        reveal_strlit("4");
        reveal_strlit("5");
        reveal_strlit("6");
        reveal_strlit("7");
        reveal_strlit("8");
        reveal_strlit("9");
        reveal_strlit("A");
        reveal_strlit("B");
        reveal_strlit("C");
        reveal_strlit("D");
        reveal_strlit("E");
        reveal_strlit("F");
        assert(s@ =~= seq![hex_digit(d as int)]);
    }
    s
}

/// Spells a byte out in hexadecimal.
pub fn to_hex_text(n: u8) -> (text: String)
    ensures
        text@ == hex_text(n),
{
    let mut text = String::from_str("0x");
    proof {
        reveal_strlit("0x");
    }
    if n >= 16 {
        text.append(hex_digit_text(n / 16));
    }
    text.append(hex_digit_text(n % 16));
    assert(text@ =~= hex_text(n));
    text
}

/// Why an identifier names no link.
pub ghost enum IdentifierError {
    /// The address is no number below 256; the message says so.
    BadAddress(Seq<char>),
    /// The identifier has more than two parts.
    TooManyParts,
}

/// What an identifier names. The text in front of the first colon is the path
/// of the bus device. The text behind it, up to a second colon, is the address
/// of the bootloader, decimal or hexadecimal behind `0x`. The address is read
/// before the parts are counted. Without a colon the address is the default
/// one and the interface is the identifier as it is.
pub open spec fn spec_parse_identifier(s: Seq<char>) -> Result<I2CIdentifierView, IdentifierError> {
    let cut = prefix_len(s, ':', ':') as int;
    if cut >= s.len() {
        Ok(I2CIdentifierView { device_path: s, slave_address: DEFAULT_SLAVE, interface: s })
    } else {
        let rest = s.skip(cut + 1);
        let end = prefix_len(rest, ':', ':') as int;
        match spec_parse_number(rest.take(end), u8::MAX as int) {
            None => Err(IdentifierError::BadAddress(number_error(rest.take(end)))),
            Some(address) => if end < rest.len() {
                Err(IdentifierError::TooManyParts)
            } else {
                Ok(
                    I2CIdentifierView {
                        device_path: s.take(cut),
                        slave_address: address as u8,
                        interface: s.take(cut) + seq![':'] + hex_text(address as u8),
                    },
                )
            },
        }
    }
}

/// Whether `e` is the error that stands for `reason`: a `ParseError` with the
/// message for a bad address, `InvalidData` for too many parts.
pub open spec fn reports(e: CommunicationError, reason: IdentifierError) -> bool {
    match reason {
        IdentifierError::BadAddress(message) => e matches CommunicationError::ParseError(text)
            && text@ == message,
        IdentifierError::TooManyParts => e == CommunicationError::InvalidData,
    }
}

/// Reads an identifier.
pub fn parse_identifier(identifier: &str) -> (r: ResultComm<I2CIdentifier>)
    ensures
        r matches Ok(id) ==> spec_parse_identifier(identifier@) == Ok::<
            I2CIdentifierView,
            IdentifierError,
        >(id@),
        r matches Err(e) ==> (spec_parse_identifier(identifier@) matches Err(reason) && reports(
            e,
            reason,
        )),
{
    let n = identifier.unicode_len();
    let cut = split_point(identifier, ':', ':');
    if cut >= n {
        return Ok(
            I2CIdentifier {
                device_path: String::from_str(identifier),
                slave_address: DEFAULT_SLAVE,
                interface: String::from_str(identifier),
            },
        );
    }
    let device_path = identifier.substring_char(0, cut);
    let rest = identifier.substring_char(cut + 1, n);
    assert(device_path@ =~= identifier@.take(cut as int));
    assert(rest@ =~= identifier@.skip(cut + 1));
    let rest_len = rest.unicode_len();
    let end = split_point(rest, ':', ':');
    let num_str = rest.substring_char(0, end);
    assert(num_str@ =~= rest@.take(end as int));
    let slave_address = match parse_number::<u8>(num_str) {
        Ok(address) => address,
        Err(message) => {
            return Err(CommunicationError::ParseError(message));
        },
    };
    if end < rest_len {
        return Err(CommunicationError::InvalidData);
    }
    let mut interface = String::from_str(device_path);
    interface.append(":");
    proof {
        reveal_strlit(":");
    }
    let hex = to_hex_text(slave_address);
    interface.append(hex.as_str());
    assert(interface@ =~= identifier@.take(cut as int) + seq![':'] + hex_text(slave_address));
    Ok(I2CIdentifier { device_path: String::from_str(device_path), slave_address, interface })
}

} // verus!

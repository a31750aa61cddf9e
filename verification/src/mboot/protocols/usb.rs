//! Rules of the USB-HID link.
//!
//! On USB a packet travels as a HID report: the report identifier, a zero
//! byte, the length of the packet and the packet. There is no checksum and no
//! acknowledgment. The link takes the frames of the other links and turns
//! them into reports, and turns reports into payloads.
use vstd::prelude::*;
use vstd::string::*;

use super::{CommunicationError, ResultComm};
use crate::mboot::packets::{frame, CMD, DATA, START_BYTE};
use crate::mboot::words::{half_high, half_low, le_half, lemma_half_roundtrip, u16_from_le};
use crate::parsers::{
    parse_unsigned, prefix_len, split_point, trim, trimmed, u16_from_decimal, u16_from_str_radix,
};

pub mod report;

verus! {

/// Size of the buffer that a report is read into.
pub const MAX_PACKET_SIZE: usize = 1024;

/// The report that carries the packet of a frame. A frame of fewer than six
/// bytes or without the start byte gives `InvalidHeader`; a frame that is
/// shorter than its length field says gives `InvalidData`; a frame that is
/// neither a command nor a data packet gives `InvalidHeader`.
pub open spec fn spec_hid_report(data: Seq<u8>) -> ResultComm<Seq<u8>> {
    if data.len() < 6 || data[0] != START_BYTE {
        Err(CommunicationError::InvalidHeader)
    } else if data.len() < 6 + le_half(data[2], data[3]) {
        Err(CommunicationError::InvalidData)
    } else if data[1] != CMD && data[1] != DATA {
        Err(CommunicationError::InvalidHeader)
    } else {
        Ok(
            seq![
                if data[1] == CMD {
                    report::CMD_OUT
                } else {
                    report::DATA_OUT
                },
                0u8,
                data[2],
                data[3],
            ] + data.subrange(6, 6 + le_half(data[2], data[3])),
        )
    }
}

/// Turns a frame into the report that carries its packet.
pub fn hid_report(data: &[u8]) -> (r: ResultComm<Vec<u8>>)
    ensures
        r matches Ok(report) ==> spec_hid_report(data@) == Ok::<Seq<u8>, CommunicationError>(
            report@,
        ),
        r matches Err(e) ==> spec_hid_report(data@) == Err::<Seq<u8>, CommunicationError>(e),
{
    if data.len() < 6 || data[0] != START_BYTE {
        return Err(CommunicationError::InvalidHeader);
    }
    let cmd_type = data[1];
    let data_len = u16_from_le(data[2], data[3]) as usize;
    if data.len() - 6 < data_len {
        return Err(CommunicationError::InvalidData);
    }
    let report_id = if cmd_type == CMD {
        report::CMD_OUT
    } else if cmd_type == DATA {
        report::DATA_OUT
    } else {
        return Err(CommunicationError::InvalidHeader);
    };
    let mut report: Vec<u8> = Vec::new();
    report.push(report_id);
    report.push(0x00);
    report.push(data[2]);
    report.push(data[3]);
    report.extend_from_slice(vstd::slice::slice_subrange(data, 6, 6 + data_len));
    assert(report@ =~= spec_hid_report(data@)->Ok_0);
    Ok(report)
}

/// The payload that a received report carries. `size` is the number of bytes
/// that were read into `report`. A report of fewer than four bytes gives
/// `InvalidHeader`, a declared length of zero `Aborted`. A response carries as
/// many bytes as it declares, and so does a data packet that was read in full;
/// any other report carries what was read behind its header. A size or a
/// length beyond the end of the buffer gives `InvalidData`.
pub open spec fn spec_report_payload(report: Seq<u8>, size: nat) -> ResultComm<Seq<u8>> {
    if size > report.len() {
        Err(CommunicationError::InvalidData)
    } else if size < 4 {
        Err(CommunicationError::InvalidHeader)
    } else if le_half(report[2], report[3]) == 0 {
        Err(CommunicationError::Aborted)
    } else if report[0] == report::CMD_IN {
        if 4 + le_half(report[2], report[3]) <= report.len() {
            Ok(report.subrange(4, 4 + le_half(report[2], report[3])))
        } else {
            Err(CommunicationError::InvalidData)
        }
    } else if report[0] == report::DATA_IN && size >= 4 + le_half(report[2], report[3]) {
        Ok(report.subrange(4, 4 + le_half(report[2], report[3])))
    } else {
        Ok(report.subrange(4, size as int))
    }
}

/// Takes the payload out of a received report.
pub fn report_payload(report: &[u8], size: usize) -> (r: ResultComm<Vec<u8>>)
    ensures
        r matches Ok(payload) ==> spec_report_payload(report@, size as nat) == Ok::<
            Seq<u8>,
            CommunicationError,
        >(payload@),
        r matches Err(e) ==> spec_report_payload(report@, size as nat) == Err::<
            Seq<u8>,
            CommunicationError,
        >(e),
{
    if size > report.len() {
        return Err(CommunicationError::InvalidData);
    }
    if size < 4 {
        return Err(CommunicationError::InvalidHeader);
    }
    let report_id = report[0];
    let packet_length = u16_from_le(report[2], report[3]) as usize;
    if packet_length == 0 {
        return Err(CommunicationError::Aborted);
    }
    let end = if report_id == report::CMD_IN {
        if packet_length > report.len() - 4 {
            return Err(CommunicationError::InvalidData);
        }
        4 + packet_length
    } else if report_id == report::DATA_IN && size - 4 >= packet_length {
        4 + packet_length
    } else {
        size
    };
    let mut payload: Vec<u8> = Vec::new();
    payload.extend_from_slice(vstd::slice::slice_subrange(report, 4, end));
    assert(payload@ =~= report@.subrange(4, end as int));
    Ok(payload)
}

/// The frames that the command engine builds travel whole: the report of the
/// frame of a command or data packet is its report identifier, a zero byte,
/// the length and the payload.
pub proof fn lemma_report_carries_payload(packet_code: u8, payload: Seq<u8>)
    requires
        payload.len() <= u16::MAX,
        packet_code == CMD || packet_code == DATA,
    ensures
        spec_hid_report(frame(packet_code, payload)) == Ok::<Seq<u8>, CommunicationError>(
            seq![
                if packet_code == CMD {
                    report::CMD_OUT
                } else {
                    report::DATA_OUT
                },
                0u8,
                half_low(payload.len() as u16),
                half_high(payload.len() as u16),
            ] + payload,
        ),
{
    let f = frame(packet_code, payload);
    lemma_half_roundtrip(payload.len() as u16, 0, 0);
    assert(f.subrange(6, 6 + payload.len() as int) =~= payload);
}

/// Whether a character is a hexadecimal digit.
pub open spec fn is_hex_digit(c: char) -> bool {
    ('0' <= c <= '9') || ('a' <= c <= 'f') || ('A' <= c <= 'F')
}

/// Whether a character is a hexadecimal digit above nine.
pub open spec fn is_hex_letter(c: char) -> bool {
    ('a' <= c <= 'f') || ('A' <= c <= 'F')
}

/// Whether a text is written as hexadecimal without saying so: more than two
/// characters, all of them hexadecimal digits, one of them a letter.
pub open spec fn looks_hexadecimal(s: Seq<char>) -> bool {
    &&& s.len() > 2
    &&& forall|i: int| 0 <= i < s.len() ==> is_hex_digit(#[trigger] s[i])
    &&& exists|i: int| 0 <= i < s.len() && is_hex_letter(#[trigger] s[i])
}

/// Whether a text starts with `0x` or `0X`.
pub open spec fn has_radix_prefix(s: Seq<char>) -> bool {
    s.len() >= 2 && s[0] == '0' && (s[1] == 'x' || s[1] == 'X')
}

/// The 16-bit number that a text spells out, white space around it aside:
/// hexadecimal behind `0x` or `0X` and where the text looks hexadecimal,
/// else decimal, and hexadecimal after all where it is no decimal number.
pub open spec fn spec_parse_number_string(s: Seq<char>) -> Option<int> {
    let t = trimmed(s);
    if has_radix_prefix(t) {
        parse_unsigned(t.skip(2), 16, u16::MAX as int)
    } else if looks_hexadecimal(t) {
        parse_unsigned(t, 16, u16::MAX as int)
    } else {
        match parse_unsigned(t, 10, u16::MAX as int) {
            Some(v) => Some(v),
            None => parse_unsigned(t, 16, u16::MAX as int),
        }
    }
}

/// Tells whether a text looks hexadecimal.
fn is_hexadecimal_looking(s: &str) -> (b: bool)
    ensures
        b == looks_hexadecimal(s@),
{
    let n = s.unicode_len();
    let mut letter = false;
    let mut i: usize = 0;
    while i < n
        invariant
            n == s@.len(),
            i <= n,
            forall|k: int| 0 <= k < i ==> is_hex_digit(#[trigger] s@[k]),
            letter <==> exists|k: int| 0 <= k < i && is_hex_letter(#[trigger] s@[k]),
        decreases n - i,
    {
        let c = s.get_char(i);
        let is_letter = ('a' <= c && c <= 'f') || ('A' <= c && c <= 'F');
        if !(('0' <= c && c <= '9') || is_letter) {
            return false;
        }
        if is_letter {
            letter = true;
        }
        i += 1;
    }
    n > 2 && letter
}

/// Reads a 16-bit number that may be written in decimal or in hexadecimal.
pub fn parse_number_string(s: &str) -> (r: Result<u16, std::num::ParseIntError>)
    ensures
        r matches Ok(v) ==> spec_parse_number_string(s@) == Some(v as int),
        r is Err ==> spec_parse_number_string(s@) is None,
{
    let trimmed = trim(s);
    let n = trimmed.unicode_len();
    if n >= 2 && trimmed.get_char(0) == '0' && (trimmed.get_char(1) == 'x' || trimmed.get_char(1)
        == 'X') {
        let digits = trimmed.substring_char(2, n);
        assert(digits@ =~= trimmed@.skip(2));
        u16_from_str_radix(digits, 16)
    } else if is_hexadecimal_looking(trimmed) {
        u16_from_str_radix(trimmed, 16)
    } else {
        match u16_from_decimal(trimmed) {
            Ok(v) => Ok(v),
            Err(_) => u16_from_str_radix(trimmed, 16),
        }
    }
}

/// The vendor and product that an identifier names: two numbers with a colon
/// or a comma between them, or the vendor alone, for any product. The error is
/// the message that tells which part is no number.
pub open spec fn spec_parse_usb_identifier(s: Seq<char>) -> Result<(u16, u16), Seq<char>> {
    let cut = prefix_len(s, ':', ',') as int;
    if cut < s.len() {
        match spec_parse_number_string(s.take(cut)) {
            None => Err("Invalid VID: "@ + s.take(cut)),
            Some(vid) => match spec_parse_number_string(s.skip(cut + 1)) {
                None => Err("Invalid PID: "@ + s.skip(cut + 1)),
                Some(pid) => Ok((vid as u16, pid as u16)),
            },
        }
    } else {
        match spec_parse_number_string(s) {
            None => Err("Invalid USB identifier: "@ + s),
            Some(vid) => Ok((vid as u16, 0)),
        }
    }
}

/// Reads the vendor and the product from an identifier.
pub fn parse_usb_identifier(identifier: &str) -> (r: ResultComm<(u16, u16)>)
    ensures
        r matches Ok(ids) ==> spec_parse_usb_identifier(identifier@) == Ok::<
            (u16, u16),
            Seq<char>,
        >(ids),
        r matches Err(e) ==> (e matches CommunicationError::ParseError(text)
            && spec_parse_usb_identifier(identifier@) == Err::<(u16, u16), Seq<char>>(text@)),
{
    let n = identifier.unicode_len();
    let cut = split_point(identifier, ':', ',');
    if cut < n {
        let vid_str = identifier.substring_char(0, cut);
        let pid_str = identifier.substring_char(cut + 1, n);
        assert(vid_str@ =~= identifier@.take(cut as int));
        assert(pid_str@ =~= identifier@.skip(cut + 1));
        let vid = match parse_number_string(vid_str) {
            Ok(vid) => vid,
            Err(_) => {
                return Err(
                    CommunicationError::ParseError(
                        String::from_str("Invalid VID: ").concat(vid_str),
                    ),
                );
            },
        };
        let pid = match parse_number_string(pid_str) {
            Ok(pid) => pid,
            Err(_) => {
                return Err(
                    CommunicationError::ParseError(
                        String::from_str("Invalid PID: ").concat(pid_str),
                    ),
                );
            },
        };
        Ok((vid, pid))
    } else {
        match parse_number_string(identifier) {
            Ok(vid) => Ok((vid, 0)),
            Err(_) => Err(
                CommunicationError::ParseError(
                    String::from_str("Invalid USB identifier: ").concat(identifier),
                ),
            ),
        }
    }
}

} // verus!

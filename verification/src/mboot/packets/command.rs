//! Command packets, and the responses that answer them.
//!
//! The payload of either is a code, a flag, a reserved byte, the number of
//! parameter words and the words themselves. In a response the first word is
//! the status.
use vstd::prelude::*;

use super::{construct_header, frame, Packet, CMD};
use crate::mboot::protocols::{CommunicationError, ResultComm};
use crate::mboot::tags::command::{CommandTag, CommandToParams};
use crate::mboot::tags::command_flag::CommandFlag;
use crate::mboot::tags::command_response::{CmdResponseTag, CmdResponseValue};
use crate::mboot::tags::status::StatusCode;
use crate::mboot::tags::ToAddress;
use crate::mboot::words::{
    extend_with_words, le_bytes_to_words, le_word, u32_from_le, words_to_le_bytes,
};

verus! {

/// The flag and the reserved byte of a command or response.
#[derive(Clone, Copy, Debug, PartialEq, Eq, Structural)]
pub struct CommandHeader {
    /// Whether a data phase follows.
    pub flag: CommandFlag,
    /// The reserved byte.
    pub reserved: u8,
}

impl CommandHeader {
    /// The payload of a command frame: code, flag, reserved byte, the number of
    /// parameters, and each parameter least significant byte first.
    pub open spec fn spec_payload(&self, params: Seq<u32>, command_code: u8) -> Seq<u8> {
        seq![command_code, self.flag.spec_code(), self.reserved, params.len() as u8]
            + words_to_le_bytes(params)
    }

    /// The payload of a command frame.
    pub fn payload(&self, params: &[u32], command_code: u8) -> (bytes: Vec<u8>)
        requires
            params@.len() <= u8::MAX,
        ensures
            bytes@ == self.spec_payload(params@, command_code),
            bytes@.len() == 4 + 4 * params@.len(),
    {
        let mut command_part: Vec<u8> = Vec::new();
        command_part.push(command_code);
        command_part.push(self.flag.code());
        command_part.push(self.reserved);
        command_part.push(params.len() as u8);
        extend_with_words(&mut command_part, params);
        assert(command_part@ =~= self.spec_payload(params@, command_code));
        command_part
    }

    /// Builds the frame of a command with the given code and parameters.
    pub fn construct_frame(&self, params: &[u32], command_code: u8) -> (bytes: Vec<u8>)
        requires
            params@.len() <= u8::MAX,
        ensures
            bytes@ == frame(CMD, self.spec_payload(params@, command_code)),
    {
        construct_header(CMD, self.payload(params, command_code))
    }
}

/// A command as it is sent: its header and the command with its arguments.
#[derive(Clone, Debug)]
pub struct CommandPacket<'a> {
    /// Flag and reserved byte.
    pub header: CommandHeader,
    /// The command and its arguments.
    pub tag: CommandTag<'a>,
}

impl Packet for CommandPacket<'_> {
    open spec fn spec_get_code() -> u8 {
        CMD
    }

    fn get_code() -> (code: u8) {
        CMD
    }
}

impl<'a> CommandPacket<'a> {
    /// A packet for a command that no data phase follows.
    pub fn new_none_flag(tag: CommandTag<'a>) -> (packet: CommandPacket<'a>)
        ensures
            packet == Self::plain(tag),
    {
        CommandPacket { header: CommandHeader { flag: CommandFlag::NoData, reserved: 0 }, tag }
    }

    /// A packet for a command that a data phase follows.
    pub fn new_data_phase(tag: CommandTag<'a>) -> (packet: CommandPacket<'a>)
        ensures
            packet == Self::with_data(tag),
    {
        CommandPacket { header: CommandHeader { flag: CommandFlag::HasDataPhase, reserved: 0 }, tag }
    }

    /// The flag that belongs in the header of a command: a data phase is
    /// announced if and only if the command carries bytes.
    pub open spec fn spec_flag_of(tag: CommandTag<'a>) -> CommandFlag {
        if tag.spec_data_phase() is Some {
            CommandFlag::HasDataPhase
        } else {
            CommandFlag::NoData
        }
    }

    /// A packet for a command, with the flag that the command calls for.
    pub fn new(tag: CommandTag<'a>) -> (packet: CommandPacket<'a>)
        requires
            tag.has_layout(),
        ensures
            packet == Self::of(tag),
    {
        let carries_bytes = tag.to_params().1.is_some();
        if carries_bytes {
            Self::new_data_phase(tag)
        } else {
            Self::new_none_flag(tag)
        }
    }

    /// Whether the command can be framed: its parameter layout is defined and
    /// the length of its data phase fits a parameter word.
    pub open spec fn well_formed(&self) -> bool {
        self.tag.has_layout() && self.tag.spec_params().len() <= u8::MAX
    }

    /// The frame that carries the command.
    pub open spec fn spec_frame(&self) -> Seq<u8> {
        frame(CMD, self.header.spec_payload(self.tag.spec_params(), self.tag.spec_code()))
    }

    /// The packet for a command that no data phase follows.
    pub open spec fn plain(tag: CommandTag<'a>) -> CommandPacket<'a> {
        CommandPacket { header: CommandHeader { flag: CommandFlag::NoData, reserved: 0 }, tag }
    }

    /// The packet for a command that a data phase follows.
    pub open spec fn with_data(tag: CommandTag<'a>) -> CommandPacket<'a> {
        CommandPacket { header: CommandHeader { flag: CommandFlag::HasDataPhase, reserved: 0 }, tag }
    }

    /// The packet for a command, with the flag that the command calls for.
    pub open spec fn of(tag: CommandTag<'a>) -> CommandPacket<'a> {
        CommandPacket { header: CommandHeader { flag: Self::spec_flag_of(tag), reserved: 0 }, tag }
    }

    /// Builds the frame that carries the command.
    pub fn frame(&self) -> (bytes: Vec<u8>)
        requires
            self.well_formed(),
        ensures
            bytes@ == self.spec_frame(),
    {
        let params = self.tag.to_params().0;
        self.header.construct_frame(params.as_slice(), self.tag.code())
    }
}

/// A response, as the command engine hands it on.
#[derive(Clone, Debug)]
pub struct CmdResponse {
    /// Flag and reserved byte.
    pub header: CommandHeader,
    /// Status that the device reported.
    pub status: StatusCode,
    /// Kind of the response and what it carries.
    pub tag: CmdResponseTag,
}

/// The contents of a [`CmdResponse`].
pub ghost struct ResponseView {
    /// Flag and reserved byte.
    pub header: CommandHeader,
    /// Status that the device reported.
    pub status: StatusCode,
    /// Kind of the response and what it carries.
    pub tag: CmdResponseValue,
}

impl View for CmdResponse {
    type V = ResponseView;

    open spec fn view(&self) -> ResponseView {
        ResponseView { header: self.header, status: self.status, tag: self.tag@ }
    }
}

impl Packet for CmdResponse {
    open spec fn spec_get_code() -> u8 {
        CMD
    }

    fn get_code() -> (code: u8) {
        CMD
    }
}

/// The fields of a response payload.
pub struct ResponseHeader {
    /// Code of the response.
    pub code: u8,
    /// Whether a data phase follows.
    pub flag: CommandFlag,
    /// The reserved byte.
    pub reserved: u8,
    /// Status that the device reported.
    pub status: StatusCode,
    /// Parameter bytes behind the status.
    pub params: Vec<u8>,
}

/// The contents of a [`ResponseHeader`].
pub ghost struct ResponseFields {
    /// Code of the response.
    pub code: u8,
    /// Whether a data phase follows.
    pub flag: CommandFlag,
    /// The reserved byte.
    pub reserved: u8,
    /// Status that the device reported.
    pub status: StatusCode,
    /// Parameter words behind the status.
    pub words: Seq<u32>,
}

impl View for ResponseHeader {
    type V = ResponseFields;

    open spec fn view(&self) -> ResponseFields {
        ResponseFields {
            code: self.code,
            flag: self.flag,
            reserved: self.reserved,
            status: self.status,
            words: le_bytes_to_words(self.params@),
        }
    }
}

/// The status that a status word stands for. A value outside the documented set
/// is an error that names [`StatusCode::UnknownStatusCode`] and keeps the
/// value.
pub open spec fn spec_parse_status(raw: u32) -> ResultComm<StatusCode> {
    match StatusCode::from_code(raw) {
        Some(status) => Ok(status),
        None => Err(CommunicationError::UnexpectedStatus(StatusCode::UnknownStatusCode, raw)),
    }
}

/// Every documented status word is read as its status, and every other word is
/// an error that names [`StatusCode::UnknownStatusCode`] and keeps the word.
/// The number of the stand-in itself is such a word.
pub proof fn lemma_status_word_is_known_or_kept(status: StatusCode, raw: u32)
    ensures
        status != StatusCode::UnknownStatusCode ==> spec_parse_status(status.spec_code()) == Ok::<
            StatusCode,
            CommunicationError,
        >(status),
        StatusCode::from_code(raw) is None ==> spec_parse_status(raw) == Err::<
            StatusCode,
            CommunicationError,
        >(CommunicationError::UnexpectedStatus(StatusCode::UnknownStatusCode, raw)),
        spec_parse_status(raw) matches Ok(known) ==> known.spec_code() == raw && known
            != StatusCode::UnknownStatusCode,
        spec_parse_status(StatusCode::UnknownStatusCode.spec_code()) == Err::<
            StatusCode,
            CommunicationError,
        >(
            CommunicationError::UnexpectedStatus(
                StatusCode::UnknownStatusCode,
                StatusCode::UnknownStatusCode.spec_code(),
            ),
        ),
{
    crate::mboot::tags::status::lemma_status_code_roundtrip(status, raw);
    match StatusCode::from_code(raw) {
        Some(known) => {
            crate::mboot::tags::status::lemma_status_code_roundtrip(known, raw);
        },
        None => {},
    }
}

/// Reads a status from the four bytes of a status word, least significant byte
/// first.
pub fn parse_status(data: [u8; 4]) -> (r: ResultComm<StatusCode>)
    ensures
        r == spec_parse_status(le_word(data[0], data[1], data[2], data[3])),
{
    let discriminant = u32_from_le(data[0], data[1], data[2], data[3]);
    match StatusCode::try_from(discriminant) {
        Ok(status) => Ok(status),
        Err(_) => Err(
            CommunicationError::UnexpectedStatus(StatusCode::UnknownStatusCode, discriminant),
        ),
    }
}

/// The fields of a response payload. The payload is refused with `InvalidData`
/// if it ends before the parameter count, if the bytes behind the count are no
/// whole number of words or not as many words as the count says, if the flag
/// is unknown, or if there is no status word. A status word outside the
/// documented set is refused as [`spec_parse_status`] says.
pub open spec fn spec_parse_response(payload: Seq<u8>) -> ResultComm<ResponseFields> {
    if payload.len() < 4 {
        Err(CommunicationError::InvalidData)
    } else if (payload.len() - 4) % 4 != 0 || (payload.len() - 4) / 4 != payload[3] {
        Err(CommunicationError::InvalidData)
    } else if CommandFlag::from_byte(payload[1]) is None {
        Err(CommunicationError::InvalidData)
    } else if payload[3] == 0 {
        Err(CommunicationError::InvalidData)
    } else {
        match spec_parse_status(le_word(payload[4], payload[5], payload[6], payload[7])) {
            Err(e) => Err(e),
            Ok(status) => Ok(
                ResponseFields {
                    code: payload[0],
                    flag: CommandFlag::from_byte(payload[1])->0,
                    reserved: payload[2],
                    status,
                    words: le_bytes_to_words(payload.skip(8)),
                },
            ),
        }
    }
}

/// Reads the fields of a response payload.
pub fn parse_response(payload: &[u8]) -> (r: ResultComm<ResponseHeader>)
    ensures
        r matches Ok(header) ==> spec_parse_response(payload@) == Ok::<
            ResponseFields,
            CommunicationError,
        >(header@) && header.params@ == payload@.skip(8),
        r matches Err(e) ==> spec_parse_response(payload@) == Err::<
            ResponseFields,
            CommunicationError,
        >(e),
{
    if payload.len() < 4 {
        return Err(CommunicationError::InvalidData);
    }
    let params_len = payload.len() - 4;
    if params_len % 4 != 0 || params_len / 4 != (payload[3] as usize) {
        return Err(CommunicationError::InvalidData);
    }
    let flag = match CommandFlag::try_from(payload[1]) {
        Ok(flag) => flag,
        Err(_) => {
            return Err(CommunicationError::InvalidData);
        },
    };
    if payload[3] == 0 {
        return Err(CommunicationError::InvalidData);
    }
    let status = match parse_status([payload[4], payload[5], payload[6], payload[7]]) {
        Ok(status) => status,
        Err(e) => {
            return Err(e);
        },
    };
    let mut params: Vec<u8> = Vec::new();
    params.extend_from_slice(vstd::slice::slice_subrange(payload, 8, payload.len()));
    assert(params@ =~= payload@.skip(8));
    Ok(ResponseHeader { code: payload[0], flag, reserved: payload[2], status, params })
}

} // verus!

//! Framing on a byte stream, as the serial and the I2C link use it.
//!
//! On a stream a frame arrives piece by piece: start byte and packet type,
//! length, checksum, payload. The host acknowledges a frame as soon as its
//! payload is in, before it says whether the checksum holds. The pieces are
//! read by whoever owns the stream; the rules are here.
use vstd::prelude::*;

use super::{CommunicationError, ResultComm, ACK};
use crate::mboot::packets::ping::PingResponse;
use crate::mboot::packets::{
    checksum, crc16_xmodem, spec_parse_frame, spec_verdict, verdict, FrameHeader, PacketParse,
    PING, PINGR, START_BYTE,
};
use crate::mboot::words::{le_half, u16_from_le};

verus! {

/// The most bytes that may precede the start byte of a ping response.
pub const MAX_PING_RESPONSE_DUMMY_BYTES: usize = 50;

/// What the reader of a frame wants done next.
pub enum StreamAction {
    /// Read this many bytes.
    Read(usize),
    /// Send these bytes.
    Write(Vec<u8>),
    /// Nothing: the frame is read, or refused.
    Finished,
}

/// The reader of one frame from a stream.
pub enum FrameReader {
    /// Start byte and packet type are awaited.
    Start {
        /// Packet type that is expected.
        packet_code: u8,
    },
    /// The length is awaited.
    Length {
        /// Packet type of the frame.
        packet_code: u8,
    },
    /// The checksum is awaited.
    Checksum {
        /// Packet type of the frame.
        packet_code: u8,
        /// The two bytes of the length.
        length: (u8, u8),
    },
    /// The payload is awaited.
    Payload {
        /// Packet type of the frame.
        packet_code: u8,
        /// The two bytes of the length.
        length: (u8, u8),
        /// The two bytes of the checksum.
        crc: (u8, u8),
    },
    /// The frame is in and is to be acknowledged.
    Acknowledge {
        /// What the frame turned out to be.
        result: ResultComm<Vec<u8>>,
    },
    /// The frame is read, or refused.
    Done(ResultComm<Vec<u8>>),
}

/// A payload or error, with the payload as a sequence.
pub open spec fn payload_view(r: ResultComm<Vec<u8>>) -> ResultComm<Seq<u8>> {
    match r {
        Ok(payload) => Ok(payload@),
        Err(e) => Err(e),
    }
}

/// Where the reading of a frame stands.
pub ghost enum FrameReaderState {
    /// See [`FrameReader::Start`].
    Start { packet_code: u8 },
    /// See [`FrameReader::Length`].
    Length { packet_code: u8 },
    /// See [`FrameReader::Checksum`].
    Checksum { packet_code: u8, length: (u8, u8) },
    /// See [`FrameReader::Payload`].
    Payload { packet_code: u8, length: (u8, u8), crc: (u8, u8) },
    /// See [`FrameReader::Acknowledge`].
    Acknowledge { result: ResultComm<Seq<u8>> },
    /// See [`FrameReader::Done`].
    Done(ResultComm<Seq<u8>>),
}

impl View for FrameReader {
    type V = FrameReaderState;

    open spec fn view(&self) -> FrameReaderState {
        match self {
            FrameReader::Start { packet_code } => FrameReaderState::Start {
                packet_code: *packet_code,
            },
            FrameReader::Length { packet_code } => FrameReaderState::Length {
                packet_code: *packet_code,
            },
            FrameReader::Checksum { packet_code, length } => FrameReaderState::Checksum {
                packet_code: *packet_code,
                length: *length,
            },
            FrameReader::Payload { packet_code, length, crc } => FrameReaderState::Payload {
                packet_code: *packet_code,
                length: *length,
                crc: *crc,
            },
            FrameReader::Acknowledge { result } => FrameReaderState::Acknowledge {
                result: payload_view(*result),
            },
            FrameReader::Done(r) => FrameReaderState::Done(payload_view(*r)),
        }
    }
}

/// The bytes that acknowledge a frame.
pub open spec fn ack_bytes() -> Seq<u8> {
    seq![START_BYTE, ACK]
}

/// The number of bytes that the reader wants to read, if it wants to read.
pub open spec fn wanted_bytes(state: FrameReaderState) -> Option<nat> {
    match state {
        FrameReaderState::Start { .. } => Some(2),
        FrameReaderState::Length { .. } => Some(2),
        FrameReaderState::Checksum { .. } => Some(2),
        FrameReaderState::Payload { length, .. } => Some(le_half(length.0, length.1) as nat),
        _ => None,
    }
}

/// Where the reader stands after the bytes it asked for have come. A start
/// that is not the start byte and the expected packet type, and a length or a
/// checksum of another size than two bytes, end the reading with
/// `InvalidHeader`; a payload of another size than the declared one ends it with
/// `InvalidData`.
pub open spec fn after_bytes(state: FrameReaderState, bytes: Seq<u8>) -> FrameReaderState {
    match state {
        FrameReaderState::Start { packet_code } => if bytes.len() == 2 && bytes[0] == START_BYTE
            && bytes[1] == packet_code {
            FrameReaderState::Length { packet_code }
        } else {
            FrameReaderState::Done(Err(CommunicationError::InvalidHeader))
        },
        FrameReaderState::Length { packet_code } => if bytes.len() == 2 {
            FrameReaderState::Checksum { packet_code, length: (bytes[0], bytes[1]) }
        } else {
            FrameReaderState::Done(Err(CommunicationError::InvalidHeader))
        },
        FrameReaderState::Checksum { packet_code, length } => if bytes.len() == 2 {
            FrameReaderState::Payload { packet_code, length, crc: (bytes[0], bytes[1]) }
        } else {
            FrameReaderState::Done(Err(CommunicationError::InvalidHeader))
        },
        FrameReaderState::Payload { packet_code, length, crc } => if bytes.len() == le_half(
            length.0,
            length.1,
        ) {
            FrameReaderState::Acknowledge {
                result: match spec_verdict(
                    FrameHeader {
                        length: le_half(length.0, length.1),
                        crc: le_half(crc.0, crc.1),
                    },
                    crc16_xmodem(seq![START_BYTE, packet_code, length.0, length.1] + bytes),
                ) {
                    Ok(()) => Ok(bytes),
                    Err(e) => Err(e),
                },
            }
        } else {
            FrameReaderState::Done(Err(CommunicationError::InvalidData))
        },
        other => other,
    }
}

/// Where the reader stands after the acknowledgment went out.
pub open spec fn after_ack(state: FrameReaderState) -> FrameReaderState {
    match state {
        FrameReaderState::Acknowledge { result } => FrameReaderState::Done(result),
        other => other,
    }
}

impl FrameReader {
    /// A reader for a frame of the given packet type.
    pub fn new(packet_code: u8) -> (reader: FrameReader)
        ensures
            reader@ == (FrameReaderState::Start { packet_code }),
    {
        FrameReader::Start { packet_code }
    }

    /// What to do to the stream next.
    pub fn next(&self) -> (action: StreamAction)
        ensures
            match action {
                StreamAction::Read(n) => wanted_bytes(self@) == Some(n as nat),
                StreamAction::Write(bytes) => self@ is Acknowledge && bytes@ == ack_bytes(),
                StreamAction::Finished => self@ is Done,
            },
    {
        match self {
            FrameReader::Start { .. } => StreamAction::Read(2),
            FrameReader::Length { .. } => StreamAction::Read(2),
            FrameReader::Checksum { .. } => StreamAction::Read(2),
            FrameReader::Payload { length, .. } => StreamAction::Read(
                u16_from_le(length.0, length.1) as usize,
            ),
            FrameReader::Acknowledge { .. } => {
                let mut bytes: Vec<u8> = Vec::new();
                bytes.push(START_BYTE);
                bytes.push(ACK);
                assert(bytes@ =~= ack_bytes());
                StreamAction::Write(bytes)
            },
            FrameReader::Done(_) => StreamAction::Finished,
        }
    }

    /// Takes the bytes that were read and moves on.
    pub fn on_bytes(self, bytes: Vec<u8>) -> (next: FrameReader)
        ensures
            next@ == after_bytes(self@, bytes@),
    {
        match self {
            FrameReader::Start { packet_code } => if bytes.len() == 2 && bytes[0] == START_BYTE
                && bytes[1] == packet_code {
                FrameReader::Length { packet_code }
            } else {
                FrameReader::Done(Err(CommunicationError::InvalidHeader))
            },
            FrameReader::Length { packet_code } => if bytes.len() == 2 {
                FrameReader::Checksum { packet_code, length: (bytes[0], bytes[1]) }
            } else {
                FrameReader::Done(Err(CommunicationError::InvalidHeader))
            },
            FrameReader::Checksum { packet_code, length } => if bytes.len() == 2 {
                FrameReader::Payload { packet_code, length, crc: (bytes[0], bytes[1]) }
            } else {
                FrameReader::Done(Err(CommunicationError::InvalidHeader))
            },
            FrameReader::Payload { packet_code, length, crc } => {
                let declared = u16_from_le(length.0, length.1);
                if bytes.len() != declared as usize {
                    return FrameReader::Done(Err(CommunicationError::InvalidData));
                }
                let mut covered: Vec<u8> = Vec::new();
                covered.push(START_BYTE);
                covered.push(packet_code);
                covered.push(length.0);
                covered.push(length.1);
                covered.extend_from_slice(bytes.as_slice());
                assert(covered@ =~= seq![START_BYTE, packet_code, length.0, length.1] + bytes@);
                let computed = checksum(covered.as_slice());
                let header = FrameHeader { length: declared, crc: u16_from_le(crc.0, crc.1) };
                FrameReader::Acknowledge {
                    result: match verdict(header, computed) {
                        Ok(()) => Ok(bytes),
                        Err(e) => Err(e),
                    },
                }
            },
            other => other,
        }
    }

    /// Takes note that the acknowledgment went out.
    pub fn on_ack_sent(self) -> (next: FrameReader)
        ensures
            next@ == after_ack(self@),
    {
        match self {
            FrameReader::Acknowledge { result } => FrameReader::Done(result),
            other => other,
        }
    }

    /// Hands out the payload once the frame is read.
    pub fn finish(self) -> (r: ResultComm<Vec<u8>>)
        requires
            self@ is Done,
        ensures
            self@ == FrameReaderState::Done(payload_view(r)),
    {
        match self {
            FrameReader::Done(r) => r,
            _ => Err(CommunicationError::InvalidHeader),
        }
    }
}

/// Reading a frame piece by piece gives what the codec gives for the whole:
/// once start, length, checksum and a payload of the declared length are in
/// and the frame is acknowledged, the reader is done with the payload or the
/// error that [`spec_parse_frame`] gives for the pieces put together.
pub proof fn lemma_stream_agrees_with_codec(
    packet_code: u8,
    start: Seq<u8>,
    length: Seq<u8>,
    crc: Seq<u8>,
    payload: Seq<u8>,
)
    requires
        start.len() == 2,
        length.len() == 2,
        crc.len() == 2,
        payload.len() == le_half(length[0], length[1]),
    ensures
        after_ack(
            after_bytes(
                after_bytes(
                    after_bytes(
                        after_bytes(FrameReaderState::Start { packet_code }, start),
                        length,
                    ),
                    crc,
                ),
                payload,
            ),
        ) == FrameReaderState::Done(
            spec_parse_frame(start + length + crc + payload, packet_code),
        ),
{
    let whole = start + length + crc + payload;
    assert(whole.len() == 6 + payload.len());
    assert(whole[0] == start[0] && whole[1] == start[1]);
    assert(whole[2] == length[0] && whole[3] == length[1]);
    assert(whole[4] == crc[0] && whole[5] == crc[1]);
    if start[0] == START_BYTE && start[1] == packet_code {
        assert(whole.take(4) =~= seq![START_BYTE, packet_code, length[0], length[1]]);
        assert(whole.skip(6) =~= payload);
    }
}

/// The frame that pings a device: the start byte and the packet type of a
/// ping.
pub fn ping_frame() -> (bytes: Vec<u8>)
    ensures
        bytes@ == seq![START_BYTE, PING],
{
    let mut bytes: Vec<u8> = Vec::new();
    bytes.push(START_BYTE);
    bytes.push(PING);
    assert(bytes@ =~= seq![START_BYTE, PING]);
    bytes
}

/// What to do after one more byte came in while the start of a ping response
/// is looked for.
#[derive(Clone, Copy, Debug, PartialEq, Eq, Structural)]
pub enum PingScan {
    /// The byte is the start byte: the response follows.
    Found,
    /// The byte is a dummy: read another one.
    Skip,
    /// The byte is a dummy and no more may follow: the response is refused
    /// with `InvalidHeader`.
    GiveUp,
}

/// The verdict on the byte that came in as number `attempt`, counted from
/// zero, after a ping. A device may send dummy bytes before it answers; the
/// start byte has to be among the first [`MAX_PING_RESPONSE_DUMMY_BYTES`]
/// bytes.
pub open spec fn spec_scan_for_start(attempt: nat, byte: u8) -> PingScan {
    if byte == START_BYTE {
        PingScan::Found
    } else if attempt + 1 >= MAX_PING_RESPONSE_DUMMY_BYTES {
        PingScan::GiveUp
    } else {
        PingScan::Skip
    }
}

/// Judges the byte that came in as number `attempt`, counted from zero, after
/// a ping.
pub fn scan_for_start(attempt: usize, byte: u8) -> (scan: PingScan)
    ensures
        scan == spec_scan_for_start(attempt as nat, byte),
{
    if byte == START_BYTE {
        PingScan::Found
    } else if attempt >= MAX_PING_RESPONSE_DUMMY_BYTES - 1 {
        PingScan::GiveUp
    } else {
        PingScan::Skip
    }
}

/// The packet type that follows the start byte of a ping response has to be
/// that of a ping response.
pub fn check_ping_type(frame_type: u8) -> (r: ResultComm<()>)
    ensures
        r == (if frame_type == PINGR {
            Ok::<(), CommunicationError>(())
        } else {
            Err(CommunicationError::InvalidHeader)
        }),
{
    if frame_type != PINGR {
        Err(CommunicationError::InvalidHeader)
    } else {
        Ok(())
    }
}

/// What the ten bytes of a ping response hold, counted from the start byte:
/// the last two are the checksum of the first eight, least significant byte
/// first, and the first eight hold the response. `computed` is the checksum of
/// the first eight bytes as they were received.
pub open spec fn spec_ping_response(buf: Seq<u8>, computed: u16) -> ResultComm<PingResponse> {
    if buf.len() != 10 {
        Err(CommunicationError::InvalidHeader)
    } else if computed != le_half(buf[8], buf[9]) {
        Err(CommunicationError::InvalidCrc)
    } else {
        PingResponse::spec_parse(buf)
    }
}

/// Reads a ping response, given the checksum of its first eight bytes.
pub fn ping_response_with(buf: &[u8], computed: u16) -> (r: ResultComm<PingResponse>)
    ensures
        r == spec_ping_response(buf@, computed),
{
    if buf.len() != 10 {
        return Err(CommunicationError::InvalidHeader);
    }
    let crc = u16_from_le(buf[8], buf[9]);
    if computed != crc {
        return Err(CommunicationError::InvalidCrc);
    }
    PingResponse::parse(buf)
}

/// Reads a ping response from its ten bytes, counted from the start byte.
pub fn ping_response(buf: &[u8]) -> (r: ResultComm<PingResponse>)
    ensures
        r == spec_ping_response(buf@, crc16_xmodem(buf@.take(8))),
{
    if buf.len() != 10 {
        return Err(CommunicationError::InvalidHeader);
    }
    let computed = checksum(vstd::slice::slice_subrange(buf, 0, 8));
    assert(buf@.subrange(0, 8) =~= buf@.take(8));
    ping_response_with(buf, computed)
}

/// The handshake that opens a link: the ping goes out, the start byte of the
/// response is looked for among the first bytes that come, the packet type
/// follows and then the eight bytes that end in the checksum.
#[derive(Debug)]
pub enum PingReader {
    /// The ping is to be sent.
    Send,
    /// The start byte is looked for.
    Scan {
        /// Number of bytes that came and were none.
        attempt: usize,
    },
    /// The packet type is awaited.
    Type,
    /// The eight bytes behind the packet type are awaited.
    Body,
    /// The handshake is over.
    Done(ResultComm<PingResponse>),
}

/// The ten bytes of a ping response, counted from the start byte, given the
/// eight that follow the packet type.
pub open spec fn ping_buffer(body: Seq<u8>) -> Seq<u8> {
    seq![START_BYTE, PINGR] + body
}

/// Where the handshake stands after the bytes it asked for have come. A read
/// that brings another number of bytes than was asked for ends it with
/// `InvalidHeader`, as does a packet type that is not that of a ping response
/// and a start byte that is not among the first bytes.
pub open spec fn after_ping_bytes(state: PingReader, bytes: Seq<u8>) -> PingReader {
    match state {
        PingReader::Scan { attempt } => if bytes.len() != 1 {
            PingReader::Done(Err(CommunicationError::InvalidHeader))
        } else {
            match spec_scan_for_start(attempt as nat, bytes[0]) {
                PingScan::Found => PingReader::Type,
                PingScan::Skip => PingReader::Scan { attempt: (attempt + 1) as usize },
                PingScan::GiveUp => PingReader::Done(Err(CommunicationError::InvalidHeader)),
            }
        },
        PingReader::Type => if bytes.len() == 1 && bytes[0] == PINGR {
            PingReader::Body
        } else {
            PingReader::Done(Err(CommunicationError::InvalidHeader))
        },
        PingReader::Body => if bytes.len() == 8 {
            PingReader::Done(
                spec_ping_response(ping_buffer(bytes), crc16_xmodem(ping_buffer(bytes).take(8))),
            )
        } else {
            PingReader::Done(Err(CommunicationError::InvalidHeader))
        },
        other => other,
    }
}

/// Where the handshake stands after the ping went out.
pub open spec fn after_ping_sent(state: PingReader) -> PingReader {
    match state {
        PingReader::Send => PingReader::Scan { attempt: 0 },
        other => other,
    }
}

/// Where the handshake stands after the given bytes came one by one while the
/// start byte was looked for.
pub open spec fn after_scanned(bytes: Seq<u8>) -> PingReader
    decreases bytes.len(),
{
    if bytes.len() == 0 {
        PingReader::Scan { attempt: 0 }
    } else {
        after_ping_bytes(after_scanned(bytes.drop_last()), seq![bytes.last()])
    }
}

/// Dummy bytes in front of a ping response are passed over, up to 49 of them:
/// after that many bytes that are no start byte the handshake still looks for
/// one, and the fiftieth ends it with `InvalidHeader`.
pub proof fn lemma_dummy_bytes_are_passed_over(bytes: Seq<u8>)
    requires
        bytes.len() <= MAX_PING_RESPONSE_DUMMY_BYTES,
        forall|i: int| 0 <= i < bytes.len() ==> bytes[i] != START_BYTE,
    ensures
        bytes.len() < MAX_PING_RESPONSE_DUMMY_BYTES ==> after_scanned(bytes) == (PingReader::Scan {
            attempt: bytes.len() as usize,
        }),
        bytes.len() == MAX_PING_RESPONSE_DUMMY_BYTES ==> after_scanned(bytes) == PingReader::Done(
            Err(CommunicationError::InvalidHeader),
        ),
        bytes.len() < MAX_PING_RESPONSE_DUMMY_BYTES ==> after_ping_bytes(
            after_scanned(bytes),
            seq![START_BYTE],
        ) == PingReader::Type,
    decreases bytes.len(),
{
    if bytes.len() > 0 {
        let front = bytes.drop_last();
        lemma_dummy_bytes_are_passed_over(front);
    }
}

impl PingReader {
    /// A handshake at its start.
    pub fn new() -> (reader: PingReader)
        ensures
            reader == PingReader::Send,
    {
        PingReader::Send
    }

    /// What to do to the stream next.
    pub fn next(&self) -> (action: StreamAction)
        ensures
            match action {
                StreamAction::Write(bytes) => *self == PingReader::Send && bytes@ == seq![
                    START_BYTE,
                    PING,
                ],
                StreamAction::Read(n) => (n == 1 && (*self is Scan || *self is Type)) || (n == 8
                    && *self is Body),
                StreamAction::Finished => *self is Done,
            },
    {
        match self {
            PingReader::Send => StreamAction::Write(ping_frame()),
            PingReader::Scan { .. } => StreamAction::Read(1),
            PingReader::Type => StreamAction::Read(1),
            PingReader::Body => StreamAction::Read(8),
            PingReader::Done(_) => StreamAction::Finished,
        }
    }

    /// Takes note that the ping went out.
    pub fn on_sent(self) -> (next: PingReader)
        ensures
            next == after_ping_sent(self),
    {
        match self {
            PingReader::Send => PingReader::Scan { attempt: 0 },
            other => other,
        }
    }

    /// Takes the bytes that were read and moves on.
    pub fn on_bytes(self, bytes: Vec<u8>) -> (next: PingReader)
        ensures
            next == after_ping_bytes(self, bytes@),
    {
        match self {
            PingReader::Scan { attempt } => {
                if bytes.len() != 1 {
                    return PingReader::Done(Err(CommunicationError::InvalidHeader));
                }
                match scan_for_start(attempt, bytes[0]) {
                    PingScan::Found => PingReader::Type,
                    PingScan::Skip => PingReader::Scan { attempt: attempt + 1 },
                    PingScan::GiveUp => PingReader::Done(Err(CommunicationError::InvalidHeader)),
                }
            },
            PingReader::Type => {
                if bytes.len() != 1 {
                    return PingReader::Done(Err(CommunicationError::InvalidHeader));
                }
                match check_ping_type(bytes[0]) {
                    Ok(()) => PingReader::Body,
                    Err(e) => PingReader::Done(Err(e)),
                }
            },
            PingReader::Body => {
                if bytes.len() != 8 {
                    return PingReader::Done(Err(CommunicationError::InvalidHeader));
                }
                let mut buf: Vec<u8> = Vec::new();
                buf.push(START_BYTE);
                buf.push(PINGR);
                buf.extend_from_slice(bytes.as_slice());
                assert(buf@ =~= ping_buffer(bytes@));
                PingReader::Done(ping_response(buf.as_slice()))
            },
            other => other,
        }
    }

    /// Hands out the response once the handshake is over.
    pub fn finish(self) -> (r: ResultComm<PingResponse>)
        requires
            self is Done,
        ensures
            self == PingReader::Done(r),
    {
        match self {
            PingReader::Done(r) => r,
            _ => Err(CommunicationError::InvalidHeader),
        }
    }
}

/// A frame that is read piece by piece and acknowledged gives its payload, and
/// a frame without payload gives `Aborted`. The reader asks for two bytes three
/// times and then for as many as the payload has, which is the whole frame and
/// no byte more; with the payload in it stands for the acknowledgment, which
/// [`FrameReader::next`] then asks to be written, and is done with the verdict
/// once that is sent.
pub proof fn lemma_stream_reads_frames(packet_code: u8, payload: Seq<u8>)
    requires
        payload.len() <= u16::MAX,
    ensures
        ({
            let f = crate::mboot::packets::frame(packet_code, payload);
            let start = FrameReaderState::Start { packet_code };
            let length = after_bytes(start, f.subrange(0, 2));
            let checksum = after_bytes(length, f.subrange(2, 4));
            let body = after_bytes(checksum, f.subrange(4, 6));
            let read = after_bytes(body, f.subrange(6, 6 + payload.len() as int));
            &&& f.len() == 6 + payload.len()
            &&& wanted_bytes(start) == Some(2nat)
            &&& wanted_bytes(length) == Some(2nat)
            &&& wanted_bytes(checksum) == Some(2nat)
            &&& wanted_bytes(body) == Some(payload.len())
            &&& read is Acknowledge
            &&& wanted_bytes(read) is None
            &&& payload.len() > 0 ==> after_ack(read) == FrameReaderState::Done(Ok(payload))
            &&& payload.len() == 0 ==> after_ack(read) == FrameReaderState::Done(
                Err(CommunicationError::Aborted),
            )
        }),
{
    let f = crate::mboot::packets::frame(packet_code, payload);
    crate::mboot::packets::lemma_frame_carries_its_crc(packet_code, payload);
    crate::mboot::packets::lemma_frame_roundtrip(packet_code, payload);
    crate::mboot::words::lemma_half_roundtrip(payload.len() as u16, 0, 0);
    let start = f.subrange(0, 2);
    let length = f.subrange(2, 4);
    let crc = f.subrange(4, 6);
    let body = f.subrange(6, 6 + payload.len() as int);
    assert(body =~= payload);
    assert(start + length + crc + body =~= f);
    lemma_stream_agrees_with_codec(packet_code, start, length, crc, body);
}

} // verus!

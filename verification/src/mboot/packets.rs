//! The frame codec.
//!
//! A frame is the start byte `0x5A`, a packet type, the payload length and a
//! CRC-16/XMODEM, both least significant byte first, and the payload. The CRC
//! covers the first four bytes and the payload.
use vstd::prelude::*;

use super::protocols::{CommunicationError, ResultComm};
use super::words::{half_high, half_low, le_half, lemma_half_roundtrip, u16_from_le, u16_to_le};

pub mod command;
pub mod data_phase;
pub mod ping;

verus! {

/// First byte of every frame.
pub const START_BYTE: u8 = 0x5A;

/// Packet type of a command or a response.
pub const CMD: u8 = 0xA4;

/// Packet type of a data-phase packet.
pub const DATA: u8 = 0xA5;

/// Packet type of a ping.
pub const PING: u8 = 0xA6;

/// Packet type of a ping response.
pub const PINGR: u8 = 0xA7;

/// A kind of packet, known by its packet type.
pub trait Packet {
    /// The packet type, as a mathematical value.
    spec fn spec_get_code() -> u8;

    /// The packet type.
    fn get_code() -> (code: u8)
        ensures
            code == Self::spec_get_code(),
    ;
}

/// A packet that can be turned into a frame.
pub trait PacketConstruct: Packet {
    /// The payload that the frame carries.
    spec fn spec_payload(&self) -> Seq<u8>;

    /// The frame of this packet, ready to be sent.
    fn construct(&self) -> (bytes: Vec<u8>)
        requires
            self.spec_payload().len() <= u16::MAX,
        ensures
            bytes@ == frame(Self::spec_get_code(), self.spec_payload()),
    ;
}

/// A packet that can be read from the payload of a frame.
pub trait PacketParse: Sized {
    /// Whether `r` is what reading the payload gives: the packet that the
    /// payload holds, or the reason why it holds none.
    spec fn parses_to(bytes: Seq<u8>, r: ResultComm<Self>) -> bool;

    /// Reads the packet from a payload.
    fn parse(bytes: &[u8]) -> (r: ResultComm<Self>)
        ensures
            Self::parses_to(bytes@, r),
    ;
}

/// One step of the division by the polynomial `0x1021`: the value moves one
/// bit to the left, and the polynomial is taken off it where a set bit left.
pub open spec fn crc_shift(value: u16) -> u16 {
    if value & 0x8000 != 0 {
        (value << 1) ^ 0x1021
    } else {
        value << 1
    }
}

/// What a byte alone leaves behind: eight steps of the division, begun with
/// the byte in the upper half of the value. `index` is below 256.
pub open spec fn crc_entry(index: u16) -> u16 {
    crc_shift(
        crc_shift(
            crc_shift(crc_shift(crc_shift(crc_shift(crc_shift(crc_shift(index << 8)))))),
        ),
    )
}

/// The checksum once one more byte is taken in.
pub open spec fn crc_byte(crc: u16, byte: u8) -> u16 {
    crc_entry(((crc >> 8) ^ (byte as u16)) & 0xff) ^ (crc << 8)
}

/// The checksum once four more bytes are taken in, `a` first.
pub open spec fn crc_four(crc: u16, a: u8, b: u8, c: u8, d: u8) -> u16 {
    crc_byte(crc_byte(crc_byte(crc_byte(crc, a), b), c), d)
}

/// The CRC-16/XMODEM of a byte string: polynomial `0x1021`, initial value
/// zero, nothing reflected, no final xor. It starts from zero and takes the
/// bytes in one by one, the first byte first.
pub open spec fn crc16_xmodem(bytes: Seq<u8>) -> u16
    decreases bytes.len(),
{
    if bytes.len() == 0 {
        0
    } else {
        crc_byte(crc16_xmodem(bytes.drop_last()), bytes.last())
    }
}

/// Calls `Crc::<u16>::checksum` of the `crc` crate with the algorithm
/// `CRC_16_XMODEM`. That crate starts from the algorithm's initial value, zero,
/// and for each byte looks up `(crc >> 8) ^ byte` in a table and xors the entry
/// with `crc << 8`; the entry for an index is eight steps of the division by
/// the algorithm's polynomial, `0x1021`, on the index moved eight bits to the
/// left. The algorithm reflects nothing and xors nothing at the end. That this
/// is [`crc16_xmodem`] on every input is taken from the crate's source, not
/// proved.
#[verifier::external_body]
pub(crate) fn checksum(bytes: &[u8]) -> (crc: u16)
    ensures
        crc == crc16_xmodem(bytes@),
{
    crc::Crc::<u16>::new(&crc::CRC_16_XMODEM).checksum(bytes)
}

/// The checksum takes the bytes in one by one: that of no bytes is zero, and
/// that of the first `i` bytes comes from that of the first `i - 1` and the
/// byte behind them.
pub proof fn lemma_crc_by_bytes(bytes: Seq<u8>)
    ensures
        crc16_xmodem(bytes.take(0)) == 0,
        forall|i: int|
            0 < i <= bytes.len() ==> #[trigger] crc16_xmodem(bytes.take(i)) == crc_byte(
                crc16_xmodem(bytes.take(i - 1)),
                bytes[i - 1],
            ),
{
    assert forall|i: int| 0 < i <= bytes.len() implies #[trigger] crc16_xmodem(bytes.take(i))
        == crc_byte(crc16_xmodem(bytes.take(i - 1)), bytes[i - 1]) by {
        assert(bytes.take(i).drop_last() =~= bytes.take(i - 1));
    }
}

/// The checksum of the nine digits `1` to `9`, in ASCII, is `0x31C3`: the
/// value by which CRC-16/XMODEM is told from the other sixteen-bit checksums.
pub proof fn lemma_crc_of_the_digits()
    ensures
        crc16_xmodem(seq![0x31u8, 0x32u8, 0x33u8, 0x34u8, 0x35u8, 0x36u8, 0x37u8, 0x38u8, 0x39u8])
            == 0x31c3,
{
    let digits = seq![0x31u8, 0x32u8, 0x33u8, 0x34u8, 0x35u8, 0x36u8, 0x37u8, 0x38u8, 0x39u8];
    lemma_crc_by_bytes(digits);
    assert(digits.take(9) =~= digits);
    assert(crc_byte(
        crc_four(crc_four(0, 0x31, 0x32, 0x33, 0x34), 0x35, 0x36, 0x37, 0x38),
        0x39,
    ) == 0x31c3) by (bit_vector);
}

/// The four bytes in front of the checksum: start byte, packet type and the
/// payload length.
pub open spec fn frame_prefix(packet_code: u8, length: u16) -> Seq<u8> {
    seq![START_BYTE, packet_code, half_low(length), half_high(length)]
}

/// The bytes that the checksum of a frame covers.
pub open spec fn covered(packet_code: u8, payload: Seq<u8>) -> Seq<u8> {
    frame_prefix(packet_code, payload.len() as u16) + payload
}

/// The frame of a payload, with the given value in the place of the checksum.
pub open spec fn frame_with(packet_code: u8, payload: Seq<u8>, crc: u16) -> Seq<u8> {
    frame_prefix(packet_code, payload.len() as u16) + seq![half_low(crc), half_high(crc)]
        + payload
}

/// The frame of a payload.
pub open spec fn frame(packet_code: u8, payload: Seq<u8>) -> Seq<u8> {
    frame_with(packet_code, payload, crc16_xmodem(covered(packet_code, payload)))
}

/// What the header of a received frame says, once its shape has been checked.
#[derive(Clone, Copy, Debug, PartialEq, Eq, Structural)]
pub struct FrameHeader {
    /// Declared length of the payload.
    pub length: u16,
    /// Declared checksum.
    pub crc: u16,
}

/// The header of a received frame: the frame starts with the start byte and the
/// expected packet type, else it is refused with `InvalidHeader`, as is a frame
/// that ends before its checksum; a frame whose payload has not the declared
/// length is refused with `InvalidData`.
pub open spec fn spec_frame_header(bytes: Seq<u8>, packet_code: u8) -> ResultComm<FrameHeader> {
    if bytes.len() < 2 || bytes[0] != START_BYTE || bytes[1] != packet_code {
        Err(CommunicationError::InvalidHeader)
    } else if bytes.len() < 6 {
        Err(CommunicationError::InvalidHeader)
    } else if bytes.len() != 6 + le_half(bytes[2], bytes[3]) {
        Err(CommunicationError::InvalidData)
    } else {
        Ok(FrameHeader { length: le_half(bytes[2], bytes[3]), crc: le_half(bytes[4], bytes[5]) })
    }
}

/// The verdict on a frame whose shape is sound. `computed` is the checksum of
/// the bytes that were received: a frame whose declared checksum differs is
/// refused with `InvalidCrc`. An empty payload means that the sender aborted:
/// `Aborted`. Any other frame is accepted.
pub open spec fn spec_verdict(header: FrameHeader, computed: u16) -> ResultComm<()> {
    if computed != header.crc {
        Err(CommunicationError::InvalidCrc)
    } else if header.length == 0 {
        Err(CommunicationError::Aborted)
    } else {
        Ok(())
    }
}

/// The payload of a received frame of the expected packet type, or the reason
/// why the frame is refused.
pub open spec fn spec_parse_frame(bytes: Seq<u8>, packet_code: u8) -> ResultComm<Seq<u8>> {
    match spec_frame_header(bytes, packet_code) {
        Err(e) => Err(e),
        Ok(header) => match spec_verdict(header, crc16_xmodem(bytes.take(4) + bytes.skip(6))) {
            Err(e) => Err(e),
            Ok(()) => Ok(bytes.skip(6)),
        },
    }
}

/// The bytes that the checksum of a frame covers.
pub fn covered_bytes(packet_code: u8, data: &[u8]) -> (bytes: Vec<u8>)
    requires
        data@.len() <= u16::MAX,
    ensures
        bytes@ == covered(packet_code, data@),
{
    let length = u16_to_le(data.len() as u16);
    let mut v: Vec<u8> = Vec::new();
    v.push(START_BYTE);
    v.push(packet_code);
    v.push(length.0);
    v.push(length.1);
    v.extend_from_slice(data);
    assert(v@ =~= covered(packet_code, data@));
    v
}

/// Puts a frame together from its payload and the checksum of the bytes that
/// the checksum covers.
pub fn assemble_frame(packet_code: u8, data: &[u8], crc: u16) -> (bytes: Vec<u8>)
    requires
        data@.len() <= u16::MAX,
    ensures
        bytes@ == frame_with(packet_code, data@, crc),
{
    let length = u16_to_le(data.len() as u16);
    let sum = u16_to_le(crc);
    let mut v: Vec<u8> = Vec::new();
    v.push(START_BYTE);
    v.push(packet_code);
    v.push(length.0);
    v.push(length.1);
    v.push(sum.0);
    v.push(sum.1);
    v.extend_from_slice(data);
    assert(v@ =~= frame_with(packet_code, data@, crc));
    v
}

/// Builds the frame of a payload: start byte, packet type, length, checksum,
/// payload.
pub fn construct_header(packet_code: u8, data: Vec<u8>) -> (bytes: Vec<u8>)
    requires
        data@.len() <= u16::MAX,
    ensures
        bytes@ == frame(packet_code, data@),
{
    let head = covered_bytes(packet_code, data.as_slice());
    let crc = checksum(head.as_slice());
    assemble_frame(packet_code, data.as_slice(), crc)
}

/// Checks the shape of a received frame and reads its header.
pub fn frame_header(bytes: &[u8], packet_code: u8) -> (r: ResultComm<FrameHeader>)
    ensures
        r == spec_frame_header(bytes@, packet_code),
{
    if bytes.len() < 2 || bytes[0] != START_BYTE || bytes[1] != packet_code {
        return Err(CommunicationError::InvalidHeader);
    }
    if bytes.len() < 6 {
        return Err(CommunicationError::InvalidHeader);
    }
    let length = u16_from_le(bytes[2], bytes[3]);
    if bytes.len() - 6 != length as usize {
        return Err(CommunicationError::InvalidData);
    }
    Ok(FrameHeader { length, crc: u16_from_le(bytes[4], bytes[5]) })
}

/// Judges a frame whose shape is sound by the checksum that was computed over
/// the received bytes.
pub fn verdict(header: FrameHeader, computed: u16) -> (r: ResultComm<()>)
    ensures
        r == spec_verdict(header, computed),
{
    if computed != header.crc {
        Err(CommunicationError::InvalidCrc)
    } else if header.length == 0 {
        Err(CommunicationError::Aborted)
    } else {
        Ok(())
    }
}

/// Takes a received frame apart: checks start byte, packet type, length and
/// checksum, and hands out the payload.
pub fn parse_frame(bytes: &[u8], packet_code: u8) -> (r: ResultComm<Vec<u8>>)
    ensures
        r matches Ok(payload) ==> spec_parse_frame(bytes@, packet_code) == Ok::<
            Seq<u8>,
            CommunicationError,
        >(payload@),
        r matches Err(e) ==> spec_parse_frame(bytes@, packet_code) == Err::<
            Seq<u8>,
            CommunicationError,
        >(e),
{
    let header = match frame_header(bytes, packet_code) {
        Ok(header) => header,
        Err(e) => {
            return Err(e);
        },
    };
    let mut covered: Vec<u8> = Vec::new();
    covered.extend_from_slice(vstd::slice::slice_subrange(bytes, 0, 4));
    covered.extend_from_slice(vstd::slice::slice_subrange(bytes, 6, bytes.len()));
    assert(covered@ =~= bytes@.take(4) + bytes@.skip(6));
    let computed = checksum(covered.as_slice());
    match verdict(header, computed) {
        Ok(()) => {
            let mut payload: Vec<u8> = Vec::new();
            payload.extend_from_slice(vstd::slice::slice_subrange(bytes, 6, bytes.len()));
            assert(payload@ =~= bytes@.skip(6));
            Ok(payload)
        },
        Err(e) => Err(e),
    }
}

/// The checksum that a frame carries is the checksum of the bytes in front of
/// it together with the payload.
pub proof fn lemma_frame_carries_its_crc(packet_code: u8, payload: Seq<u8>)
    requires
        payload.len() <= u16::MAX,
    ensures
        frame(packet_code, payload).len() == 6 + payload.len(),
        le_half(frame(packet_code, payload)[4], frame(packet_code, payload)[5]) == crc16_xmodem(
            frame(packet_code, payload).take(4) + frame(packet_code, payload).skip(6),
        ),
        frame(packet_code, payload).take(4) + frame(packet_code, payload).skip(6) == covered(
            packet_code,
            payload,
        ),
{
    let f = frame(packet_code, payload);
    let crc = crc16_xmodem(covered(packet_code, payload));
    lemma_half_roundtrip(crc, 0, 0);
    assert(f.take(4) + f.skip(6) =~= covered(packet_code, payload));
}

/// Parsing inverts construction: the frame of a payload that is not empty
/// parses back to that payload, and the frame of an empty payload is read as
/// an abort.
pub proof fn lemma_frame_roundtrip(packet_code: u8, payload: Seq<u8>)
    requires
        payload.len() <= u16::MAX,
    ensures
        payload.len() > 0 ==> spec_parse_frame(frame(packet_code, payload), packet_code) == Ok::<
            Seq<u8>,
            CommunicationError,
        >(payload),
        payload.len() == 0 ==> spec_parse_frame(frame(packet_code, payload), packet_code) == Err::<
            Seq<u8>,
            CommunicationError,
        >(CommunicationError::Aborted),
{
    let f = frame(packet_code, payload);
    let length = payload.len() as u16;
    lemma_frame_carries_its_crc(packet_code, payload);
    lemma_half_roundtrip(length, 0, 0);
    assert(f.skip(6) =~= payload);
}

} // verus!

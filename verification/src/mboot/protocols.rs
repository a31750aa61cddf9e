//! What all transports have in common: the error type, the acknowledgment
//! bytes and the interface through which the command engine reaches a device.
use vstd::prelude::*;

use std::time::Duration;

use super::packets::{frame, Packet, PacketConstruct, PacketParse};
use super::tags::status::StatusCode;

pub mod i2c;
pub mod stream;
pub mod uart;
pub mod usb;

verus! {

/// Positive acknowledgment: the frame was accepted.
pub const ACK: u8 = 0xA1;

/// Negative acknowledgment: the frame was refused.
pub const NACK: u8 = 0xA2;

/// Acknowledgment that also aborts the data phase.
pub const ACK_ABORT: u8 = 0xA3;

/// What can go wrong between the host and the device.
#[derive(Debug)]
pub enum CommunicationError {
    /// The serial port failed; the text says how.
    SerialPortError(String),
    /// Reading from or writing to the device failed; the text says how.
    IOError(String),
    /// Reading or writing a file failed; the text says how.
    FileError(String),
    /// The device refused a frame.
    NACKSent,
    /// A frame arrived with a checksum that does not match its bytes.
    InvalidCrc,
    /// A frame arrived with a malformed header.
    InvalidHeader,
    /// A packet holds data that breaks the protocol.
    InvalidData,
    /// A packet of another kind than the expected one arrived.
    InvalidPacketReceived,
    /// A text could not be parsed; the text says why.
    ParseError(String),
    /// The device reported the given status where success was needed. The
    /// number is the status as it came over the wire.
    UnexpectedStatus(StatusCode, u32),
    /// The data phase was aborted.
    Aborted,
    /// The transport does not exist on this platform.
    UnsupportedPlatform,
    /// No answer came in time.
    Timeout,
}

/// The result of an exchange with the device.
pub type ResultComm<T> = Result<T, CommunicationError>;

/// The result of a command that answers with a status only.
pub type ResultStatus = ResultComm<StatusCode>;

impl From<StatusCode> for CommunicationError {
    /// Wraps a status that stands in the way, together with its number.
    fn from(value: StatusCode) -> (e: CommunicationError) {
        CommunicationError::UnexpectedStatus(value, value.code())
    }
}

impl vstd::std_specs::convert::FromSpecImpl<StatusCode> for CommunicationError {
    open spec fn obeys_from_spec() -> bool {
        true
    }

    open spec fn from_spec(v: StatusCode) -> CommunicationError {
        CommunicationError::UnexpectedStatus(v, v.spec_code())
    }
}

/// One exchange with a device, as a link records it.
pub ghost enum Exchange {
    /// A frame was handed to the link for sending; the link reported the given
    /// outcome.
    Sent(Seq<u8>, ResultComm<()>),
    /// A packet of the given type was asked of the link; the link came back
    /// with the given payload or error.
    Received(u8, ResultComm<Seq<u8>>),
}

/// A payload or error as [`Exchange::Received`] records it.
pub open spec fn received_view(r: ResultComm<Vec<u8>>) -> ResultComm<Seq<u8>> {
    match r {
        Ok(payload) => Ok(payload@),
        Err(e) => Err(e),
    }
}

/// A link to one device: it sends frames and waits for their acknowledgment,
/// and it receives frames and acknowledges them.
///
/// What a link answers is its own affair. An implementation may say of itself
/// which answers it can give, through `may_write` and `may_read`; one that says
/// nothing leaves every answer open. What the command engine does with the
/// answers is stated over the record that a [`Recorded`] link keeps.
pub trait Protocol {
    /// Whether the link, as it is in `self`, may answer `r` to the sending of
    /// `data` and be as in `after` then.
    open spec fn may_write(&self, data: Seq<u8>, after: &Self, r: ResultComm<()>) -> bool {
        true
    }

    /// Whether the link, as it is in `self`, may answer `r` when asked for a
    /// packet of the given type and be as in `after` then.
    open spec fn may_read(&self, packet_code: u8, after: &Self, r: ResultComm<Vec<u8>>) -> bool {
        true
    }

    /// How long the link waits for an answer.
    fn get_timeout(&self) -> Duration;

    /// How long the link sleeps between two looks for an acknowledgment.
    fn get_polling_interval(&self) -> Duration;

    /// The text that the link was opened with.
    fn get_identifier(&self) -> &str;

    /// Reads the given number of bytes as they come.
    fn read(&mut self, bytes: usize) -> ResultComm<Vec<u8>>;

    /// Sends one frame and waits until the device has acknowledged it.
    fn write_packet_raw(&mut self, data: &[u8]) -> (r: ResultComm<()>)
        ensures
            old(self).may_write(data@, final(self), r),
    ;

    /// Receives one frame of the given packet type, acknowledges it and hands
    /// out its payload.
    fn read_packet_raw(&mut self, packet_code: u8) -> (r: ResultComm<Vec<u8>>)
        ensures
            old(self).may_read(packet_code, final(self), r),
    ;

    /// Frames a packet and sends it: the answer, and what becomes of the link,
    /// are those of `write_packet_raw` for the frame of the packet.
    fn write_packet_concrete<T: PacketConstruct + Packet>(&mut self, packet: T) -> (r: ResultComm<
        (),
    >)
        requires
            packet.spec_payload().len() <= u16::MAX,
        ensures
            old(self).may_write(frame(T::spec_get_code(), packet.spec_payload()), final(self), r),
    {
        let bytes = packet.construct();
        self.write_packet_raw(bytes.as_slice())
    }

    /// Receives a frame of the packet type of `T` and reads a `T` from its
    /// payload: `read_packet_raw` is asked for that packet type, its error is
    /// handed on, and its payload is read as `T::parse` reads it.
    fn read_packet_concrete<T: PacketParse + Packet>(&mut self) -> (r: ResultComm<T>)
        ensures
            exists|raw: ResultComm<Vec<u8>>| #[trigger]
                old(self).may_read(T::spec_get_code(), final(self), raw) && (match raw {
                    Ok(payload) => T::parses_to(payload@, r),
                    Err(e) => r == Err::<T, CommunicationError>(e),
                }),
    {
        match self.read_packet_raw(T::get_code()) {
            Ok(data_slice) => T::parse(data_slice.as_slice()),
            Err(e) => Err(e),
        }
    }
}

/// A link together with the record of what passed through it.
///
/// The record exists in proofs only. Every frame that is sent and every
/// packet that is asked for goes through the two methods below, and each adds
/// one entry: the record is the complete account of what was done to the
/// device.
pub struct Recorded<T: Protocol> {
    device: T,
    log: Ghost<Seq<Exchange>>,
}

impl<T: Protocol> Recorded<T> {
    /// The exchanges so far, oldest first.
    pub closed spec fn history(&self) -> Seq<Exchange> {
        self.log@
    }

    /// Starts an empty record for a link.
    pub fn new(device: T) -> (link: Recorded<T>)
        ensures
            link.history() == Seq::<Exchange>::empty(),
    {
        Recorded { device, log: Ghost(Seq::empty()) }
    }

    /// The link itself, as a mathematical value.
    pub closed spec fn link(&self) -> T {
        self.device
    }

    /// The link itself.
    pub fn device(&self) -> (link: &T)
        ensures
            *link == self.link(),
    {
        &self.device
    }

    /// Sends one frame through the link and records the outcome.
    pub fn write_packet_raw(&mut self, data: &[u8]) -> (r: ResultComm<()>)
        ensures
            final(self).history() == old(self).history().push(Exchange::Sent(data@, r)),
    {
        let r = self.device.write_packet_raw(data);
        proof {
            self.log@ = self.log@.push(Exchange::Sent(data@, r));
        }
        r
    }

    /// Frames a packet, sends it through the link and records the outcome.
    pub fn write_packet_concrete<P: PacketConstruct + Packet>(&mut self, packet: P) -> (r:
        ResultComm<()>)
        requires
            packet.spec_payload().len() <= u16::MAX,
        ensures
            final(self).history() == old(self).history().push(
                Exchange::Sent(frame(P::spec_get_code(), packet.spec_payload()), r),
            ),
    {
        let bytes = packet.construct();
        self.write_packet_raw(bytes.as_slice())
    }

    /// Asks the link for one packet of the packet type of `P`, records the
    /// outcome and reads a `P` from the payload that came. An error of the
    /// link is handed on.
    pub fn read_packet_concrete<P: PacketParse + Packet>(&mut self) -> (r: ResultComm<P>)
        ensures
            final(self).history().len() == old(self).history().len() + 1,
            final(self).history().drop_last() == old(self).history(),
            match final(self).history().last() {
                Exchange::Received(packet_code, Ok(payload)) => packet_code == P::spec_get_code()
                    && P::parses_to(payload, r),
                Exchange::Received(packet_code, Err(e)) => packet_code == P::spec_get_code() && r
                    == Err::<P, CommunicationError>(e),
                Exchange::Sent(_, _) => false,
            },
    {
        let ghost before = self.history();
        let outcome = self.read_packet_raw(P::get_code());
        assert(self.history().drop_last() =~= before);
        match outcome {
            Ok(data_slice) => P::parse(data_slice.as_slice()),
            Err(e) => Err(e),
        }
    }

    /// Asks the link for one packet of the given type and records the outcome.
    pub fn read_packet_raw(&mut self, packet_code: u8) -> (r: ResultComm<Vec<u8>>)
        ensures
            final(self).history() == old(self).history().push(
                Exchange::Received(packet_code, received_view(r)),
            ),
    {
        let r = self.device.read_packet_raw(packet_code);
        proof {
            self.log@ = self.log@.push(Exchange::Received(packet_code, received_view(r)));
        }
        r
    }
}

/// A link that can be opened from a text that names the device.
pub trait ProtocolOpen: Protocol + Sized {
    /// Whether opening the link that the identifier names may answer `r`. An
    /// implementation that says nothing of itself leaves every answer open.
    open spec fn may_open(identifier: Seq<char>, r: ResultComm<Self>) -> bool {
        true
    }

    /// Opens the link with the defaults of the transport.
    fn open(identifier: &str) -> (r: ResultComm<Self>)
        ensures
            Self::may_open(identifier@, r),
    ;

    /// Opens the link with the given baud rate, timeout and polling interval.
    /// Whatever the options, the answer is one that opening the link of that
    /// name may give. A transport that has no use for the options opens with
    /// its defaults: the answer is that of `open` for the identifier.
    fn open_with_options(
        identifier: &str,
        baudrate: u32,
        timeout: Duration,
        polling_interval: Duration,
    ) -> (r: ResultComm<Self>)
        ensures
            Self::may_open(identifier@, r),
    {
        Self::open(identifier)
    }
}

} // verus!

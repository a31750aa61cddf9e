//! Reading one response, with the data phase that may come with it.
//!
//! A response starts with a command frame. Where that frame announces a data
//! phase, data frames follow until the announced number of bytes has arrived
//! or the device aborts, and a second command frame brings the final status.
//! The reader is a state machine: it says which packet it wants next and takes
//! what the link came back with.
use vstd::prelude::*;

use super::packets::command::{
    parse_response, spec_parse_response, CmdResponse, CommandHeader, ResponseFields,
    ResponseHeader, ResponseView,
};
use super::packets::{CMD, DATA};
use super::protocols::{received_view, CommunicationError, ResultComm};
use super::tags::command_flag::CommandFlag;
use super::tags::command_response::CmdResponseTag;
use super::tags::status::StatusCode;

verus! {

/// Where the reading of a response stands.
pub ghost enum ReaderState {
    /// The first command frame is awaited.
    AwaitFirst,
    /// A data phase is under way: `declared` bytes were announced and `data`
    /// has arrived, which is not yet that many.
    Streaming { head: ResponseFields, declared: u32, data: Seq<u8> },
    /// The data phase is over and the command frame with the final status is
    /// awaited.
    AwaitFinal { head: ResponseFields, data: Seq<u8> },
    /// The response is complete, or reading it failed.
    Done(ResultComm<ResponseView>),
}

/// The response that a single command frame makes.
pub open spec fn response_without_data(head: ResponseFields) -> ResultComm<ResponseView> {
    match CmdResponseTag::spec_from_code(head.code, head.words, None) {
        Some(tag) => Ok(
            ResponseView {
                header: CommandHeader { flag: head.flag, reserved: head.reserved },
                status: head.status,
                tag,
            },
        ),
        None => Err(CommunicationError::InvalidData),
    }
}

/// The response that a first frame, a data phase and a final status make.
pub open spec fn response_with_data(
    head: ResponseFields,
    status: StatusCode,
    data: Seq<u8>,
) -> ResultComm<ResponseView> {
    match CmdResponseTag::spec_from_code(head.code, head.words, Some(data)) {
        Some(tag) => Ok(
            ResponseView {
                header: CommandHeader { flag: CommandFlag::NoData, reserved: head.reserved },
                status,
                tag,
            },
        ),
        None => Err(CommunicationError::InvalidData),
    }
}

/// Where the reader stands after the first command frame. With `mask` set the
/// flag of the frame is not looked at and no data phase is read.
pub open spec fn after_first(mask: bool, outcome: ResultComm<Seq<u8>>) -> ReaderState {
    match outcome {
        Err(e) => ReaderState::Done(Err(e)),
        Ok(payload) => match spec_parse_response(payload) {
            Err(e) => ReaderState::Done(Err(e)),
            Ok(head) => if mask || head.flag == CommandFlag::NoData {
                ReaderState::Done(response_without_data(head))
            } else if head.words.len() == 0 {
                ReaderState::Done(Err(CommunicationError::InvalidData))
            } else if head.words[0] == 0 {
                ReaderState::AwaitFinal { head, data: Seq::empty() }
            } else {
                ReaderState::Streaming { head, declared: head.words[0], data: Seq::empty() }
            },
        },
    }
}

/// Where the reader stands after one packet of the data phase. An empty packet
/// and the error `Aborted` both end the data phase with what has arrived; any
/// other error ends the reading. A packet that leaves the bytes short of the
/// announced number, or carries them past it, leaves the data phase under way.
pub open spec fn after_data(
    head: ResponseFields,
    declared: u32,
    data: Seq<u8>,
    outcome: ResultComm<Seq<u8>>,
) -> ReaderState {
    match outcome {
        Ok(bytes) => if bytes.len() == 0 {
            ReaderState::AwaitFinal { head, data }
        } else if (data + bytes).len() == declared {
            ReaderState::AwaitFinal { head, data: data + bytes }
        } else {
            ReaderState::Streaming { head, declared, data: data + bytes }
        },
        Err(CommunicationError::Aborted) => ReaderState::AwaitFinal { head, data },
        Err(e) => ReaderState::Done(Err(e)),
    }
}

/// Where the reader stands after the command frame with the final status.
pub open spec fn after_final(
    head: ResponseFields,
    data: Seq<u8>,
    outcome: ResultComm<Seq<u8>>,
) -> ReaderState {
    match outcome {
        Err(e) => ReaderState::Done(Err(e)),
        Ok(payload) => match spec_parse_response(payload) {
            Err(e) => ReaderState::Done(Err(e)),
            Ok(last) => ReaderState::Done(response_with_data(head, last.status, data)),
        },
    }
}

/// One step of the reader: the state after the link came back with `outcome`.
/// A reader that is done stays as it is.
pub open spec fn reader_step(
    mask: bool,
    state: ReaderState,
    outcome: ResultComm<Seq<u8>>,
) -> ReaderState {
    match state {
        ReaderState::AwaitFirst => after_first(mask, outcome),
        ReaderState::Streaming { head, declared, data } => after_data(head, declared, data, outcome),
        ReaderState::AwaitFinal { head, data } => after_final(head, data, outcome),
        ReaderState::Done(r) => ReaderState::Done(r),
    }
}

/// The packet type that the reader asks for next.
pub open spec fn reader_wants(state: ReaderState) -> u8 {
    match state {
        ReaderState::Streaming { .. } => DATA,
        _ => CMD,
    }
}

/// A bound on the packets that the reader may still ask for: it drops with
/// every step.
pub open spec fn reader_measure(state: ReaderState) -> int {
    match state {
        ReaderState::AwaitFirst => usize::MAX + 3,
        ReaderState::Streaming { data, .. } => usize::MAX - data.len() + 2,
        ReaderState::AwaitFinal { .. } => 1,
        ReaderState::Done(_) => 0,
    }
}

/// The state of a data phase after the given packets have arrived one after
/// the other.
pub open spec fn after_packets(
    head: ResponseFields,
    declared: u32,
    packets: Seq<Seq<u8>>,
) -> ReaderState
    decreases packets.len(),
{
    if packets.len() == 0 {
        ReaderState::Streaming { head, declared, data: Seq::empty() }
    } else {
        reader_step(
            false,
            after_packets(head, declared, packets.drop_last()),
            Ok(packets.last()),
        )
    }
}

/// The bytes of the given packets, one after the other.
pub open spec fn joined(packets: Seq<Seq<u8>>) -> Seq<u8>
    decreases packets.len(),
{
    if packets.len() == 0 {
        Seq::empty()
    } else {
        joined(packets.drop_last()) + packets.last()
    }
}

/// Whether a data phase of `declared` bytes is still under way after each
/// proper prefix of the packets: none of them is empty and only all of them
/// together may reach the declared length.
pub open spec fn keeps_streaming(declared: u32, packets: Seq<Seq<u8>>) -> bool {
    forall|k: int|
        0 <= k < packets.len() ==> (#[trigger] packets[k]).len() > 0 && joined(packets.take(k)).len()
            != declared
}

/// A data phase collects what arrives. While the phase is under way the reader
/// holds the packets joined; once they add up to the declared length, the
/// reader holds exactly that many bytes and awaits the final status.
pub proof fn lemma_data_phase_collects(head: ResponseFields, declared: u32, packets: Seq<Seq<u8>>)
    requires
        keeps_streaming(declared, packets),
        declared > 0,
    ensures
        joined(packets).len() != declared ==> after_packets(head, declared, packets)
            == (ReaderState::Streaming { head, declared, data: joined(packets) }),
        joined(packets).len() == declared ==> after_packets(head, declared, packets)
            == (ReaderState::AwaitFinal { head, data: joined(packets) }),
    decreases packets.len(),
{
    if packets.len() > 0 {
        let before = packets.drop_last();
        assert forall|k: int| 0 <= k < before.len() implies (#[trigger] before[k]).len() > 0
            && joined(before.take(k)).len() != declared by {
            assert(before[k] == packets[k]);
            assert(before.take(k) =~= packets.take(k));
        }
        lemma_data_phase_collects(head, declared, before);
        assert(packets.take(packets.len() - 1) =~= before);
        assert(packets[packets.len() - 1].len() > 0);
        assert(joined(before).len() != declared);
    }
}

/// A device that aborts ends the data phase: the reader keeps the bytes that
/// had arrived, no more and no fewer, and awaits the final status.
pub proof fn lemma_abort_keeps_received(head: ResponseFields, declared: u32, packets: Seq<Seq<u8>>)
    requires
        keeps_streaming(declared, packets),
        declared > 0,
        joined(packets).len() != declared,
    ensures
        reader_step(
            false,
            after_packets(head, declared, packets),
            Err(CommunicationError::Aborted),
        ) == (ReaderState::AwaitFinal { head, data: joined(packets) }),
        reader_step(false, after_packets(head, declared, packets), Ok(Seq::empty()))
            == (ReaderState::AwaitFinal { head, data: joined(packets) }),
{
    lemma_data_phase_collects(head, declared, packets);
}

/// The reader of one response.
pub enum ResponseReader {
    /// The first command frame is awaited.
    AwaitFirst,
    /// A data phase is under way.
    Streaming {
        /// Fields of the first command frame.
        head: ResponseHeader,
        /// Number of bytes that the device announced.
        declared: u32,
        /// Bytes that have arrived.
        data: Vec<u8>,
    },
    /// The command frame with the final status is awaited.
    AwaitFinal {
        /// Fields of the first command frame.
        head: ResponseHeader,
        /// Bytes of the data phase.
        data: Vec<u8>,
    },
    /// The response is complete, or reading it failed.
    Done(ResultComm<CmdResponse>),
}

/// The contents of a finished reading.
pub open spec fn response_view(r: ResultComm<CmdResponse>) -> ResultComm<ResponseView> {
    match r {
        Ok(response) => Ok(response@),
        Err(e) => Err(e),
    }
}

impl View for ResponseReader {
    type V = ReaderState;

    open spec fn view(&self) -> ReaderState {
        match self {
            ResponseReader::AwaitFirst => ReaderState::AwaitFirst,
            ResponseReader::Streaming { head, declared, data } => ReaderState::Streaming {
                head: head@,
                declared: *declared,
                data: data@,
            },
            ResponseReader::AwaitFinal { head, data } => ReaderState::AwaitFinal {
                head: head@,
                data: data@,
            },
            ResponseReader::Done(r) => ReaderState::Done(response_view(*r)),
        }
    }
}

/// Builds the response that a single command frame makes.
fn single_frame_response(head: ResponseHeader) -> (r: ResultComm<CmdResponse>)
    ensures
        response_view(r) == response_without_data(head@),
{
    match CmdResponseTag::from_code(head.code, head.params.as_slice(), None) {
        Some(tag) => Ok(
            CmdResponse {
                header: CommandHeader { flag: head.flag, reserved: head.reserved },
                status: head.status,
                tag,
            },
        ),
        None => Err(CommunicationError::InvalidData),
    }
}

/// Builds the response that a first frame, a data phase and a final status
/// make.
fn data_phase_response(head: ResponseHeader, status: StatusCode, data: Vec<u8>) -> (r: ResultComm<
    CmdResponse,
>)
    ensures
        response_view(r) == response_with_data(head@, status, data@),
{
    match CmdResponseTag::from_code(head.code, head.params.as_slice(), Some(data.as_slice())) {
        Some(tag) => Ok(
            CmdResponse {
                header: CommandHeader { flag: CommandFlag::NoData, reserved: head.reserved },
                status,
                tag,
            },
        ),
        None => Err(CommunicationError::InvalidData),
    }
}

impl ResponseReader {
    /// Whether the buffer of the reader has a length that a machine can hold.
    pub open spec fn wf(&self) -> bool {
        match self {
            ResponseReader::Streaming { data, .. } => data@.len() <= usize::MAX,
            _ => true,
        }
    }

    /// A reader that awaits the first frame of a response.
    pub fn start() -> (reader: ResponseReader)
        ensures
            reader@ == ReaderState::AwaitFirst,
            reader.wf(),
    {
        ResponseReader::AwaitFirst
    }

    /// Whether the reading has come to its end.
    pub fn is_done(&self) -> (done: bool)
        ensures
            done == (self@ is Done),
    {
        match self {
            ResponseReader::Done(_) => true,
            _ => false,
        }
    }

    /// The packet type to ask the link for.
    pub fn wanted(&self) -> (packet_code: u8)
        ensures
            packet_code == reader_wants(self@),
    {
        match self {
            ResponseReader::Streaming { .. } => DATA,
            _ => CMD,
        }
    }

    /// Takes what the link came back with and moves on.
    pub fn on_packet(self, mask: bool, outcome: ResultComm<Vec<u8>>) -> (next: ResponseReader)
        requires
            self.wf(),
            !(self@ is Done),
        ensures
            next@ == reader_step(mask, self@, received_view(outcome)),
            next.wf(),
            0 <= reader_measure(next@) < reader_measure(self@),
    {
        match self {
            ResponseReader::AwaitFirst => {
                let payload = match outcome {
                    Ok(payload) => payload,
                    Err(e) => {
                        return ResponseReader::Done(Err(e));
                    },
                };
                let head = match parse_response(payload.as_slice()) {
                    Ok(head) => head,
                    Err(e) => {
                        return ResponseReader::Done(Err(e));
                    },
                };
                if mask || head.flag.is_no_data() {
                    return ResponseReader::Done(single_frame_response(head));
                }
                assert(head@.words.len() == head.params@.len() / 4);
                if head.params.len() < 4 {
                    return ResponseReader::Done(Err(CommunicationError::InvalidData));
                }
                let declared = crate::mboot::words::u32_from_le(
                    head.params[0],
                    head.params[1],
                    head.params[2],
                    head.params[3],
                );
                assert(head@.words[0] == declared);
                let data: Vec<u8> = Vec::new();
                assert(data@ =~= Seq::<u8>::empty());
                if declared == 0 {
                    ResponseReader::AwaitFinal { head, data }
                } else {
                    ResponseReader::Streaming { head, declared, data }
                }
            },
            ResponseReader::Streaming { head, declared, data } => {
                let mut data = data;
                let ghost before = data@;
                match outcome {
                    Ok(bytes) => {
                        if bytes.len() == 0 {
                            return ResponseReader::AwaitFinal { head, data };
                        }
                        data.extend_from_slice(bytes.as_slice());
                        assert(data@ =~= before + bytes@);
                        if data.len() == declared as usize {
                            ResponseReader::AwaitFinal { head, data }
                        } else {
                            ResponseReader::Streaming { head, declared, data }
                        }
                    },
                    Err(CommunicationError::Aborted) => ResponseReader::AwaitFinal { head, data },
                    Err(e) => ResponseReader::Done(Err(e)),
                }
            },
            ResponseReader::AwaitFinal { head, data } => {
                let payload = match outcome {
                    Ok(payload) => payload,
                    Err(e) => {
                        return ResponseReader::Done(Err(e));
                    },
                };
                match parse_response(payload.as_slice()) {
                    Ok(last) => ResponseReader::Done(data_phase_response(head, last.status, data)),
                    Err(e) => ResponseReader::Done(Err(e)),
                }
            },
            ResponseReader::Done(r) => ResponseReader::Done(r),
        }
    }

    /// Hands out the response once the reading is done.
    pub fn finish(self) -> (r: ResultComm<CmdResponse>)
        requires
            self@ is Done,
        ensures
            self@ == ReaderState::Done(response_view(r)),
    {
        match self {
            ResponseReader::Done(r) => r,
            _ => Err(CommunicationError::InvalidData),
        }
    }
}

} // verus!

//! The exchange that carries out one command.
//!
//! A command without bytes of its own is sent and answered. A command with
//! bytes first asks the device for its largest packet size, is then sent and
//! answered with an intermediate response, streams its bytes in packets of
//! that size, and is answered again with the final status. The exchange is a
//! state machine: it says what to do to the link next and takes what the link
//! came back with, so that the rules stand apart from the link.
use vstd::prelude::*;

use super::packets::command::{CmdResponse, CommandHeader, ResponseView};
use super::packets::{construct_header, frame, CMD, DATA};
use super::protocols::{received_view, CommunicationError, Exchange, ResultComm};
use super::packets::command::{spec_parse_response, ResponseFields};
use super::reader::{
    after_final, after_packets, joined, keeps_streaming, lemma_abort_keeps_received,
    lemma_data_phase_collects, reader_measure, reader_step, reader_wants, response_view,
    ReaderState, ResponseReader,
};
use super::tags::command::CommandTagDiscriminants;
use super::tags::command_flag::CommandFlag;
use super::tags::command_response::{CmdResponseTag, CmdResponseValue};
use super::tags::property::PropertyTagDiscriminants;
use super::tags::status::StatusCode;

verus! {

/// The read-back that follows a write to one-time-programmable memory.
pub struct Verification {
    /// Frame of the command that reads the word back.
    pub frame: Vec<u8>,
    /// Value that was written.
    pub data: u32,
}

/// The contents of a [`Verification`].
pub ghost struct VerificationView {
    /// Frame of the command that reads the word back.
    pub frame: Seq<u8>,
    /// Value that was written.
    pub data: u32,
}

impl View for Verification {
    type V = VerificationView;

    open spec fn view(&self) -> VerificationView {
        VerificationView { frame: self.frame@, data: self.data }
    }
}

/// What an exchange is to do.
pub struct Plan<'a> {
    /// Frame of the command.
    pub command: Vec<u8>,
    /// Bytes that the command streams to the device, if it has any.
    pub data: Option<&'a [u8]>,
    /// Whether the command frame is sent at all. An image is streamed without
    /// one.
    pub announce: bool,
    /// Whether the responses that arrive before the bytes are streamed are read
    /// without regard to their flag.
    pub mask_send: bool,
    /// Whether the final response is read without regard to its flag.
    pub mask_final: bool,
    /// Whether the final response is still read after the device aborted the
    /// streaming.
    pub tolerate_abort: bool,
    /// Whether a final response is read.
    pub read_final: bool,
    /// Whether the final response may report a blank page in place of success.
    pub blank_page_ok: bool,
    /// The read-back to make after a successful final response, if any.
    pub verify: Option<Verification>,
}

/// The contents of a [`Plan`].
pub ghost struct PlanView {
    /// Frame of the command.
    pub command: Seq<u8>,
    /// Bytes that the command streams to the device, if it has any.
    pub data: Option<Seq<u8>>,
    /// See [`Plan::announce`].
    pub announce: bool,
    /// See [`Plan::mask_send`].
    pub mask_send: bool,
    /// See [`Plan::mask_final`].
    pub mask_final: bool,
    /// See [`Plan::tolerate_abort`].
    pub tolerate_abort: bool,
    /// See [`Plan::read_final`].
    pub read_final: bool,
    /// See [`Plan::blank_page_ok`].
    pub blank_page_ok: bool,
    /// See [`Plan::verify`].
    pub verify: Option<VerificationView>,
}

impl View for Plan<'_> {
    type V = PlanView;

    open spec fn view(&self) -> PlanView {
        PlanView {
            command: self.command@,
            data: match self.data {
                Some(bytes) => Some(bytes@),
                None => None,
            },
            announce: self.announce,
            mask_send: self.mask_send,
            mask_final: self.mask_final,
            tolerate_abort: self.tolerate_abort,
            read_final: self.read_final,
            blank_page_ok: self.blank_page_ok,
            verify: match self.verify {
                Some(v) => Some(v@),
                None => None,
            },
        }
    }
}

/// What the exchange wants done to the link.
pub ghost enum Demand {
    /// Send this frame.
    Write(Seq<u8>),
    /// Ask for a packet of this type.
    Read(u8),
    /// Nothing: the exchange is over.
    Nothing,
}

/// Where an exchange stands.
pub ghost enum EngineState {
    /// The query for the largest packet size is to be sent.
    Query,
    /// The answer to the query is being read.
    QueryReply(ReaderState),
    /// The command frame is to be sent; bytes will follow in packets of `size`.
    Command { size: u32 },
    /// The intermediate response is being read.
    Intermediate { size: u32, reader: ReaderState },
    /// The bytes from `offset` on are still to be streamed.
    Data { size: u32, offset: nat },
    /// The command frame of a command without bytes is to be sent.
    Plain,
    /// The final response is being read.
    Final(ReaderState),
    /// The read-back command is to be sent; `response` answered the write.
    VerifyQuery { response: ResponseView },
    /// The answer to the read-back is being read.
    VerifyReply { response: ResponseView, reader: ReaderState },
    /// The exchange is over, with this result. A result without a response
    /// belongs to a plan that reads none.
    Finished(ResultComm<Option<ResponseView>>),
    /// Something was done to the link that the exchange had not asked for.
    Stray,
}

/// The frame that asks for the largest packet size.
pub open spec fn query_frame() -> Seq<u8> {
    frame(
        CMD,
        (CommandHeader { flag: CommandFlag::NoData, reserved: 0 }).spec_payload(
            seq![PropertyTagDiscriminants::MaxPacketSize.spec_code() as u32, 0],
            CommandTagDiscriminants::GetProperty.spec_code(),
        ),
    )
}

/// The packet of the data phase that starts at `offset`: the next `size`
/// bytes, or all that are left if they are fewer.
pub open spec fn chunk_at(data: Seq<u8>, size: int, offset: int) -> Seq<u8> {
    data.subrange(
        offset,
        if offset + size <= data.len() {
            offset + size
        } else {
            data.len() as int
        },
    )
}

/// A response that is wanted only if it reports success: any other status is
/// an error that carries the status.
pub open spec fn require_success(r: ResultComm<ResponseView>) -> ResultComm<ResponseView> {
    match r {
        Err(e) => Err(e),
        Ok(response) => if response.status == StatusCode::Success {
            Ok(response)
        } else {
            Err(
                CommunicationError::UnexpectedStatus(response.status, response.status.spec_code()),
            )
        },
    }
}

/// A final response that is wanted if it reports success, or a blank page
/// where the plan allows it.
pub open spec fn accept_final(blank_page_ok: bool, r: ResultComm<ResponseView>) -> ResultComm<
    ResponseView,
> {
    match r {
        Err(e) => Err(e),
        Ok(response) => if response.status == StatusCode::Success || (blank_page_ok
            && response.status == StatusCode::MemoryBlankPageReadDisallowed) {
            Ok(response)
        } else {
            Err(
                CommunicationError::UnexpectedStatus(response.status, response.status.spec_code()),
            )
        },
    }
}

/// The packet size that the answer to the query names. The answer has to
/// report success, else its status is the error. An answer of another kind
/// than a property value gives `InvalidPacketReceived`. An answer without a
/// word, and a size of zero or of more than a frame can carry, give
/// `InvalidData`.
pub open spec fn max_packet_size(r: ResultComm<ResponseView>) -> ResultComm<u32> {
    match require_success(r) {
        Err(e) => Err(e),
        Ok(response) => match response.tag {
            CmdResponseValue::GetProperty(words) => if words.len() >= 1 && 0 < words[0]
                <= u16::MAX {
                Ok(words[0])
            } else {
                Err(CommunicationError::InvalidData)
            },
            _ => Err(CommunicationError::InvalidPacketReceived),
        },
    }
}

/// The verdict of a read-back: the response to the write as it is if every bit
/// that was written is set in the word read back, and with the status
/// [`StatusCode::OtpVerifyFail`] if one is missing. The answer to the
/// read-back has to report success and hold the word.
pub open spec fn verified(
    response: ResponseView,
    written: u32,
    r: ResultComm<ResponseView>,
) -> ResultComm<Option<ResponseView>> {
    match require_success(r) {
        Err(e) => Err(e),
        Ok(answer) => match answer.tag {
            CmdResponseValue::FlashReadOnce(value) => if value & written == written {
                Ok(Some(response))
            } else {
                Ok(
                    Some(
                        ResponseView {
                            header: response.header,
                            status: StatusCode::OtpVerifyFail,
                            tag: response.tag,
                        },
                    ),
                )
            },
            _ => Err(CommunicationError::InvalidPacketReceived),
        },
    }
}

/// Where the exchange starts.
pub open spec fn start(plan: PlanView) -> EngineState {
    if plan.data is Some {
        EngineState::Query
    } else {
        EngineState::Plain
    }
}

/// Where the exchange stands once the sending is over with the given result.
pub open spec fn after_send(plan: PlanView, sent: ResultComm<()>) -> EngineState {
    match sent {
        Ok(()) => if plan.read_final {
            EngineState::Final(ReaderState::AwaitFirst)
        } else {
            EngineState::Finished(Ok(None))
        },
        Err(CommunicationError::Aborted) => if plan.tolerate_abort && plan.read_final {
            EngineState::Final(ReaderState::AwaitFirst)
        } else {
            EngineState::Finished(Err(CommunicationError::Aborted))
        },
        Err(e) => EngineState::Finished(Err(e)),
    }
}

/// Where the exchange stands when the bytes from `offset` on are left to be
/// streamed.
pub open spec fn stream_from(plan: PlanView, size: u32, offset: nat) -> EngineState {
    if plan.data is Some && offset < plan.data->0.len() {
        EngineState::Data { size, offset }
    } else {
        after_send(plan, Ok(()))
    }
}

/// Where the exchange stands once the answer to the query is in.
pub open spec fn after_query(plan: PlanView, r: ResultComm<ResponseView>) -> EngineState {
    match max_packet_size(r) {
        Err(e) => after_send(plan, Err(e)),
        Ok(size) => if plan.announce {
            EngineState::Command { size }
        } else {
            stream_from(plan, size, 0)
        },
    }
}

/// Where the exchange stands once the intermediate response is in.
pub open spec fn after_intermediate(
    plan: PlanView,
    size: u32,
    r: ResultComm<ResponseView>,
) -> EngineState {
    match require_success(r) {
        Err(e) => after_send(plan, Err(e)),
        Ok(_) => stream_from(plan, size, 0),
    }
}

/// Where the exchange stands once the final response is in.
pub open spec fn after_response(plan: PlanView, r: ResultComm<ResponseView>) -> EngineState {
    match accept_final(plan.blank_page_ok, r) {
        Err(e) => EngineState::Finished(Err(e)),
        Ok(response) => if plan.verify is Some && response.status == StatusCode::Success {
            EngineState::VerifyQuery { response }
        } else {
            EngineState::Finished(Ok(Some(response)))
        },
    }
}

/// What the exchange wants done next.
pub open spec fn demand(plan: PlanView, state: EngineState) -> Demand {
    match state {
        EngineState::Query => Demand::Write(query_frame()),
        EngineState::QueryReply(reader) => Demand::Read(reader_wants(reader)),
        EngineState::Command { .. } => Demand::Write(plan.command),
        EngineState::Intermediate { reader, .. } => Demand::Read(reader_wants(reader)),
        EngineState::Data { size, offset } => Demand::Write(
            frame(DATA, chunk_at(plan.data->0, size as int, offset as int)),
        ),
        EngineState::Plain => Demand::Write(plan.command),
        EngineState::Final(reader) => Demand::Read(reader_wants(reader)),
        EngineState::VerifyQuery { .. } => Demand::Write(plan.verify->0.frame),
        EngineState::VerifyReply { reader, .. } => Demand::Read(reader_wants(reader)),
        EngineState::Finished(_) => Demand::Nothing,
        EngineState::Stray => Demand::Nothing,
    }
}

/// Where the exchange stands after the frame it asked for was sent with the
/// given outcome.
pub open spec fn after_write(plan: PlanView, state: EngineState, outcome: ResultComm<()>) -> EngineState {
    match state {
        EngineState::Query => match outcome {
            Ok(()) => EngineState::QueryReply(ReaderState::AwaitFirst),
            Err(e) => after_send(plan, Err(e)),
        },
        EngineState::Command { size } => match outcome {
            Ok(()) => EngineState::Intermediate { size, reader: ReaderState::AwaitFirst },
            Err(e) => after_send(plan, Err(e)),
        },
        EngineState::Data { size, offset } => match outcome {
            Ok(()) => stream_from(
                plan,
                size,
                offset + chunk_at(plan.data->0, size as int, offset as int).len(),
            ),
            Err(e) => after_send(plan, Err(e)),
        },
        EngineState::Plain => after_send(plan, outcome),
        EngineState::VerifyQuery { response } => match outcome {
            Ok(()) => EngineState::VerifyReply { response, reader: ReaderState::AwaitFirst },
            Err(e) => EngineState::Finished(Err(e)),
        },
        _ => EngineState::Stray,
    }
}

/// Where the exchange stands after the packet it asked for came back with the
/// given outcome.
pub open spec fn after_read(
    plan: PlanView,
    state: EngineState,
    outcome: ResultComm<Seq<u8>>,
) -> EngineState {
    match state {
        EngineState::QueryReply(reader) => match reader_step(plan.mask_send, reader, outcome) {
            ReaderState::Done(r) => after_query(plan, r),
            next => EngineState::QueryReply(next),
        },
        EngineState::Intermediate { size, reader } => match reader_step(
            plan.mask_send,
            reader,
            outcome,
        ) {
            ReaderState::Done(r) => after_intermediate(plan, size, r),
            next => EngineState::Intermediate { size, reader: next },
        },
        EngineState::Final(reader) => match reader_step(plan.mask_final, reader, outcome) {
            ReaderState::Done(r) => after_response(plan, r),
            next => EngineState::Final(next),
        },
        EngineState::VerifyReply { response, reader } => match reader_step(
            plan.mask_final,
            reader,
            outcome,
        ) {
            ReaderState::Done(r) => EngineState::Finished(verified(response, plan.verify->0.data, r)),
            next => EngineState::VerifyReply { response, reader: next },
        },
        _ => EngineState::Stray,
    }
}

/// One step of the exchange: the state after `event` happened on the link. An
/// event that the exchange had not asked for leads astray.
pub open spec fn step(plan: PlanView, state: EngineState, event: Exchange) -> EngineState {
    match (demand(plan, state), event) {
        (Demand::Write(wanted), Exchange::Sent(bytes, outcome)) => if wanted == bytes {
            after_write(plan, state, outcome)
        } else {
            EngineState::Stray
        },
        (Demand::Read(wanted), Exchange::Received(packet_code, outcome)) => if wanted
            == packet_code {
            after_read(plan, state, outcome)
        } else {
            EngineState::Stray
        },
        _ => EngineState::Stray,
    }
}

/// Where the exchange stands after the given events, oldest first.
pub open spec fn state_after(plan: PlanView, events: Seq<Exchange>) -> EngineState
    decreases events.len(),
{
    if events.len() == 0 {
        start(plan)
    } else {
        step(plan, state_after(plan, events.drop_last()), events.last())
    }
}

/// The result of the exchange that the given events make up, if they are an
/// exchange from its first step to its last and hold nothing else.
pub open spec fn outcome_of(plan: PlanView, events: Seq<Exchange>) -> Option<
    ResultComm<Option<ResponseView>>,
> {
    match state_after(plan, events) {
        EngineState::Finished(r) => Some(r),
        _ => None,
    }
}

/// How far the exchange is from its end, coarsely: the number drops whenever
/// the exchange moves on to another kind of step.
pub open spec fn phase(state: EngineState) -> nat {
    match state {
        EngineState::Query => 9,
        EngineState::QueryReply(_) => 8,
        EngineState::Command { .. } => 7,
        EngineState::Plain => 7,
        EngineState::Intermediate { .. } => 6,
        EngineState::Data { .. } => 5,
        EngineState::Final(_) => 4,
        EngineState::VerifyQuery { .. } => 3,
        EngineState::VerifyReply { .. } => 2,
        EngineState::Finished(_) => 0,
        EngineState::Stray => 0,
    }
}

/// How far the exchange is from the end of its present kind of step.
pub open spec fn slack(plan: PlanView, state: EngineState) -> int {
    match state {
        EngineState::QueryReply(reader) => reader_measure(reader),
        EngineState::Intermediate { reader, .. } => reader_measure(reader),
        EngineState::Final(reader) => reader_measure(reader),
        EngineState::VerifyReply { reader, .. } => reader_measure(reader),
        EngineState::Data { offset, .. } => plan.data->0.len() - offset,
        _ => 0,
    }
}

/// Whether `next` is nearer to the end of the exchange than `state`.
pub open spec fn nearer(plan: PlanView, next: EngineState, state: EngineState) -> bool {
    phase(next) < phase(state) || (phase(next) == phase(state) && 0 <= slack(plan, next) < slack(
        plan,
        state,
    ))
}

/// The number of packets that a data phase of `len` bytes takes with packets
/// of `size` bytes: `len / size`, rounded up.
pub open spec fn chunk_count(len: nat, size: nat) -> nat {
    ((len + size - 1) / size as int) as nat
}

/// Packet `i` of a data phase, counted from zero.
pub open spec fn chunk(data: Seq<u8>, size: nat, i: int) -> Seq<u8> {
    chunk_at(data, size as int, i * size)
}

/// The packets of a data phase, in the order in which they are sent.
pub open spec fn chunks(data: Seq<u8>, size: nat) -> Seq<Seq<u8>> {
    Seq::new(chunk_count(data.len(), size), |i: int| chunk(data, size, i))
}

/// Where the exchange stands after the first `k` packets of the data phase
/// were sent with success.
pub open spec fn after_chunks(plan: PlanView, size: u32, k: nat) -> EngineState
    decreases k,
{
    if k == 0 {
        stream_from(plan, size, 0)
    } else {
        after_write(plan, after_chunks(plan, size, (k - 1) as nat), Ok(()))
    }
}

/// Rounding up: the last packet starts inside the data, and all packets
/// together reach its end.
proof fn lemma_chunk_count(len: nat, size: nat)
    requires
        size > 0,
    ensures
        chunk_count(len, size) * size >= len,
        chunk_count(len, size) > 0 ==> (chunk_count(len, size) - 1) * size < len,
        len == 0 <==> chunk_count(len, size) == 0,
{
    let n = chunk_count(len, size) as int;
    let s = size as int;
    let total = len + size - 1;
    assert(total == s * (total / s) + total % s) by (nonlinear_arith)
        requires
            s > 0,
    ;
    assert(0 <= total % s < s) by (nonlinear_arith)
        requires
            s > 0,
    ;
    assert(n == total / s);
    assert(n * s == s * n) by (nonlinear_arith);
    assert((n - 1) * s == n * s - s) by (nonlinear_arith);
    if len == 0 {
        assert(total / s == 0) by (nonlinear_arith)
            requires
                0 <= total < s,
        ;
    }
}

/// The first `k` packets of a data phase, joined, are the bytes in front of
/// packet `k`.
proof fn lemma_chunks_prefix(data: Seq<u8>, size: nat, k: nat)
    requires
        size > 0,
        k <= chunk_count(data.len(), size),
    ensures
        k < chunk_count(data.len(), size) ==> k * size < data.len() && joined(
            chunks(data, size).take(k as int),
        ) == data.take((k * size) as int),
        k == chunk_count(data.len(), size) ==> joined(chunks(data, size).take(k as int)) == data,
    decreases k,
{
    let all = chunks(data, size);
    let n = chunk_count(data.len(), size);
    lemma_chunk_count(data.len(), size);
    if k == 0 {
        assert(all.take(0) =~= Seq::<Seq<u8>>::empty());
        assert(joined(all.take(0)) =~= data.take(0));
        if n == 0 {
            assert(data =~= Seq::<u8>::empty());
        }
    } else {
        let before = (k - 1) as nat;
        lemma_chunks_prefix(data, size, before);
        assert(all.take(k as int).drop_last() =~= all.take(before as int));
        assert(all.take(k as int).last() == chunk(data, size, before as int));
        assert(k * size == before * size + size) by (nonlinear_arith)
            requires
                k == before + 1,
        ;
        assert(before * size <= (n - 1) * size) by (nonlinear_arith)
            requires
                before <= n - 1,
        ;
        if k < n {
            assert(k * size <= (n - 1) * size) by (nonlinear_arith)
                requires
                    k <= n - 1,
            ;
            assert(joined(all.take(k as int)) =~= data.take((k * size) as int));
        } else {
            assert(joined(all.take(k as int)) =~= data);
        }
    }
}

/// The packets of a data phase are `len / size` of them, rounded up, and their
/// payloads, one after the other, are the bytes of the data phase. Each packet
/// but the last holds `size` bytes, and the last holds what is left.
pub proof fn lemma_chunks_rebuild(data: Seq<u8>, size: nat)
    requires
        size > 0,
    ensures
        chunks(data, size).len() == chunk_count(data.len(), size),
        joined(chunks(data, size)) == data,
        forall|i: int|
            0 <= i < chunks(data, size).len() ==> 0 < (#[trigger] chunks(data, size)[i]).len()
                <= size,
        forall|i: int|
            0 <= i < chunks(data, size).len() - 1 ==> (#[trigger] chunks(data, size)[i]).len()
                == size,
        chunks(data, size).len() > 0 ==> chunks(data, size).last().len() == data.len() - size * (
        chunks(data, size).len() - 1),
        data.len() == 0 <==> chunks(data, size).len() == 0,
{
    let all = chunks(data, size);
    let n = chunk_count(data.len(), size);
    lemma_chunks_prefix(data, size, n);
    lemma_chunk_count(data.len(), size);
    assert(all.take(n as int) =~= all);
    assert forall|i: int| 0 <= i < all.len() implies 0 < (#[trigger] all[i]).len() <= size by {
        lemma_chunks_prefix(data, size, i as nat);
    }
    assert forall|i: int| 0 <= i < all.len() - 1 implies (#[trigger] all[i]).len() == size by {
        lemma_chunks_prefix(data, size, i as nat);
        lemma_chunks_prefix(data, size, (i + 1) as nat);
        assert((i + 1) * size == i * size + size) by (nonlinear_arith);
    }
    if n > 0 {
        lemma_chunks_prefix(data, size, (n - 1) as nat);
        assert(size * (n - 1) == (n - 1) * size) by (nonlinear_arith);
        assert(n * size == (n - 1) * size + size) by (nonlinear_arith);
    }
}

/// The data phase goes out packet by packet: as long as the link accepts them,
/// the exchange asks for the frame of packet `k` after `k` packets, and after
/// the last one the sending is over.
pub proof fn lemma_data_phase_sends_chunks(plan: PlanView, size: u32, k: nat)
    requires
        plan.data is Some,
        size > 0,
        k <= chunk_count(plan.data->0.len(), size as nat),
    ensures
        k < chunk_count(plan.data->0.len(), size as nat) ==> after_chunks(plan, size, k) == (
        EngineState::Data { size, offset: k * (size as nat) }) && demand(
            plan,
            after_chunks(plan, size, k),
        ) == Demand::Write(frame(DATA, chunk(plan.data->0, size as nat, k as int))),
        k == chunk_count(plan.data->0.len(), size as nat) ==> after_chunks(plan, size, k)
            == after_send(plan, Ok(())),
    decreases k,
{
    let data = plan.data->0;
    let n = chunk_count(data.len(), size as nat);
    let s = size as nat;
    lemma_chunk_count(data.len(), s);
    lemma_chunks_prefix(data, s, k);
    if k > 0 {
        let before = (k - 1) as nat;
        lemma_data_phase_sends_chunks(plan, size, before);
        lemma_chunks_prefix(data, s, before);
        assert(k * s == before * s + s) by (nonlinear_arith)
            requires
                k == before + 1,
        ;
        let sent = chunk_at(data, size as int, (before * s) as int);
        if k < n {
            assert(sent.len() == s);
        } else {
            assert(before * s + sent.len() == data.len());
        }
    } else {
        assert(0 * s == 0) by (nonlinear_arith);
    }
}

/// The events of an outgoing data phase of which the link accepted the first
/// `k` packets.
pub open spec fn chunk_events(data: Seq<u8>, size: nat, k: nat) -> Seq<Exchange> {
    Seq::new(k, |i: int| Exchange::Sent(frame(DATA, chunk(data, size, i)), Ok(())))
}

/// The events of an incoming data phase in which the given packets arrived.
pub open spec fn packet_events(packets: Seq<Seq<u8>>) -> Seq<Exchange> {
    Seq::new(packets.len(), |i: int| Exchange::Received(DATA, Ok(packets[i])))
}

/// One more event moves the exchange by one step.
pub proof fn lemma_one_more_event(plan: PlanView, events: Seq<Exchange>, event: Exchange)
    ensures
        state_after(plan, events.push(event)) == step(plan, state_after(plan, events), event),
{
    assert(events.push(event).drop_last() =~= events);
}

/// Events that led astray, or that went on after the end of the exchange, are
/// no exchange, whatever follows them.
proof fn lemma_astray_stays(plan: PlanView, events: Seq<Exchange>, i: int)
    requires
        0 <= i <= events.len(),
        state_after(plan, events.take(i)) is Stray || (i < events.len() && state_after(
            plan,
            events.take(i),
        ) is Finished),
    ensures
        state_after(plan, events) is Stray,
    decreases events.len() - i,
{
    if i == events.len() {
        assert(events.take(i) =~= events);
    } else {
        assert(events.take(i + 1).drop_last() =~= events.take(i));
        lemma_astray_stays(plan, events, i + 1);
    }
}

/// An exchange holds nothing but what it asked for: where the events did not
/// lead astray, each frame that was sent is the frame that the exchange wanted
/// written after the events before it, and each packet that was read is of the
/// type that it wanted read then. So none of them came after its end.
pub proof fn lemma_exchange_does_what_is_asked(plan: PlanView, events: Seq<Exchange>, i: int)
    requires
        !(state_after(plan, events) is Stray),
        0 <= i < events.len(),
    ensures
        match events[i] {
            Exchange::Sent(bytes, _) => demand(plan, state_after(plan, events.take(i)))
                == Demand::Write(bytes),
            Exchange::Received(packet_code, _) => demand(plan, state_after(plan, events.take(i)))
                == Demand::Read(packet_code),
        },
        state_after(plan, events.take(i + 1)) == step(
            plan,
            state_after(plan, events.take(i)),
            events[i],
        ),
{
    assert(events.take(i + 1).drop_last() =~= events.take(i));
    if state_after(plan, events.take(i + 1)) is Stray {
        lemma_astray_stays(plan, events, i + 1);
    }
}

/// What a command with bytes does to a device that goes along: the query for
/// the packet size goes out and is answered with the size `m`, the command
/// goes out and is answered with success, and then the first `k` packets of
/// the bytes go out, each of `m` bytes but for the last. After all of them the
/// sending is over.
pub proof fn lemma_write_run(
    plan: PlanView,
    m: u32,
    query_reply: Seq<u8>,
    intermediate: Seq<u8>,
    k: nat,
)
    requires
        plan.data is Some,
        plan.announce,
        max_packet_size(
            match reader_step(plan.mask_send, ReaderState::AwaitFirst, Ok(query_reply)) {
                ReaderState::Done(r) => r,
                _ => Err(CommunicationError::InvalidData),
            },
        ) == Ok::<u32, CommunicationError>(m),
        reader_step(plan.mask_send, ReaderState::AwaitFirst, Ok(intermediate)) matches ReaderState::Done(
            r,
        ) && require_success(r) is Ok,
        k <= chunk_count(plan.data->0.len(), m as nat),
    ensures
        state_after(
            plan,
            seq![
                Exchange::Sent(query_frame(), Ok(())),
                Exchange::Received(CMD, Ok(query_reply)),
                Exchange::Sent(plan.command, Ok(())),
                Exchange::Received(CMD, Ok(intermediate)),
            ] + chunk_events(plan.data->0, m as nat, k),
        ) == after_chunks(plan, m, k),
        k == chunk_count(plan.data->0.len(), m as nat) ==> after_chunks(plan, m, k) == after_send(
            plan,
            Ok(()),
        ),
        chunk_events(plan.data->0, m as nat, k).len() == k,
        joined(chunks(plan.data->0, m as nat)) == plan.data->0,
    decreases k,
{
    let data = plan.data->0;
    let opening = seq![
        Exchange::Sent(query_frame(), Ok(())),
        Exchange::Received(CMD, Ok(query_reply)),
        Exchange::Sent(plan.command, Ok(())),
        Exchange::Received(CMD, Ok(intermediate)),
    ];
    lemma_chunks_rebuild(data, m as nat);
    lemma_data_phase_sends_chunks(plan, m, k);
    if k == 0 {
        let e0 = Seq::<Exchange>::empty();
        let e1 = e0.push(opening[0]);
        let e2 = e1.push(opening[1]);
        let e3 = e2.push(opening[2]);
        let e4 = e3.push(opening[3]);
        lemma_one_more_event(plan, e0, opening[0]);
        lemma_one_more_event(plan, e1, opening[1]);
        lemma_one_more_event(plan, e2, opening[2]);
        lemma_one_more_event(plan, e3, opening[3]);
        assert(state_after(plan, e0) == EngineState::Query);
        assert(state_after(plan, e1) == EngineState::QueryReply(ReaderState::AwaitFirst));
        assert(state_after(plan, e2) == (EngineState::Command { size: m }));
        assert(state_after(plan, e3) == (EngineState::Intermediate {
            size: m,
            reader: ReaderState::AwaitFirst,
        }));
        assert(state_after(plan, e4) == stream_from(plan, m, 0));
        assert(opening + chunk_events(data, m as nat, 0) =~= e4);
    } else {
        let before = (k - 1) as nat;
        lemma_write_run(plan, m, query_reply, intermediate, before);
        lemma_data_phase_sends_chunks(plan, m, before);
        let sent = Exchange::Sent(frame(DATA, chunk(data, m as nat, before as int)), Ok(()));
        assert(opening + chunk_events(data, m as nat, k) =~= (opening + chunk_events(
            data,
            m as nat,
            before,
        )).push(sent));
        lemma_one_more_event(plan, opening + chunk_events(data, m as nat, before), sent);
    }
}

/// A command with bytes, carried out with a device that goes along, sends its
/// bytes in as many data packets as their number divided by the packet size,
/// rounded up, and ends with the final response: after the opening and all
/// packets, the final response decides the result.
pub proof fn lemma_write_exchange(
    plan: PlanView,
    m: u32,
    query_reply: Seq<u8>,
    intermediate: Seq<u8>,
    last: Seq<u8>,
)
    requires
        plan.data is Some,
        plan.announce,
        plan.read_final,
        max_packet_size(
            match reader_step(plan.mask_send, ReaderState::AwaitFirst, Ok(query_reply)) {
                ReaderState::Done(r) => r,
                _ => Err(CommunicationError::InvalidData),
            },
        ) == Ok::<u32, CommunicationError>(m),
        reader_step(plan.mask_send, ReaderState::AwaitFirst, Ok(intermediate)) matches ReaderState::Done(
            r,
        ) && require_success(r) is Ok,
        reader_step(plan.mask_final, ReaderState::AwaitFirst, Ok(last)) is Done,
    ensures
        state_after(
            plan,
            seq![
                Exchange::Sent(query_frame(), Ok(())),
                Exchange::Received(CMD, Ok(query_reply)),
                Exchange::Sent(plan.command, Ok(())),
                Exchange::Received(CMD, Ok(intermediate)),
            ] + chunk_events(
                plan.data->0,
                m as nat,
                chunk_count(plan.data->0.len(), m as nat),
            ) + seq![Exchange::Received(CMD, Ok(last))],
        ) == after_response(
            plan,
            reader_step(plan.mask_final, ReaderState::AwaitFirst, Ok(last))->Done_0,
        ),
        chunk_events(plan.data->0, m as nat, chunk_count(plan.data->0.len(), m as nat)).len()
            == chunk_count(plan.data->0.len(), m as nat),
        joined(chunks(plan.data->0, m as nat)) == plan.data->0,
{
    let count = chunk_count(plan.data->0.len(), m as nat);
    let sent = seq![
        Exchange::Sent(query_frame(), Ok(())),
        Exchange::Received(CMD, Ok(query_reply)),
        Exchange::Sent(plan.command, Ok(())),
        Exchange::Received(CMD, Ok(intermediate)),
    ] + chunk_events(plan.data->0, m as nat, count);
    let ending = Exchange::Received(CMD, Ok(last));
    lemma_write_run(plan, m, query_reply, intermediate, count);
    lemma_one_more_event(plan, sent, ending);
    assert(sent + seq![ending] =~= sent.push(ending));
}

/// What reading with a data phase does with a device that goes along: the
/// command goes out, the first response announces `declared` bytes, the
/// packets arrive, and after the last of them, or after an abort, the final
/// response is read. The exchange ends with the bytes that arrived and the
/// final status: all announced bytes where the packets add up to them, and
/// the bytes that had arrived where the device aborts before.
pub proof fn lemma_read_run(
    plan: PlanView,
    first: Seq<u8>,
    head: ResponseFields,
    packets: Seq<Seq<u8>>,
    aborted: bool,
    last: Seq<u8>,
)
    requires
        !(plan.data is Some),
        plan.read_final,
        !plan.mask_final,
        spec_parse_response(first) == Ok::<ResponseFields, CommunicationError>(head),
        head.flag == CommandFlag::HasDataPhase,
        head.words.len() >= 1,
        head.words[0] > 0,
        keeps_streaming(head.words[0], packets),
        aborted <==> joined(packets).len() != head.words[0],
    ensures
        state_after(
            plan,
            seq![Exchange::Sent(plan.command, Ok(())), Exchange::Received(CMD, Ok(first))]
                + packet_events(packets) + (if aborted {
                seq![Exchange::Received(DATA, Err(CommunicationError::Aborted))]
            } else {
                Seq::<Exchange>::empty()
            }) + seq![Exchange::Received(CMD, Ok(last))],
        ) == after_response(
            plan,
            match after_final(head, joined(packets), Ok(last)) {
                ReaderState::Done(r) => r,
                _ => Err(CommunicationError::InvalidData),
            },
        ),
{
    let declared = head.words[0];
    let opening = seq![Exchange::Sent(plan.command, Ok(())), Exchange::Received(CMD, Ok(first))];
    lemma_read_packets(plan, first, head, packets, packets.len());
    assert(packets.take(packets.len() as int) =~= packets);
    lemma_data_phase_collects(head, declared, packets);
    let streamed = opening + packet_events(packets);
    let ending = Exchange::Received(CMD, Ok(last));
    if aborted {
        lemma_abort_keeps_received(head, declared, packets);
        let abort = Exchange::Received(DATA, Err(CommunicationError::Aborted));
        lemma_one_more_event(plan, streamed, abort);
        lemma_one_more_event(plan, streamed.push(abort), ending);
        assert(streamed + seq![abort] + seq![ending] =~= streamed.push(abort).push(ending));
    } else {
        lemma_one_more_event(plan, streamed, ending);
        assert(streamed + Seq::<Exchange>::empty() + seq![ending] =~= streamed.push(ending));
    }
}

/// While the packets of an incoming data phase arrive, the exchange reads its
/// final response and its reader collects them.
proof fn lemma_read_packets(
    plan: PlanView,
    first: Seq<u8>,
    head: ResponseFields,
    packets: Seq<Seq<u8>>,
    j: nat,
)
    requires
        !(plan.data is Some),
        plan.read_final,
        !plan.mask_final,
        spec_parse_response(first) == Ok::<ResponseFields, CommunicationError>(head),
        head.flag == CommandFlag::HasDataPhase,
        head.words.len() >= 1,
        head.words[0] > 0,
        keeps_streaming(head.words[0], packets),
        j <= packets.len(),
    ensures
        state_after(
            plan,
            seq![Exchange::Sent(plan.command, Ok(())), Exchange::Received(CMD, Ok(first))]
                + packet_events(packets.take(j as int)),
        ) == EngineState::Final(after_packets(head, head.words[0], packets.take(j as int))),
    decreases j,
{
    let declared = head.words[0];
    let opening = seq![Exchange::Sent(plan.command, Ok(())), Exchange::Received(CMD, Ok(first))];
    if j == 0 {
        let e0 = Seq::<Exchange>::empty();
        let e1 = e0.push(opening[0]);
        let e2 = e1.push(opening[1]);
        lemma_one_more_event(plan, e0, opening[0]);
        lemma_one_more_event(plan, e1, opening[1]);
        assert(state_after(plan, e0) == EngineState::Plain);
        assert(state_after(plan, e1) == EngineState::Final(ReaderState::AwaitFirst));
        assert(packets.take(0) =~= Seq::<Seq<u8>>::empty());
        assert(opening + packet_events(packets.take(0)) =~= e2);
    } else {
        let before = (j - 1) as nat;
        let earlier = packets.take(before as int);
        let now = packets.take(j as int);
        lemma_read_packets(plan, first, head, packets, before);
        assert forall|i: int| 0 <= i < earlier.len() implies (#[trigger] earlier[i]).len() > 0
            && joined(earlier.take(i)).len() != declared by {
            assert(earlier[i] == packets[i]);
            assert(earlier.take(i) =~= packets.take(i));
        }
        lemma_data_phase_collects(head, declared, earlier);
        assert(joined(earlier).len() != declared) by {
            assert(packets[before as int].len() > 0);
        }
        assert(now.drop_last() =~= earlier);
        assert(now.last() == packets[before as int]);
        let arrived = Exchange::Received(DATA, Ok(packets[before as int]));
        assert(opening + packet_events(now) =~= (opening + packet_events(earlier)).push(arrived));
        lemma_one_more_event(plan, opening + packet_events(earlier), arrived);
    }
}

/// What to do to the link next.
pub enum Action {
    /// Send this frame.
    Write(Vec<u8>),
    /// Ask for a packet of this type.
    Read(u8),
    /// Nothing: the exchange is over.
    Nothing,
}

impl View for Action {
    type V = Demand;

    open spec fn view(&self) -> Demand {
        match self {
            Action::Write(bytes) => Demand::Write(bytes@),
            Action::Read(packet_code) => Demand::Read(*packet_code),
            Action::Nothing => Demand::Nothing,
        }
    }
}

/// Where an exchange stands.
pub enum Stage {
    /// The query for the largest packet size is to be sent.
    Query,
    /// The answer to the query is being read.
    QueryReply(ResponseReader),
    /// The command frame is to be sent.
    Command {
        /// Size of the packets that will follow.
        size: u32,
    },
    /// The intermediate response is being read.
    Intermediate {
        /// Size of the packets that will follow.
        size: u32,
        /// Reader of the response.
        reader: ResponseReader,
    },
    /// The bytes from `offset` on are still to be streamed.
    Data {
        /// Size of the packets.
        size: u32,
        /// Number of bytes that have been streamed.
        offset: usize,
    },
    /// The command frame of a command without bytes is to be sent.
    Plain,
    /// The final response is being read.
    Final(ResponseReader),
    /// The read-back command is to be sent.
    VerifyQuery {
        /// Response to the write.
        response: CmdResponse,
    },
    /// The answer to the read-back is being read.
    VerifyReply {
        /// Response to the write.
        response: CmdResponse,
        /// Reader of the answer.
        reader: ResponseReader,
    },
    /// The exchange is over.
    Finished(ResultComm<Option<CmdResponse>>),
}

/// The contents of the result of an exchange.
pub open spec fn outcome_view(r: ResultComm<Option<CmdResponse>>) -> ResultComm<
    Option<ResponseView>,
> {
    match r {
        Ok(Some(response)) => Ok(Some(response@)),
        Ok(None) => Ok(None),
        Err(e) => Err(e),
    }
}

impl View for Stage {
    type V = EngineState;

    open spec fn view(&self) -> EngineState {
        match self {
            Stage::Query => EngineState::Query,
            Stage::QueryReply(reader) => EngineState::QueryReply(reader@),
            Stage::Command { size } => EngineState::Command { size: *size },
            Stage::Intermediate { size, reader } => EngineState::Intermediate {
                size: *size,
                reader: reader@,
            },
            Stage::Data { size, offset } => EngineState::Data { size: *size, offset: *offset as nat },
            Stage::Plain => EngineState::Plain,
            Stage::Final(reader) => EngineState::Final(reader@),
            Stage::VerifyQuery { response } => EngineState::VerifyQuery { response: response@ },
            Stage::VerifyReply { response, reader } => EngineState::VerifyReply {
                response: response@,
                reader: reader@,
            },
            Stage::Finished(r) => EngineState::Finished(outcome_view(*r)),
        }
    }
}

impl Stage {
    /// Whether the stage fits the plan: a packet size is one that a frame can
    /// carry, bytes are left where some are to be streamed, and what the stage
    /// needs of the plan is there.
    pub open spec fn fits(&self, plan: PlanView) -> bool {
        match self {
            Stage::Query => plan.data is Some,
            Stage::QueryReply(reader) => plan.data is Some && reader.wf() && !(reader@ is Done),
            Stage::Command { size } => plan.data is Some && 0 < *size <= u16::MAX,
            Stage::Intermediate { size, reader } => plan.data is Some && 0 < *size <= u16::MAX
                && reader.wf() && !(reader@ is Done),
            Stage::Data { size, offset } => plan.data is Some && 0 < *size <= u16::MAX && *offset
                < plan.data->0.len(),
            Stage::Plain => true,
            Stage::Final(reader) => reader.wf() && !(reader@ is Done),
            Stage::VerifyQuery { .. } => plan.verify is Some,
            Stage::VerifyReply { reader, .. } => plan.verify is Some && reader.wf() && !(reader@
                is Done),
            Stage::Finished(_) => true,
        }
    }
}

/// Keeps a response only if it reports success.
pub fn successful(r: ResultComm<CmdResponse>) -> (out: ResultComm<CmdResponse>)
    ensures
        response_view(out) == require_success(response_view(r)),
{
    match r {
        Err(e) => Err(e),
        Ok(response) => if response.status.is_success() {
            Ok(response)
        } else {
            Err(CommunicationError::UnexpectedStatus(response.status, response.status.code()))
        },
    }
}

/// Keeps a final response only if it reports success, or a blank page where
/// that is allowed.
pub fn acceptable(blank_page_ok: bool, r: ResultComm<CmdResponse>) -> (out: ResultComm<
    CmdResponse,
>)
    ensures
        response_view(out) == accept_final(blank_page_ok, response_view(r)),
{
    match r {
        Err(e) => Err(e),
        Ok(response) => if response.status.is_success() || (blank_page_ok
            && response.status.is_memory_blank_page_read_disallowed()) {
            Ok(response)
        } else {
            Err(CommunicationError::UnexpectedStatus(response.status, response.status.code()))
        },
    }
}

/// Reads the largest packet size out of the answer to the query for it.
pub fn packet_size_of(r: ResultComm<CmdResponse>) -> (out: ResultComm<u32>)
    ensures
        out == max_packet_size(response_view(r)),
{
    match successful(r) {
        Err(e) => Err(e),
        Ok(response) => match response.tag {
            CmdResponseTag::GetProperty(words) => if words.len() >= 1 && 0 < words[0] && words[0]
                <= 0xFFFF {
                Ok(words[0])
            } else {
                Err(CommunicationError::InvalidData)
            },
            _ => Err(CommunicationError::InvalidPacketReceived),
        },
    }
}

/// Judges a write to one-time-programmable memory by the word read back.
pub fn verify_written(response: CmdResponse, written: u32, r: ResultComm<CmdResponse>) -> (out:
    ResultComm<Option<CmdResponse>>)
    ensures
        outcome_view(out) == verified(response@, written, response_view(r)),
{
    match successful(r) {
        Err(e) => Err(e),
        Ok(answer) => match answer.tag {
            CmdResponseTag::FlashReadOnce(value) => if value & written == written {
                Ok(Some(response))
            } else {
                Ok(
                    Some(
                        CmdResponse {
                            header: response.header,
                            status: StatusCode::OtpVerifyFail,
                            tag: response.tag,
                        },
                    ),
                )
            },
            _ => Err(CommunicationError::InvalidPacketReceived),
        },
    }
}

/// The exchange that carries out one plan.
pub struct Engine<'a> {
    /// What the exchange is to do.
    pub plan: Plan<'a>,
    /// Where it stands.
    pub stage: Stage,
}

impl<'a> Engine<'a> {
    /// Where the exchange stands.
    pub open spec fn state(&self) -> EngineState {
        self.stage@
    }

    /// Whether the stage fits the plan.
    pub open spec fn wf(&self) -> bool {
        self.stage.fits(self.plan@)
    }

    /// An exchange at its start.
    pub fn new(plan: Plan<'a>) -> (engine: Engine<'a>)
        ensures
            engine.plan@ == plan@,
            engine.state() == start(plan@),
            engine.wf(),
    {
        let stage = if plan.data.is_some() {
            Stage::Query
        } else {
            Stage::Plain
        };
        Engine { plan, stage }
    }

    /// The stage that follows the sending.
    fn sent(plan: &Plan<'a>, result: ResultComm<()>) -> (stage: Stage)
        ensures
            stage@ == after_send(plan@, result),
            stage.fits(plan@),
            phase(stage@) <= 4,
    {
        match result {
            Ok(()) => if plan.read_final {
                Stage::Final(ResponseReader::start())
            } else {
                Stage::Finished(Ok(None))
            },
            Err(CommunicationError::Aborted) => if plan.tolerate_abort && plan.read_final {
                Stage::Final(ResponseReader::start())
            } else {
                Stage::Finished(Err(CommunicationError::Aborted))
            },
            Err(e) => Stage::Finished(Err(e)),
        }
    }

    /// The stage in which the bytes from `offset` on are left to be streamed.
    fn streaming(plan: &Plan<'a>, size: u32, offset: usize) -> (stage: Stage)
        requires
            plan@.data is Some,
            0 < size <= u16::MAX,
        ensures
            stage@ == stream_from(plan@, size, offset as nat),
            stage.fits(plan@),
            phase(stage@) <= 5,
    {
        match plan.data {
            Some(bytes) => if offset < bytes.len() {
                Stage::Data { size, offset }
            } else {
                Self::sent(plan, Ok(()))
            },
            None => Self::sent(plan, Ok(())),
        }
    }

    /// Whether the exchange is over.
    pub fn is_finished(&self) -> (done: bool)
        ensures
            done == (self.state() is Finished),
    {
        match &self.stage {
            Stage::Finished(_) => true,
            _ => false,
        }
    }

    /// What to do to the link next.
    pub fn next(&self) -> (action: Action)
        requires
            self.wf(),
        ensures
            action@ == demand(self.plan@, self.state()),
    {
        match &self.stage {
            Stage::Query => {
                let mut params: Vec<u32> = Vec::new();
                params.push(PropertyTagDiscriminants::MaxPacketSize.code() as u32);
                params.push(0);
                assert(params@ =~= seq![
                    PropertyTagDiscriminants::MaxPacketSize.spec_code() as u32,
                    0,
                ]);
                let header = CommandHeader { flag: CommandFlag::NoData, reserved: 0 };
                Action::Write(
                    header.construct_frame(
                        params.as_slice(),
                        CommandTagDiscriminants::GetProperty.code(),
                    ),
                )
            },
            Stage::QueryReply(reader) => Action::Read(reader.wanted()),
            Stage::Command { .. } => Action::Write(self.plan.command.clone()),
            Stage::Intermediate { reader, .. } => Action::Read(reader.wanted()),
            Stage::Data { size, offset } => {
                match self.plan.data {
                    Some(bytes) => {
                        let size = *size as usize;
                        let end = if size <= bytes.len() - *offset {
                            *offset + size
                        } else {
                            bytes.len()
                        };
                        let mut chunk: Vec<u8> = Vec::new();
                        chunk.extend_from_slice(vstd::slice::slice_subrange(bytes, *offset, end));
                        assert(chunk@ =~= chunk_at(bytes@, size as int, *offset as int));
                        Action::Write(construct_header(DATA, chunk))
                    },
                    None => Action::Nothing,
                }
            },
            Stage::Plain => Action::Write(self.plan.command.clone()),
            Stage::Final(reader) => Action::Read(reader.wanted()),
            Stage::VerifyQuery { .. } => match &self.plan.verify {
                Some(v) => Action::Write(v.frame.clone()),
                None => Action::Nothing,
            },
            Stage::VerifyReply { reader, .. } => Action::Read(reader.wanted()),
            Stage::Finished(_) => Action::Nothing,
        }
    }

    /// Takes the outcome of the sending that the exchange asked for and moves
    /// on.
    pub fn written(self, outcome: ResultComm<()>) -> (next: Engine<'a>)
        requires
            self.wf(),
            demand(self.plan@, self.state()) is Write,
        ensures
            next.plan@ == self.plan@,
            next.state() == after_write(self.plan@, self.state(), outcome),
            next.wf(),
            nearer(self.plan@, next.state(), self.state()),
    {
        let Engine { plan, stage } = self;
        let stage = match stage {
            Stage::Query => match outcome {
                Ok(()) => Stage::QueryReply(ResponseReader::start()),
                Err(e) => Self::sent(&plan, Err(e)),
            },
            Stage::Command { size } => match outcome {
                Ok(()) => Stage::Intermediate { size, reader: ResponseReader::start() },
                Err(e) => Self::sent(&plan, Err(e)),
            },
            Stage::Data { size, offset } => match outcome {
                Ok(()) => {
                    let left = match plan.data {
                        Some(bytes) => bytes.len() - offset,
                        None => 0,
                    };
                    let step = if (size as usize) <= left {
                        size as usize
                    } else {
                        left
                    };
                    Self::streaming(&plan, size, offset + step)
                },
                Err(e) => Self::sent(&plan, Err(e)),
            },
            Stage::Plain => Self::sent(&plan, outcome),
            Stage::VerifyQuery { response } => match outcome {
                Ok(()) => Stage::VerifyReply { response, reader: ResponseReader::start() },
                Err(e) => Stage::Finished(Err(e)),
            },
            other => other,
        };
        Engine { plan, stage }
    }

    /// Takes the outcome of the reading that the exchange asked for and moves
    /// on.
    pub fn received(self, outcome: ResultComm<Vec<u8>>) -> (next: Engine<'a>)
        requires
            self.wf(),
            demand(self.plan@, self.state()) is Read,
        ensures
            next.plan@ == self.plan@,
            next.state() == after_read(self.plan@, self.state(), received_view(outcome)),
            next.wf(),
            nearer(self.plan@, next.state(), self.state()),
    {
        let Engine { plan, stage } = self;
        let stage = match stage {
            Stage::QueryReply(reader) => {
                let reader = reader.on_packet(plan.mask_send, outcome);
                if reader.is_done() {
                    match packet_size_of(reader.finish()) {
                        Err(e) => Self::sent(&plan, Err(e)),
                        Ok(size) => if plan.announce {
                            Stage::Command { size }
                        } else {
                            Self::streaming(&plan, size, 0)
                        },
                    }
                } else {
                    Stage::QueryReply(reader)
                }
            },
            Stage::Intermediate { size, reader } => {
                let reader = reader.on_packet(plan.mask_send, outcome);
                if reader.is_done() {
                    match successful(reader.finish()) {
                        Err(e) => Self::sent(&plan, Err(e)),
                        Ok(_) => Self::streaming(&plan, size, 0),
                    }
                } else {
                    Stage::Intermediate { size, reader }
                }
            },
            Stage::Final(reader) => {
                let reader = reader.on_packet(plan.mask_final, outcome);
                if reader.is_done() {
                    match acceptable(plan.blank_page_ok, reader.finish()) {
                        Err(e) => Stage::Finished(Err(e)),
                        Ok(response) => if plan.verify.is_some() && response.status.is_success() {
                            Stage::VerifyQuery { response }
                        } else {
                            Stage::Finished(Ok(Some(response)))
                        },
                    }
                } else {
                    Stage::Final(reader)
                }
            },
            Stage::VerifyReply { response, reader } => {
                let reader = reader.on_packet(plan.mask_final, outcome);
                if reader.is_done() {
                    let written = match &plan.verify {
                        Some(v) => v.data,
                        None => 0,
                    };
                    Stage::Finished(verify_written(response, written, reader.finish()))
                } else {
                    Stage::VerifyReply { response, reader }
                }
            },
            other => other,
        };
        Engine { plan, stage }
    }

    /// Hands out the result once the exchange is over.
    pub fn finish(self) -> (r: ResultComm<Option<CmdResponse>>)
        requires
            self.state() is Finished,
        ensures
            self.state() == EngineState::Finished(outcome_view(r)),
    {
        match self.stage {
            Stage::Finished(r) => r,
            _ => Err(CommunicationError::InvalidData),
        }
    }
}

} // verus!

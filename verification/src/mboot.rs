//! The command engine: a session with one device, and the operations that the
//! bootloader offers.
//!
//! Each operation is an exchange as [`engine`] describes it. What an operation
//! does to the device is stated as what it adds to the record of the link,
//! and what it returns as the result of the exchange that those events make
//! up.
use vstd::prelude::*;

use engine::{outcome_of, outcome_view, state_after, Action, Engine, Plan, PlanView, Verification, VerificationView};
use packets::command::{
    spec_parse_response, CmdResponse, CommandPacket, ResponseFields, ResponseView,
};
use packets::{crc_four, frame, CMD, DATA};
use protocols::{CommunicationError, Exchange, Protocol, Recorded, ResultComm, ResultStatus};
use reader::{reader_step, ReaderState};
use tags::command::{CommandTag, CommandToParams, KeyProvOperation, TrustProvOperation};
use tags::command_flag::CommandFlag;
use tags::command_response::{CmdResponseTag, CmdResponseValue};
use tags::property::{PropertyTag, PropertyTagDiscriminants};
use tags::status::StatusCode;
use tags::ToAddress;

pub mod engine;
pub mod formatters;
pub mod memory;
pub mod packets;
pub mod protocols;
pub mod reader;
pub mod tags;
pub mod words;

verus! {

/// What a property query brings back.
#[derive(Debug)]
pub struct GetPropertyResponse {
    /// Status that the device reported.
    pub status: StatusCode,
    /// The words of the value as they came.
    pub response_words: Vec<u32>,
    /// The value, decoded.
    pub property: PropertyTag,
}

/// What a memory or fuse read brings back.
#[derive(Debug)]
pub struct ReadMemoryResponse {
    /// Status that the device reported.
    pub status: StatusCode,
    /// The number of bytes read, as the one word of the response.
    pub response_words: Vec<u32>,
    /// The bytes read.
    pub bytes: Vec<u8>,
}

/// What a key-provisioning operation brings back.
#[derive(Debug)]
pub enum KeyProvisioningResponse {
    /// The status alone.
    Status(StatusCode),
    /// The key store that was read.
    KeyStore {
        /// Status that the device reported.
        status: StatusCode,
        /// The words of the response.
        response_words: Vec<u32>,
        /// The bytes of the key store.
        bytes: Vec<u8>,
    },
}

/// A session with one device. It owns the link for as long as it lives.
pub struct McuBoot<T: Protocol> {
    /// The link, with the record of what passed through it.
    pub device: Recorded<T>,
    /// While set, responses are read without regard to their flag: no data
    /// phase is read even where one is announced.
    pub mask_read_data_phase: bool,
}

/// The plan of the exchange that carries out a command and reads its
/// response, which has to report success.
pub open spec fn plan_for(packet: CommandPacket, mask: bool) -> PlanView {
    PlanView {
        command: packet.spec_frame(),
        data: packet.tag.spec_data_phase(),
        announce: !(packet.tag is NoCommand),
        mask_send: mask,
        mask_final: mask,
        tolerate_abort: false,
        read_final: true,
        blank_page_ok: false,
        verify: None,
    }
}

/// The plan of a memory read: as [`plan_for`], but the final response may
/// report a blank page in place of success.
pub open spec fn plan_for_read(packet: CommandPacket, mask: bool) -> PlanView {
    PlanView { blank_page_ok: true, ..plan_for(packet, mask) }
}

/// The plan that hands over a secure binary file: as [`plan_for`], but the
/// final response is read even if the device aborted the streaming.
pub open spec fn plan_for_sb_file(packet: CommandPacket, mask: bool) -> PlanView {
    PlanView { tolerate_abort: true, ..plan_for(packet, mask) }
}

/// The plan that streams an image: as [`plan_for`], but no response is read.
pub open spec fn plan_for_image(packet: CommandPacket, mask: bool) -> PlanView {
    PlanView { read_final: false, ..plan_for(packet, mask) }
}

/// The plan of a key-provisioning operation that brings back a status: the
/// responses before the final one are read without regard to their flag, the
/// final one with regard to it.
pub open spec fn plan_for_key(packet: CommandPacket) -> PlanView {
    PlanView { mask_send: true, mask_final: false, ..plan_for(packet, false) }
}

/// The plan of a write to one-time-programmable memory: as [`plan_for`], with
/// a read-back of the low 24 bits of the index where `verify` is set.
pub open spec fn plan_for_program_once(
    index: u32,
    count: u32,
    data: u32,
    verify: bool,
    mask: bool,
) -> PlanView {
    PlanView {
        verify: if verify {
            Some(
                VerificationView {
                    frame: CommandPacket::plain(
                        CommandTag::FlashReadOnce { index: read_back_index(index), count },
                    ).spec_frame(),
                    data,
                },
            )
        } else {
            None
        },
        ..plan_for(
            CommandPacket::plain(CommandTag::FlashProgramOnce { index, count, data }),
            mask,
        )
    }
}

/// The status that an exchange ends with. An exchange that reads no response
/// ends with success.
pub open spec fn status_of(out: ResultComm<Option<ResponseView>>) -> ResultStatus {
    match out {
        Ok(Some(response)) => Ok(response.status),
        Ok(None) => Ok(StatusCode::Success),
        Err(e) => Err(e),
    }
}

/// Whether `r` is what a property query for `tag` returns when its exchange
/// ends with `out`: the decoded value with the status and the words, the
/// refusal of the decoder for words that cannot be decoded,
/// `InvalidPacketReceived` for a response of another kind.
pub open spec fn is_property_reply(
    tag: PropertyTagDiscriminants,
    out: ResultComm<Option<ResponseView>>,
    r: ResultComm<GetPropertyResponse>,
) -> bool {
    match out {
        Err(e) => r == Err::<GetPropertyResponse, CommunicationError>(e),
        Ok(Some(ResponseView { status, tag: CmdResponseValue::GetProperty(words), .. })) => {
            if PropertyTag::decodable(tag, words) {
                &&& r matches Ok(reply)
                &&& reply.status == status
                &&& reply.response_words@ == words
                &&& reply.property.is_value_of(tag, words)
            } else {
                r == Err::<GetPropertyResponse, CommunicationError>(
                    PropertyTag::refusal(tag, words),
                )
            }
        },
        Ok(_) => r == Err::<GetPropertyResponse, CommunicationError>(
            CommunicationError::InvalidPacketReceived,
        ),
    }
}

/// Whether `r` is what a memory or fuse read returns when its exchange ends
/// with `out`: the bytes of the data phase with the status and their number,
/// `InvalidPacketReceived` for a response of another kind.
pub open spec fn is_read_reply(
    out: ResultComm<Option<ResponseView>>,
    r: ResultComm<ReadMemoryResponse>,
) -> bool {
    match out {
        Err(e) => r == Err::<ReadMemoryResponse, CommunicationError>(e),
        Ok(Some(ResponseView { status, tag: CmdResponseValue::ReadMemory(bytes), .. })) => {
            &&& r matches Ok(reply)
            &&& reply.status == status
            &&& reply.response_words@ == seq![bytes.len() as u32]
            &&& reply.bytes@ == bytes
        },
        Ok(_) => r == Err::<ReadMemoryResponse, CommunicationError>(
            CommunicationError::InvalidPacketReceived,
        ),
    }
}

/// Whether `r` is what a trust-provisioning operation returns when its
/// exchange ends with `out`.
pub open spec fn is_trust_reply(
    out: ResultComm<Option<ResponseView>>,
    r: ResultComm<(StatusCode, Vec<u32>)>,
) -> bool {
    match out {
        Err(e) => r == Err::<(StatusCode, Vec<u32>), CommunicationError>(e),
        Ok(Some(ResponseView { status, tag: CmdResponseValue::TrustProvisioning(words), .. })) => {
            &&& r matches Ok(reply)
            &&& reply.0 == status
            &&& reply.1@ == words
        },
        Ok(_) => r == Err::<(StatusCode, Vec<u32>), CommunicationError>(
            CommunicationError::InvalidPacketReceived,
        ),
    }
}

/// Whether `r` is what reading the key store returns when its exchange ends
/// with `out`. A response without a data phase brings no bytes.
pub open spec fn is_key_store_reply(
    out: ResultComm<Option<ResponseView>>,
    r: ResultComm<KeyProvisioningResponse>,
) -> bool {
    match out {
        Err(e) => r == Err::<KeyProvisioningResponse, CommunicationError>(e),
        Ok(
            Some(ResponseView { status, tag: CmdResponseValue::KeyProvisioning(words, data), .. }),
        ) => {
            &&& r matches Ok(KeyProvisioningResponse::KeyStore {
                status: reported,
                response_words,
                bytes,
            })
            &&& reported == status
            &&& response_words@ == words
            &&& bytes@ == match data {
                Some(b) => b,
                None => Seq::empty(),
            }
        },
        Ok(_) => r == Err::<KeyProvisioningResponse, CommunicationError>(
            CommunicationError::InvalidPacketReceived,
        ),
    }
}

/// What a key-provisioning operation other than reading the key store
/// returns when its exchange ends with `out`.
pub open spec fn key_status_reply(out: ResultComm<Option<ResponseView>>) -> ResultComm<
    KeyProvisioningResponse,
> {
    match status_of(out) {
        Ok(s) => Ok(KeyProvisioningResponse::Status(s)),
        Err(e) => Err(e),
    }
}

/// What a read of one-time-programmable memory returns when its exchange ends
/// with `out`.
pub open spec fn read_once_reply(out: ResultComm<Option<ResponseView>>) -> ResultComm<u32> {
    match out {
        Err(e) => Err(e),
        Ok(Some(ResponseView { tag: CmdResponseValue::FlashReadOnce(value), .. })) => Ok(value),
        Ok(_) => Err(CommunicationError::InvalidPacketReceived),
    }
}

/// The index of a word of one-time-programmable memory as the read-back names
/// it: the low 24 bits.
pub open spec fn read_back_index(index: u32) -> u32 {
    index & 0x00FF_FFFF
}

impl<T: Protocol> McuBoot<T> {
    /// The exchanges with the device so far, oldest first.
    pub open spec fn history(&self) -> Seq<Exchange> {
        self.device.history()
    }

    /// What happened on the link since `before`.
    pub open spec fn added_since(&self, before: &Self) -> Seq<Exchange> {
        self.history().skip(before.history().len() as int)
    }

    /// Whether the session went on from `before`: nothing of the record was
    /// lost, and the session flag is as it was.
    pub open spec fn continues(&self, before: &Self) -> bool {
        &&& before.history().len() <= self.history().len()
        &&& self.history().take(before.history().len() as int) == before.history()
        &&& self.mask_read_data_phase == before.mask_read_data_phase
    }

    /// The result of the exchange that the session carried out since `before`,
    /// if what it did since then is the exchange of `plan` from its first step
    /// to its last and nothing else.
    pub open spec fn outcome(&self, before: &Self, plan: PlanView) -> Option<
        ResultComm<Option<ResponseView>>,
    > {
        if before.history().len() <= self.history().len() && self.history().take(
            before.history().len() as int,
        ) == before.history() {
            outcome_of(plan, self.added_since(before))
        } else {
            None
        }
    }

    /// Whether the session carried out the exchange of `plan` since `before`,
    /// and `r` is the status that the exchange ended with.
    pub open spec fn ended(&self, before: &Self, plan: PlanView, r: ResultStatus) -> bool {
        self.outcome(before, plan) matches Some(out) && r == status_of(out)
    }

    /// Starts a session on an open link.
    pub fn new(device: T) -> (boot: McuBoot<T>)
        ensures
            boot.history() == Seq::<Exchange>::empty(),
            !boot.mask_read_data_phase,
    {
        McuBoot { device: Recorded::new(device), mask_read_data_phase: false }
    }

    /// Carries out a plan: does to the link what the exchange asks for, step
    /// by step, until the exchange is over.
    fn run(&mut self, plan: Plan<'_>) -> (r: ResultComm<Option<CmdResponse>>)
        ensures
            final(self).outcome(old(self), plan@) == Some(outcome_view(r)),
            final(self).mask_read_data_phase == old(self).mask_read_data_phase,
    {
        let ghost before = self.device.history();
        let ghost goal = plan@;
        let mut engine = Engine::new(plan);
        assert(self.device.history().skip(before.len() as int) =~= Seq::<Exchange>::empty());
        loop
            invariant
                engine.wf(),
                engine.plan@ == goal,
                before.len() <= self.device.history().len(),
                self.device.history().take(before.len() as int) == before,
                engine.state() == state_after(goal, self.device.history().skip(before.len() as int)),
                self.mask_read_data_phase == old(self).mask_read_data_phase,
            ensures
                engine.state() is Finished,
                before.len() <= self.device.history().len(),
                self.device.history().take(before.len() as int) == before,
                engine.state() == state_after(goal, self.device.history().skip(before.len() as int)),
                self.mask_read_data_phase == old(self).mask_read_data_phase,
            decreases engine::phase(engine.state()), engine::slack(goal, engine.state()),
        {
            let ghost past = self.device.history();
            match engine.next() {
                Action::Write(bytes) => {
                    let outcome = self.device.write_packet_raw(bytes.as_slice());
                    engine = engine.written(outcome);
                    proof {
                        let event = Exchange::Sent(bytes@, outcome);
                        let now = self.device.history();
                        assert(now.skip(before.len() as int) =~= past.skip(before.len() as int).push(
                            event,
                        ));
                        assert(now.skip(before.len() as int).drop_last() =~= past.skip(
                            before.len() as int,
                        ));
                        assert(now.take(before.len() as int) =~= past.take(before.len() as int));
                    }
                },
                Action::Read(packet_code) => {
                    let outcome = self.device.read_packet_raw(packet_code);
                    proof {
                        let event = Exchange::Received(packet_code, protocols::received_view(outcome));
                        let now = self.device.history();
                        assert(now.skip(before.len() as int) =~= past.skip(before.len() as int).push(
                            event,
                        ));
                        assert(now.skip(before.len() as int).drop_last() =~= past.skip(
                            before.len() as int,
                        ));
                        assert(now.take(before.len() as int) =~= past.take(before.len() as int));
                    }
                    engine = engine.received(outcome);
                },
                Action::Nothing => {
                    break ;
                },
            }
        }
        engine.finish()
    }

    /// The plan for a command whose response has to report success.
    fn plan<'a>(&self, packet: &'a CommandPacket<'a>) -> (plan: Plan<'a>)
        requires
            packet.tag.has_layout(),
        ensures
            plan@ == plan_for(*packet, self.mask_read_data_phase),
    {
        let (params, data) = packet.tag.to_params();
        proof {
            lemma_few_params(packet.tag);
        }
        Plan {
            command: packet.header.construct_frame(params.as_slice(), packet.tag.code()),
            data,
            announce: !matches!(packet.tag, CommandTag::NoCommand { .. }),
            mask_send: self.mask_read_data_phase,
            mask_final: self.mask_read_data_phase,
            tolerate_abort: false,
            read_final: true,
            blank_page_ok: false,
            verify: None,
        }
    }

    /// Sends a command and reads its response for the status.
    fn status_exchange(&mut self, packet: CommandPacket<'_>) -> (r: ResultStatus)
        requires
            packet.tag.has_layout(),
        ensures
            final(self).continues(old(self)),
            final(self).ended(old(self), plan_for(packet, old(self).mask_read_data_phase), r),
    {
        let plan = self.plan(&packet);
        status(self.run(plan))
    }

    /// Asks for the value of a property.
    pub fn get_property(&mut self, tag: PropertyTagDiscriminants, memory_index: u32) -> (r:
        ResultComm<GetPropertyResponse>)
        ensures
            final(self).continues(old(self)),
            final(self).outcome(
                old(self),
                plan_for(
                    CommandPacket::plain(CommandTag::GetProperty { tag, memory_index }),
                    old(self).mask_read_data_phase,
                ),
            ) matches Some(out) && is_property_reply(tag, out, r),
    {
        let packet = CommandPacket::new_none_flag(CommandTag::GetProperty { tag, memory_index });
        let plan = self.plan(&packet);
        match self.run(plan) {
            Err(e) => Err(e),
            Ok(Some(response)) => match response.tag {
                CmdResponseTag::GetProperty(val) => match PropertyTag::from_code(
                    tag,
                    val.as_slice(),
                ) {
                    Ok(property) => Ok(
                        GetPropertyResponse { status: response.status, property, response_words: val },
                    ),
                    Err(e) => Err(e),
                },
                _ => Err(CommunicationError::InvalidPacketReceived),
            },
            Ok(None) => Err(CommunicationError::InvalidPacketReceived),
        }
    }

    /// Sets a property.
    pub fn set_property(&mut self, tag: PropertyTagDiscriminants, value: u32) -> (r: ResultStatus)
        ensures
            final(self).continues(old(self)),
            final(self).ended(
                old(self),
                plan_for(
                    CommandPacket::plain(CommandTag::SetProperty { tag, value }),
                    old(self).mask_read_data_phase,
                ),
                r,
            ),
    {
        self.status_exchange(CommandPacket::new_none_flag(CommandTag::SetProperty { tag, value }))
    }

    /// Resets the device.
    pub fn reset(&mut self) -> (r: ResultStatus)
        ensures
            final(self).continues(old(self)),
            final(self).ended(
                old(self),
                plan_for(CommandPacket::plain(CommandTag::Reset), old(self).mask_read_data_phase),
                r,
            ),
    {
        self.status_exchange(CommandPacket::new_none_flag(CommandTag::Reset))
    }

    /// Calls the function at an address.
    pub fn call(&mut self, start_address: u32, argument: u32) -> (r: ResultStatus)
        ensures
            final(self).continues(old(self)),
            final(self).ended(
                old(self),
                plan_for(
                    CommandPacket::plain(CommandTag::Call { start_address, argument }),
                    old(self).mask_read_data_phase,
                ),
                r,
            ),
    {
        self.status_exchange(
            CommandPacket::new_none_flag(CommandTag::Call { start_address, argument }),
        )
    }

    /// Jumps to the code at an address.
    pub fn execute(&mut self, start_address: u32, argument: u32, stackpointer: u32) -> (r:
        ResultStatus)
        ensures
            final(self).continues(old(self)),
            final(self).ended(
                old(self),
                plan_for(
                    CommandPacket::plain(
                        CommandTag::Execute { start_address, argument, stackpointer },
                    ),
                    old(self).mask_read_data_phase,
                ),
                r,
            ),
    {
        self.status_exchange(
            CommandPacket::new_none_flag(
                CommandTag::Execute { start_address, argument, stackpointer },
            ),
        )
    }

    /// Fills memory with a repeated word.
    pub fn fill_memory(&mut self, start_address: u32, byte_count: u32, pattern: u32) -> (r:
        ResultStatus)
        ensures
            final(self).continues(old(self)),
            final(self).ended(
                old(self),
                plan_for(
                    CommandPacket::plain(
                        CommandTag::FillMemory { start_address, byte_count, pattern },
                    ),
                    old(self).mask_read_data_phase,
                ),
                r,
            ),
    {
        self.status_exchange(
            CommandPacket::new_none_flag(
                CommandTag::FillMemory { start_address, byte_count, pattern },
            ),
        )
    }

    /// Writes bytes to memory. The bytes travel in packets of the size that the
    /// device names.
    pub fn write_memory(&mut self, start_address: u32, memory_id: u32, bytes: &[u8]) -> (r:
        ResultStatus)
        requires
            bytes@.len() <= u32::MAX,
        ensures
            final(self).continues(old(self)),
            final(self).ended(
                old(self),
                plan_for(
                    CommandPacket::with_data(
                        CommandTag::WriteMemory { start_address, memory_id, bytes },
                    ),
                    old(self).mask_read_data_phase,
                ),
                r,
            ),
    {
        self.status_exchange(
            CommandPacket::new_data_phase(
                CommandTag::WriteMemory { start_address, memory_id, bytes },
            ),
        )
    }

    /// Erases a whole flash memory.
    pub fn flash_erase_all(&mut self, memory_id: u32) -> (r: ResultStatus)
        ensures
            final(self).continues(old(self)),
            final(self).ended(
                old(self),
                plan_for(
                    CommandPacket::plain(CommandTag::FlashEraseAll { memory_id }),
                    old(self).mask_read_data_phase,
                ),
                r,
            ),
    {
        self.status_exchange(CommandPacket::new_none_flag(CommandTag::FlashEraseAll { memory_id }))
    }

    /// Erases a region of flash.
    pub fn flash_erase_region(&mut self, start_address: u32, byte_count: u32, memory_id: u32) -> (r:
        ResultStatus)
        ensures
            final(self).continues(old(self)),
            final(self).ended(
                old(self),
                plan_for(
                    CommandPacket::plain(
                        CommandTag::FlashEraseRegion { start_address, byte_count, memory_id },
                    ),
                    old(self).mask_read_data_phase,
                ),
                r,
            ),
    {
        self.status_exchange(
            CommandPacket::new_none_flag(
                CommandTag::FlashEraseRegion { start_address, byte_count, memory_id },
            ),
        )
    }

    /// Erases all flash and lifts its protection.
    pub fn flash_erase_all_unsecure(&mut self) -> (r: ResultStatus)
        ensures
            final(self).continues(old(self)),
            final(self).ended(
                old(self),
                plan_for(
                    CommandPacket::plain(CommandTag::FlashEraseAllUnsecure),
                    old(self).mask_read_data_phase,
                ),
                r,
            ),
    {
        self.status_exchange(CommandPacket::new_none_flag(CommandTag::FlashEraseAllUnsecure))
    }

    /// Reads memory. A device that reports a blank page in place of success is
    /// answered with what it sent all the same.
    pub fn read_memory(&mut self, start_address: u32, byte_count: u32, memory_id: u32) -> (r:
        ResultComm<ReadMemoryResponse>)
        ensures
            final(self).continues(old(self)),
            final(self).outcome(
                old(self),
                plan_for_read(
                        CommandPacket::plain(
                            CommandTag::ReadMemory { start_address, byte_count, memory_id },
                        ),
                        old(self).mask_read_data_phase,
                    ),
            ) matches Some(out) && is_read_reply(out, r),
    {
        let packet = CommandPacket::new_none_flag(
            CommandTag::ReadMemory { start_address, byte_count, memory_id },
        );
        let mut plan = self.plan(&packet);
        plan.blank_page_ok = true;
        read_reply(self.run(plan))
    }

    /// Configures an external memory from a configuration block in memory.
    pub fn configure_memory(&mut self, memory_id: u32, address: u32) -> (r: ResultStatus)
        ensures
            final(self).continues(old(self)),
            final(self).ended(
                old(self),
                plan_for(
                    CommandPacket::plain(CommandTag::ConfigureMemory { memory_id, address }),
                    old(self).mask_read_data_phase,
                ),
                r,
            ),
    {
        self.status_exchange(
            CommandPacket::new_none_flag(CommandTag::ConfigureMemory { memory_id, address }),
        )
    }

    /// Hands over a secure binary file. The final response is read even if the
    /// device aborted the streaming.
    pub fn receive_sb_file(&mut self, bytes: &[u8]) -> (r: ResultStatus)
        requires
            bytes@.len() <= u32::MAX,
        ensures
            final(self).continues(old(self)),
            final(self).ended(
                old(self),
                plan_for_sb_file(
                        CommandPacket::with_data(CommandTag::ReceiveSBFile { bytes }),
                        old(self).mask_read_data_phase,
                    ),
                r,
            ),
    {
        let packet = CommandPacket::new_data_phase(CommandTag::ReceiveSBFile { bytes });
        let mut plan = self.plan(&packet);
        plan.tolerate_abort = true;
        status(self.run(plan))
    }

    /// Carries out a trust-provisioning operation.
    pub fn trust_provisioning(&mut self, operation: &TrustProvOperation) -> (r: ResultComm<
        (StatusCode, Vec<u32>),
    >)
        ensures
            final(self).continues(old(self)),
            final(self).outcome(
                old(self),
                plan_for(
                    CommandPacket::plain(CommandTag::TrustProvisioning(operation)),
                    old(self).mask_read_data_phase,
                ),
            ) matches Some(out) && is_trust_reply(out, r),
    {
        let packet = CommandPacket::new_none_flag(CommandTag::TrustProvisioning(operation));
        let plan = self.plan(&packet);
        match self.run(plan) {
            Err(e) => Err(e),
            Ok(Some(response)) => match response.tag {
                CmdResponseTag::TrustProvisioning(data) => Ok((response.status, data)),
                _ => Err(CommunicationError::InvalidPacketReceived),
            },
            Ok(None) => Err(CommunicationError::InvalidPacketReceived),
        }
    }

    /// Carries out a key-provisioning operation.
    ///
    /// Reading the key store brings back the key store. Every other operation
    /// brings back a status; the responses that precede its final one are read
    /// without regard to their flag, the final one with regard to it, and the
    /// session flag is clear afterwards.
    pub fn key_provisioning(&mut self, operation: &KeyProvOperation) -> (r: ResultComm<
        KeyProvisioningResponse,
    >)
        requires
            operation.has_layout(),
        ensures
            operation is ReadKeyStore ==> final(self).continues(old(self)),
            operation is ReadKeyStore ==> (final(self).outcome(
                old(self),
                plan_for(
                    CommandPacket::of(CommandTag::KeyProvisioning(operation)),
                    old(self).mask_read_data_phase,
                ),
            ) matches Some(out) && is_key_store_reply(out, r)),
            !(operation is ReadKeyStore) ==> !final(self).mask_read_data_phase,
            !(operation is ReadKeyStore) ==> (final(self).outcome(
                old(self),
                plan_for_key(CommandPacket::of(CommandTag::KeyProvisioning(operation))),
            ) matches Some(out) && r == key_status_reply(out)),
    {
        let packet = CommandPacket::new(CommandTag::KeyProvisioning(operation));
        let mut plan = self.plan(&packet);
        if let KeyProvOperation::ReadKeyStore { .. } = operation {
            match self.run(plan) {
                Err(e) => Err(e),
                Ok(Some(response)) => match response.tag {
                    CmdResponseTag::KeyProvisioning(data, data_phase) => Ok(
                        KeyProvisioningResponse::KeyStore {
                            status: response.status,
                            response_words: data,
                            bytes: match data_phase {
                                Some(bytes) => bytes,
                                None => Vec::new(),
                            },
                        },
                    ),
                    _ => Err(CommunicationError::InvalidPacketReceived),
                },
                Ok(None) => Err(CommunicationError::InvalidPacketReceived),
            }
        } else {
            plan.mask_send = true;
            plan.mask_final = false;
            let out = self.run(plan);
            self.mask_read_data_phase = false;
            match status(out) {
                Ok(s) => Ok(KeyProvisioningResponse::Status(s)),
                Err(e) => Err(e),
            }
        }
    }

    /// Reads a word of one-time-programmable memory.
    pub fn flash_read_once(&mut self, index: u32, count: u32) -> (r: ResultComm<u32>)
        ensures
            final(self).continues(old(self)),
            final(self).outcome(
                old(self),
                plan_for(
                    CommandPacket::plain(CommandTag::FlashReadOnce { index, count }),
                    old(self).mask_read_data_phase,
                ),
            ) matches Some(out) && r == read_once_reply(out),
    {
        let packet = CommandPacket::new_none_flag(CommandTag::FlashReadOnce { index, count });
        let plan = self.plan(&packet);
        match self.run(plan) {
            Err(e) => Err(e),
            Ok(Some(response)) => match response.tag {
                CmdResponseTag::FlashReadOnce(value) => Ok(value),
                _ => Err(CommunicationError::InvalidPacketReceived),
            },
            Ok(None) => Err(CommunicationError::InvalidPacketReceived),
        }
    }

    /// Programs a word of one-time-programmable memory. With `verify` set, the
    /// word is read back after a successful write, and the status is
    /// [`StatusCode::OtpVerifyFail`] if a bit that was written is not set in it.
    pub fn flash_program_once(&mut self, index: u32, count: u32, data: u32, verify: bool) -> (r:
        ResultStatus)
        ensures
            final(self).continues(old(self)),
            final(self).ended(
                old(self),
                plan_for_program_once(index, count, data, verify, old(self).mask_read_data_phase),
                r,
            ),
    {
        let packet = CommandPacket::new_none_flag(
            CommandTag::FlashProgramOnce { index, count, data },
        );
        let mut plan = self.plan(&packet);
        if verify {
            let read_back = CommandPacket::new_none_flag(
                CommandTag::FlashReadOnce { index: index & 0x00FF_FFFF, count },
            );
            proof {
                lemma_few_params(read_back.tag);
            }
            plan.verify = Some(Verification { frame: read_back.frame(), data });
        }
        status(self.run(plan))
    }

    /// Reads fuses.
    pub fn fuse_read(&mut self, start_address: u32, byte_count: u32, memory_id: u32) -> (r:
        ResultComm<ReadMemoryResponse>)
        ensures
            final(self).continues(old(self)),
            final(self).outcome(
                old(self),
                plan_for(
                    CommandPacket::plain(
                        CommandTag::FuseRead { start_address, byte_count, memory_id },
                    ),
                    old(self).mask_read_data_phase,
                ),
            ) matches Some(out) && is_read_reply(out, r),
    {
        let packet = CommandPacket::new_none_flag(
            CommandTag::FuseRead { start_address, byte_count, memory_id },
        );
        let plan = self.plan(&packet);
        read_reply(self.run(plan))
    }

    /// Programs fuses.
    pub fn fuse_program(&mut self, start_address: u32, memory_id: u32, bytes: &[u8]) -> (r:
        ResultStatus)
        requires
            bytes@.len() <= u32::MAX,
        ensures
            final(self).continues(old(self)),
            final(self).ended(
                old(self),
                plan_for(
                    CommandPacket::with_data(
                        CommandTag::FuseProgram { start_address, memory_id, bytes },
                    ),
                    old(self).mask_read_data_phase,
                ),
                r,
            ),
    {
        self.status_exchange(
            CommandPacket::new_data_phase(
                CommandTag::FuseProgram { start_address, memory_id, bytes },
            ),
        )
    }

    /// Streams an image to the device, with no command in front of it and no
    /// response behind it.
    pub fn load_image(&mut self, bytes: &[u8]) -> (r: ResultStatus)
        requires
            bytes@.len() <= u32::MAX,
        ensures
            final(self).continues(old(self)),
            final(self).ended(
                old(self),
                plan_for_image(
                        CommandPacket::with_data(CommandTag::NoCommand { bytes }),
                        old(self).mask_read_data_phase,
                    ),
                r,
            ),
    {
        let packet = CommandPacket::new_data_phase(CommandTag::NoCommand { bytes });
        let mut plan = self.plan(&packet);
        plan.read_final = false;
        status(self.run(plan))
    }
}

/// The status that an exchange ended with.
fn status(out: ResultComm<Option<CmdResponse>>) -> (r: ResultStatus)
    ensures
        r == status_of(outcome_view(out)),
{
    match out {
        Ok(Some(response)) => Ok(response.status),
        Ok(None) => Ok(StatusCode::Success),
        Err(e) => Err(e),
    }
}

/// What a memory or fuse read returns for the result of its exchange.
fn read_reply(out: ResultComm<Option<CmdResponse>>) -> (r: ResultComm<ReadMemoryResponse>)
    ensures
        is_read_reply(outcome_view(out), r),
{
    match out {
        Err(e) => Err(e),
        Ok(Some(response)) => match response.tag {
            CmdResponseTag::ReadMemory(bytes) => {
                let mut response_words: Vec<u32> = Vec::new();
                response_words.push(
                    #[verifier::truncate]
                    (bytes.len() as u32),
                );
                assert(response_words@ =~= seq![bytes@.len() as u32]);
                Ok(ReadMemoryResponse { status: response.status, response_words, bytes })
            },
            _ => Err(CommunicationError::InvalidPacketReceived),
        },
        Ok(None) => Err(CommunicationError::InvalidPacketReceived),
    }
}

/// What goes over the wire for a command is its header, code, flag, reserved
/// byte and parameter count, then its parameters, each least significant byte
/// first, in one command frame, and behind it the bytes of its data phase, if
/// it has one, cut into data packets. The exchange asks for that frame when it
/// sends the command, and the packets of the data phase joined are its bytes.
pub proof fn lemma_command_on_the_wire(packet: CommandPacket, mask: bool, size: u32)
    requires
        packet.tag.has_layout(),
        size > 0,
    ensures
        plan_for(packet, mask).command == frame(
            CMD,
            seq![
                packet.tag.spec_code(),
                packet.header.flag.spec_code(),
                packet.header.reserved,
                packet.tag.spec_params().len() as u8,
            ] + words::words_to_le_bytes(packet.tag.spec_params()),
        ),
        engine::demand(plan_for(packet, mask), engine::EngineState::Plain) == engine::Demand::Write(
            plan_for(packet, mask).command,
        ),
        engine::demand(plan_for(packet, mask), engine::EngineState::Command { size })
            == engine::Demand::Write(plan_for(packet, mask).command),
        packet.tag.spec_data_phase() matches Some(bytes) ==> reader::joined(
            engine::chunks(bytes, size as nat),
        ) == bytes,
{
    match packet.tag.spec_data_phase() {
        Some(bytes) => {
            engine::lemma_chunks_rebuild(bytes, size as nat);
        },
        None => {},
    }
}

/// The question for the current version of the bootloader, with memory index
/// zero, goes out as these eighteen bytes.
pub proof fn lemma_version_query_on_the_wire(mask: bool)
    ensures
        plan_for(
            CommandPacket::plain(
                CommandTag::GetProperty {
                    tag: PropertyTagDiscriminants::CurrentVersion,
                    memory_index: 0,
                },
            ),
            mask,
        ).command == seq![
            0x5au8, 0xa4u8, 0x0cu8, 0x00u8, 0x4bu8, 0x33u8, 0x07u8, 0x00u8,
            0x00u8, 0x02u8, 0x01u8, 0x00u8, 0x00u8, 0x00u8, 0x00u8, 0x00u8,
            0x00u8, 0x00u8,
        ],
{
    let packet = CommandPacket::plain(
        CommandTag::GetProperty { tag: PropertyTagDiscriminants::CurrentVersion, memory_index: 0 },
    );
    let payload = seq![
        0x07u8, 0x00u8, 0x00u8, 0x02u8, 0x01u8, 0x00u8, 0x00u8, 0x00u8,
        0x00u8, 0x00u8, 0x00u8, 0x00u8,
    ];
    let covered = seq![
        0x5au8, 0xa4u8, 0x0cu8, 0x00u8, 0x07u8, 0x00u8, 0x00u8, 0x02u8,
        0x01u8, 0x00u8, 0x00u8, 0x00u8, 0x00u8, 0x00u8, 0x00u8, 0x00u8,
    ];
    lemma_command_on_the_wire(packet, mask, 1);
    assert(packet.header.spec_payload(packet.tag.spec_params(), packet.tag.spec_code())
        =~= payload);
    assert(packets::covered(CMD, payload) =~= covered);
    packets::lemma_crc_by_bytes(covered);
    assert(covered.take(16) =~= covered);
    assert(crc_four(
        crc_four(
            crc_four(crc_four(0, 0x5a, 0xa4, 0x0c, 0x00), 0x07, 0x00, 0x00, 0x02),
            0x01,
            0x00,
            0x00,
            0x00,
        ),
        0x00,
        0x00,
        0x00,
        0x00,
    ) == 0x334b) by (bit_vector);
    assert(packets::crc16_xmodem(covered) == 0x334b);
    assert(packets::frame(CMD, payload) =~= seq![
        0x5au8, 0xa4u8, 0x0cu8, 0x00u8, 0x4bu8, 0x33u8, 0x07u8, 0x00u8,
        0x00u8, 0x02u8, 0x01u8, 0x00u8, 0x00u8, 0x00u8, 0x00u8, 0x00u8,
        0x00u8, 0x00u8,
    ]);
}

/// The command that writes the word `0x12345678`, four bytes long, at index
/// `0x51` of the one-time-programmable memory goes out as these twenty-two
/// bytes.
pub proof fn lemma_program_once_on_the_wire(mask: bool)
    ensures
        plan_for(
            CommandPacket::plain(
                CommandTag::FlashProgramOnce { index: 0x51, count: 4, data: 0x12345678 },
            ),
            mask,
        ).command == seq![
            0x5au8, 0xa4u8, 0x10u8, 0x00u8, 0x1bu8, 0x60u8, 0x0eu8, 0x00u8,
            0x00u8, 0x03u8, 0x51u8, 0x00u8, 0x00u8, 0x00u8, 0x04u8, 0x00u8,
            0x00u8, 0x00u8, 0x78u8, 0x56u8, 0x34u8, 0x12u8,
        ],
{
    let packet = CommandPacket::plain(
        CommandTag::FlashProgramOnce { index: 0x51, count: 4, data: 0x12345678 },
    );
    let payload = seq![
        0x0eu8, 0x00u8, 0x00u8, 0x03u8, 0x51u8, 0x00u8, 0x00u8, 0x00u8,
        0x04u8, 0x00u8, 0x00u8, 0x00u8, 0x78u8, 0x56u8, 0x34u8, 0x12u8,
    ];
    let covered = seq![
        0x5au8, 0xa4u8, 0x10u8, 0x00u8, 0x0eu8, 0x00u8, 0x00u8, 0x03u8,
        0x51u8, 0x00u8, 0x00u8, 0x00u8, 0x04u8, 0x00u8, 0x00u8, 0x00u8,
        0x78u8, 0x56u8, 0x34u8, 0x12u8,
    ];
    lemma_command_on_the_wire(packet, mask, 1);
    assert(packet.header.spec_payload(packet.tag.spec_params(), packet.tag.spec_code())
        =~= payload);
    assert(packets::covered(CMD, payload) =~= covered);
    packets::lemma_crc_by_bytes(covered);
    assert(covered.take(20) =~= covered);
    assert(crc_four(
        crc_four(
            crc_four(
                crc_four(crc_four(0, 0x5a, 0xa4, 0x10, 0x00), 0x0e, 0x00, 0x00, 0x03),
                0x51,
                0x00,
                0x00,
                0x00,
            ),
            0x04,
            0x00,
            0x00,
            0x00,
        ),
        0x78,
        0x56,
        0x34,
        0x12,
    ) == 0x601b) by (bit_vector);
    assert(packets::crc16_xmodem(covered) == 0x601b);
    assert(packets::frame(CMD, payload) =~= seq![
        0x5au8, 0xa4u8, 0x10u8, 0x00u8, 0x1bu8, 0x60u8, 0x0eu8, 0x00u8,
        0x00u8, 0x03u8, 0x51u8, 0x00u8, 0x00u8, 0x00u8, 0x04u8, 0x00u8,
        0x00u8, 0x00u8, 0x78u8, 0x56u8, 0x34u8, 0x12u8,
    ]);
}

/// Writing memory to a device that goes along: the device names the packet
/// size `m` and accepts the command, the bytes go out in data packets, and the
/// final response decides the result. The packets are as many as the number of
/// bytes divided by `m`, rounded up, none for no bytes; each but the last
/// holds `m` bytes, the last what is left, and joined they are the bytes.
pub proof fn lemma_write_memory_sends_chunks(
    start_address: u32,
    memory_id: u32,
    bytes: &[u8],
    mask: bool,
    m: u32,
    query_reply: Seq<u8>,
    intermediate: Seq<u8>,
    last: Seq<u8>,
)
    requires
        engine::max_packet_size(
            match reader_step(mask, ReaderState::AwaitFirst, Ok(query_reply)) {
                ReaderState::Done(r) => r,
                _ => Err(CommunicationError::InvalidData),
            },
        ) == Ok::<u32, CommunicationError>(m),
        reader_step(mask, ReaderState::AwaitFirst, Ok(intermediate)) matches ReaderState::Done(r)
            && engine::require_success(r) is Ok,
        reader_step(mask, ReaderState::AwaitFirst, Ok(last)) is Done,
    ensures
        ({
            let plan = plan_for(
                CommandPacket::with_data(
                    CommandTag::WriteMemory { start_address, memory_id, bytes },
                ),
                mask,
            );
            let packets = engine::chunks(bytes@, m as nat);
            &&& m > 0
            &&& packets.len() == engine::chunk_count(bytes@.len(), m as nat)
            &&& bytes@.len() == 0 <==> packets.len() == 0
            &&& reader::joined(packets) == bytes@
            &&& forall|i: int| 0 <= i < packets.len() - 1 ==> (#[trigger] packets[i]).len() == m
            &&& packets.len() > 0 ==> packets.last().len() == bytes@.len() - m * (packets.len()
                - 1)
            &&& state_after(
                plan,
                seq![
                    Exchange::Sent(engine::query_frame(), Ok(())),
                    Exchange::Received(CMD, Ok(query_reply)),
                    Exchange::Sent(plan.command, Ok(())),
                    Exchange::Received(CMD, Ok(intermediate)),
                ] + engine::chunk_events(bytes@, m as nat, packets.len()) + seq![
                    Exchange::Received(CMD, Ok(last)),
                ],
            ) == engine::after_response(
                plan,
                reader_step(mask, ReaderState::AwaitFirst, Ok(last))->Done_0,
            )
        }),
{
    let plan = plan_for(
        CommandPacket::with_data(CommandTag::WriteMemory { start_address, memory_id, bytes }),
        mask,
    );
    engine::lemma_write_exchange(plan, m, query_reply, intermediate, last);
    engine::lemma_chunks_rebuild(bytes@, m as nat);
}

/// A read of three bytes at address zero of the internal memory, answered with
/// the announcement of three bytes, the packet `12 34 56` and success: the
/// command goes out with its code, no flag and the words 0, 3, 0, nothing else
/// is sent, and the reply holds success, the number of the bytes and the bytes.
pub proof fn lemma_read_of_three_bytes(r: ResultComm<ReadMemoryResponse>)
    ensures
        ({
            let plan = plan_for_read(
                CommandPacket::plain(
                    CommandTag::ReadMemory { start_address: 0, byte_count: 3, memory_id: 0 },
                ),
                false,
            );
            let events = seq![
                Exchange::Sent(plan.command, Ok(())),
                Exchange::Received(CMD, Ok(seq![0xa3u8, 1, 0, 2, 0, 0, 0, 0, 3, 0, 0, 0])),
                Exchange::Received(DATA, Ok(seq![0x12u8, 0x34, 0x56])),
                Exchange::Received(CMD, Ok(seq![0xa0u8, 0, 0, 2, 0, 0, 0, 0, 3, 0, 0, 0])),
            ];
            &&& plan.command == frame(
                CMD,
                seq![0x03u8, 0, 0, 3, 0, 0, 0, 0, 3, 0, 0, 0, 0, 0, 0, 0],
            )
            &&& outcome_of(plan, events) matches Some(out) && (is_read_reply(out, r) <==> (
                r matches Ok(reply) && reply.status == StatusCode::Success
                    && reply.response_words@ == seq![3u32] && reply.bytes@ == seq![
                    0x12u8,
                    0x34,
                    0x56,
                ]))
        }),
{
    let packet = CommandPacket::plain(
        CommandTag::ReadMemory { start_address: 0, byte_count: 3, memory_id: 0 },
    );
    let plan = plan_for_read(packet, false);
    let first = seq![0xa3u8, 1, 0, 2, 0, 0, 0, 0, 3, 0, 0, 0];
    let last = seq![0xa0u8, 0, 0, 2, 0, 0, 0, 0, 3, 0, 0, 0];
    let bytes = seq![0x12u8, 0x34, 0x56];
    let packets = seq![bytes];
    let head = ResponseFields {
        code: 0xa3,
        flag: CommandFlag::HasDataPhase,
        reserved: 0,
        status: StatusCode::Success,
        words: seq![3u32],
    };
    lemma_command_on_the_wire(packet, false, 1);
    assert(packet.header.spec_payload(packet.tag.spec_params(), packet.tag.spec_code())
        =~= seq![0x03u8, 0, 0, 3, 0, 0, 0, 0, 3, 0, 0, 0, 0, 0, 0, 0]);
    assert(words::le_bytes_to_words(first.skip(8)) =~= seq![3u32]);
    assert(words::le_bytes_to_words(last.skip(8)) =~= seq![3u32]);
    assert(spec_parse_response(first) == Ok::<ResponseFields, CommunicationError>(head));
    assert(packets.take(0) =~= Seq::<Seq<u8>>::empty());
    assert(packets.drop_last() =~= Seq::<Seq<u8>>::empty());
    assert(reader::joined(packets.drop_last()) =~= Seq::<u8>::empty());
    assert(reader::joined(packets) =~= bytes);
    engine::lemma_read_run(plan, first, head, packets, false, last);
    assert(seq![Exchange::Sent(plan.command, Ok(())), Exchange::Received(CMD, Ok(first))]
        + engine::packet_events(packets) + Seq::<Exchange>::empty() + seq![
        Exchange::Received(CMD, Ok(last)),
    ] =~= seq![
        Exchange::Sent(plan.command, Ok(())),
        Exchange::Received(CMD, Ok(first)),
        Exchange::Received(DATA, Ok(bytes)),
        Exchange::Received(CMD, Ok(last)),
    ]);
}

/// No command has more parameters than the count byte of a command header can
/// tell.
pub proof fn lemma_few_params(tag: CommandTag)
    requires
        tag.has_layout(),
    ensures
        tag.spec_params().len() <= 8,
{
}

} // verus!

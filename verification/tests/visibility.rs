use mboot::{
    packets::{command::CommandPacket, data_phase::DataPhasePacket},
    tags::{command::CommandTag, command_response::CmdResponseTag},
    CommunicationError,
};

#[test]
fn test_visibility() {
    let tag = CommandTag::ReadMemory {
        start_address: 0,
        byte_count: 0xff,
        memory_id: 0,
    };
    let _ = CmdResponseTag::ReadMemory([10, 20].into());
    let _ = CommandPacket::new_data_phase(tag);
    let _ = CommunicationError::InvalidPacketReceived;
    let _ = DataPhasePacket {
        data: [10, 20, 10].to_vec(),
    };
}

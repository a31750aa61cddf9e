use mboot::packets::command::{parse_response, parse_status, CommandHeader, CommandPacket};
use mboot::packets::data_phase::DataPhasePacket;
use mboot::packets::ping::{Ping, PingResponse};
use mboot::packets::{
    assemble_frame, construct_header, covered_bytes, frame_header, parse_frame, verdict,
    FrameHeader, Packet, PacketConstruct, PacketParse, CMD, DATA, PING, PINGR,
};
use mboot::tags::command::{CommandTag, CommandToParams};
use mboot::tags::command_flag::CommandFlag;
use mboot::tags::property::PropertyTagDiscriminants;
use mboot::tags::status::StatusCode;
use mboot::tags::ToAddress;
use mboot::CommunicationError;

fn get_command(tag: CommandTag) -> CommandPacket {
    CommandPacket {
        header: CommandHeader {
            flag: CommandFlag::NoData,
            reserved: 0,
        },
        tag,
    }
}

#[test]
fn test_command_construct_version() {
    let cmd = get_command(CommandTag::GetProperty {
        tag: PropertyTagDiscriminants::CurrentVersion,
        memory_index: 0,
    });
    let bytes = cmd.header.construct_frame(&cmd.tag.to_params().0, cmd.tag.code());
    assert_eq!(
        bytes,
        [0x5a, 0xa4, 0xc, 0x0, 0x4b, 0x33, 0x7, 0x0, 0x0, 0x2, 0x1, 0x0, 0x0, 0x0, 0x0, 0x0, 0x0, 0x0]
    );
}

#[test]
fn test_command_flash_program_once() {
    let cmd = get_command(CommandTag::FlashProgramOnce {
        index: 0x51,
        count: 4,
        data: 0x12345678,
    });

    let bytes = cmd.header.construct_frame(&cmd.tag.to_params().0, cmd.tag.code());
    assert_eq!(
        bytes,
        [90, 164, 16, 0, 27, 96, 14, 0, 0, 3, 81, 0, 0, 0, 4, 0, 0, 0, 120, 86, 52, 18]
    );
}

#[test]
fn packet_frame_agrees_with_construct_frame() {
    let cmd = CommandPacket::new_none_flag(CommandTag::FlashProgramOnce {
        index: 0x51,
        count: 4,
        data: 0x12345678,
    });
    assert_eq!(
        cmd.frame(),
        [90, 164, 16, 0, 27, 96, 14, 0, 0, 3, 81, 0, 0, 0, 4, 0, 0, 0, 120, 86, 52, 18]
    );
}

#[test]
fn checksum_is_crc16_xmodem() {
    // The check value of CRC-16/XMODEM is 0x31C3 for the digits 1 to 9. The
    // checksum of a frame covers four header bytes first, so the value is
    // looked at through a frame whose checksum is known.
    let frame = construct_header(DATA, vec![0x12, 0x34, 0x56]);
    assert_eq!(frame, [0x5a, 0xa5, 0x03, 0x00, 0x43, 0x8b, 0x12, 0x34, 0x56]);
}

/// One step of the division by the polynomial 0x1021.
fn division_step(value: u16) -> u16 {
    if value & 0x8000 != 0 {
        (value << 1) ^ 0x1021
    } else {
        value << 1
    }
}

/// The checksum, bit by bit: from zero, each byte through eight steps.
fn bitwise_crc(bytes: &[u8]) -> u16 {
    let mut crc: u16 = 0;
    for byte in bytes {
        let mut entry: u16 = (((crc >> 8) ^ u16::from(*byte)) & 0xff) << 8;
        for _ in 0..8 {
            entry = division_step(entry);
        }
        crc = entry ^ (crc << 8);
    }
    crc
}

#[test]
fn bitwise_crc_has_the_check_value() {
    assert_eq!(bitwise_crc(b"123456789"), 0x31c3);
    assert_eq!(bitwise_crc(&[]), 0);
    assert_eq!(bitwise_crc(b"1"), 0x2672);
}

#[test]
fn checksum_agrees_with_the_bitwise_definition() {
    let mut seed: u32 = 0x2545_f491;
    for length in 0..200usize {
        let mut payload: Vec<u8> = Vec::with_capacity(length);
        for _ in 0..length {
            seed = seed.wrapping_mul(1_664_525).wrapping_add(1_013_904_223);
            payload.push((seed >> 24) as u8);
        }
        for code in [CMD, DATA, PING, PINGR] {
            let frame = construct_header(code, payload.clone());
            let expected = bitwise_crc(&covered_bytes(code, &payload));
            assert_eq!(u16::from_le_bytes([frame[4], frame[5]]), expected);
        }
    }
}

#[test]
fn checksum_of_every_single_byte_agrees_with_the_bitwise_definition() {
    for byte in 0..=255u8 {
        let frame = construct_header(DATA, vec![byte]);
        let expected = bitwise_crc(&[0x5a, 0xa5, 1, 0, byte]);
        assert_eq!(u16::from_le_bytes([frame[4], frame[5]]), expected);
    }
}

#[test]
fn frame_layout_is_start_type_length_crc_payload() {
    let payload: Vec<u8> = (0..300u32).map(|i| (i % 251) as u8).collect();
    let frame = construct_header(CMD, payload.clone());
    assert_eq!(frame.len(), 6 + 300);
    assert_eq!(&frame[..4], &[0x5a, 0xa4, 0x2c, 0x01]);
    assert_eq!(&frame[6..], &payload[..]);
}

#[test]
fn covered_bytes_leave_the_checksum_out() {
    assert_eq!(covered_bytes(DATA, &[9, 8]), [0x5a, 0xa5, 2, 0, 9, 8]);
    assert_eq!(assemble_frame(DATA, &[9, 8], 0xBEEF), [0x5a, 0xa5, 2, 0, 0xEF, 0xBE, 9, 8]);
}

#[test]
fn frame_round_trip() {
    for payload in [vec![1u8], vec![0x12, 0x34, 0x56], vec![0u8; 1000]] {
        let frame = construct_header(DATA, payload.clone());
        assert_eq!(parse_frame(&frame, DATA).unwrap(), payload);
    }
}

#[test]
fn emitted_crc_covers_header_and_payload() {
    let payload = vec![7u8, 0, 0, 2, 1, 0, 0, 0, 0, 0, 0, 0];
    let frame = construct_header(CMD, payload.clone());
    let mut covered = frame[..4].to_vec();
    covered.extend_from_slice(&frame[6..]);
    let other = assemble_frame(CMD, &payload, u16::from_le_bytes([frame[4], frame[5]]));
    assert_eq!(other, frame);
    assert_eq!(covered, covered_bytes(CMD, &payload));
    assert_eq!([frame[4], frame[5]], [0x4b, 0x33]);
}

#[test]
fn empty_frame_is_an_abort() {
    let frame = construct_header(CMD, Vec::new());
    assert_eq!(frame.len(), 6);
    assert!(matches!(parse_frame(&frame, CMD), Err(CommunicationError::Aborted)));
}

#[test]
fn frame_with_wrong_start_or_type_is_refused() {
    let mut frame = construct_header(CMD, vec![1, 2, 3]);
    assert!(matches!(parse_frame(&frame, DATA), Err(CommunicationError::InvalidHeader)));
    frame[0] = 0x5B;
    assert!(matches!(parse_frame(&frame, CMD), Err(CommunicationError::InvalidHeader)));
    assert!(matches!(parse_frame(&[0x5a], CMD), Err(CommunicationError::InvalidHeader)));
    assert!(matches!(
        parse_frame(&[0x5a, 0xa4, 1, 0], CMD),
        Err(CommunicationError::InvalidHeader)
    ));
}

#[test]
fn frame_with_wrong_crc_is_refused() {
    let mut frame = construct_header(CMD, vec![1, 2, 3]);
    frame[7] ^= 0x01;
    assert!(matches!(parse_frame(&frame, CMD), Err(CommunicationError::InvalidCrc)));
    let mut empty = construct_header(CMD, Vec::new());
    empty[4] ^= 0x01;
    assert!(matches!(parse_frame(&empty, CMD), Err(CommunicationError::InvalidCrc)));
}

#[test]
fn frame_with_wrong_length_is_refused() {
    let mut frame = construct_header(CMD, vec![1, 2, 3]);
    frame.push(4);
    assert!(matches!(parse_frame(&frame, CMD), Err(CommunicationError::InvalidData)));
}

#[test]
fn frame_header_and_verdict() {
    let frame = construct_header(CMD, vec![1, 2, 3]);
    let header = frame_header(&frame, CMD).unwrap();
    assert_eq!(header.length, 3);
    assert_eq!(header.crc, u16::from_le_bytes([frame[4], frame[5]]));
    assert!(verdict(header, header.crc).is_ok());
    assert!(matches!(
        verdict(header, header.crc.wrapping_add(1)),
        Err(CommunicationError::InvalidCrc)
    ));
    assert!(matches!(
        verdict(FrameHeader { length: 0, crc: 5 }, 5),
        Err(CommunicationError::Aborted)
    ));
}

#[test]
fn ping_response_from_a_frame() {
    let frame = [0x5a, 0xa7, 0x08, 0x00, 0xdc, 0x71, 0x00, 0x00, 0x00, 0x03, 0x01, 0x50, 0x00, 0x00];
    assert_eq!(construct_header(PINGR, frame[6..].to_vec()), frame);
    let payload = parse_frame(&frame, PINGR).unwrap();
    let response = PingResponse::parse(&payload).unwrap();
    assert_eq!(
        response,
        PingResponse {
            version: 0x00030150,
            options: 0x0000
        }
    );
}

#[test]
fn ping_response_reads_version_big_endian_and_options_little_endian() {
    let response = PingResponse::parse(&[0xff, 0xff, 0x4b, 0x03, 0x01, 0x02, 0x34, 0x12]).unwrap();
    assert_eq!(response.version, 0x4b030102);
    assert_eq!(response.options, 0x1234);
    assert!(matches!(
        PingResponse::parse(&[0, 0, 0, 0, 0, 0, 0]),
        Err(CommunicationError::InvalidData)
    ));
}

#[test]
fn packet_codes() {
    assert_eq!(CommandPacket::get_code(), 0xA4);
    assert_eq!(DataPhasePacket::get_code(), 0xA5);
    assert_eq!(Ping::get_code(), 0xA6);
    assert_eq!(PingResponse::get_code(), 0xA7);
    assert_eq!((CMD, DATA, PING, PINGR), (0xA4, 0xA5, 0xA6, 0xA7));
}

#[test]
fn data_phase_packet_round_trip() {
    let packet = DataPhasePacket::parse(&[0x12, 0x34, 0x56]).unwrap();
    assert_eq!(packet.data, [0x12, 0x34, 0x56]);
    let frame = packet.construct();
    assert_eq!(frame, [0x5a, 0xa5, 0x03, 0x00, 0x43, 0x8b, 0x12, 0x34, 0x56]);
    assert_eq!(parse_frame(&frame, DATA).unwrap(), packet.data);
}

#[test]
fn command_header_payload() {
    let header = CommandHeader {
        flag: CommandFlag::HasDataPhase,
        reserved: 0,
    };
    assert_eq!(
        header.payload(&[0x20000000, 3, 0], 0x04),
        [0x04, 0x01, 0x00, 0x03, 0, 0, 0, 0x20, 3, 0, 0, 0, 0, 0, 0, 0]
    );
    assert_eq!(header.payload(&[], 0x0B), [0x0B, 0x01, 0x00, 0x00]);
}

#[test]
fn packet_flag_follows_the_data_phase() {
    let bytes = [1u8, 2, 3];
    let with = CommandPacket::new(CommandTag::WriteMemory {
        start_address: 0,
        memory_id: 0,
        bytes: &bytes,
    });
    assert!(with.header.flag.is_has_data_phase());
    let without = CommandPacket::new(CommandTag::Reset);
    assert!(without.header.flag.is_no_data());
    assert!(CommandPacket::new_data_phase(CommandTag::Reset).header.flag.is_has_data_phase());
    assert!(CommandPacket::new_none_flag(CommandTag::Reset).header.flag.is_no_data());
}

#[test]
fn response_header_is_parsed() {
    let payload = [0xA7, 0x00, 0x00, 0x02, 0, 0, 0, 0, 0x00, 0x01, 0x03, 0x4b];
    let header = parse_response(&payload).unwrap();
    assert_eq!(header.code, 0xA7);
    assert!(header.flag.is_no_data());
    assert_eq!(header.reserved, 0);
    assert_eq!(header.status, StatusCode::Success);
    assert_eq!(header.params, [0x00, 0x01, 0x03, 0x4b]);
}

#[test]
fn response_header_with_wrong_count_is_refused() {
    // three words declared, two present
    let payload = [0xA7, 0x00, 0x00, 0x03, 0, 0, 0, 0, 1, 0, 0, 0];
    assert!(matches!(parse_response(&payload), Err(CommunicationError::InvalidData)));
    // not a whole number of words
    let payload = [0xA7, 0x00, 0x00, 0x01, 0, 0, 0, 0, 1];
    assert!(matches!(parse_response(&payload), Err(CommunicationError::InvalidData)));
    // no status word
    assert!(matches!(
        parse_response(&[0xA0, 0x00, 0x00, 0x00]),
        Err(CommunicationError::InvalidData)
    ));
    // too short for a header
    assert!(matches!(parse_response(&[0xA0, 0x00]), Err(CommunicationError::InvalidData)));
    // unknown flag
    let payload = [0xA7, 0x02, 0x00, 0x01, 0, 0, 0, 0];
    assert!(matches!(parse_response(&payload), Err(CommunicationError::InvalidData)));
}

#[test]
fn unknown_status_keeps_its_value() {
    assert_eq!(parse_status([0xD8, 0x27, 0, 0]).unwrap(), StatusCode::MemoryRangeInvalid);
    assert_eq!(parse_status(10211u32.to_le_bytes()).unwrap(), StatusCode::MemoryBlankPageReadDisallowed);
    match parse_status(0x12345678u32.to_le_bytes()) {
        Err(CommunicationError::UnexpectedStatus(status, raw)) => {
            assert_eq!(status, StatusCode::UnknownStatusCode);
            assert_eq!(raw, 0x12345678);
        }
        other => panic!("unexpected: {other:?}"),
    }
    // the number of the stand-in is no documented status either
    assert!(matches!(
        parse_status([0xEF, 0xBE, 0xAD, 0xDE]),
        Err(CommunicationError::UnexpectedStatus(StatusCode::UnknownStatusCode, 0xDEADBEEF))
    ));
    let payload = [0xA0, 0x00, 0x00, 0x01, 0x78, 0x56, 0x34, 0x12];
    assert!(matches!(
        parse_response(&payload),
        Err(CommunicationError::UnexpectedStatus(StatusCode::UnknownStatusCode, 0x12345678))
    ));
}

#[test]
fn status_becomes_an_error_with_its_number() {
    match CommunicationError::from(StatusCode::FlashAlignmentError) {
        CommunicationError::UnexpectedStatus(status, raw) => {
            assert_eq!(status, StatusCode::FlashAlignmentError);
            assert_eq!(raw, 101);
        }
        other => panic!("unexpected: {other:?}"),
    }
}

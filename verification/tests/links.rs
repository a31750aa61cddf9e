use mboot::packets::ping::PingResponse;
use mboot::packets::{construct_header, CMD, DATA};
use mboot::protocols::i2c;
use mboot::protocols::stream::{
    check_ping_type, ping_frame, ping_response, ping_response_with, scan_for_start, FrameReader,
    PingReader, PingScan, StreamAction, MAX_PING_RESPONSE_DUMMY_BYTES,
};
use mboot::protocols::uart;
use mboot::protocols::usb::{
    hid_report, parse_number_string, parse_usb_identifier, report, report_payload, MAX_PACKET_SIZE,
};
use mboot::protocols::{ACK, ACK_ABORT, NACK};
use mboot::CommunicationError;

#[test]
fn acknowledgment_bytes() {
    assert_eq!((ACK, NACK, ACK_ABORT), (0xA1, 0xA2, 0xA3));
}

#[test]
fn serial_acknowledgment() {
    assert!(uart::ack_verdict([0x5a, 0xa1]).is_ok());
    assert!(matches!(uart::ack_verdict([0x5a, 0xa2]), Err(CommunicationError::NACKSent)));
    assert!(matches!(uart::ack_verdict([0x5a, 0xa3]), Err(CommunicationError::Aborted)));
    assert!(matches!(uart::ack_verdict([0x5a, 0xa4]), Err(CommunicationError::InvalidHeader)));
    assert!(matches!(uart::ack_verdict([0x00, 0xa1]), Err(CommunicationError::InvalidHeader)));
    assert_eq!(uart::DEFAULT_BAUDRATE, 57600);
}

#[test]
fn i2c_acknowledgment_passes_over_a_busy_device() {
    assert!(matches!(i2c::ack_verdict([0x5a, 0xa1]), Some(Ok(()))));
    assert!(matches!(i2c::ack_verdict([0x5a, 0xa2]), Some(Err(CommunicationError::NACKSent))));
    assert!(matches!(i2c::ack_verdict([0x5a, 0xa3]), Some(Err(CommunicationError::Aborted))));
    assert!(i2c::ack_verdict([0x00, 0x00]).is_none());
    assert!(i2c::ack_verdict([0x00, 0xa1]).is_none());
    assert!(i2c::ack_verdict([0x17, 0xa1]).is_none());
    assert!(i2c::ack_verdict([0x5a, 0x00]).is_none());
}

fn read_from_stream(stream: &[u8], packet_code: u8) -> (Result<Vec<u8>, CommunicationError>, Vec<u8>, usize) {
    let mut reader = FrameReader::new(packet_code);
    let mut at = 0;
    let mut written = Vec::new();
    loop {
        match reader.next() {
            StreamAction::Read(n) => {
                let bytes = stream[at..at + n].to_vec();
                at += n;
                reader = reader.on_bytes(bytes);
            }
            StreamAction::Write(bytes) => {
                written.extend(bytes);
                reader = reader.on_ack_sent();
            }
            StreamAction::Finished => break,
        }
    }
    (reader.finish(), written, at)
}

#[test]
fn frame_is_read_piece_by_piece_and_acknowledged() {
    let frame = construct_header(CMD, vec![0xA0, 0, 0, 2, 0, 0, 0, 0, 4, 0, 0, 0]);
    let (result, written, consumed) = read_from_stream(&frame, CMD);
    assert_eq!(result.unwrap(), [0xA0, 0, 0, 2, 0, 0, 0, 0, 4, 0, 0, 0]);
    assert_eq!(written, [0x5a, 0xa1]);
    assert_eq!(consumed, frame.len());
}

#[test]
fn frame_of_another_type_is_refused_at_once() {
    let frame = construct_header(DATA, vec![1, 2, 3]);
    let (result, written, consumed) = read_from_stream(&frame, CMD);
    assert!(matches!(result, Err(CommunicationError::InvalidHeader)));
    assert!(written.is_empty());
    assert_eq!(consumed, 2);
}

#[test]
fn frame_with_wrong_crc_is_acknowledged_and_refused() {
    let mut frame = construct_header(DATA, vec![1, 2, 3]);
    frame[8] ^= 0xff;
    let (result, written, consumed) = read_from_stream(&frame, DATA);
    assert!(matches!(result, Err(CommunicationError::InvalidCrc)));
    assert_eq!(written, [0x5a, 0xa1]);
    assert_eq!(consumed, frame.len());
}

#[test]
fn empty_frame_from_a_stream_is_an_abort() {
    let frame = construct_header(DATA, Vec::new());
    let (result, written, _) = read_from_stream(&frame, DATA);
    assert!(matches!(result, Err(CommunicationError::Aborted)));
    assert_eq!(written, [0x5a, 0xa1]);
}

#[test]
fn short_reads_are_refused() {
    let reader = FrameReader::new(CMD).on_bytes(vec![0x5a]);
    assert!(matches!(reader.next(), StreamAction::Finished));
    assert!(matches!(reader.finish(), Err(CommunicationError::InvalidHeader)));
    let reader = FrameReader::new(CMD).on_bytes(vec![0x5a, 0xa4]).on_bytes(vec![1]);
    assert!(matches!(reader.finish(), Err(CommunicationError::InvalidHeader)));
    let reader = FrameReader::new(CMD)
        .on_bytes(vec![0x5a, 0xa4])
        .on_bytes(vec![2, 0])
        .on_bytes(vec![0, 0])
        .on_bytes(vec![1]);
    assert!(matches!(reader.finish(), Err(CommunicationError::InvalidData)));
}

#[test]
fn ping_is_two_bytes() {
    assert_eq!(ping_frame(), [0x5a, 0xa6]);
}

#[test]
fn start_of_a_ping_response_is_looked_for_among_fifty_bytes() {
    assert_eq!(MAX_PING_RESPONSE_DUMMY_BYTES, 50);
    assert_eq!(scan_for_start(0, 0x5a), PingScan::Found);
    assert_eq!(scan_for_start(49, 0x5a), PingScan::Found);
    assert_eq!(scan_for_start(0, 0x00), PingScan::Skip);
    assert_eq!(scan_for_start(48, 0xff), PingScan::Skip);
    assert_eq!(scan_for_start(49, 0xff), PingScan::GiveUp);
    assert!(check_ping_type(0xa7).is_ok());
    assert!(matches!(check_ping_type(0xa6), Err(CommunicationError::InvalidHeader)));
}

#[test]
fn ping_response_of_ten_bytes() {
    let buf = [0x5a, 0xa7, 0x00, 0x03, 0x01, 0x50, 0x00, 0x00, 0xfb, 0x40];
    assert_eq!(
        ping_response(&buf).unwrap(),
        PingResponse {
            version: 0x00030150,
            options: 0x0000
        }
    );
    let mut broken = buf;
    broken[3] = 0x04;
    assert!(matches!(ping_response(&broken), Err(CommunicationError::InvalidCrc)));
    assert!(matches!(ping_response(&buf[..9]), Err(CommunicationError::InvalidHeader)));
    assert!(ping_response_with(&buf, 0x40fb).is_ok());
    assert!(matches!(ping_response_with(&buf, 0x40fc), Err(CommunicationError::InvalidCrc)));
}

#[test]
fn frames_become_reports() {
    let frame = construct_header(CMD, vec![7, 0, 0, 2, 1, 0, 0, 0, 0, 0, 0, 0]);
    assert_eq!(
        hid_report(&frame).unwrap(),
        [0x01, 0x00, 0x0c, 0x00, 7, 0, 0, 2, 1, 0, 0, 0, 0, 0, 0, 0]
    );
    let frame = construct_header(DATA, vec![0x12, 0x34, 0x56]);
    assert_eq!(hid_report(&frame).unwrap(), [0x02, 0x00, 0x03, 0x00, 0x12, 0x34, 0x56]);
    assert_eq!(
        (report::CMD_OUT, report::DATA_OUT, report::CMD_IN, report::DATA_IN),
        (1, 2, 3, 4)
    );
    assert_eq!(MAX_PACKET_SIZE, 1024);
}

#[test]
fn frames_that_are_no_packets_become_no_reports() {
    assert!(matches!(hid_report(&[0x5a, 0xa4, 0, 0, 0]), Err(CommunicationError::InvalidHeader)));
    assert!(matches!(
        hid_report(&[0x5b, 0xa4, 0, 0, 0, 0]),
        Err(CommunicationError::InvalidHeader)
    ));
    assert!(matches!(
        hid_report(&[0x5a, 0xa4, 2, 0, 0, 0, 1]),
        Err(CommunicationError::InvalidData)
    ));
    assert!(matches!(
        hid_report(&[0x5a, 0xa6, 0, 0, 0, 0]),
        Err(CommunicationError::InvalidHeader)
    ));
    // the length is looked at before the packet type
    assert!(matches!(
        hid_report(&[0x5a, 0xa6, 2, 0, 0, 0, 1]),
        Err(CommunicationError::InvalidData)
    ));
}

#[test]
fn reports_become_payloads() {
    let mut buffer = vec![0u8; MAX_PACKET_SIZE];
    buffer[..8].copy_from_slice(&[0x03, 0x00, 0x04, 0x00, 0xA0, 0x00, 0x00, 0x00]);
    assert_eq!(report_payload(&buffer, 8).unwrap(), [0xA0, 0x00, 0x00, 0x00]);
    // a response carries what it declares even where less was read
    assert_eq!(report_payload(&buffer, 6).unwrap(), [0xA0, 0x00, 0x00, 0x00]);
    buffer[0] = 0x04;
    assert_eq!(report_payload(&buffer, 8).unwrap(), [0xA0, 0x00, 0x00, 0x00]);
    assert_eq!(report_payload(&buffer, 64).unwrap(), [0xA0, 0x00, 0x00, 0x00]);
    // a data packet that was not read in full carries what was read
    assert_eq!(report_payload(&buffer, 6).unwrap(), [0xA0, 0x00]);
    buffer[0] = 0x09;
    assert_eq!(report_payload(&buffer, 7).unwrap(), [0xA0, 0x00, 0x00]);
    assert_eq!(report_payload(&buffer, 4).unwrap(), []);
}

#[test]
fn reports_that_carry_nothing() {
    let mut buffer = vec![0u8; MAX_PACKET_SIZE];
    buffer[0] = 0x03;
    assert!(matches!(report_payload(&buffer, 3), Err(CommunicationError::InvalidHeader)));
    assert!(matches!(report_payload(&buffer, 8), Err(CommunicationError::Aborted)));
    buffer[0] = 0x04;
    assert!(matches!(report_payload(&buffer, 8), Err(CommunicationError::Aborted)));
    buffer[0] = 0x03;
    buffer[2] = 0xff;
    buffer[3] = 0xff;
    assert!(matches!(report_payload(&buffer, 8), Err(CommunicationError::InvalidData)));
    assert!(matches!(report_payload(&buffer[..8], 9), Err(CommunicationError::InvalidData)));
}

#[test]
fn numbers_of_usb_identifiers() {
    assert_eq!(parse_number_string("0x1fc9").unwrap(), 0x1fc9);
    assert_eq!(parse_number_string("0X1FC9").unwrap(), 0x1fc9);
    assert_eq!(parse_number_string("  0x15a2 ").unwrap(), 0x15a2);
    assert_eq!(parse_number_string("1234").unwrap(), 1234);
    assert_eq!(parse_number_string("1fc9").unwrap(), 0x1fc9);
    assert_eq!(parse_number_string("15A2").unwrap(), 0x15a2);
    // two characters do not look hexadecimal, but are read so after all
    assert_eq!(parse_number_string("ff").unwrap(), 0xff);
    assert_eq!(parse_number_string("0135").unwrap(), 135);
    assert_eq!(parse_number_string("65535").unwrap(), 65535);
    // no decimal number of 16 bits, but a hexadecimal one
    assert_eq!(parse_number_string("9999").unwrap(), 9999);
    assert!(parse_number_string("65536").is_err());
    assert!(parse_number_string("0x10000").is_err());
    assert!(parse_number_string("").is_err());
    assert!(parse_number_string("0x").is_err());
    assert!(parse_number_string("12g4").is_err());
    assert!(parse_number_string("fffff").is_err());
}

#[test]
fn usb_identifiers() {
    assert_eq!(parse_usb_identifier("0x1fc9:0x0135").unwrap(), (0x1fc9, 0x0135));
    assert_eq!(parse_usb_identifier("0x1fc9,0x0135").unwrap(), (0x1fc9, 0x0135));
    assert_eq!(parse_usb_identifier("8137,309").unwrap(), (8137, 309));
    assert_eq!(parse_usb_identifier("1fc9:0135").unwrap(), (0x1fc9, 135));
    assert_eq!(parse_usb_identifier("0x1fc9").unwrap(), (0x1fc9, 0));
    match parse_usb_identifier("xyz:1") {
        Err(CommunicationError::ParseError(text)) => assert_eq!(text, "Invalid VID: xyz"),
        other => panic!("unexpected: {other:?}"),
    }
    match parse_usb_identifier("1:") {
        Err(CommunicationError::ParseError(text)) => assert_eq!(text, "Invalid PID: "),
        other => panic!("unexpected: {other:?}"),
    }
    match parse_usb_identifier("1:2:3") {
        Err(CommunicationError::ParseError(text)) => assert_eq!(text, "Invalid PID: 2:3"),
        other => panic!("unexpected: {other:?}"),
    }
    match parse_usb_identifier("usb") {
        Err(CommunicationError::ParseError(text)) => assert_eq!(text, "Invalid USB identifier: usb"),
        other => panic!("unexpected: {other:?}"),
    }
}

#[test]
fn i2c_identifiers() {
    let id = i2c::parse_identifier("/dev/i2c-1").unwrap();
    assert_eq!(id.device_path, "/dev/i2c-1");
    assert_eq!(id.slave_address, 0x10);
    assert_eq!(id.interface, "/dev/i2c-1");
    assert_eq!(i2c::DEFAULT_SLAVE, 0x10);
    let id = i2c::parse_identifier("/dev/i2c-1:0x2a").unwrap();
    assert_eq!(id.device_path, "/dev/i2c-1");
    assert_eq!(id.slave_address, 0x2a);
    assert_eq!(id.interface, "/dev/i2c-1:0x2A");
    let id = i2c::parse_identifier("/dev/i2c-3:5").unwrap();
    assert_eq!(id.slave_address, 5);
    assert_eq!(id.interface, "/dev/i2c-3:0x5");
    let id = i2c::parse_identifier(":255").unwrap();
    assert_eq!(id.device_path, "");
    assert_eq!(id.interface, ":0xFF");
    match i2c::parse_identifier("/dev/i2c-1:256") {
        Err(CommunicationError::ParseError(text)) => {
            assert_eq!(text, "number '256' is invalid or too large!")
        }
        other => panic!("unexpected: {:?}", other.map(|id| id.interface)),
    }
    match i2c::parse_identifier("/dev/i2c-1:") {
        Err(CommunicationError::ParseError(text)) => {
            assert_eq!(text, "number '' is invalid or too large!")
        }
        other => panic!("unexpected: {:?}", other.map(|id| id.interface)),
    }
    assert!(matches!(
        i2c::parse_identifier("/dev/i2c-1:0x10:1"),
        Err(CommunicationError::InvalidData)
    ));
    // the address is read before the parts are counted
    assert!(matches!(
        i2c::parse_identifier("/dev/i2c-1:zz:1"),
        Err(CommunicationError::ParseError(_))
    ));
    assert_eq!(i2c::to_hex_text(0), "0x0");
    assert_eq!(i2c::to_hex_text(0x0f), "0xF");
    assert_eq!(i2c::to_hex_text(0x10), "0x10");
    assert_eq!(i2c::to_hex_text(0xab), "0xAB");
}

fn handshake(stream: &[u8]) -> (Result<PingResponse, CommunicationError>, Vec<u8>, usize) {
    let mut reader = PingReader::new();
    let mut at = 0;
    let mut written = Vec::new();
    loop {
        match reader.next() {
            StreamAction::Write(bytes) => {
                written.extend(bytes);
                reader = reader.on_sent();
            }
            StreamAction::Read(n) => {
                let bytes = stream[at..at + n].to_vec();
                at += n;
                reader = reader.on_bytes(bytes);
            }
            StreamAction::Finished => break,
        }
    }
    (reader.finish(), written, at)
}

#[test]
fn handshake_sends_the_ping_and_reads_the_response() {
    let response = [0x5a, 0xa7, 0x00, 0x03, 0x01, 0x50, 0x00, 0x00, 0xfb, 0x40];
    let (result, written, consumed) = handshake(&response);
    assert_eq!(result.unwrap(), PingResponse { version: 0x00030150, options: 0 });
    assert_eq!(written, [0x5a, 0xa6]);
    assert_eq!(consumed, 10);
}

#[test]
fn handshake_passes_over_dummy_bytes() {
    let response = [0x5a, 0xa7, 0x00, 0x03, 0x01, 0x50, 0x00, 0x00, 0xfb, 0x40];
    let mut stream = vec![0u8; 49];
    stream.extend(response);
    let (result, _, consumed) = handshake(&stream);
    assert_eq!(result.unwrap().version, 0x00030150);
    assert_eq!(consumed, 59);
    let mut stream = vec![0xffu8; 50];
    stream.extend(response);
    let (result, _, consumed) = handshake(&stream);
    assert!(matches!(result, Err(CommunicationError::InvalidHeader)));
    assert_eq!(consumed, 50);
}

#[test]
fn handshake_refuses_what_is_no_ping_response() {
    let (result, _, consumed) = handshake(&[0x5a, 0xa4, 0, 0, 0, 0, 0, 0, 0, 0]);
    assert!(matches!(result, Err(CommunicationError::InvalidHeader)));
    assert_eq!(consumed, 2);
    let (result, _, consumed) = handshake(&[0x5a, 0xa7, 0x00, 0x03, 0x01, 0x51, 0x00, 0x00, 0xfb, 0x40]);
    assert!(matches!(result, Err(CommunicationError::InvalidCrc)));
    assert_eq!(consumed, 10);
    let reader = PingReader::new().on_sent().on_bytes(vec![0x5a, 0xa7]);
    assert!(matches!(reader.finish(), Err(CommunicationError::InvalidHeader)));
    let reader = PingReader::new().on_sent().on_bytes(vec![0x5a]).on_bytes(vec![0xa7]).on_bytes(vec![0; 7]);
    assert!(matches!(reader.finish(), Err(CommunicationError::InvalidHeader)));
}

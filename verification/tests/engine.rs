use mboot::mboot::engine::{Action, Engine, Plan};
use mboot::mboot::reader::ResponseReader;
use mboot::{KeyProvisioningResponse, McuBoot};
use mboot::packets::command::CommandPacket;
use mboot::packets::data_phase::DataPhasePacket;
use mboot::packets::ping::PingResponse;
use mboot::packets::{construct_header, parse_frame, CMD, DATA};
use mboot::protocols::{Protocol, ProtocolOpen, Recorded, ResultComm};
use mboot::tags::command::{CommandTag, KeyProvOperation, KeyProvUserKeyType, TrustProvOperation};
use mboot::tags::command_response::CmdResponseTag;
use mboot::tags::property::{PropertyTag, PropertyTagDiscriminants};
use mboot::tags::status::StatusCode;
use mboot::CommunicationError;
use std::collections::VecDeque;
use std::time::Duration;

/// A device that answers from a script and keeps what it was sent.
struct Script {
    acks: VecDeque<ResultComm<()>>,
    replies: VecDeque<ResultComm<Vec<u8>>>,
    written: Vec<Vec<u8>>,
    asked: Vec<u8>,
}

impl Script {
    fn new(replies: Vec<ResultComm<Vec<u8>>>) -> Script {
        Script {
            acks: VecDeque::new(),
            replies: replies.into(),
            written: Vec::new(),
            asked: Vec::new(),
        }
    }

    fn with_acks(mut self, acks: Vec<ResultComm<()>>) -> Script {
        self.acks = acks.into();
        self
    }
}

impl Protocol for Script {
    fn get_timeout(&self) -> Duration {
        Duration::from_millis(5000)
    }

    fn get_polling_interval(&self) -> Duration {
        Duration::from_millis(1)
    }

    fn get_identifier(&self) -> &str {
        "script"
    }

    fn read(&mut self, _bytes: usize) -> ResultComm<Vec<u8>> {
        Err(CommunicationError::Timeout)
    }

    fn write_packet_raw(&mut self, data: &[u8]) -> ResultComm<()> {
        self.written.push(data.to_vec());
        self.acks.pop_front().unwrap_or(Ok(()))
    }

    fn read_packet_raw(&mut self, packet_code: u8) -> ResultComm<Vec<u8>> {
        self.asked.push(packet_code);
        self.replies.pop_front().unwrap_or(Err(CommunicationError::Timeout))
    }
}

fn response(tag: u8, flag: u8, status: u32, words: &[u32]) -> Vec<u8> {
    let mut payload = vec![tag, flag, 0, 1 + words.len() as u8];
    payload.extend(status.to_le_bytes());
    for word in words {
        payload.extend(word.to_le_bytes());
    }
    payload
}

fn generic(status: u32, command: u32) -> ResultComm<Vec<u8>> {
    Ok(response(0xA0, 0, status, &[command]))
}

fn property(words: &[u32]) -> ResultComm<Vec<u8>> {
    Ok(response(0xA7, 0, 0, words))
}

fn payloads(written: &[Vec<u8>]) -> Vec<(u8, Vec<u8>)> {
    written
        .iter()
        .map(|frame| {
            let code = frame[1];
            match parse_frame(frame, code) {
                Ok(payload) => (code, payload),
                Err(CommunicationError::Aborted) => (code, Vec::new()),
                Err(e) => panic!("the engine sent a broken frame: {e:?}"),
            }
        })
        .collect()
}

fn done<T: Protocol>(boot: McuBoot<T>) -> Recorded<T> {
    boot.device
}

#[test]
fn get_property_sends_one_frame_and_decodes_the_reply() {
    let mut boot = McuBoot::new(Script::new(vec![property(&[0x4b030101])]));
    let reply = boot.get_property(PropertyTagDiscriminants::CurrentVersion, 0).unwrap();
    assert_eq!(reply.status, StatusCode::Success);
    assert_eq!(reply.response_words, [0x4b030101]);
    let PropertyTag::CurrentVersion(version) = reply.property else { panic!() };
    assert_eq!((version.mark, version.major, version.minor, version.fixation), ('K', 3, 1, 1));
    let link = done(boot);
    assert_eq!(
        link.device().written,
        [[0x5a, 0xa4, 0x0c, 0x00, 0x4b, 0x33, 0x07, 0x00, 0x00, 0x02, 0x01, 0x00, 0x00, 0x00, 0x00, 0x00, 0x00, 0x00]]
    );
    assert_eq!(link.device().asked, [CMD]);
}

#[test]
fn flash_program_once_sends_its_frame() {
    let mut boot = McuBoot::new(Script::new(vec![generic(0, 0x0E)]));
    let status = boot.flash_program_once(0x51, 4, 0x12345678, false).unwrap();
    assert_eq!(status, StatusCode::Success);
    assert_eq!(
        done(boot).device().written,
        [[0x5a, 0xa4, 0x10, 0x00, 0x1b, 0x60, 0x0e, 0x00, 0x00, 0x03, 0x51, 0x00, 0x00, 0x00, 0x04, 0x00, 0x00, 0x00, 0x78, 0x56, 0x34, 0x12]]
    );
}

#[test]
fn get_property_refuses_what_it_cannot_decode() {
    let mut boot = McuBoot::new(Script::new(vec![property(&[])]));
    assert!(matches!(
        boot.get_property(PropertyTagDiscriminants::FlashSize, 0),
        Err(CommunicationError::InvalidData)
    ));
    let mut boot = McuBoot::new(Script::new(vec![property(&[5])]));
    assert!(matches!(
        boot.get_property(PropertyTagDiscriminants::LastError, 0),
        Err(CommunicationError::InvalidData)
    ));
    let mut boot = McuBoot::new(Script::new(vec![generic(0, 7)]));
    assert!(matches!(
        boot.get_property(PropertyTagDiscriminants::FlashSize, 0),
        Err(CommunicationError::InvalidPacketReceived)
    ));
    let mut boot = McuBoot::new(Script::new(vec![property(&[7])]));
    assert!(matches!(
        boot.get_property(PropertyTagDiscriminants::CRCCheckStatus, 0),
        Err(CommunicationError::UnexpectedStatus(StatusCode::UnknownStatusCode, 7))
    ));
    let mut boot = McuBoot::new(Script::new(vec![generic(0xdeadbeef, 7)]));
    assert!(matches!(
        boot.get_property(PropertyTagDiscriminants::FlashSize, 0),
        Err(CommunicationError::UnexpectedStatus(StatusCode::UnknownStatusCode, 0xdeadbeef))
    ));
}

#[test]
fn a_status_other_than_success_is_an_error() {
    let mut boot = McuBoot::new(Script::new(vec![generic(10000, 0x0B)]));
    match boot.reset() {
        Err(CommunicationError::UnexpectedStatus(status, raw)) => {
            assert_eq!(status, StatusCode::UnknownCommand);
            assert_eq!(raw, 10000);
        }
        other => panic!("unexpected: {other:?}"),
    }
    let mut boot = McuBoot::new(Script::new(vec![generic(0x12345678, 0x0B)]));
    match boot.reset() {
        Err(CommunicationError::UnexpectedStatus(status, raw)) => {
            assert_eq!(status, StatusCode::UnknownStatusCode);
            assert_eq!(raw, 0x12345678);
        }
        other => panic!("unexpected: {other:?}"),
    }
}

#[test]
fn commands_without_bytes() {
    let mut boot = McuBoot::new(Script::new(vec![
        generic(0, 0x0C),
        generic(0, 0x0B),
        generic(0, 0x0A),
        generic(0, 0x09),
        generic(0, 0x05),
        generic(0, 0x01),
        generic(0, 0x02),
        generic(0, 0x0D),
        generic(0, 0x11),
    ]));
    assert_eq!(boot.set_property(PropertyTagDiscriminants::VerifyWrites, 1).unwrap(), StatusCode::Success);
    assert_eq!(boot.reset().unwrap(), StatusCode::Success);
    assert_eq!(boot.call(0x1000, 2).unwrap(), StatusCode::Success);
    assert_eq!(boot.execute(0x1000, 2, 0x2000).unwrap(), StatusCode::Success);
    assert_eq!(boot.fill_memory(0x100, 8, 0xA5A5A5A5).unwrap(), StatusCode::Success);
    assert_eq!(boot.flash_erase_all(0).unwrap(), StatusCode::Success);
    assert_eq!(boot.flash_erase_region(0x100, 0x200, 0).unwrap(), StatusCode::Success);
    assert_eq!(boot.flash_erase_all_unsecure().unwrap(), StatusCode::Success);
    assert_eq!(boot.configure_memory(9, 0x2000).unwrap(), StatusCode::Success);
    let link = done(boot);
    let sent = payloads(&link.device().written);
    assert_eq!(sent.len(), 9);
    assert_eq!(sent[0], (CMD, vec![0x0C, 0, 0, 2, 0x0A, 0, 0, 0, 1, 0, 0, 0]));
    assert_eq!(sent[1], (CMD, vec![0x0B, 0, 0, 0]));
    assert_eq!(sent[2], (CMD, vec![0x0A, 0, 0, 2, 0, 0x10, 0, 0, 2, 0, 0, 0]));
    assert_eq!(sent[3].1[..4], [0x09, 0, 0, 3]);
    assert_eq!(sent[4].1[..4], [0x05, 0, 0, 3]);
    assert_eq!(sent[5], (CMD, vec![0x01, 0, 0, 1, 0, 0, 0, 0]));
    assert_eq!(sent[6].1[..4], [0x02, 0, 0, 3]);
    assert_eq!(sent[7], (CMD, vec![0x0D, 0, 0, 0]));
    assert_eq!(sent[8], (CMD, vec![0x11, 0, 0, 2, 9, 0, 0, 0, 0, 0x20, 0, 0]));
    assert_eq!(link.device().asked, [CMD; 9]);
}

#[test]
fn read_memory_collects_the_data_phase() {
    let mut boot = McuBoot::new(Script::new(vec![
        Ok(response(0xA3, 1, 0, &[3])),
        Ok(vec![0x12, 0x34, 0x56]),
        generic(0, 0x03),
    ]));
    let reply = boot.read_memory(0, 3, 0).unwrap();
    assert_eq!(reply.status, StatusCode::Success);
    assert_eq!(reply.bytes, [0x12, 0x34, 0x56]);
    assert_eq!(reply.response_words, [3]);
    let link = done(boot);
    assert_eq!(payloads(&link.device().written), [(CMD, vec![0x03, 0, 0, 3, 0, 0, 0, 0, 3, 0, 0, 0, 0, 0, 0, 0])]);
    assert_eq!(link.device().asked, [CMD, DATA, CMD]);
}

#[test]
fn read_memory_joins_the_packets_until_the_declared_length() {
    let mut boot = McuBoot::new(Script::new(vec![
        Ok(response(0xA3, 1, 0, &[7])),
        Ok(vec![1, 2, 3]),
        Ok(vec![4, 5, 6]),
        Ok(vec![7]),
        generic(0, 0x03),
        Ok(vec![8, 9]),
    ]));
    let reply = boot.read_memory(0x100, 7, 0).unwrap();
    assert_eq!(reply.bytes, [1, 2, 3, 4, 5, 6, 7]);
    assert_eq!(reply.response_words, [7]);
    let link = done(boot);
    assert_eq!(link.device().asked, [CMD, DATA, DATA, DATA, CMD]);
    assert_eq!(link.device().replies.len(), 1);
}

#[test]
fn read_memory_keeps_what_arrived_before_an_abort() {
    let mut boot = McuBoot::new(Script::new(vec![
        Ok(response(0xA3, 1, 0, &[8])),
        Ok(vec![1, 2, 3]),
        Err(CommunicationError::Aborted),
        generic(0, 0x03),
    ]));
    let reply = boot.read_memory(0, 8, 0).unwrap();
    assert_eq!(reply.bytes, [1, 2, 3]);
    assert_eq!(reply.response_words, [3]);
    assert_eq!(done(boot).device().asked, [CMD, DATA, DATA, CMD]);

    let mut boot = McuBoot::new(Script::new(vec![
        Ok(response(0xA3, 1, 0, &[8])),
        Ok(vec![1, 2, 3]),
        Ok(vec![]),
        generic(10002, 0x03),
    ]));
    assert!(matches!(
        boot.read_memory(0, 8, 0),
        Err(CommunicationError::UnexpectedStatus(StatusCode::AbortDataPhase, 10002))
    ));
}

#[test]
fn read_memory_hands_on_an_error_of_the_data_phase() {
    let mut boot = McuBoot::new(Script::new(vec![
        Ok(response(0xA3, 1, 0, &[8])),
        Ok(vec![1, 2, 3]),
        Err(CommunicationError::InvalidCrc),
        generic(0, 0x03),
    ]));
    assert!(matches!(boot.read_memory(0, 8, 0), Err(CommunicationError::InvalidCrc)));
    assert_eq!(done(boot).device().asked, [CMD, DATA, DATA]);
}

#[test]
fn read_memory_accepts_a_blank_page() {
    let mut boot = McuBoot::new(Script::new(vec![
        Ok(response(0xA3, 1, 0, &[2])),
        Ok(vec![0xff, 0xff]),
        generic(10211, 0x03),
    ]));
    let reply = boot.read_memory(0, 2, 0).unwrap();
    assert_eq!(reply.status, StatusCode::MemoryBlankPageReadDisallowed);
    assert_eq!(reply.bytes, [0xff, 0xff]);

    let mut boot = McuBoot::new(Script::new(vec![
        Ok(response(0xA3, 1, 0, &[2])),
        Ok(vec![0xff, 0xff]),
        generic(10211, 0x17),
    ]));
    assert!(matches!(
        boot.fuse_read(0, 2, 0),
        Err(CommunicationError::UnexpectedStatus(StatusCode::MemoryBlankPageReadDisallowed, 10211))
    ));
}

#[test]
fn read_memory_without_a_data_phase_brings_no_bytes() {
    let mut boot = McuBoot::new(Script::new(vec![Ok(response(0xA3, 0, 0, &[0]))]));
    let reply = boot.read_memory(0, 0, 0).unwrap();
    assert!(reply.bytes.is_empty());
    assert_eq!(reply.response_words, [0]);
    let mut boot = McuBoot::new(Script::new(vec![generic(0, 3)]));
    assert!(matches!(boot.read_memory(0, 3, 0), Err(CommunicationError::InvalidPacketReceived)));
}

#[test]
fn fuse_read_collects_the_data_phase() {
    let mut boot = McuBoot::new(Script::new(vec![
        Ok(response(0xA3, 1, 0, &[4])),
        Ok(vec![9, 8, 7, 6]),
        generic(0, 0x17),
    ]));
    let reply = boot.fuse_read(0x10, 4, 1).unwrap();
    assert_eq!(reply.bytes, [9, 8, 7, 6]);
    assert_eq!(payloads(&done(boot).device().written)[0].1[..4], [0x17, 0, 0, 3]);
}

#[test]
fn write_memory_streams_packets_of_the_size_the_device_names() {
    let bytes: Vec<u8> = (0..10).collect();
    let mut boot = McuBoot::new(Script::new(vec![property(&[4]), generic(0, 0x04), generic(0, 0x04)]));
    assert_eq!(boot.write_memory(0x2000, 0, &bytes).unwrap(), StatusCode::Success);
    let link = done(boot);
    let sent = payloads(&link.device().written);
    assert_eq!(
        sent,
        [
            (CMD, vec![0x07, 0, 0, 2, 0x0B, 0, 0, 0, 0, 0, 0, 0]),
            (CMD, vec![0x04, 1, 0, 3, 0, 0x20, 0, 0, 10, 0, 0, 0, 0, 0, 0, 0]),
            (DATA, vec![0, 1, 2, 3]),
            (DATA, vec![4, 5, 6, 7]),
            (DATA, vec![8, 9]),
        ]
    );
    assert_eq!(link.device().asked, [CMD, CMD, CMD]);
}

#[test]
fn data_packets_rebuild_the_input() {
    for (len, size) in [(0usize, 8u32), (1, 8), (8, 8), (9, 8), (16, 8), (1000, 32), (1000, 1024), (5, 1)] {
        let bytes: Vec<u8> = (0..len).map(|i| (i * 7 % 256) as u8).collect();
        let mut boot =
            McuBoot::new(Script::new(vec![property(&[size]), generic(0, 0x04), generic(0, 0x04)]));
        assert_eq!(boot.write_memory(0, 0, &bytes).unwrap(), StatusCode::Success);
        let link = done(boot);
        let sent = payloads(&link.device().written);
        let data: Vec<&(u8, Vec<u8>)> = sent.iter().filter(|(code, _)| *code == DATA).collect();
        assert_eq!(data.len(), len.div_ceil(size as usize));
        let joined: Vec<u8> = data.iter().flat_map(|(_, payload)| payload.clone()).collect();
        assert_eq!(joined, bytes);
        for (i, (_, payload)) in data.iter().enumerate() {
            if i + 1 < data.len() {
                assert_eq!(payload.len(), size as usize);
            } else {
                assert!(!payload.is_empty() && payload.len() <= size as usize);
            }
        }
    }
}

#[test]
fn write_memory_stops_at_a_refused_command() {
    let bytes = [1u8, 2, 3];
    // the query is refused
    let script = Script::new(vec![]).with_acks(vec![Err(CommunicationError::NACKSent)]);
    let mut boot = McuBoot::new(script);
    assert!(matches!(boot.write_memory(0, 0, &bytes), Err(CommunicationError::NACKSent)));
    let link = done(boot);
    assert_eq!(link.device().written.len(), 1);
    assert!(link.device().written.iter().all(|frame| frame[1] == CMD));
    assert!(link.device().asked.is_empty());
    // the command is refused
    let script =
        Script::new(vec![property(&[32])]).with_acks(vec![Ok(()), Err(CommunicationError::NACKSent)]);
    let mut boot = McuBoot::new(script);
    assert!(matches!(boot.write_memory(0, 0, &bytes), Err(CommunicationError::NACKSent)));
    let link = done(boot);
    assert_eq!(link.device().written.len(), 2);
    assert!(link.device().written.iter().all(|frame| frame[1] == CMD));
    assert_eq!(link.device().asked, [CMD]);
}

#[test]
fn write_memory_stops_at_a_failed_intermediate_response() {
    let bytes = [1u8, 2, 3];
    let mut boot = McuBoot::new(Script::new(vec![property(&[32]), generic(10200, 0x04)]));
    assert!(matches!(
        boot.write_memory(0, 0, &bytes),
        Err(CommunicationError::UnexpectedStatus(StatusCode::MemoryRangeInvalid, 10200))
    ));
    assert_eq!(done(boot).device().written.len(), 2);
}

#[test]
fn write_memory_needs_a_usable_packet_size() {
    let bytes = [1u8, 2, 3];
    for reply in [property(&[0]), property(&[0x10000]), property(&[])] {
        let mut boot = McuBoot::new(Script::new(vec![reply]));
        assert!(matches!(boot.write_memory(0, 0, &bytes), Err(CommunicationError::InvalidData)));
        assert_eq!(done(boot).device().written.len(), 1);
    }
    let mut boot = McuBoot::new(Script::new(vec![generic(0, 7)]));
    assert!(matches!(
        boot.write_memory(0, 0, &bytes),
        Err(CommunicationError::InvalidPacketReceived)
    ));
}

#[test]
fn fuse_program_streams_its_bytes() {
    let bytes = [1u8, 2, 3, 4, 5];
    let mut boot = McuBoot::new(Script::new(vec![property(&[4]), generic(0, 0x14), generic(0, 0x14)]));
    assert_eq!(boot.fuse_program(0x10, 4, &bytes).unwrap(), StatusCode::Success);
    let sent = payloads(&done(boot).device().written);
    assert_eq!(sent[1], (CMD, vec![0x14, 1, 0, 3, 0x10, 0, 0, 0, 5, 0, 0, 0, 4, 0, 0, 0]));
    assert_eq!(sent[2..], [(DATA, vec![1, 2, 3, 4]), (DATA, vec![5])]);
}

#[test]
fn load_image_streams_without_a_command() {
    let bytes = [1u8, 2, 3, 4, 5];
    let mut boot = McuBoot::new(Script::new(vec![property(&[2])]));
    assert_eq!(boot.load_image(&bytes).unwrap(), StatusCode::Success);
    let link = done(boot);
    assert_eq!(
        payloads(&link.device().written),
        [
            (CMD, vec![0x07, 0, 0, 2, 0x0B, 0, 0, 0, 0, 0, 0, 0]),
            (DATA, vec![1, 2]),
            (DATA, vec![3, 4]),
            (DATA, vec![5]),
        ]
    );
    assert_eq!(link.device().asked, [CMD]);
}

#[test]
fn receive_sb_file_reads_the_status_after_an_abort() {
    let bytes = [0u8; 10];
    let script = Script::new(vec![property(&[4]), generic(0, 0x08), generic(10101, 0x08)])
        .with_acks(vec![Ok(()), Ok(()), Ok(()), Err(CommunicationError::Aborted)]);
    let mut boot = McuBoot::new(script);
    assert!(matches!(
        boot.receive_sb_file(&bytes),
        Err(CommunicationError::UnexpectedStatus(StatusCode::RomldrSignature, 10101))
    ));
    let link = done(boot);
    assert_eq!(link.device().written.len(), 4);
    assert_eq!(link.device().asked, [CMD, CMD, CMD]);

    let script = Script::new(vec![property(&[4]), generic(0, 0x08), generic(0, 0x08)])
        .with_acks(vec![Ok(()), Ok(()), Ok(()), Err(CommunicationError::Aborted)]);
    let mut boot = McuBoot::new(script);
    assert_eq!(boot.receive_sb_file(&bytes).unwrap(), StatusCode::Success);

    // any other command gives up at an abort
    let script = Script::new(vec![property(&[4]), generic(0, 0x04), generic(0, 0x04)])
        .with_acks(vec![Ok(()), Ok(()), Ok(()), Err(CommunicationError::Aborted)]);
    let mut boot = McuBoot::new(script);
    assert!(matches!(boot.write_memory(0, 0, &bytes), Err(CommunicationError::Aborted)));
    assert_eq!(done(boot).device().asked, [CMD, CMD]);
}

#[test]
fn flash_read_once_brings_the_word() {
    let mut boot = McuBoot::new(Script::new(vec![Ok(response(0xAF, 0, 0, &[0xCAFE]))]));
    assert_eq!(boot.flash_read_once(0x51, 4).unwrap(), 0xCAFE);
    assert_eq!(
        payloads(&done(boot).device().written),
        [(CMD, vec![0x0F, 0, 0, 2, 0x51, 0, 0, 0, 4, 0, 0, 0])]
    );
    let mut boot = McuBoot::new(Script::new(vec![generic(0, 0x0F)]));
    assert!(matches!(boot.flash_read_once(0x51, 4), Err(CommunicationError::InvalidPacketReceived)));
}

#[test]
fn flash_program_once_verifies_by_reading_back() {
    // every bit that was written is set
    let mut boot = McuBoot::new(Script::new(vec![
        generic(0, 0x0E),
        Ok(response(0xAF, 0, 0, &[0xFF00_00FF])),
    ]));
    assert_eq!(boot.flash_program_once(0x0100_0051, 4, 0x0F00_000F, true).unwrap(), StatusCode::Success);
    let link = done(boot);
    let sent = payloads(&link.device().written);
    assert_eq!(sent.len(), 2);
    assert_eq!(sent[0].1, [0x0E, 0, 0, 3, 0x51, 0, 0, 1, 4, 0, 0, 0, 0x0F, 0, 0, 0x0F]);
    // the read-back names the low 24 bits of the index
    assert_eq!(sent[1].1, [0x0F, 0, 0, 2, 0x51, 0, 0, 0, 4, 0, 0, 0]);

    // a bit is missing
    let mut boot = McuBoot::new(Script::new(vec![
        generic(0, 0x0E),
        Ok(response(0xAF, 0, 0, &[0x1234_5670])),
    ]));
    assert_eq!(
        boot.flash_program_once(0x51, 4, 0x1234_5678, true).unwrap(),
        StatusCode::OtpVerifyFail
    );

    // the read-back fails
    let mut boot = McuBoot::new(Script::new(vec![generic(0, 0x0E), generic(10001, 0x0F)]));
    assert!(matches!(
        boot.flash_program_once(0x51, 4, 1, true),
        Err(CommunicationError::UnexpectedStatus(StatusCode::SecurityViolation, 10001))
    ));

    // the write fails: nothing is read back
    let mut boot = McuBoot::new(Script::new(vec![generic(10001, 0x0E)]));
    assert!(boot.flash_program_once(0x51, 4, 1, true).is_err());
    assert_eq!(done(boot).device().written.len(), 1);

    // without verification nothing is read back
    let mut boot = McuBoot::new(Script::new(vec![generic(0, 0x0E)]));
    assert_eq!(boot.flash_program_once(0x51, 4, 1, false).unwrap(), StatusCode::Success);
    assert_eq!(done(boot).device().written.len(), 1);
}

#[test]
fn trust_provisioning_brings_status_and_words() {
    let operation = TrustProvOperation::OemSetMasterShare {
        oem_share_input_addr: 1,
        oem_share_input_size: 2,
        oem_enc_master_share_input_addr: 3,
        oem_enc_master_share_input_size: 4,
    };
    let mut boot = McuBoot::new(Script::new(vec![Ok(response(0xB6, 0, 0, &[16, 32, 64]))]));
    let (status, words) = boot.trust_provisioning(&operation).unwrap();
    assert_eq!(status, StatusCode::Success);
    assert_eq!(words, [16, 32, 64]);
    assert_eq!(payloads(&done(boot).device().written)[0].1[..8], [0x16, 0, 0, 5, 1, 0, 0, 0]);
    let mut boot = McuBoot::new(Script::new(vec![generic(0, 0x16)]));
    assert!(matches!(
        boot.trust_provisioning(&operation),
        Err(CommunicationError::InvalidPacketReceived)
    ));
}

#[test]
fn key_provisioning_reads_the_key_store() {
    let operation = KeyProvOperation::ReadKeyStore { file: String::from("store.bin"), use_hexdump: false };
    let mut boot = McuBoot::new(Script::new(vec![
        Ok(response(0xB5, 1, 0, &[4])),
        Ok(vec![1, 2, 3, 4]),
        generic(0, 0x15),
    ]));
    match boot.key_provisioning(&operation).unwrap() {
        KeyProvisioningResponse::KeyStore { status, response_words, bytes } => {
            assert_eq!(status, StatusCode::Success);
            assert_eq!(response_words, [4]);
            assert_eq!(bytes, [1, 2, 3, 4]);
        }
        other => panic!("unexpected: {other:?}"),
    }
    assert!(!boot.mask_read_data_phase);
    assert_eq!(payloads(&done(boot).device().written), [(CMD, vec![0x15, 0, 0, 1, 6, 0, 0, 0])]);
}

#[test]
fn key_provisioning_masks_the_flag_of_the_intermediate_response() {
    let key = vec![0xAB; 6];
    let operation = KeyProvOperation::SetUserKey { key_type: KeyProvUserKeyType::SbKek, key_data: key.clone() };
    // the intermediate response wrongly announces a data phase
    let mut boot = McuBoot::new(Script::new(vec![
        property(&[4]),
        Ok(response(0xB5, 1, 0, &[6])),
        generic(0, 0x15),
    ]));
    match boot.key_provisioning(&operation).unwrap() {
        KeyProvisioningResponse::Status(status) => assert_eq!(status, StatusCode::Success),
        other => panic!("unexpected: {other:?}"),
    }
    assert!(!boot.mask_read_data_phase);
    let link = done(boot);
    assert_eq!(
        payloads(&link.device().written),
        [
            (CMD, vec![0x07, 0, 0, 2, 0x0B, 0, 0, 0, 0, 0, 0, 0]),
            (CMD, vec![0x15, 1, 0, 3, 1, 0, 0, 0, 3, 0, 0, 0, 6, 0, 0, 0]),
            (DATA, vec![0xAB; 4]),
            (DATA, vec![0xAB; 2]),
        ]
    );
    assert_eq!(link.device().asked, [CMD, CMD, CMD]);
}

#[test]
fn key_provisioning_without_bytes_brings_a_status() {
    let mut boot = McuBoot::new(Script::new(vec![generic(0, 0x15), generic(0, 0x15)]));
    boot.mask_read_data_phase = true;
    assert!(matches!(
        boot.key_provisioning(&KeyProvOperation::Enroll),
        Ok(KeyProvisioningResponse::Status(StatusCode::Success))
    ));
    assert!(!boot.mask_read_data_phase);
    assert!(matches!(
        boot.key_provisioning(&KeyProvOperation::SetKey {
            key_type: KeyProvUserKeyType::Uds,
            key_size: 32
        }),
        Ok(KeyProvisioningResponse::Status(StatusCode::Success))
    ));
    let sent = payloads(&done(boot).device().written);
    assert_eq!(sent[0], (CMD, vec![0x15, 0, 0, 1, 0, 0, 0, 0]));
    assert_eq!(sent[1], (CMD, vec![0x15, 0, 0, 3, 2, 0, 0, 0, 12, 0, 0, 0, 32, 0, 0, 0]));
}

#[test]
fn session_flag_masks_the_data_phase() {
    let mut boot = McuBoot::new(Script::new(vec![Ok(response(0xA3, 1, 0, &[3])), Ok(vec![1, 2, 3])]));
    boot.mask_read_data_phase = true;
    let reply = boot.read_memory(0, 3, 0).unwrap();
    assert!(reply.bytes.is_empty());
    assert!(boot.mask_read_data_phase);
    assert_eq!(done(boot).device().asked, [CMD]);
}

#[test]
fn link_errors_are_handed_on() {
    let mut boot = McuBoot::new(Script::new(vec![]));
    assert!(matches!(boot.reset(), Err(CommunicationError::Timeout)));
    let mut boot = McuBoot::new(Script::new(vec![Err(CommunicationError::InvalidCrc)]));
    assert!(matches!(boot.reset(), Err(CommunicationError::InvalidCrc)));
    let mut boot = McuBoot::new(Script::new(vec![Err(CommunicationError::Aborted)]));
    assert!(matches!(boot.reset(), Err(CommunicationError::Aborted)));
    let script = Script::new(vec![]).with_acks(vec![Err(CommunicationError::IOError(String::from("gone")))]);
    let mut boot = McuBoot::new(script);
    assert!(matches!(boot.get_property(PropertyTagDiscriminants::FlashSize, 0), Err(CommunicationError::IOError(_))));
}

#[test]
fn reader_by_hand() {
    let reader = ResponseReader::start();
    assert_eq!(reader.wanted(), CMD);
    let reader = reader.on_packet(false, Ok(response(0xA3, 1, 0, &[5])));
    assert!(!reader.is_done());
    assert_eq!(reader.wanted(), DATA);
    let reader = reader.on_packet(false, Ok(vec![1, 2]));
    assert_eq!(reader.wanted(), DATA);
    let reader = reader.on_packet(false, Ok(vec![3, 4, 5]));
    assert_eq!(reader.wanted(), CMD);
    let reader = reader.on_packet(false, Ok(response(0xA0, 0, 0, &[3])));
    assert!(reader.is_done());
    let reply = reader.finish().unwrap();
    assert!(reply.header.flag.is_no_data());
    assert_eq!(reply.status, StatusCode::Success);
    assert!(matches!(reply.tag, CmdResponseTag::ReadMemory(bytes) if bytes == [1, 2, 3, 4, 5]));
}

#[test]
fn reader_refuses_a_data_phase_without_a_length() {
    let reader = ResponseReader::start().on_packet(false, Ok(response(0xA3, 1, 0, &[])));
    assert!(matches!(reader.finish(), Err(CommunicationError::InvalidData)));
    let reader = ResponseReader::start().on_packet(false, Ok(response(0xA1, 0, 0, &[])));
    assert!(matches!(reader.finish(), Err(CommunicationError::InvalidData)));
}

#[test]
fn engine_by_hand() {
    let packet = CommandPacket::new_none_flag(CommandTag::Reset);
    let plan = Plan {
        command: packet.frame(),
        data: None,
        announce: true,
        mask_send: false,
        mask_final: false,
        tolerate_abort: false,
        read_final: true,
        blank_page_ok: false,
        verify: None,
    };
    let engine = Engine::new(plan);
    let Action::Write(frame) = engine.next() else { panic!() };
    assert_eq!(frame, construct_header(CMD, vec![0x0B, 0, 0, 0]));
    let engine = engine.written(Ok(()));
    assert!(matches!(engine.next(), Action::Read(0xA4)));
    let engine = engine.received(Ok(response(0xA0, 0, 0, &[0x0B])));
    assert!(engine.is_finished());
    assert!(matches!(engine.next(), Action::Nothing));
    let reply = engine.finish().unwrap().unwrap();
    assert_eq!(reply.status, StatusCode::Success);
}

#[test]
fn recorded_link_frames_and_parses_packets() {
    let mut link = Recorded::new(Script::new(vec![
        Ok(vec![0, 0, 0x4b, 3, 1, 1, 0x34, 0x12]),
        Ok(vec![7, 8, 9]),
        Err(CommunicationError::Timeout),
    ]));
    link.write_packet_concrete(DataPhasePacket { data: vec![0x12, 0x34, 0x56] }).unwrap();
    assert_eq!(link.device().written, [[0x5a, 0xa5, 0x03, 0x00, 0x43, 0x8b, 0x12, 0x34, 0x56]]);
    let ping: PingResponse = link.read_packet_concrete().unwrap();
    assert_eq!(ping, PingResponse { version: 0x4b030101, options: 0x1234 });
    let data: DataPhasePacket = link.read_packet_concrete().unwrap();
    assert_eq!(data.data, [7, 8, 9]);
    assert!(matches!(
        link.read_packet_concrete::<DataPhasePacket>(),
        Err(CommunicationError::Timeout)
    ));
    assert_eq!(link.device().asked, [0xA7, 0xA5, 0xA5]);
}

#[test]
fn link_frames_and_parses_packets_by_itself() {
    let mut link = Script::new(vec![Ok(vec![7, 8, 9])]);
    link.write_packet_concrete(DataPhasePacket { data: vec![1] }).unwrap();
    assert_eq!(link.written, [construct_header(DATA, vec![1])]);
    let data: DataPhasePacket = link.read_packet_concrete().unwrap();
    assert_eq!(data.data, [7, 8, 9]);
}

impl ProtocolOpen for Script {
    fn open(identifier: &str) -> ResultComm<Self> {
        if identifier == "script" {
            Ok(Script::new(vec![Ok(vec![1, 2, 3])]))
        } else {
            Err(CommunicationError::ParseError(identifier.to_owned()))
        }
    }
}

#[test]
fn a_link_without_options_opens_with_its_defaults() {
    let mut link =
        Script::open_with_options("script", 115200, Duration::from_secs(1), Duration::from_millis(5))
            .unwrap();
    assert_eq!(link.read_packet_raw(0xA5).unwrap(), [1, 2, 3]);
    match Script::open_with_options("other", 0, Duration::from_secs(1), Duration::from_millis(5)) {
        Err(CommunicationError::ParseError(text)) => assert_eq!(text, "other"),
        _ => panic!("a link was opened that has no name"),
    }
}

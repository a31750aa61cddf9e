use mboot::memory::{ext_mem_prop_tags, mem_id, ExternalMemoryAttributes, ReservedRegions};
use mboot::mboot::formatters::OnOffBool;
use mboot::tags::command::{
    CommandTag, CommandTagDiscriminants, CommandToParams, KeyProvOperation, KeyProvUserKeyType,
    TrustProvOperation,
};
use mboot::tags::command_flag::CommandFlag;
use mboot::tags::command_response::CmdResponseTag;
use mboot::mboot::formatters::{decimal, hex};
use mboot::tags::property::{
    DeviceId, FlashReadMargin, FlashSecurityState, FuseProgramVoltage, IrqNotifierPin,
    LifeCycleState, PeripheryTag, PfrKeystoreUpdateOpt, PropertyTag, PropertyTagDiscriminants,
    SHEBootMode, SHEFlashPartition, Version,
};
use mboot::tags::status::StatusCode;
use mboot::tags::ToAddress;
use mboot::CommunicationError;

#[test]
fn documented_status_codes_are_known() {
    for (n, status) in [
        (0u32, StatusCode::Success),
        (1, StatusCode::Fail),
        (6, StatusCode::NoTransferInProgress),
        (100, StatusCode::FlashSizeError),
        (152, StatusCode::FlashCommandOperationInProgress),
        (202, StatusCode::I2cArbitrationLost),
        (301, StatusCode::SpiSlaveRxOverrun),
        (408, StatusCode::QspiWriteFailure),
        (503, StatusCode::OtfadInvalidKeyBlob),
        (1812, StatusCode::SendingOperationConditionError),
        (7002, StatusCode::FlexspiDeviceTimeout),
        (10000, StatusCode::UnknownCommand),
        (10004, StatusCode::NoResponse),
        (10211, StatusCode::MemoryBlankPageReadDisallowed),
        (10609, StatusCode::ReliableUpdateSwaptest),
        (20011, StatusCode::FlexspinandNotFound),
        (21222, StatusCode::SemcnandDisorderedImageCopies),
        (22007, StatusCode::SpifinorSfdpNotFound),
        (30007, StatusCode::EdgelockInvalidLifecycle),
        (52009, StatusCode::OtpVerifyFail),
        (52808, StatusCode::OtpCrcCheckPass),
        (80107, StatusCode::TpShaCheckCriticalError),
        (100007, StatusCode::IapMemoryAccessDisabled),
        (1515890085, StatusCode::SecuritySubsystemError),
        (0x5a5a5a5a, StatusCode::El2goProvSuccess),
    ] {
        assert_eq!(StatusCode::try_from(n), Ok(status));
        assert_eq!(u32::from(status), n);
        assert_eq!(status.code(), n);
    }
}

#[test]
fn undocumented_status_codes_come_back_as_they_are() {
    for n in [7u32, 99, 110, 115, 153, 9999, 10005 + 2, 52010, 0x12345678, 0xdeadbeef, u32::MAX] {
        assert_eq!(StatusCode::try_from(n), Err(n));
    }
}

#[test]
fn every_status_code_round_trips() {
    let mut known = 0;
    for n in 0..200_000u32 {
        if let Ok(status) = StatusCode::try_from(n) {
            assert_eq!(status.code(), n);
            known += 1;
        }
    }
    assert_eq!(known, 263);
}

#[test]
fn the_stand_in_for_unknown_codes_is_no_documented_status() {
    assert_eq!(StatusCode::UnknownStatusCode.code(), 0xdeadbeef);
    assert_eq!(u32::from(StatusCode::UnknownStatusCode), 0xdeadbeef);
    assert_eq!(StatusCode::try_from(0xdeadbeef), Err(0xdeadbeef));
}

#[test]
fn status_helpers() {
    assert!(StatusCode::Success.is_success());
    assert!(!StatusCode::Fail.is_success());
    assert!(StatusCode::MemoryBlankPageReadDisallowed.is_memory_blank_page_read_disallowed());
    assert!(!StatusCode::Success.is_memory_blank_page_read_disallowed());
}

#[test]
fn command_flag_codes() {
    assert_eq!(CommandFlag::NoData.code(), 0);
    assert_eq!(CommandFlag::HasDataPhase.code(), 1);
    assert_eq!(CommandFlag::try_from(0), Ok(CommandFlag::NoData));
    assert_eq!(CommandFlag::try_from(1), Ok(CommandFlag::HasDataPhase));
    assert_eq!(CommandFlag::try_from(2), Err(2));
}

#[test]
fn property_codes_round_trip() {
    let mut known = 0;
    for code in 0..=255u8 {
        if let Ok(tag) = PropertyTagDiscriminants::try_from(code) {
            assert_eq!(u8::from(tag), code);
            assert_eq!(PropertyTagDiscriminants::from_name(tag.name()), Some(tag));
            known += 1;
        }
    }
    assert_eq!(known, 0x26);
    assert_eq!(PropertyTagDiscriminants::try_from(0x01), Ok(PropertyTagDiscriminants::CurrentVersion));
    assert_eq!(PropertyTagDiscriminants::try_from(0x0B), Ok(PropertyTagDiscriminants::MaxPacketSize));
    assert_eq!(PropertyTagDiscriminants::try_from(0x26), Ok(PropertyTagDiscriminants::LifeCycleState));
    assert_eq!(PropertyTagDiscriminants::try_from(0x00), Err(0));
    assert_eq!(PropertyTagDiscriminants::try_from(0x27), Err(0x27));
}

#[test]
fn property_names_are_kebab_case() {
    assert_eq!(PropertyTagDiscriminants::CurrentVersion.name(), "current-version");
    assert_eq!(PropertyTagDiscriminants::CRCCheckStatus.name(), "crc-check-status");
    assert_eq!(PropertyTagDiscriminants::RAMStartAddress.name(), "ram-start-address");
    assert_eq!(PropertyTagDiscriminants::QSPIInitStatus.name(), "qspi-init-status");
    assert_eq!(PropertyTagDiscriminants::PFRKeystoreUpdateOpt.name(), "pfr-keystore-update-opt");
    assert_eq!(PropertyTagDiscriminants::SHEBootMode.name(), "she-boot-mode");
    assert_eq!(PropertyTagDiscriminants::from_name("Current-Version"), None);
}

#[test]
fn property_is_named_by_number_or_by_name() {
    assert_eq!(
        PropertyTagDiscriminants::parse_property("1"),
        Ok(PropertyTagDiscriminants::CurrentVersion)
    );
    assert_eq!(
        PropertyTagDiscriminants::parse_property("0x0b"),
        Ok(PropertyTagDiscriminants::MaxPacketSize)
    );
    assert_eq!(
        PropertyTagDiscriminants::parse_property("reserved-regions"),
        Ok(PropertyTagDiscriminants::ReservedRegions)
    );
    assert_eq!(
        PropertyTagDiscriminants::parse_property("0"),
        Err("Could not find property with this number")
    );
    assert_eq!(
        PropertyTagDiscriminants::parse_property("200"),
        Err("Could not find property with this number")
    );
    assert_eq!(
        PropertyTagDiscriminants::parse_property("300"),
        Err("Property with this name does not exist")
    );
    assert_eq!(
        PropertyTagDiscriminants::parse_property("no-such-property"),
        Err("Property with this name does not exist")
    );
}

#[test]
fn command_codes() {
    let expected: [(CommandTagDiscriminants, u8); 30] = [
        (CommandTagDiscriminants::NoCommand, 0x00),
        (CommandTagDiscriminants::FlashEraseAll, 0x01),
        (CommandTagDiscriminants::FlashEraseRegion, 0x02),
        (CommandTagDiscriminants::ReadMemory, 0x03),
        (CommandTagDiscriminants::WriteMemory, 0x04),
        (CommandTagDiscriminants::FillMemory, 0x05),
        (CommandTagDiscriminants::FlashSecurityDisable, 0x06),
        (CommandTagDiscriminants::GetProperty, 0x07),
        (CommandTagDiscriminants::ReceiveSBFile, 0x08),
        (CommandTagDiscriminants::Execute, 0x09),
        (CommandTagDiscriminants::Call, 0x0A),
        (CommandTagDiscriminants::Reset, 0x0B),
        (CommandTagDiscriminants::SetProperty, 0x0C),
        (CommandTagDiscriminants::FlashEraseAllUnsecure, 0x0D),
        (CommandTagDiscriminants::FlashProgramOnce, 0x0E),
        (CommandTagDiscriminants::FlashReadOnce, 0x0F),
        (CommandTagDiscriminants::FlashReadResource, 0x10),
        (CommandTagDiscriminants::ConfigureMemory, 0x11),
        (CommandTagDiscriminants::ReliableUpdate, 0x12),
        (CommandTagDiscriminants::GenerateKeyBlob, 0x13),
        (CommandTagDiscriminants::FuseProgram, 0x14),
        (CommandTagDiscriminants::KeyProvisioning, 0x15),
        (CommandTagDiscriminants::TrustProvisioning, 0x16),
        (CommandTagDiscriminants::FuseRead, 0x17),
        (CommandTagDiscriminants::UpdateLifeCycle, 0x18),
        (CommandTagDiscriminants::EleMessage, 0x19),
        (CommandTagDiscriminants::EL2GO, 0x20),
        (CommandTagDiscriminants::ConfigureI2C, 0xC1),
        (CommandTagDiscriminants::ConfigureSPI, 0xC2),
        (CommandTagDiscriminants::ConfigureCAN, 0xC3),
    ];
    let all = CommandTagDiscriminants::all();
    assert_eq!(all.len(), 30);
    for (i, (tag, code)) in expected.iter().enumerate() {
        assert_eq!(all[i], *tag);
        assert_eq!(tag.code(), *code);
        assert_eq!(u8::from(*tag), *code);
    }
    assert_eq!(CommandTag::Reset.code(), 0x0B);
    assert_eq!(CommandTag::Reset.discriminant(), CommandTagDiscriminants::Reset);
    assert_eq!(CommandTag::NoCommand { bytes: &[] }.code(), 0x00);
}

#[test]
fn command_parameters() {
    let bytes = [1u8, 2, 3, 4, 5];
    let cases: Vec<(CommandTag, Vec<u32>, Option<&[u8]>)> = vec![
        (CommandTag::FlashEraseAll { memory_id: 9 }, vec![9], None),
        (
            CommandTag::FlashEraseRegion { start_address: 1, byte_count: 2, memory_id: 3 },
            vec![1, 2, 3],
            None,
        ),
        (
            CommandTag::ReadMemory { start_address: 0x100, byte_count: 0x20, memory_id: 0 },
            vec![0x100, 0x20, 0],
            None,
        ),
        (
            CommandTag::FuseRead { start_address: 4, byte_count: 8, memory_id: 1 },
            vec![4, 8, 1],
            None,
        ),
        (
            CommandTag::WriteMemory { start_address: 0x2000, memory_id: 7, bytes: &bytes },
            vec![0x2000, 5, 7],
            Some(&bytes[..]),
        ),
        (
            CommandTag::FuseProgram { start_address: 0x10, bytes: &bytes, memory_id: 4 },
            vec![0x10, 5, 4],
            Some(&bytes[..]),
        ),
        (
            CommandTag::FillMemory { start_address: 1, byte_count: 2, pattern: 0xA5A5A5A5 },
            vec![1, 2, 0xA5A5A5A5],
            None,
        ),
        (
            CommandTag::GetProperty { tag: PropertyTagDiscriminants::MaxPacketSize, memory_index: 2 },
            vec![0x0B, 2],
            None,
        ),
        (
            CommandTag::SetProperty { tag: PropertyTagDiscriminants::VerifyWrites, value: 1 },
            vec![0x0A, 1],
            None,
        ),
        (CommandTag::Reset, vec![], None),
        (CommandTag::FlashEraseAllUnsecure, vec![], None),
        (CommandTag::ConfigureMemory { memory_id: 9, address: 0x2000 }, vec![9, 0x2000], None),
        (CommandTag::ReceiveSBFile { bytes: &bytes }, vec![5], Some(&bytes[..])),
        (CommandTag::NoCommand { bytes: &bytes }, vec![5], Some(&bytes[..])),
        (CommandTag::FlashReadOnce { index: 0x51, count: 4 }, vec![0x51, 4], None),
        (
            CommandTag::FlashProgramOnce { index: 0x51, count: 4, data: 0x12345678 },
            vec![0x51, 4, 0x12345678],
            None,
        ),
        (
            CommandTag::Execute { start_address: 1, argument: 2, stackpointer: 3 },
            vec![1, 2, 3],
            None,
        ),
        (CommandTag::Call { start_address: 1, argument: 2 }, vec![1, 2], None),
    ];
    for (tag, params, data) in cases {
        let (got_params, got_data) = tag.to_params();
        assert_eq!(got_params, params, "{tag:?}");
        assert_eq!(got_data, data, "{tag:?}");
    }
}

#[test]
fn trust_provisioning_parameters() {
    let gen = TrustProvOperation::OemGenMasterShare {
        oem_share_input_addr: 1,
        oem_share_input_size: 2,
        oem_enc_share_output_addr: 3,
        oem_enc_share_output_size: 4,
        oem_enc_master_share_output_addr: 5,
        oem_enc_master_share_output_size: 6,
        oem_cust_cert_puk_output_addr: 7,
        oem_cust_cert_puk_output_size: 8,
    };
    assert_eq!(gen.to_params(), (vec![0, 1, 2, 3, 4, 5, 6, 7], None));
    assert_eq!(CommandTag::TrustProvisioning(&gen).to_params().0.len(), 8);
    let set = TrustProvOperation::OemSetMasterShare {
        oem_share_input_addr: 1,
        oem_share_input_size: 2,
        oem_enc_master_share_input_addr: 3,
        oem_enc_master_share_input_size: 4,
    };
    assert_eq!(set.to_params(), (vec![1, 1, 2, 3, 4], None));
    assert_eq!(CommandTag::TrustProvisioning(&set).to_params(), (vec![1, 1, 2, 3, 4], None));
    assert_eq!(CommandTag::TrustProvisioning(&set).code(), 0x16);
}

#[test]
fn key_provisioning_parameters() {
    let key = vec![0xAAu8; 16];
    assert_eq!(KeyProvOperation::Enroll.to_params(), (vec![0], None));
    let set_user = KeyProvOperation::SetUserKey {
        key_type: KeyProvUserKeyType::SbKek,
        key_data: key.clone(),
    };
    assert_eq!(set_user.to_params(), (vec![1, 3, 16], Some(&key[..])));
    let set_key = KeyProvOperation::SetKey { key_type: KeyProvUserKeyType::Uds, key_size: 32 };
    assert_eq!(set_key.to_params(), (vec![2, 12, 32], None));
    assert_eq!(
        KeyProvOperation::WriteKeyNonvolatile { memory_id: 5 }.to_params(),
        (vec![3, 5], None)
    );
    assert_eq!(
        KeyProvOperation::ReadKeyNonvolatile { memory_id: 6 }.to_params(),
        (vec![4, 6], None)
    );
    let write_store = KeyProvOperation::WriteKeyStore { keystore_data: key.clone() };
    assert_eq!(write_store.to_params(), (vec![5, 0, 16], Some(&key[..])));
    let read_store = KeyProvOperation::ReadKeyStore { file: String::from("out.bin"), use_hexdump: false };
    assert_eq!(read_store.to_params(), (vec![6], None));
    assert_eq!(CommandTag::KeyProvisioning(&set_user).to_params(), (vec![1, 3, 16], Some(&key[..])));
    assert_eq!(CommandTag::KeyProvisioning(&set_user).code(), 0x15);
}

#[test]
fn key_types() {
    for (kind, code, name) in [
        (KeyProvUserKeyType::OtfadKek, 2u32, "OTFADKEK"),
        (KeyProvUserKeyType::SbKek, 3, "SBKEK"),
        (KeyProvUserKeyType::PrinceRegion0, 7, "PRINCE0"),
        (KeyProvUserKeyType::PrinceRegion1, 8, "PRINCE1"),
        (KeyProvUserKeyType::PrinceRegion2, 9, "PRINCE2"),
        (KeyProvUserKeyType::PrinceRegion3, 10, "PRINCE3"),
        (KeyProvUserKeyType::UserKek, 11, "USERKEK"),
        (KeyProvUserKeyType::Uds, 12, "UDS"),
    ] {
        assert_eq!(u32::from(kind), code);
        assert_eq!(KeyProvUserKeyType::try_from(code), Ok(kind));
        assert_eq!(KeyProvUserKeyType::from_name(name), Some(kind));
        assert_eq!(KeyProvUserKeyType::parse(name), Ok(kind));
        assert_eq!(KeyProvUserKeyType::parse(&code.to_string()), Ok(kind));
    }
    assert_eq!(KeyProvUserKeyType::try_from(4), Err(4));
    assert_eq!(KeyProvUserKeyType::parse("4"), Err(String::from("invalid ID")));
    assert_eq!(KeyProvUserKeyType::parse("sbkek"), Err(String::from("invalid name")));
    assert_eq!(KeyProvUserKeyType::parse("0x3"), Err(String::from("invalid name")));
    assert_eq!(
        KeyProvUserKeyType::parse("99999999999"),
        Err(String::from("number '99999999999' is invalid or too large!"))
    );
    assert_eq!(
        KeyProvUserKeyType::parse(""),
        Err(String::from("number '' is invalid or too large!"))
    );
}

#[test]
fn version_is_unpacked_from_the_most_significant_byte_down() {
    let version = Version::parse(0x4b030100);
    assert_eq!(version, Version { mark: 'K', major: 3, minor: 1, fixation: 0 });
    let version = Version::parse(0x00030150);
    assert_eq!(version, Version { mark: '\0', major: 3, minor: 1, fixation: 0x50 });
    let version = Version::parse(0xff010203);
    assert_eq!(version, Version { mark: '\u{ff}', major: 1, minor: 2, fixation: 3 });
}

#[test]
fn available_commands_follow_the_bits() {
    let word = 0b1000_0000_0000_0000_0000_0000_0100_0101u32;
    let Ok(PropertyTag::AvailableCommands(list)) =
        PropertyTag::from_code(PropertyTagDiscriminants::AvailableCommands, &[word])
    else {
        panic!()
    };
    assert_eq!(
        list,
        [
            CommandTagDiscriminants::FlashEraseAll,
            CommandTagDiscriminants::ReadMemory,
            CommandTagDiscriminants::GetProperty,
            CommandTagDiscriminants::EL2GO,
        ]
    );
    assert_eq!(CommandTagDiscriminants::from_mask(0), []);
    let everything = CommandTagDiscriminants::from_mask(u32::MAX);
    assert_eq!(everything.len(), 26);
    assert!(!everything.contains(&CommandTagDiscriminants::NoCommand));
    assert!(!everything.contains(&CommandTagDiscriminants::ConfigureI2C));
    for word in [0x1u32, 0x8000_0000, 0x0000_ffff, 0x00ff_ff00, 0x5a5a_5a5a] {
        let list = CommandTagDiscriminants::from_mask(word);
        for cmd in CommandTagDiscriminants::all() {
            let code = cmd.code();
            let bit_set = (1..=0x9F).contains(&code) && code <= 32 && word & (1 << (code - 1)) != 0;
            assert_eq!(list.contains(&cmd), bit_set, "{cmd:?} in {word:#x}");
        }
    }
}

#[test]
fn available_peripherals_follow_the_bits() {
    let Ok(PropertyTag::AvailablePeripherals(list)) =
        PropertyTag::from_code(PropertyTagDiscriminants::AvailablePeripherals, &[0x0000_0113])
    else {
        panic!()
    };
    assert_eq!(list, [PeripheryTag::Uart, PeripheryTag::I2CSlave, PeripheryTag::UsbHid]);
    assert_eq!(PeripheryTag::from_mask(0xff).len(), 8);
    assert_eq!(PeripheryTag::from_mask(0x80), [PeripheryTag::Lin]);
    assert_eq!(PeripheryTag::from_mask(0xffff_ff00), []);
    for (per, code) in [
        (PeripheryTag::Uart, 0x01u8),
        (PeripheryTag::I2CSlave, 0x02),
        (PeripheryTag::SPISlave, 0x04),
        (PeripheryTag::Can, 0x08),
        (PeripheryTag::UsbHid, 0x10),
        (PeripheryTag::UsbCdc, 0x20),
        (PeripheryTag::UsbDfu, 0x40),
        (PeripheryTag::Lin, 0x80),
    ] {
        assert_eq!(u8::from(per), code);
    }
}

#[test]
fn reserved_regions_start_at_the_third_word() {
    let Ok(PropertyTag::ReservedRegions(regions)) = PropertyTag::from_code(
        PropertyTagDiscriminants::ReservedRegions,
        &[0xdead, 0xbeef, 0x1000, 0x1fff, 0x20000000, 0x20003fff],
    ) else {
        panic!()
    };
    assert_eq!(regions.regions, [(0x1000, 0x1fff), (0x20000000, 0x20003fff)]);
    assert_eq!(ReservedRegions::parse(&[]).regions, []);
    assert_eq!(ReservedRegions::parse(&[1, 2]).regions, [(1, 2)]);
    assert!(PropertyTag::is_decodable(PropertyTagDiscriminants::ReservedRegions, &[0, 0]));
    assert!(!PropertyTag::is_decodable(PropertyTagDiscriminants::ReservedRegions, &[0, 0, 1]));
    assert!(!PropertyTag::is_decodable(PropertyTagDiscriminants::ReservedRegions, &[0]));
    assert!(matches!(
        PropertyTag::from_code(PropertyTagDiscriminants::ReservedRegions, &[0, 0, 1]),
        Err(CommunicationError::InvalidData)
    ));
}

#[test]
fn external_memory_attributes_are_present_where_flagged() {
    let all = ExternalMemoryAttributes::parse(&[0x1f, 0x08000000, 1024, 256, 4096, 65536]);
    assert_eq!(
        all,
        ExternalMemoryAttributes {
            start_address: Some(0x08000000),
            total_size: Some(1024),
            page_size: Some(256),
            sector_size: Some(4096),
            block_size: Some(65536),
        }
    );
    let some = ExternalMemoryAttributes::parse(&[
        ext_mem_prop_tags::SIZE_IN_KBYTES | ext_mem_prop_tags::SECTOR_SIZE,
        1,
        2,
        3,
        4,
        5,
    ]);
    assert_eq!(
        some,
        ExternalMemoryAttributes {
            start_address: None,
            total_size: Some(2),
            page_size: None,
            sector_size: Some(4),
            block_size: None,
        }
    );
    let none = ExternalMemoryAttributes::parse(&[0]);
    assert_eq!(none.start_address, None);
    assert_eq!(none.block_size, None);
    assert!(ExternalMemoryAttributes::is_well_formed(&[ext_mem_prop_tags::START_ADDRESS, 7]));
    assert!(!ExternalMemoryAttributes::is_well_formed(&[ext_mem_prop_tags::START_ADDRESS]));
    assert!(!ExternalMemoryAttributes::is_well_formed(&[ext_mem_prop_tags::BLOCK_SIZE, 1, 2, 3, 4]));
    assert!(!ExternalMemoryAttributes::is_well_formed(&[]));
    assert_eq!(mem_id::INTERNAL_MEMORY, 0);
    assert_eq!(mem_id::FLEX_SPI_NOR, 9);
    assert_eq!(mem_id::MMC_CARD, 289);
}

#[test]
fn two_pole_states() {
    for (word, open) in [(0u32, true), (0x5AA55AA5, true), (1, false), (0x5AA55AA4, false), (u32::MAX, false)] {
        let Ok(PropertyTag::FlashSecurityState(FlashSecurityState(state))) =
            PropertyTag::from_code(PropertyTagDiscriminants::FlashSecurityState, &[word])
        else {
            panic!()
        };
        assert_eq!(state, open);
        let Ok(PropertyTag::LifeCycleState(LifeCycleState(state))) =
            PropertyTag::from_code(PropertyTagDiscriminants::LifeCycleState, &[word])
        else {
            panic!()
        };
        assert_eq!(state, open);
    }
}

#[test]
fn irq_notifier_pin() {
    assert_eq!(
        IrqNotifierPin::parse(0x8000_0305),
        IrqNotifierPin { pin: 5, port: 3, enabled: true }
    );
    assert_eq!(
        IrqNotifierPin::parse(0x7fff_ff12),
        IrqNotifierPin { pin: 0x12, port: 0xff, enabled: false }
    );
}

#[test]
fn small_property_values() {
    assert_eq!(PfrKeystoreUpdateOpt::parse(0), PfrKeystoreUpdateOpt::KeyProvisioning);
    assert_eq!(PfrKeystoreUpdateOpt::parse(1), PfrKeystoreUpdateOpt::WriteMemory);
    assert_eq!(PfrKeystoreUpdateOpt::parse(2), PfrKeystoreUpdateOpt::KeyProvisioning);
    assert_eq!(FlashReadMargin::parse(0), FlashReadMargin::Normal);
    assert_eq!(FlashReadMargin::parse(1), FlashReadMargin::User);
    assert_eq!(FlashReadMargin::parse(2), FlashReadMargin::Factory);
    assert_eq!(FlashReadMargin::parse(3), FlashReadMargin::Normal);
    assert_eq!(FuseProgramVoltage::parse(0), FuseProgramVoltage(false));
    assert_eq!(FuseProgramVoltage::parse(5), FuseProgramVoltage(true));
    assert_eq!(SHEFlashPartition::parse(0x0302), SHEFlashPartition { max_keys: 2, flash_size: 3 });
    assert_eq!(SHEFlashPartition::parse(0xffff_fcfc), SHEFlashPartition { max_keys: 0, flash_size: 0 });
    assert_eq!(SHEBootMode::parse(0x8000_0100), SHEBootMode { size: 0x100, mode: 2 });
    assert_eq!(SHEBootMode::parse(u32::MAX), SHEBootMode { size: 0x3fff_ffff, mode: 3 });
}

#[test]
fn plain_properties_carry_the_first_word() {
    assert!(matches!(
        PropertyTag::from_code(PropertyTagDiscriminants::MaxPacketSize, &[512, 9]),
        Ok(PropertyTag::MaxPacketSize(512))
    ));
    assert!(matches!(
        PropertyTag::from_code(PropertyTagDiscriminants::FlashSize, &[0x80000]),
        Ok(PropertyTag::FlashSize(0x80000))
    ));
    assert!(matches!(
        PropertyTag::from_code(PropertyTagDiscriminants::VerifyWrites, &[2]),
        Ok(PropertyTag::VerifyWrites(true))
    ));
    assert!(matches!(
        PropertyTag::from_code(PropertyTagDiscriminants::VerifyErase, &[0]),
        Ok(PropertyTag::VerifyErase(false))
    ));
    assert!(matches!(
        PropertyTag::from_code(PropertyTagDiscriminants::CRCCheckStatus, &[10402]),
        Ok(PropertyTag::CRCCheckStatus(StatusCode::AppCrcCheckInactive))
    ));
    let Ok(PropertyTag::UniqueDeviceId(id)) =
        PropertyTag::from_code(PropertyTagDiscriminants::UniqueDeviceId, &[0x04030201, 0x08070605])
    else {
        panic!()
    };
    assert_eq!(id.0, [1, 2, 3, 4, 5, 6, 7, 8]);
    let Ok(PropertyTag::CurrentVersion(version)) =
        PropertyTag::from_code(PropertyTagDiscriminants::CurrentVersion, &[0x4b030101])
    else {
        panic!()
    };
    assert_eq!(version, Version { mark: 'K', major: 3, minor: 1, fixation: 1 });
}

#[test]
fn undecodable_replies_are_refused() {
    assert!(!PropertyTag::is_decodable(PropertyTagDiscriminants::LastError, &[1]));
    assert!(!PropertyTag::is_decodable(PropertyTagDiscriminants::FuseLockedStatus, &[1]));
    assert!(!PropertyTag::is_decodable(PropertyTagDiscriminants::FlashSize, &[]));
    assert!(!PropertyTag::is_decodable(PropertyTagDiscriminants::CRCCheckStatus, &[7]));
    assert!(PropertyTag::is_decodable(PropertyTagDiscriminants::UniqueDeviceId, &[]));
    for tag in [PropertyTagDiscriminants::LastError, PropertyTagDiscriminants::FuseLockedStatus] {
        assert!(matches!(PropertyTag::from_code(tag, &[1]), Err(CommunicationError::InvalidData)));
        assert!(matches!(PropertyTag::from_code(tag, &[]), Err(CommunicationError::InvalidData)));
    }
    for tag in [
        PropertyTagDiscriminants::CRCCheckStatus,
        PropertyTagDiscriminants::QSPIInitStatus,
        PropertyTagDiscriminants::ReliableUpdateStatus,
    ] {
        assert!(matches!(
            PropertyTag::from_code(tag, &[7, 0]),
            Err(CommunicationError::UnexpectedStatus(StatusCode::UnknownStatusCode, 7))
        ));
        assert!(matches!(
            PropertyTag::from_code(tag, &[0xdeadbeef]),
            Err(CommunicationError::UnexpectedStatus(StatusCode::UnknownStatusCode, 0xdeadbeef))
        ));
        assert!(matches!(PropertyTag::from_code(tag, &[]), Err(CommunicationError::InvalidData)));
    }
    assert!(matches!(
        PropertyTag::from_code(PropertyTagDiscriminants::FlashSize, &[]),
        Err(CommunicationError::InvalidData)
    ));
    assert!(matches!(
        PropertyTag::from_code(PropertyTagDiscriminants::ExternalMemoryAttributes, &[1]),
        Err(CommunicationError::InvalidData)
    ));
    assert!(PropertyTag::from_code(PropertyTagDiscriminants::FlashSize, &[4]).is_ok());
}

#[test]
fn property_values_know_their_property() {
    let value = PropertyTag::from_code(PropertyTagDiscriminants::RAMSize, &[0x4000]).unwrap();
    assert_eq!(value.discriminant(), PropertyTagDiscriminants::RAMSize);
    assert_eq!(value.code(), 0x0F);
}

#[test]
fn response_kinds() {
    let words = [5u8, 0, 0, 0, 6, 0, 0, 0];
    assert!(matches!(CmdResponseTag::from_code(0xA0, &words, None), Some(CmdResponseTag::Generic)));
    match CmdResponseTag::from_code(0xA3, &words, Some(&[1, 2, 3])) {
        Some(CmdResponseTag::ReadMemory(bytes)) => assert_eq!(bytes, [1, 2, 3]),
        other => panic!("unexpected: {other:?}"),
    }
    match CmdResponseTag::from_code(0xA3, &words, None) {
        Some(CmdResponseTag::ReadMemory(bytes)) => assert!(bytes.is_empty()),
        other => panic!("unexpected: {other:?}"),
    }
    match CmdResponseTag::from_code(0xA7, &words, None) {
        Some(CmdResponseTag::GetProperty(w)) => assert_eq!(w, [5, 6]),
        other => panic!("unexpected: {other:?}"),
    }
    assert!(matches!(
        CmdResponseTag::from_code(0xAF, &words, None),
        Some(CmdResponseTag::FlashReadOnce(5))
    ));
    assert!(CmdResponseTag::from_code(0xAF, &[], None).is_none());
    match CmdResponseTag::from_code(0xB5, &words, Some(&[9])) {
        Some(CmdResponseTag::KeyProvisioning(w, Some(bytes))) => {
            assert_eq!(w, [5, 6]);
            assert_eq!(bytes, [9]);
        }
        other => panic!("unexpected: {other:?}"),
    }
    match CmdResponseTag::from_code(0xB6, &words, None) {
        Some(CmdResponseTag::TrustProvisioning(w)) => assert_eq!(w, [5, 6]),
        other => panic!("unexpected: {other:?}"),
    }
    assert!(CmdResponseTag::from_code(0xA1, &words, None).is_none());
    assert_eq!(CmdResponseTag::Generic.code(), 0xA0);
    assert_eq!(CmdResponseTag::ReadMemory(vec![]).code(), 0xA3);
    assert_eq!(CmdResponseTag::GetProperty(vec![]).code(), 0xA7);
    assert_eq!(CmdResponseTag::FlashReadOnce(0).code(), 0xAF);
    assert_eq!(CmdResponseTag::KeyProvisioning(vec![], None).code(), 0xB5);
    assert_eq!(CmdResponseTag::TrustProvisioning(vec![]).code(), 0xB6);
}

#[test]
fn on_off() {
    assert_eq!(OnOffBool(true).to_string(), "ON");
    assert_eq!(OnOffBool(false).to_string(), "OFF");
}

#[test]
fn status_descriptions() {
    assert_eq!(StatusCode::Success.description(), "Success");
    assert_eq!(StatusCode::NoTransferInProgress.description(), "NoTransferInProgress");
    assert_eq!(StatusCode::FlashAlignmentError.description(), "FLASH Driver: Alignment Error");
    assert_eq!(StatusCode::NoResponse.description(), "No response packet from target device");
    assert_eq!(StatusCode::OtpVerifyFail.description(), "OTP: Failed to verify OTP write");
    assert_eq!(StatusCode::UnknownStatusCode.description(), "Unknown status code");
    assert_eq!(
        StatusCode::El2goProvSuccess.description(),
        "Device has been successfully provisioned."
    );
}

#[test]
fn key_type_is_read_as_what_it_is_said_to_be() {
    assert_eq!(KeyProvUserKeyType::parse_with("3", true), Ok(KeyProvUserKeyType::SbKek));
    assert_eq!(KeyProvUserKeyType::parse_with("0x3", true), Ok(KeyProvUserKeyType::SbKek));
    assert_eq!(KeyProvUserKeyType::parse_with("3", false), Err(String::from("invalid name")));
    assert_eq!(KeyProvUserKeyType::parse_with("UDS", false), Ok(KeyProvUserKeyType::Uds));
    assert_eq!(
        KeyProvUserKeyType::parse_with("UDS", true),
        Err(String::from("number 'UDS' is invalid or too large!"))
    );
    // a digit of another script is a number character, but spells out no number
    assert_eq!(
        KeyProvUserKeyType::parse("\u{0663}"),
        Err(String::from("number '\u{0663}' is invalid or too large!"))
    );
}

#[test]
fn decoded_values_are_spelled_out_by_their_words() {
    // a value, the words that spell it out, and the value read back
    let Ok(PropertyTag::IrqNotifierPin(pin)) =
        PropertyTag::from_code(PropertyTagDiscriminants::IrqNotifierPin, &[0x8000_0000 + 0x0300 + 0x05])
    else {
        panic!()
    };
    assert_eq!(pin, IrqNotifierPin { pin: 5, port: 3, enabled: true });
    let Ok(PropertyTag::SHEBootMode(mode)) =
        PropertyTag::from_code(PropertyTagDiscriminants::SHEBootMode, &[0x123 + 2 * 0x4000_0000])
    else {
        panic!()
    };
    assert_eq!(mode, SHEBootMode { size: 0x123, mode: 2 });
    let Ok(PropertyTag::ExternalMemoryAttributes(attributes)) = PropertyTag::from_code(
        PropertyTagDiscriminants::ExternalMemoryAttributes,
        &[1 + 4 + 16, 0x6000_0000, 0, 256, 0, 0x1_0000],
    ) else {
        panic!()
    };
    assert_eq!(
        attributes,
        ExternalMemoryAttributes {
            start_address: Some(0x6000_0000),
            total_size: None,
            page_size: Some(256),
            sector_size: None,
            block_size: Some(0x1_0000),
        }
    );
    // the mask of the listed peripherals lists the same peripherals
    let listed = PeripheryTag::from_mask(0xffff_ff15);
    let mask = listed.iter().fold(0u32, |mask, per| mask | u32::from(per.code()));
    assert_eq!(mask, 0x15);
    assert_eq!(PeripheryTag::from_mask(mask), listed);
    let listed = CommandTagDiscriminants::from_mask(0x8123_4567);
    let mask = listed.iter().fold(0u32, |mask, cmd| mask | 1 << (cmd.code() - 1));
    assert_eq!(CommandTagDiscriminants::from_mask(mask), listed);
}

#[test]
fn numbers_as_text() {
    assert_eq!(decimal(0), "0");
    assert_eq!(decimal(7), "7");
    assert_eq!(decimal(10), "10");
    assert_eq!(decimal(255), "255");
    assert_eq!(decimal(4294967295), "4294967295");
    assert_eq!(hex(&[]), "");
    assert_eq!(hex(&[0x00, 0x0f, 0xa5, 0xff]), "000fa5ff");
}

#[test]
fn values_as_text() {
    assert_eq!(Version { mark: 'K', major: 3, minor: 1, fixation: 10 }.to_string(), "K3.1.10");
    assert_eq!(Version::parse(0x54000200).to_string(), "T0.2.0");
    assert_eq!(DeviceId(vec![0xde, 0xad, 0x01]).to_string(), "dead01");
    assert_eq!(FlashSecurityState(true).to_string(), "UNSECURE");
    assert_eq!(FlashSecurityState(false).to_string(), "SECURE");
    assert_eq!(LifeCycleState(true).to_string(), "development life cycle");
    assert_eq!(LifeCycleState(false).to_string(), "deployment life cycle");
    assert_eq!(
        IrqNotifierPin { pin: 5, port: 13, enabled: true }.to_string(),
        "IRQ Port[13], Pin[5] is enabled"
    );
    assert_eq!(
        IrqNotifierPin { pin: 255, port: 0, enabled: false }.to_string(),
        "IRQ Port[0], Pin[255] is disabled"
    );
    assert_eq!(PfrKeystoreUpdateOpt::KeyProvisioning.to_string(), "KEY_PROVISIONING");
    assert_eq!(PfrKeystoreUpdateOpt::WriteMemory.to_string(), "WRITE_MEMORY");
    assert_eq!(FlashReadMargin::Normal.to_string(), "NORMAL");
    assert_eq!(FlashReadMargin::User.to_string(), "USER");
    assert_eq!(FlashReadMargin::Factory.to_string(), "FACTORY");
    assert_eq!(FuseProgramVoltage(true).to_string(), "Over Drive Voltage (2.5 V)");
    assert_eq!(FuseProgramVoltage(false).to_string(), "Normal Voltage (1.8 V)");
    assert_eq!(
        SHEFlashPartition { max_keys: 2, flash_size: 1 }.to_string(),
        "48kB EEPROM with max 10 Keys"
    );
    assert_eq!(
        SHEFlashPartition { max_keys: 0, flash_size: 3 }.to_string(),
        "0kB EEPROM with 0 Keys, CSEc disabled"
    );
    assert_eq!(
        SHEFlashPartition { max_keys: 9, flash_size: 9 }.to_string(),
        "Unknown EEPROM with Unknown"
    );
    assert_eq!(PeripheryTag::I2CSlave.name(), "I2C-Slave");
    assert_eq!(PeripheryTag::UsbHid.name(), "USB-HID");
    assert_eq!(KeyProvUserKeyType::UserKek.description(), "Encrypted boot image key");
}

#[test]
fn commands_without_a_layout_are_told_apart() {
    let bytes = [1u8, 2];
    assert!(CommandTag::Reset.is_encodable());
    assert!(CommandTag::WriteMemory { start_address: 0, memory_id: 0, bytes: &bytes }.is_encodable());
    assert!(CommandTag::KeyProvisioning(&KeyProvOperation::Enroll).is_encodable());
    for tag in [
        CommandTag::FlashSecurityDisable,
        CommandTag::FlashReadResource,
        CommandTag::ReliableUpdate,
        CommandTag::GenerateKeyBlob,
        CommandTag::UpdateLifeCycle,
        CommandTag::EleMessage,
        CommandTag::EL2GO,
        CommandTag::ConfigureI2C,
        CommandTag::ConfigureSPI,
        CommandTag::ConfigureCAN,
    ] {
        assert!(!tag.is_encodable(), "{tag:?}");
    }
}

//! Properties of the bootloader: their wire codes, their names and the
//! decoding of the values that a device reports for them.
use vstd::prelude::*;
use vstd::string::*;

use super::command::CommandTagDiscriminants;
use super::masks::{at_most_one_bit, lemma_filter_congruence, lemma_mask_roundtrip, marked, or_of};
use super::status::StatusCode;
use super::ToAddress;
use crate::mboot::formatters::{char_text, decimal, decimal_text, hex, hex_text};
use crate::mboot::memory::{ExternalMemoryAttributes, ReservedRegions};
use crate::mboot::protocols::{CommunicationError, ResultComm};
use crate::mboot::memory::{lemma_external_memory_roundtrip, lemma_reserved_regions_roundtrip};
use crate::mboot::words::{
    le_bytes_to_words, lemma_bytes_words_roundtrip, words_to_bytes, words_to_le_bytes,
};
use crate::parsers::{parse_number, spec_parse_number, str_equal};

verus! {

/// Identification bytes of one device.
#[derive(Clone, Debug)]
pub struct DeviceId(pub Vec<u8>);

impl View for DeviceId {
    type V = Seq<u8>;

    open spec fn view(&self) -> Seq<u8> {
        self.0@
    }
}

impl DeviceId {
    /// The identification as text: each byte as two hexadecimal digits.
    pub fn to_string(&self) -> (text: String)
        ensures
            text@ == hex_text(self@),
    {
        hex(self.0.as_slice())
    }
}

/// A property of the bootloader together with the value that the device
/// reported for it.
#[derive(Clone, Debug)]
pub enum PropertyTag {
    /// Version of the bootloader.
    CurrentVersion(Version),
    /// Peripherals through which the bootloader can be reached.
    AvailablePeripherals(Vec<PeripheryTag>),
    /// First address of the internal flash.
    FlashStartAddress(u32),
    /// Size of the internal flash in bytes.
    FlashSize(u32),
    /// Size of one flash sector in bytes.
    FlashSectorSize(u32),
    /// Number of flash blocks.
    FlashBlockCount(u32),
    /// Commands that the bootloader accepts.
    AvailableCommands(Vec<CommandTagDiscriminants>),
    /// Outcome of the last application CRC check.
    CRCCheckStatus(StatusCode),
    /// The last error that occurred.
    LastError(u32),
    /// Whether writes are read back and compared.
    VerifyWrites(bool),
    /// Largest payload of one data packet in bytes.
    MaxPacketSize(u32),
    /// Address ranges that the bootloader keeps for itself.
    ReservedRegions(ReservedRegions),
    /// Whether regions are validated.
    ValidateRegions(bool),
    /// First address of the internal RAM.
    RAMStartAddress(u32),
    /// Size of the internal RAM in bytes.
    RAMSize(u32),
    /// Identification number of the device family.
    SystemDeviceId(u32),
    /// Whether the flash is secured.
    FlashSecurityState(FlashSecurityState),
    /// Identification bytes of this one device.
    UniqueDeviceId(DeviceId),
    /// Whether flash access control is supported.
    FlashFacSupport(bool),
    /// Size of one flash access segment in bytes.
    FlashAccessSegmentSize(u32),
    /// Number of flash access segments.
    FlashAccessSegmentCount(u32),
    /// Margin level of flash reads.
    FlashReadMargin(FlashReadMargin),
    /// Outcome of the QuadSPI initialisation.
    QSPIInitStatus(StatusCode),
    /// Version of the target.
    TargetVersion(Version),
    /// Layout of an external memory.
    ExternalMemoryAttributes(ExternalMemoryAttributes),
    /// Outcome of the last reliable update.
    ReliableUpdateStatus(StatusCode),
    /// Size of one flash page in bytes.
    FlashPageSize(u32),
    /// Pin that signals an interrupt to the host.
    IrqNotifierPin(IrqNotifierPin),
    /// How the key store in protected flash is updated.
    PFRKeystoreUpdateOpt(PfrKeystoreUpdateOpt),
    /// Timeout of a byte write in milliseconds.
    ByteWriteTimeoutMs(u32),
    /// Which fuses are locked.
    FuseLockedStatus,
    /// Value of the boot status register.
    BootStatusRegister(u32),
    /// Version of the loadable firmware.
    FirmwareVersion(u32),
    /// Voltage used to program fuses.
    FuseProgramVoltage(FuseProgramVoltage),
    /// Whether erases are verified.
    VerifyErase(bool),
    /// Partitioning of the flash for the secure hardware extension.
    SHEFlashPartition(SHEFlashPartition),
    /// Boot mode of the secure hardware extension.
    SHEBootMode(SHEBootMode),
    /// Life cycle state of the device.
    LifeCycleState(LifeCycleState),
}

/// A property of the bootloader, without a value.
#[derive(Clone, Copy, Debug, PartialEq, Eq, Structural)]
pub enum PropertyTagDiscriminants {
    /// Version of the bootloader.
    CurrentVersion,
    /// Peripherals through which the bootloader can be reached.
    AvailablePeripherals,
    /// First address of the internal flash.
    FlashStartAddress,
    /// Size of the internal flash in bytes.
    FlashSize,
    /// Size of one flash sector in bytes.
    FlashSectorSize,
    /// Number of flash blocks.
    FlashBlockCount,
    /// Commands that the bootloader accepts.
    AvailableCommands,
    /// Outcome of the last application CRC check.
    CRCCheckStatus,
    /// The last error that occurred.
    LastError,
    /// Whether writes are read back and compared.
    VerifyWrites,
    /// Largest payload of one data packet in bytes.
    MaxPacketSize,
    /// Address ranges that the bootloader keeps for itself.
    ReservedRegions,
    /// Whether regions are validated.
    ValidateRegions,
    /// First address of the internal RAM.
    RAMStartAddress,
    /// Size of the internal RAM in bytes.
    RAMSize,
    /// Identification number of the device family.
    SystemDeviceId,
    /// Whether the flash is secured.
    FlashSecurityState,
    /// Identification bytes of this one device.
    UniqueDeviceId,
    /// Whether flash access control is supported.
    FlashFacSupport,
    /// Size of one flash access segment in bytes.
    FlashAccessSegmentSize,
    /// Number of flash access segments.
    FlashAccessSegmentCount,
    /// Margin level of flash reads.
    FlashReadMargin,
    /// Outcome of the QuadSPI initialisation.
    QSPIInitStatus,
    /// Version of the target.
    TargetVersion,
    /// Layout of an external memory.
    ExternalMemoryAttributes,
    /// Outcome of the last reliable update.
    ReliableUpdateStatus,
    /// Size of one flash page in bytes.
    FlashPageSize,
    /// Pin that signals an interrupt to the host.
    IrqNotifierPin,
    /// How the key store in protected flash is updated.
    PFRKeystoreUpdateOpt,
    /// Timeout of a byte write in milliseconds.
    ByteWriteTimeoutMs,
    /// Which fuses are locked.
    FuseLockedStatus,
    /// Value of the boot status register.
    BootStatusRegister,
    /// Version of the loadable firmware.
    FirmwareVersion,
    /// Voltage used to program fuses.
    FuseProgramVoltage,
    /// Whether erases are verified.
    VerifyErase,
    /// Partitioning of the flash for the secure hardware extension.
    SHEFlashPartition,
    /// Boot mode of the secure hardware extension.
    SHEBootMode,
    /// Life cycle state of the device.
    LifeCycleState,
}

impl PropertyTagDiscriminants {
    /// The wire code of the property.
    pub open spec fn spec_code(self) -> u8 {
        match self {
            PropertyTagDiscriminants::CurrentVersion => 0x01,
            PropertyTagDiscriminants::AvailablePeripherals => 0x02,
            PropertyTagDiscriminants::FlashStartAddress => 0x03,
            PropertyTagDiscriminants::FlashSize => 0x04,
            PropertyTagDiscriminants::FlashSectorSize => 0x05,
            PropertyTagDiscriminants::FlashBlockCount => 0x06,
            PropertyTagDiscriminants::AvailableCommands => 0x07,
            PropertyTagDiscriminants::CRCCheckStatus => 0x08,
            PropertyTagDiscriminants::LastError => 0x09,
            PropertyTagDiscriminants::VerifyWrites => 0x0A,
            PropertyTagDiscriminants::MaxPacketSize => 0x0B,
            PropertyTagDiscriminants::ReservedRegions => 0x0C,
            PropertyTagDiscriminants::ValidateRegions => 0x0D,
            PropertyTagDiscriminants::RAMStartAddress => 0x0E,
            PropertyTagDiscriminants::RAMSize => 0x0F,
            PropertyTagDiscriminants::SystemDeviceId => 0x10,
            PropertyTagDiscriminants::FlashSecurityState => 0x11,
            PropertyTagDiscriminants::UniqueDeviceId => 0x12,
            PropertyTagDiscriminants::FlashFacSupport => 0x13,
            PropertyTagDiscriminants::FlashAccessSegmentSize => 0x14,
            PropertyTagDiscriminants::FlashAccessSegmentCount => 0x15,
            PropertyTagDiscriminants::FlashReadMargin => 0x16,
            PropertyTagDiscriminants::QSPIInitStatus => 0x17,
            PropertyTagDiscriminants::TargetVersion => 0x18,
            PropertyTagDiscriminants::ExternalMemoryAttributes => 0x19,
            PropertyTagDiscriminants::ReliableUpdateStatus => 0x1A,
            PropertyTagDiscriminants::FlashPageSize => 0x1B,
            PropertyTagDiscriminants::IrqNotifierPin => 0x1C,
            PropertyTagDiscriminants::PFRKeystoreUpdateOpt => 0x1D,
            PropertyTagDiscriminants::ByteWriteTimeoutMs => 0x1E,
            PropertyTagDiscriminants::FuseLockedStatus => 0x1F,
            PropertyTagDiscriminants::BootStatusRegister => 0x20,
            PropertyTagDiscriminants::FirmwareVersion => 0x21,
            PropertyTagDiscriminants::FuseProgramVoltage => 0x22,
            PropertyTagDiscriminants::VerifyErase => 0x23,
            PropertyTagDiscriminants::SHEFlashPartition => 0x24,
            PropertyTagDiscriminants::SHEBootMode => 0x25,
            PropertyTagDiscriminants::LifeCycleState => 0x26,
        }
    }

    /// The property that a wire code stands for, if any.
    pub open spec fn from_code(c: u8) -> Option<PropertyTagDiscriminants> {
        match c {
            0x01 => Some(PropertyTagDiscriminants::CurrentVersion),
            0x02 => Some(PropertyTagDiscriminants::AvailablePeripherals),
            0x03 => Some(PropertyTagDiscriminants::FlashStartAddress),
            0x04 => Some(PropertyTagDiscriminants::FlashSize),
            0x05 => Some(PropertyTagDiscriminants::FlashSectorSize),
            0x06 => Some(PropertyTagDiscriminants::FlashBlockCount),
            0x07 => Some(PropertyTagDiscriminants::AvailableCommands),
            0x08 => Some(PropertyTagDiscriminants::CRCCheckStatus),
            0x09 => Some(PropertyTagDiscriminants::LastError),
            0x0A => Some(PropertyTagDiscriminants::VerifyWrites),
            0x0B => Some(PropertyTagDiscriminants::MaxPacketSize),
            0x0C => Some(PropertyTagDiscriminants::ReservedRegions),
            0x0D => Some(PropertyTagDiscriminants::ValidateRegions),
            0x0E => Some(PropertyTagDiscriminants::RAMStartAddress),
            0x0F => Some(PropertyTagDiscriminants::RAMSize),
            0x10 => Some(PropertyTagDiscriminants::SystemDeviceId),
            0x11 => Some(PropertyTagDiscriminants::FlashSecurityState),
            0x12 => Some(PropertyTagDiscriminants::UniqueDeviceId),
            0x13 => Some(PropertyTagDiscriminants::FlashFacSupport),
            0x14 => Some(PropertyTagDiscriminants::FlashAccessSegmentSize),
            0x15 => Some(PropertyTagDiscriminants::FlashAccessSegmentCount),
            0x16 => Some(PropertyTagDiscriminants::FlashReadMargin),
            0x17 => Some(PropertyTagDiscriminants::QSPIInitStatus),
            0x18 => Some(PropertyTagDiscriminants::TargetVersion),
            0x19 => Some(PropertyTagDiscriminants::ExternalMemoryAttributes),
            0x1A => Some(PropertyTagDiscriminants::ReliableUpdateStatus),
            0x1B => Some(PropertyTagDiscriminants::FlashPageSize),
            0x1C => Some(PropertyTagDiscriminants::IrqNotifierPin),
            0x1D => Some(PropertyTagDiscriminants::PFRKeystoreUpdateOpt),
            0x1E => Some(PropertyTagDiscriminants::ByteWriteTimeoutMs),
            0x1F => Some(PropertyTagDiscriminants::FuseLockedStatus),
            0x20 => Some(PropertyTagDiscriminants::BootStatusRegister),
            0x21 => Some(PropertyTagDiscriminants::FirmwareVersion),
            0x22 => Some(PropertyTagDiscriminants::FuseProgramVoltage),
            0x23 => Some(PropertyTagDiscriminants::VerifyErase),
            0x24 => Some(PropertyTagDiscriminants::SHEFlashPartition),
            0x25 => Some(PropertyTagDiscriminants::SHEBootMode),
            0x26 => Some(PropertyTagDiscriminants::LifeCycleState),
            _ => None,
        }
    }

    /// The name of the property: its words in lower case, joined by hyphens.
    pub open spec fn spec_name(self) -> Seq<char> {
        match self {
            PropertyTagDiscriminants::CurrentVersion => "current-version"@,
            PropertyTagDiscriminants::AvailablePeripherals => "available-peripherals"@,
            PropertyTagDiscriminants::FlashStartAddress => "flash-start-address"@,
            PropertyTagDiscriminants::FlashSize => "flash-size"@,
            PropertyTagDiscriminants::FlashSectorSize => "flash-sector-size"@,
            PropertyTagDiscriminants::FlashBlockCount => "flash-block-count"@,
            PropertyTagDiscriminants::AvailableCommands => "available-commands"@,
            PropertyTagDiscriminants::CRCCheckStatus => "crc-check-status"@,
            PropertyTagDiscriminants::LastError => "last-error"@,
            PropertyTagDiscriminants::VerifyWrites => "verify-writes"@,
            PropertyTagDiscriminants::MaxPacketSize => "max-packet-size"@,
            PropertyTagDiscriminants::ReservedRegions => "reserved-regions"@,
            PropertyTagDiscriminants::ValidateRegions => "validate-regions"@,
            PropertyTagDiscriminants::RAMStartAddress => "ram-start-address"@,
            PropertyTagDiscriminants::RAMSize => "ram-size"@,
            PropertyTagDiscriminants::SystemDeviceId => "system-device-id"@,
            PropertyTagDiscriminants::FlashSecurityState => "flash-security-state"@,
            PropertyTagDiscriminants::UniqueDeviceId => "unique-device-id"@,
            PropertyTagDiscriminants::FlashFacSupport => "flash-fac-support"@,
            PropertyTagDiscriminants::FlashAccessSegmentSize => "flash-access-segment-size"@,
            PropertyTagDiscriminants::FlashAccessSegmentCount => "flash-access-segment-count"@,
            PropertyTagDiscriminants::FlashReadMargin => "flash-read-margin"@,
            PropertyTagDiscriminants::QSPIInitStatus => "qspi-init-status"@,
            PropertyTagDiscriminants::TargetVersion => "target-version"@,
            PropertyTagDiscriminants::ExternalMemoryAttributes => "external-memory-attributes"@,
            PropertyTagDiscriminants::ReliableUpdateStatus => "reliable-update-status"@,
            PropertyTagDiscriminants::FlashPageSize => "flash-page-size"@,
            PropertyTagDiscriminants::IrqNotifierPin => "irq-notifier-pin"@,
            PropertyTagDiscriminants::PFRKeystoreUpdateOpt => "pfr-keystore-update-opt"@,
            PropertyTagDiscriminants::ByteWriteTimeoutMs => "byte-write-timeout-ms"@,
            PropertyTagDiscriminants::FuseLockedStatus => "fuse-locked-status"@,
            PropertyTagDiscriminants::BootStatusRegister => "boot-status-register"@,
            PropertyTagDiscriminants::FirmwareVersion => "firmware-version"@,
            PropertyTagDiscriminants::FuseProgramVoltage => "fuse-program-voltage"@,
            PropertyTagDiscriminants::VerifyErase => "verify-erase"@,
            PropertyTagDiscriminants::SHEFlashPartition => "she-flash-partition"@,
            PropertyTagDiscriminants::SHEBootMode => "she-boot-mode"@,
            PropertyTagDiscriminants::LifeCycleState => "life-cycle-state"@,
        }
    }

    /// The property of the given name, if any. Where two properties had the same
    /// name, the one with the lower code would be meant.
    pub open spec fn spec_from_name(s: Seq<char>) -> Option<PropertyTagDiscriminants> {
        if s == "current-version"@ {
            Some(PropertyTagDiscriminants::CurrentVersion)
        } else if s == "available-peripherals"@ {
            Some(PropertyTagDiscriminants::AvailablePeripherals)
        } else if s == "flash-start-address"@ {
            Some(PropertyTagDiscriminants::FlashStartAddress)
        } else if s == "flash-size"@ {
            Some(PropertyTagDiscriminants::FlashSize)
        } else if s == "flash-sector-size"@ {
            Some(PropertyTagDiscriminants::FlashSectorSize)
        } else if s == "flash-block-count"@ {
            Some(PropertyTagDiscriminants::FlashBlockCount)
        } else if s == "available-commands"@ {
            Some(PropertyTagDiscriminants::AvailableCommands)
        } else if s == "crc-check-status"@ {
            Some(PropertyTagDiscriminants::CRCCheckStatus)
        } else if s == "last-error"@ {
            Some(PropertyTagDiscriminants::LastError)
        } else if s == "verify-writes"@ {
            Some(PropertyTagDiscriminants::VerifyWrites)
        } else if s == "max-packet-size"@ {
            Some(PropertyTagDiscriminants::MaxPacketSize)
        } else if s == "reserved-regions"@ {
            Some(PropertyTagDiscriminants::ReservedRegions)
        } else if s == "validate-regions"@ {
            Some(PropertyTagDiscriminants::ValidateRegions)
        } else if s == "ram-start-address"@ {
            Some(PropertyTagDiscriminants::RAMStartAddress)
        } else if s == "ram-size"@ {
            Some(PropertyTagDiscriminants::RAMSize)
        } else if s == "system-device-id"@ {
            Some(PropertyTagDiscriminants::SystemDeviceId)
        } else if s == "flash-security-state"@ {
            Some(PropertyTagDiscriminants::FlashSecurityState)
        } else if s == "unique-device-id"@ {
            Some(PropertyTagDiscriminants::UniqueDeviceId)
        } else if s == "flash-fac-support"@ {
            Some(PropertyTagDiscriminants::FlashFacSupport)
        } else if s == "flash-access-segment-size"@ {
            Some(PropertyTagDiscriminants::FlashAccessSegmentSize)
        } else if s == "flash-access-segment-count"@ {
            Some(PropertyTagDiscriminants::FlashAccessSegmentCount)
        } else if s == "flash-read-margin"@ {
            Some(PropertyTagDiscriminants::FlashReadMargin)
        } else if s == "qspi-init-status"@ {
            Some(PropertyTagDiscriminants::QSPIInitStatus)
        } else if s == "target-version"@ {
            Some(PropertyTagDiscriminants::TargetVersion)
        } else if s == "external-memory-attributes"@ {
            Some(PropertyTagDiscriminants::ExternalMemoryAttributes)
        } else if s == "reliable-update-status"@ {
            Some(PropertyTagDiscriminants::ReliableUpdateStatus)
        } else if s == "flash-page-size"@ {
            Some(PropertyTagDiscriminants::FlashPageSize)
        } else if s == "irq-notifier-pin"@ {
            Some(PropertyTagDiscriminants::IrqNotifierPin)
        } else if s == "pfr-keystore-update-opt"@ {
            Some(PropertyTagDiscriminants::PFRKeystoreUpdateOpt)
        } else if s == "byte-write-timeout-ms"@ {
            Some(PropertyTagDiscriminants::ByteWriteTimeoutMs)
        } else if s == "fuse-locked-status"@ {
            Some(PropertyTagDiscriminants::FuseLockedStatus)
        } else if s == "boot-status-register"@ {
            Some(PropertyTagDiscriminants::BootStatusRegister)
        } else if s == "firmware-version"@ {
            Some(PropertyTagDiscriminants::FirmwareVersion)
        } else if s == "fuse-program-voltage"@ {
            Some(PropertyTagDiscriminants::FuseProgramVoltage)
        } else if s == "verify-erase"@ {
            Some(PropertyTagDiscriminants::VerifyErase)
        } else if s == "she-flash-partition"@ {
            Some(PropertyTagDiscriminants::SHEFlashPartition)
        } else if s == "she-boot-mode"@ {
            Some(PropertyTagDiscriminants::SHEBootMode)
        } else if s == "life-cycle-state"@ {
            Some(PropertyTagDiscriminants::LifeCycleState)
        } else {
            None
        }
    }

    /// The wire code of the property.
    pub fn code(self) -> (c: u8)
        ensures
            c == self.spec_code(),
    {
        match self {
            PropertyTagDiscriminants::CurrentVersion => 0x01,
            PropertyTagDiscriminants::AvailablePeripherals => 0x02,
            PropertyTagDiscriminants::FlashStartAddress => 0x03,
            PropertyTagDiscriminants::FlashSize => 0x04,
            PropertyTagDiscriminants::FlashSectorSize => 0x05,
            PropertyTagDiscriminants::FlashBlockCount => 0x06,
            PropertyTagDiscriminants::AvailableCommands => 0x07,
            PropertyTagDiscriminants::CRCCheckStatus => 0x08,
            PropertyTagDiscriminants::LastError => 0x09,
            PropertyTagDiscriminants::VerifyWrites => 0x0A,
            PropertyTagDiscriminants::MaxPacketSize => 0x0B,
            PropertyTagDiscriminants::ReservedRegions => 0x0C,
            PropertyTagDiscriminants::ValidateRegions => 0x0D,
            PropertyTagDiscriminants::RAMStartAddress => 0x0E,
            PropertyTagDiscriminants::RAMSize => 0x0F,
            PropertyTagDiscriminants::SystemDeviceId => 0x10,
            PropertyTagDiscriminants::FlashSecurityState => 0x11,
            PropertyTagDiscriminants::UniqueDeviceId => 0x12,
            PropertyTagDiscriminants::FlashFacSupport => 0x13,
            PropertyTagDiscriminants::FlashAccessSegmentSize => 0x14,
            PropertyTagDiscriminants::FlashAccessSegmentCount => 0x15,
            PropertyTagDiscriminants::FlashReadMargin => 0x16,
            PropertyTagDiscriminants::QSPIInitStatus => 0x17,
            PropertyTagDiscriminants::TargetVersion => 0x18,
            PropertyTagDiscriminants::ExternalMemoryAttributes => 0x19,
            PropertyTagDiscriminants::ReliableUpdateStatus => 0x1A,
            PropertyTagDiscriminants::FlashPageSize => 0x1B,
            PropertyTagDiscriminants::IrqNotifierPin => 0x1C,
            PropertyTagDiscriminants::PFRKeystoreUpdateOpt => 0x1D,
            PropertyTagDiscriminants::ByteWriteTimeoutMs => 0x1E,
            PropertyTagDiscriminants::FuseLockedStatus => 0x1F,
            PropertyTagDiscriminants::BootStatusRegister => 0x20,
            PropertyTagDiscriminants::FirmwareVersion => 0x21,
            PropertyTagDiscriminants::FuseProgramVoltage => 0x22,
            PropertyTagDiscriminants::VerifyErase => 0x23,
            PropertyTagDiscriminants::SHEFlashPartition => 0x24,
            PropertyTagDiscriminants::SHEBootMode => 0x25,
            PropertyTagDiscriminants::LifeCycleState => 0x26,
        }
    }

    /// The name of the property: its words in lower case, joined by hyphens.
    pub fn name(self) -> (s: &'static str)
        ensures
            s@ == self.spec_name(),
    {
        match self {
            PropertyTagDiscriminants::CurrentVersion => "current-version",
            PropertyTagDiscriminants::AvailablePeripherals => "available-peripherals",
            PropertyTagDiscriminants::FlashStartAddress => "flash-start-address",
            PropertyTagDiscriminants::FlashSize => "flash-size",
            PropertyTagDiscriminants::FlashSectorSize => "flash-sector-size",
            PropertyTagDiscriminants::FlashBlockCount => "flash-block-count",
            PropertyTagDiscriminants::AvailableCommands => "available-commands",
            PropertyTagDiscriminants::CRCCheckStatus => "crc-check-status",
            PropertyTagDiscriminants::LastError => "last-error",
            PropertyTagDiscriminants::VerifyWrites => "verify-writes",
            PropertyTagDiscriminants::MaxPacketSize => "max-packet-size",
            PropertyTagDiscriminants::ReservedRegions => "reserved-regions",
            PropertyTagDiscriminants::ValidateRegions => "validate-regions",
            PropertyTagDiscriminants::RAMStartAddress => "ram-start-address",
            PropertyTagDiscriminants::RAMSize => "ram-size",
            PropertyTagDiscriminants::SystemDeviceId => "system-device-id",
            PropertyTagDiscriminants::FlashSecurityState => "flash-security-state",
            PropertyTagDiscriminants::UniqueDeviceId => "unique-device-id",
            PropertyTagDiscriminants::FlashFacSupport => "flash-fac-support",
            PropertyTagDiscriminants::FlashAccessSegmentSize => "flash-access-segment-size",
            PropertyTagDiscriminants::FlashAccessSegmentCount => "flash-access-segment-count",
            PropertyTagDiscriminants::FlashReadMargin => "flash-read-margin",
            PropertyTagDiscriminants::QSPIInitStatus => "qspi-init-status",
            PropertyTagDiscriminants::TargetVersion => "target-version",
            PropertyTagDiscriminants::ExternalMemoryAttributes => "external-memory-attributes",
            PropertyTagDiscriminants::ReliableUpdateStatus => "reliable-update-status",
            PropertyTagDiscriminants::FlashPageSize => "flash-page-size",
            PropertyTagDiscriminants::IrqNotifierPin => "irq-notifier-pin",
            PropertyTagDiscriminants::PFRKeystoreUpdateOpt => "pfr-keystore-update-opt",
            PropertyTagDiscriminants::ByteWriteTimeoutMs => "byte-write-timeout-ms",
            PropertyTagDiscriminants::FuseLockedStatus => "fuse-locked-status",
            PropertyTagDiscriminants::BootStatusRegister => "boot-status-register",
            PropertyTagDiscriminants::FirmwareVersion => "firmware-version",
            PropertyTagDiscriminants::FuseProgramVoltage => "fuse-program-voltage",
            PropertyTagDiscriminants::VerifyErase => "verify-erase",
            PropertyTagDiscriminants::SHEFlashPartition => "she-flash-partition",
            PropertyTagDiscriminants::SHEBootMode => "she-boot-mode",
            PropertyTagDiscriminants::LifeCycleState => "life-cycle-state",
        }
    }

    /// Looks a property up by its name.
    pub fn from_name(s: &str) -> (r: Option<PropertyTagDiscriminants>)
        ensures
            r == Self::spec_from_name(s@),
    {
        if str_equal(s, "current-version") {
            Some(PropertyTagDiscriminants::CurrentVersion)
        } else if str_equal(s, "available-peripherals") {
            Some(PropertyTagDiscriminants::AvailablePeripherals)
        } else if str_equal(s, "flash-start-address") {
            Some(PropertyTagDiscriminants::FlashStartAddress)
        } else if str_equal(s, "flash-size") {
            Some(PropertyTagDiscriminants::FlashSize)
        } else if str_equal(s, "flash-sector-size") {
            Some(PropertyTagDiscriminants::FlashSectorSize)
        } else if str_equal(s, "flash-block-count") {
            Some(PropertyTagDiscriminants::FlashBlockCount)
        } else if str_equal(s, "available-commands") {
            Some(PropertyTagDiscriminants::AvailableCommands)
        } else if str_equal(s, "crc-check-status") {
            Some(PropertyTagDiscriminants::CRCCheckStatus)
        } else if str_equal(s, "last-error") {
            Some(PropertyTagDiscriminants::LastError)
        } else if str_equal(s, "verify-writes") {
            Some(PropertyTagDiscriminants::VerifyWrites)
        } else if str_equal(s, "max-packet-size") {
            Some(PropertyTagDiscriminants::MaxPacketSize)
        } else if str_equal(s, "reserved-regions") {
            Some(PropertyTagDiscriminants::ReservedRegions)
        } else if str_equal(s, "validate-regions") {
            Some(PropertyTagDiscriminants::ValidateRegions)
        } else if str_equal(s, "ram-start-address") {
            Some(PropertyTagDiscriminants::RAMStartAddress)
        } else if str_equal(s, "ram-size") {
            Some(PropertyTagDiscriminants::RAMSize)
        } else if str_equal(s, "system-device-id") {
            Some(PropertyTagDiscriminants::SystemDeviceId)
        } else if str_equal(s, "flash-security-state") {
            Some(PropertyTagDiscriminants::FlashSecurityState)
        } else if str_equal(s, "unique-device-id") {
            Some(PropertyTagDiscriminants::UniqueDeviceId)
        } else if str_equal(s, "flash-fac-support") {
            Some(PropertyTagDiscriminants::FlashFacSupport)
        } else if str_equal(s, "flash-access-segment-size") {
            Some(PropertyTagDiscriminants::FlashAccessSegmentSize)
        } else if str_equal(s, "flash-access-segment-count") {
            Some(PropertyTagDiscriminants::FlashAccessSegmentCount)
        } else if str_equal(s, "flash-read-margin") {
            Some(PropertyTagDiscriminants::FlashReadMargin)
        } else if str_equal(s, "qspi-init-status") {
            Some(PropertyTagDiscriminants::QSPIInitStatus)
        } else if str_equal(s, "target-version") {
            Some(PropertyTagDiscriminants::TargetVersion)
        } else if str_equal(s, "external-memory-attributes") {
            Some(PropertyTagDiscriminants::ExternalMemoryAttributes)
        } else if str_equal(s, "reliable-update-status") {
            Some(PropertyTagDiscriminants::ReliableUpdateStatus)
        } else if str_equal(s, "flash-page-size") {
            Some(PropertyTagDiscriminants::FlashPageSize)
        } else if str_equal(s, "irq-notifier-pin") {
            Some(PropertyTagDiscriminants::IrqNotifierPin)
        } else if str_equal(s, "pfr-keystore-update-opt") {
            Some(PropertyTagDiscriminants::PFRKeystoreUpdateOpt)
        } else if str_equal(s, "byte-write-timeout-ms") {
            Some(PropertyTagDiscriminants::ByteWriteTimeoutMs)
        } else if str_equal(s, "fuse-locked-status") {
            Some(PropertyTagDiscriminants::FuseLockedStatus)
        } else if str_equal(s, "boot-status-register") {
            Some(PropertyTagDiscriminants::BootStatusRegister)
        } else if str_equal(s, "firmware-version") {
            Some(PropertyTagDiscriminants::FirmwareVersion)
        } else if str_equal(s, "fuse-program-voltage") {
            Some(PropertyTagDiscriminants::FuseProgramVoltage)
        } else if str_equal(s, "verify-erase") {
            Some(PropertyTagDiscriminants::VerifyErase)
        } else if str_equal(s, "she-flash-partition") {
            Some(PropertyTagDiscriminants::SHEFlashPartition)
        } else if str_equal(s, "she-boot-mode") {
            Some(PropertyTagDiscriminants::SHEBootMode)
        } else if str_equal(s, "life-cycle-state") {
            Some(PropertyTagDiscriminants::LifeCycleState)
        } else {
            None
        }
    }
}

impl From<PropertyTagDiscriminants> for u8 {
    fn from(value: PropertyTagDiscriminants) -> (c: u8) {
        value.code()
    }
}

impl vstd::std_specs::convert::FromSpecImpl<PropertyTagDiscriminants> for u8 {
    open spec fn obeys_from_spec() -> bool {
        true
    }

    open spec fn from_spec(v: PropertyTagDiscriminants) -> u8 {
        v.spec_code()
    }
}

impl TryFrom<u8> for PropertyTagDiscriminants {
    type Error = u8;

    /// Decodes a property code; an unknown code is handed back as the error.
    fn try_from(value: u8) -> (r: Result<PropertyTagDiscriminants, u8>) {
        match value {
            0x01 => Ok(PropertyTagDiscriminants::CurrentVersion),
            0x02 => Ok(PropertyTagDiscriminants::AvailablePeripherals),
            0x03 => Ok(PropertyTagDiscriminants::FlashStartAddress),
            0x04 => Ok(PropertyTagDiscriminants::FlashSize),
            0x05 => Ok(PropertyTagDiscriminants::FlashSectorSize),
            0x06 => Ok(PropertyTagDiscriminants::FlashBlockCount),
            0x07 => Ok(PropertyTagDiscriminants::AvailableCommands),
            0x08 => Ok(PropertyTagDiscriminants::CRCCheckStatus),
            0x09 => Ok(PropertyTagDiscriminants::LastError),
            0x0A => Ok(PropertyTagDiscriminants::VerifyWrites),
            0x0B => Ok(PropertyTagDiscriminants::MaxPacketSize),
            0x0C => Ok(PropertyTagDiscriminants::ReservedRegions),
            0x0D => Ok(PropertyTagDiscriminants::ValidateRegions),
            0x0E => Ok(PropertyTagDiscriminants::RAMStartAddress),
            0x0F => Ok(PropertyTagDiscriminants::RAMSize),
            0x10 => Ok(PropertyTagDiscriminants::SystemDeviceId),
            0x11 => Ok(PropertyTagDiscriminants::FlashSecurityState),
            0x12 => Ok(PropertyTagDiscriminants::UniqueDeviceId),
            0x13 => Ok(PropertyTagDiscriminants::FlashFacSupport),
            0x14 => Ok(PropertyTagDiscriminants::FlashAccessSegmentSize),
            0x15 => Ok(PropertyTagDiscriminants::FlashAccessSegmentCount),
            0x16 => Ok(PropertyTagDiscriminants::FlashReadMargin),
            0x17 => Ok(PropertyTagDiscriminants::QSPIInitStatus),
            0x18 => Ok(PropertyTagDiscriminants::TargetVersion),
            0x19 => Ok(PropertyTagDiscriminants::ExternalMemoryAttributes),
            0x1A => Ok(PropertyTagDiscriminants::ReliableUpdateStatus),
            0x1B => Ok(PropertyTagDiscriminants::FlashPageSize),
            0x1C => Ok(PropertyTagDiscriminants::IrqNotifierPin),
            0x1D => Ok(PropertyTagDiscriminants::PFRKeystoreUpdateOpt),
            0x1E => Ok(PropertyTagDiscriminants::ByteWriteTimeoutMs),
            0x1F => Ok(PropertyTagDiscriminants::FuseLockedStatus),
            0x20 => Ok(PropertyTagDiscriminants::BootStatusRegister),
            0x21 => Ok(PropertyTagDiscriminants::FirmwareVersion),
            0x22 => Ok(PropertyTagDiscriminants::FuseProgramVoltage),
            0x23 => Ok(PropertyTagDiscriminants::VerifyErase),
            0x24 => Ok(PropertyTagDiscriminants::SHEFlashPartition),
            0x25 => Ok(PropertyTagDiscriminants::SHEBootMode),
            0x26 => Ok(PropertyTagDiscriminants::LifeCycleState),
            _ => Err(value),
        }
    }
}

impl vstd::std_specs::convert::TryFromSpecImpl<u8> for PropertyTagDiscriminants {
    open spec fn obeys_try_from_spec() -> bool {
        true
    }

    open spec fn try_from_spec(v: u8) -> Result<PropertyTagDiscriminants, u8> {
        match PropertyTagDiscriminants::from_code(v) {
            Some(t) => Ok(t),
            None => Err(v),
        }
    }
}

/// Codes and properties correspond one to one: every property is recovered
/// from its own code, and a byte decodes to a property only if it is that
/// property's code.
pub proof fn lemma_property_code_roundtrip(t: PropertyTagDiscriminants, c: u8)
    ensures
        PropertyTagDiscriminants::from_code(t.spec_code()) == Some(t),
        PropertyTagDiscriminants::from_code(c) == Some(t) <==> c == t.spec_code(),
{
}

impl PropertyTag {
    /// The property that this value belongs to.
    pub open spec fn spec_discriminant(&self) -> PropertyTagDiscriminants {
        match self {
            PropertyTag::CurrentVersion(_) => PropertyTagDiscriminants::CurrentVersion,
            PropertyTag::AvailablePeripherals(_) => PropertyTagDiscriminants::AvailablePeripherals,
            PropertyTag::FlashStartAddress(_) => PropertyTagDiscriminants::FlashStartAddress,
            PropertyTag::FlashSize(_) => PropertyTagDiscriminants::FlashSize,
            PropertyTag::FlashSectorSize(_) => PropertyTagDiscriminants::FlashSectorSize,
            PropertyTag::FlashBlockCount(_) => PropertyTagDiscriminants::FlashBlockCount,
            PropertyTag::AvailableCommands(_) => PropertyTagDiscriminants::AvailableCommands,
            PropertyTag::CRCCheckStatus(_) => PropertyTagDiscriminants::CRCCheckStatus,
            PropertyTag::LastError(_) => PropertyTagDiscriminants::LastError,
            PropertyTag::VerifyWrites(_) => PropertyTagDiscriminants::VerifyWrites,
            PropertyTag::MaxPacketSize(_) => PropertyTagDiscriminants::MaxPacketSize,
            PropertyTag::ReservedRegions(_) => PropertyTagDiscriminants::ReservedRegions,
            PropertyTag::ValidateRegions(_) => PropertyTagDiscriminants::ValidateRegions,
            PropertyTag::RAMStartAddress(_) => PropertyTagDiscriminants::RAMStartAddress,
            PropertyTag::RAMSize(_) => PropertyTagDiscriminants::RAMSize,
            PropertyTag::SystemDeviceId(_) => PropertyTagDiscriminants::SystemDeviceId,
            PropertyTag::FlashSecurityState(_) => PropertyTagDiscriminants::FlashSecurityState,
            PropertyTag::UniqueDeviceId(_) => PropertyTagDiscriminants::UniqueDeviceId,
            PropertyTag::FlashFacSupport(_) => PropertyTagDiscriminants::FlashFacSupport,
            PropertyTag::FlashAccessSegmentSize(_) => PropertyTagDiscriminants::FlashAccessSegmentSize,
            PropertyTag::FlashAccessSegmentCount(_) => PropertyTagDiscriminants::FlashAccessSegmentCount,
            PropertyTag::FlashReadMargin(_) => PropertyTagDiscriminants::FlashReadMargin,
            PropertyTag::QSPIInitStatus(_) => PropertyTagDiscriminants::QSPIInitStatus,
            PropertyTag::TargetVersion(_) => PropertyTagDiscriminants::TargetVersion,
            PropertyTag::ExternalMemoryAttributes(_) => PropertyTagDiscriminants::ExternalMemoryAttributes,
            PropertyTag::ReliableUpdateStatus(_) => PropertyTagDiscriminants::ReliableUpdateStatus,
            PropertyTag::FlashPageSize(_) => PropertyTagDiscriminants::FlashPageSize,
            PropertyTag::IrqNotifierPin(_) => PropertyTagDiscriminants::IrqNotifierPin,
            PropertyTag::PFRKeystoreUpdateOpt(_) => PropertyTagDiscriminants::PFRKeystoreUpdateOpt,
            PropertyTag::ByteWriteTimeoutMs(_) => PropertyTagDiscriminants::ByteWriteTimeoutMs,
            PropertyTag::FuseLockedStatus => PropertyTagDiscriminants::FuseLockedStatus,
            PropertyTag::BootStatusRegister(_) => PropertyTagDiscriminants::BootStatusRegister,
            PropertyTag::FirmwareVersion(_) => PropertyTagDiscriminants::FirmwareVersion,
            PropertyTag::FuseProgramVoltage(_) => PropertyTagDiscriminants::FuseProgramVoltage,
            PropertyTag::VerifyErase(_) => PropertyTagDiscriminants::VerifyErase,
            PropertyTag::SHEFlashPartition(_) => PropertyTagDiscriminants::SHEFlashPartition,
            PropertyTag::SHEBootMode(_) => PropertyTagDiscriminants::SHEBootMode,
            PropertyTag::LifeCycleState(_) => PropertyTagDiscriminants::LifeCycleState,
        }
    }

    /// The property that this value belongs to.
    pub fn discriminant(&self) -> (d: PropertyTagDiscriminants)
        ensures
            d == self.spec_discriminant(),
    {
        match self {
            PropertyTag::CurrentVersion(_) => PropertyTagDiscriminants::CurrentVersion,
            PropertyTag::AvailablePeripherals(_) => PropertyTagDiscriminants::AvailablePeripherals,
            PropertyTag::FlashStartAddress(_) => PropertyTagDiscriminants::FlashStartAddress,
            PropertyTag::FlashSize(_) => PropertyTagDiscriminants::FlashSize,
            PropertyTag::FlashSectorSize(_) => PropertyTagDiscriminants::FlashSectorSize,
            PropertyTag::FlashBlockCount(_) => PropertyTagDiscriminants::FlashBlockCount,
            PropertyTag::AvailableCommands(_) => PropertyTagDiscriminants::AvailableCommands,
            PropertyTag::CRCCheckStatus(_) => PropertyTagDiscriminants::CRCCheckStatus,
            PropertyTag::LastError(_) => PropertyTagDiscriminants::LastError,
            PropertyTag::VerifyWrites(_) => PropertyTagDiscriminants::VerifyWrites,
            PropertyTag::MaxPacketSize(_) => PropertyTagDiscriminants::MaxPacketSize,
            PropertyTag::ReservedRegions(_) => PropertyTagDiscriminants::ReservedRegions,
            PropertyTag::ValidateRegions(_) => PropertyTagDiscriminants::ValidateRegions,
            PropertyTag::RAMStartAddress(_) => PropertyTagDiscriminants::RAMStartAddress,
            PropertyTag::RAMSize(_) => PropertyTagDiscriminants::RAMSize,
            PropertyTag::SystemDeviceId(_) => PropertyTagDiscriminants::SystemDeviceId,
            PropertyTag::FlashSecurityState(_) => PropertyTagDiscriminants::FlashSecurityState,
            PropertyTag::UniqueDeviceId(_) => PropertyTagDiscriminants::UniqueDeviceId,
            PropertyTag::FlashFacSupport(_) => PropertyTagDiscriminants::FlashFacSupport,
            PropertyTag::FlashAccessSegmentSize(_) => PropertyTagDiscriminants::FlashAccessSegmentSize,
            PropertyTag::FlashAccessSegmentCount(_) => PropertyTagDiscriminants::FlashAccessSegmentCount,
            PropertyTag::FlashReadMargin(_) => PropertyTagDiscriminants::FlashReadMargin,
            PropertyTag::QSPIInitStatus(_) => PropertyTagDiscriminants::QSPIInitStatus,
            PropertyTag::TargetVersion(_) => PropertyTagDiscriminants::TargetVersion,
            PropertyTag::ExternalMemoryAttributes(_) => PropertyTagDiscriminants::ExternalMemoryAttributes,
            PropertyTag::ReliableUpdateStatus(_) => PropertyTagDiscriminants::ReliableUpdateStatus,
            PropertyTag::FlashPageSize(_) => PropertyTagDiscriminants::FlashPageSize,
            PropertyTag::IrqNotifierPin(_) => PropertyTagDiscriminants::IrqNotifierPin,
            PropertyTag::PFRKeystoreUpdateOpt(_) => PropertyTagDiscriminants::PFRKeystoreUpdateOpt,
            PropertyTag::ByteWriteTimeoutMs(_) => PropertyTagDiscriminants::ByteWriteTimeoutMs,
            PropertyTag::FuseLockedStatus => PropertyTagDiscriminants::FuseLockedStatus,
            PropertyTag::BootStatusRegister(_) => PropertyTagDiscriminants::BootStatusRegister,
            PropertyTag::FirmwareVersion(_) => PropertyTagDiscriminants::FirmwareVersion,
            PropertyTag::FuseProgramVoltage(_) => PropertyTagDiscriminants::FuseProgramVoltage,
            PropertyTag::VerifyErase(_) => PropertyTagDiscriminants::VerifyErase,
            PropertyTag::SHEFlashPartition(_) => PropertyTagDiscriminants::SHEFlashPartition,
            PropertyTag::SHEBootMode(_) => PropertyTagDiscriminants::SHEBootMode,
            PropertyTag::LifeCycleState(_) => PropertyTagDiscriminants::LifeCycleState,
        }
    }
}

impl PropertyTag {
    /// Whether a reply to a query for `tag` can be decoded: the words that the
    /// value is read from are there, a status word holds a documented status,
    /// and the property is one whose value has a known layout. The values of
    /// [`PropertyTagDiscriminants::LastError`] and
    /// [`PropertyTagDiscriminants::FuseLockedStatus`] have none.
    pub open spec fn decodable(tag: PropertyTagDiscriminants, data: Seq<u32>) -> bool {
        match tag {
            PropertyTagDiscriminants::LastError | PropertyTagDiscriminants::FuseLockedStatus => false,
            PropertyTagDiscriminants::UniqueDeviceId => true,
            PropertyTagDiscriminants::ReservedRegions => data.len() >= 2 && data.len() % 2 == 0,
            PropertyTagDiscriminants::ExternalMemoryAttributes => ExternalMemoryAttributes::well_formed(
                data,
            ),
            PropertyTagDiscriminants::CRCCheckStatus
            | PropertyTagDiscriminants::QSPIInitStatus
            | PropertyTagDiscriminants::ReliableUpdateStatus => data.len() >= 1
                && StatusCode::from_code(data[0]) is Some,
            _ => data.len() >= 1,
        }
    }

    /// Whether `self` is the value that a decodable reply to a query for `tag`
    /// spells out. A value that holds a list is held to the list's contents.
    pub open spec fn is_value_of(&self, tag: PropertyTagDiscriminants, data: Seq<u32>) -> bool {
        match tag {
            PropertyTagDiscriminants::CurrentVersion => *self == PropertyTag::CurrentVersion(
                Version::spec_parse(data[0]),
            ),
            PropertyTagDiscriminants::TargetVersion => *self == PropertyTag::TargetVersion(
                Version::spec_parse(data[0]),
            ),
            PropertyTagDiscriminants::UniqueDeviceId => self matches PropertyTag::UniqueDeviceId(id)
                && id@ == words_to_le_bytes(data),
            PropertyTagDiscriminants::AvailablePeripherals => self matches PropertyTag::AvailablePeripherals(
                list,
            ) && list@ == PeripheryTag::in_mask(data[0]),
            PropertyTagDiscriminants::AvailableCommands => self matches PropertyTag::AvailableCommands(
                list,
            ) && list@ == CommandTagDiscriminants::in_mask(data[0]),
            PropertyTagDiscriminants::ReservedRegions => self matches PropertyTag::ReservedRegions(
                regions,
            ) && regions@ == ReservedRegions::pairs(data.skip(2)),
            PropertyTagDiscriminants::ExternalMemoryAttributes => *self
                == PropertyTag::ExternalMemoryAttributes(ExternalMemoryAttributes::spec_parse(data)),
            PropertyTagDiscriminants::CRCCheckStatus => StatusCode::from_code(data[0]) matches Some(
                status,
            ) && *self == PropertyTag::CRCCheckStatus(status),
            PropertyTagDiscriminants::QSPIInitStatus => StatusCode::from_code(data[0]) matches Some(
                status,
            ) && *self == PropertyTag::QSPIInitStatus(status),
            PropertyTagDiscriminants::ReliableUpdateStatus => StatusCode::from_code(data[0]) matches Some(
                status,
            ) && *self == PropertyTag::ReliableUpdateStatus(status),
            PropertyTagDiscriminants::FlashStartAddress => *self == PropertyTag::FlashStartAddress(
                data[0],
            ),
            PropertyTagDiscriminants::FlashSize => *self == PropertyTag::FlashSize(data[0]),
            PropertyTagDiscriminants::FlashSectorSize => *self == PropertyTag::FlashSectorSize(
                data[0],
            ),
            PropertyTagDiscriminants::FlashBlockCount => *self == PropertyTag::FlashBlockCount(
                data[0],
            ),
            PropertyTagDiscriminants::VerifyWrites => *self == PropertyTag::VerifyWrites(data[0] != 0),
            PropertyTagDiscriminants::MaxPacketSize => *self == PropertyTag::MaxPacketSize(data[0]),
            PropertyTagDiscriminants::ValidateRegions => *self == PropertyTag::ValidateRegions(
                data[0] != 0,
            ),
            PropertyTagDiscriminants::RAMStartAddress => *self == PropertyTag::RAMStartAddress(
                data[0],
            ),
            PropertyTagDiscriminants::RAMSize => *self == PropertyTag::RAMSize(data[0]),
            PropertyTagDiscriminants::SystemDeviceId => *self == PropertyTag::SystemDeviceId(data[0]),
            PropertyTagDiscriminants::FlashSecurityState => *self == PropertyTag::FlashSecurityState(
                FlashSecurityState(is_open_state(data[0])),
            ),
            PropertyTagDiscriminants::FlashFacSupport => *self == PropertyTag::FlashFacSupport(
                data[0] != 0,
            ),
            PropertyTagDiscriminants::FlashAccessSegmentSize => *self
                == PropertyTag::FlashAccessSegmentSize(data[0]),
            PropertyTagDiscriminants::FlashAccessSegmentCount => *self
                == PropertyTag::FlashAccessSegmentCount(data[0]),
            PropertyTagDiscriminants::FlashReadMargin => *self == PropertyTag::FlashReadMargin(
                FlashReadMargin::spec_parse(data[0]),
            ),
            PropertyTagDiscriminants::FlashPageSize => *self == PropertyTag::FlashPageSize(data[0]),
            PropertyTagDiscriminants::IrqNotifierPin => *self == PropertyTag::IrqNotifierPin(
                IrqNotifierPin::spec_parse(data[0]),
            ),
            PropertyTagDiscriminants::PFRKeystoreUpdateOpt => *self
                == PropertyTag::PFRKeystoreUpdateOpt(PfrKeystoreUpdateOpt::spec_parse(data[0])),
            PropertyTagDiscriminants::ByteWriteTimeoutMs => *self == PropertyTag::ByteWriteTimeoutMs(
                data[0],
            ),
            PropertyTagDiscriminants::BootStatusRegister => *self == PropertyTag::BootStatusRegister(
                data[0],
            ),
            PropertyTagDiscriminants::FirmwareVersion => *self == PropertyTag::FirmwareVersion(
                data[0],
            ),
            PropertyTagDiscriminants::FuseProgramVoltage => *self == PropertyTag::FuseProgramVoltage(
                FuseProgramVoltage(data[0] != 0),
            ),
            PropertyTagDiscriminants::VerifyErase => *self == PropertyTag::VerifyErase(data[0] != 0),
            PropertyTagDiscriminants::SHEFlashPartition => *self == PropertyTag::SHEFlashPartition(
                SHEFlashPartition::spec_parse(data[0]),
            ),
            PropertyTagDiscriminants::SHEBootMode => *self == PropertyTag::SHEBootMode(
                SHEBootMode::spec_parse(data[0]),
            ),
            PropertyTagDiscriminants::LifeCycleState => *self == PropertyTag::LifeCycleState(
                LifeCycleState(is_open_state(data[0])),
            ),
            PropertyTagDiscriminants::LastError | PropertyTagDiscriminants::FuseLockedStatus => false,
        }
    }

    /// Tells whether [`PropertyTag::from_code`] decodes a reply to a query for
    /// `tag`.
    pub fn is_decodable(tag: PropertyTagDiscriminants, data: &[u32]) -> (b: bool)
        ensures
            b == Self::decodable(tag, data@),
    {
        match tag {
            PropertyTagDiscriminants::LastError | PropertyTagDiscriminants::FuseLockedStatus => false,
            PropertyTagDiscriminants::UniqueDeviceId => true,
            PropertyTagDiscriminants::ReservedRegions => data.len() >= 2 && data.len() % 2 == 0,
            PropertyTagDiscriminants::ExternalMemoryAttributes => ExternalMemoryAttributes::is_well_formed(
                data,
            ),
            PropertyTagDiscriminants::CRCCheckStatus
            | PropertyTagDiscriminants::QSPIInitStatus
            | PropertyTagDiscriminants::ReliableUpdateStatus => data.len() >= 1 && StatusCode::try_from(
                data[0],
            ).is_ok(),
            _ => data.len() >= 1,
        }
    }

    /// Why a reply that cannot be decoded is refused: a status word outside the
    /// documented set is reported as [`StatusCode::UnknownStatusCode`] together
    /// with the word; a property without a known layout, and a reply that lacks
    /// words or has words too many, give `InvalidData`.
    pub open spec fn refusal(tag: PropertyTagDiscriminants, data: Seq<u32>) -> CommunicationError {
        if (tag == PropertyTagDiscriminants::CRCCheckStatus || tag
            == PropertyTagDiscriminants::QSPIInitStatus || tag
            == PropertyTagDiscriminants::ReliableUpdateStatus) && data.len() >= 1 {
            CommunicationError::UnexpectedStatus(StatusCode::UnknownStatusCode, data[0])
        } else {
            CommunicationError::InvalidData
        }
    }

    /// Decodes the value of a property from the words of a reply, and refuses
    /// a reply that cannot be decoded.
    pub fn from_code(tag: PropertyTagDiscriminants, data: &[u32]) -> (r: ResultComm<PropertyTag>)
        ensures
            Self::decodable(tag, data@) ==> (r matches Ok(value) && value.is_value_of(tag, data@)
                && value.spec_discriminant() == tag),
            !Self::decodable(tag, data@) ==> r == Err::<PropertyTag, CommunicationError>(
                Self::refusal(tag, data@),
            ),
    {
        if Self::is_decodable(tag, data) {
            return Ok(Self::decode(tag, data));
        }
        match tag {
            PropertyTagDiscriminants::CRCCheckStatus
            | PropertyTagDiscriminants::QSPIInitStatus
            | PropertyTagDiscriminants::ReliableUpdateStatus => if data.len() >= 1 {
                Err(CommunicationError::UnexpectedStatus(StatusCode::UnknownStatusCode, data[0]))
            } else {
                Err(CommunicationError::InvalidData)
            },
            _ => Err(CommunicationError::InvalidData),
        }
    }

    /// Decodes the value of a property from the words of a decodable reply.
    fn decode(tag: PropertyTagDiscriminants, data: &[u32]) -> (value: PropertyTag)
        requires
            Self::decodable(tag, data@),
        ensures
            value.is_value_of(tag, data@),
            value.spec_discriminant() == tag,
    {
        match tag {
            PropertyTagDiscriminants::CurrentVersion => PropertyTag::CurrentVersion(
                Version::parse(data[0]),
            ),
            PropertyTagDiscriminants::TargetVersion => PropertyTag::TargetVersion(
                Version::parse(data[0]),
            ),
            PropertyTagDiscriminants::UniqueDeviceId => PropertyTag::UniqueDeviceId(
                DeviceId(words_to_bytes(data)),
            ),
            PropertyTagDiscriminants::AvailablePeripherals => PropertyTag::AvailablePeripherals(
                PeripheryTag::from_mask(data[0]),
            ),
            PropertyTagDiscriminants::FlashStartAddress => PropertyTag::FlashStartAddress(data[0]),
            PropertyTagDiscriminants::FlashSize => PropertyTag::FlashSize(data[0]),
            PropertyTagDiscriminants::FlashSectorSize => PropertyTag::FlashSectorSize(data[0]),
            PropertyTagDiscriminants::AvailableCommands => PropertyTag::AvailableCommands(
                CommandTagDiscriminants::from_mask(data[0]),
            ),
            PropertyTagDiscriminants::CRCCheckStatus => match StatusCode::try_from(data[0]) {
                Ok(status) => PropertyTag::CRCCheckStatus(status),
                Err(_) => {
                    proof {
                        assert(false);
                    }
                    PropertyTag::CRCCheckStatus(StatusCode::UnknownStatusCode)
                },
            },
            PropertyTagDiscriminants::VerifyWrites => PropertyTag::VerifyWrites(data[0] != 0),
            PropertyTagDiscriminants::MaxPacketSize => PropertyTag::MaxPacketSize(data[0]),
            PropertyTagDiscriminants::ReservedRegions => {
                let rest = vstd::slice::slice_subrange(data, 2, data.len());
                assert(rest@ =~= data@.skip(2));
                PropertyTag::ReservedRegions(ReservedRegions::parse(rest))
            },
            PropertyTagDiscriminants::RAMStartAddress => PropertyTag::RAMStartAddress(data[0]),
            PropertyTagDiscriminants::RAMSize => PropertyTag::RAMSize(data[0]),
            PropertyTagDiscriminants::SystemDeviceId => PropertyTag::SystemDeviceId(data[0]),
            PropertyTagDiscriminants::FlashSecurityState => PropertyTag::FlashSecurityState(
                FlashSecurityState(data[0] == 0x0 || data[0] == 0x5AA5_5AA5),
            ),
            PropertyTagDiscriminants::ExternalMemoryAttributes => PropertyTag::ExternalMemoryAttributes(
                ExternalMemoryAttributes::parse(data),
            ),
            PropertyTagDiscriminants::FlashPageSize => PropertyTag::FlashPageSize(data[0]),
            PropertyTagDiscriminants::IrqNotifierPin => PropertyTag::IrqNotifierPin(
                IrqNotifierPin::parse(data[0]),
            ),
            PropertyTagDiscriminants::PFRKeystoreUpdateOpt => PropertyTag::PFRKeystoreUpdateOpt(
                PfrKeystoreUpdateOpt::parse(data[0]),
            ),
            PropertyTagDiscriminants::ByteWriteTimeoutMs => PropertyTag::ByteWriteTimeoutMs(data[0]),
            PropertyTagDiscriminants::BootStatusRegister => PropertyTag::BootStatusRegister(data[0]),
            PropertyTagDiscriminants::FirmwareVersion => PropertyTag::FirmwareVersion(data[0]),
            PropertyTagDiscriminants::FuseProgramVoltage => PropertyTag::FuseProgramVoltage(
                FuseProgramVoltage::parse(data[0]),
            ),
            PropertyTagDiscriminants::VerifyErase => PropertyTag::VerifyErase(data[0] != 0),
            PropertyTagDiscriminants::SHEFlashPartition => PropertyTag::SHEFlashPartition(
                SHEFlashPartition::parse(data[0]),
            ),
            PropertyTagDiscriminants::SHEBootMode => PropertyTag::SHEBootMode(
                SHEBootMode::parse(data[0]),
            ),
            PropertyTagDiscriminants::LifeCycleState => PropertyTag::LifeCycleState(
                LifeCycleState(data[0] == 0x0 || data[0] == 0x5AA5_5AA5),
            ),
            PropertyTagDiscriminants::FlashBlockCount => PropertyTag::FlashBlockCount(data[0]),
            PropertyTagDiscriminants::FlashAccessSegmentCount => PropertyTag::FlashAccessSegmentCount(
                data[0],
            ),
            PropertyTagDiscriminants::ValidateRegions => PropertyTag::ValidateRegions(data[0] != 0),
            PropertyTagDiscriminants::FlashFacSupport => PropertyTag::FlashFacSupport(data[0] != 0),
            PropertyTagDiscriminants::FlashAccessSegmentSize => PropertyTag::FlashAccessSegmentSize(
                data[0],
            ),
            PropertyTagDiscriminants::FlashReadMargin => PropertyTag::FlashReadMargin(
                FlashReadMargin::parse(data[0]),
            ),
            PropertyTagDiscriminants::QSPIInitStatus => match StatusCode::try_from(data[0]) {
                Ok(status) => PropertyTag::QSPIInitStatus(status),
                Err(_) => {
                    proof {
                        assert(false);
                    }
                    PropertyTag::QSPIInitStatus(StatusCode::UnknownStatusCode)
                },
            },
            PropertyTagDiscriminants::ReliableUpdateStatus => match StatusCode::try_from(data[0]) {
                Ok(status) => PropertyTag::ReliableUpdateStatus(status),
                Err(_) => {
                    proof {
                        assert(false);
                    }
                    PropertyTag::ReliableUpdateStatus(StatusCode::UnknownStatusCode)
                },
            },
            PropertyTagDiscriminants::FuseLockedStatus | PropertyTagDiscriminants::LastError => {
                proof {
                    assert(false);
                }
                PropertyTag::FuseLockedStatus
            },
        }
    }
}

impl PropertyTag {
    /// The word that stands for a switch.
    pub open spec fn bool_word(b: bool) -> u32 {
        if b {
            1
        } else {
            0
        }
    }

    /// The word that stands for a security or life cycle state: zero for the
    /// open pole, one for the other.
    pub open spec fn state_word(open: bool) -> u32 {
        if open {
            0
        } else {
            1
        }
    }

    /// The reply that spells this value out.
    pub open spec fn spec_words(&self) -> Seq<u32> {
        match self {
            PropertyTag::CurrentVersion(v) | PropertyTag::TargetVersion(v) => seq![v.spec_word()],
            PropertyTag::UniqueDeviceId(id) => le_bytes_to_words(id@),
            PropertyTag::ReservedRegions(regions) => ReservedRegions::spec_words(regions@),
            PropertyTag::ExternalMemoryAttributes(attributes) => attributes.spec_words(),
            PropertyTag::CRCCheckStatus(status)
            | PropertyTag::QSPIInitStatus(status)
            | PropertyTag::ReliableUpdateStatus(status) => seq![status.spec_code()],
            PropertyTag::VerifyWrites(b)
            | PropertyTag::ValidateRegions(b)
            | PropertyTag::FlashFacSupport(b)
            | PropertyTag::VerifyErase(b) => seq![Self::bool_word(*b)],
            PropertyTag::FuseProgramVoltage(voltage) => seq![Self::bool_word(voltage.0)],
            PropertyTag::FlashSecurityState(state) => seq![Self::state_word(state.0)],
            PropertyTag::LifeCycleState(state) => seq![Self::state_word(state.0)],
            PropertyTag::FlashReadMargin(margin) => seq![margin.spec_word()],
            PropertyTag::IrqNotifierPin(pin) => seq![pin.spec_word()],
            PropertyTag::PFRKeystoreUpdateOpt(option) => seq![option.spec_word()],
            PropertyTag::SHEFlashPartition(partition) => seq![partition.spec_word()],
            PropertyTag::SHEBootMode(mode) => seq![mode.spec_word()],
            PropertyTag::FlashStartAddress(v)
            | PropertyTag::FlashSize(v)
            | PropertyTag::FlashSectorSize(v)
            | PropertyTag::FlashBlockCount(v)
            | PropertyTag::LastError(v)
            | PropertyTag::MaxPacketSize(v)
            | PropertyTag::RAMStartAddress(v)
            | PropertyTag::RAMSize(v)
            | PropertyTag::SystemDeviceId(v)
            | PropertyTag::FlashAccessSegmentSize(v)
            | PropertyTag::FlashAccessSegmentCount(v)
            | PropertyTag::FlashPageSize(v)
            | PropertyTag::ByteWriteTimeoutMs(v)
            | PropertyTag::BootStatusRegister(v)
            | PropertyTag::FirmwareVersion(v) => seq![*v],
            PropertyTag::AvailablePeripherals(list) => seq![PeripheryTag::mask_of(list@)],
            PropertyTag::AvailableCommands(list) => seq![CommandTagDiscriminants::mask_of(list@)],
            PropertyTag::FuseLockedStatus => seq![],
        }
    }

    /// Whether [`PropertyTag::spec_words`] spells this value out in full: every
    /// field is within what the words have room for, a status is a documented
    /// one, a list of peripherals or of commands is one that some mask lists,
    /// and the value is not of one of the two properties that have no known
    /// layout.
    pub open spec fn spelled_out(&self) -> bool {
        match self {
            PropertyTag::CurrentVersion(v) | PropertyTag::TargetVersion(v) => (v.mark as int)
                < 0x100,
            PropertyTag::UniqueDeviceId(id) => id@.len() % 4 == 0,
            PropertyTag::SHEFlashPartition(partition) => partition.max_keys < 4
                && partition.flash_size < 4,
            PropertyTag::SHEBootMode(mode) => mode.size < 0x4000_0000 && mode.mode < 4,
            PropertyTag::AvailablePeripherals(list) => exists|word: u32|
                list@ == #[trigger] PeripheryTag::in_mask(word),
            PropertyTag::AvailableCommands(list) => exists|word: u32|
                list@ == #[trigger] CommandTagDiscriminants::in_mask(word),
            PropertyTag::CRCCheckStatus(status)
            | PropertyTag::QSPIInitStatus(status)
            | PropertyTag::ReliableUpdateStatus(status) => *status
                != StatusCode::UnknownStatusCode,
            PropertyTag::LastError(_) | PropertyTag::FuseLockedStatus => false,
            _ => true,
        }
    }
}

/// A version with a mark below 256 is unpacked from the word that packs it.
pub proof fn lemma_version_roundtrip(v: Version)
    requires
        (v.mark as int) < 0x100,
    ensures
        Version::spec_parse(v.spec_word()) == v,
{
    let word = v.spec_word();
    let mark = v.mark as int;
    assert(word == mark * 0x100_0000 + v.major * 0x1_0000 + v.minor * 0x100 + v.fixation);
    assert(word / 0x100_0000 == mark);
    assert(word / 0x1_0000 == mark * 0x100 + v.major);
    assert(word / 0x100 == mark * 0x1_0000 + v.major * 0x100 + v.minor);
}

/// A pin is read back from the word that describes it.
pub proof fn lemma_irq_pin_roundtrip(pin: IrqNotifierPin)
    ensures
        IrqNotifierPin::spec_parse(pin.spec_word()) == pin,
{
}

/// A partitioning with codes below four is read back from the word that
/// describes it, and so is a boot mode with a size below 2^30 and a mode below
/// four.
pub proof fn lemma_she_roundtrip(partition: SHEFlashPartition, mode: SHEBootMode)
    ensures
        partition.max_keys < 4 && partition.flash_size < 4 ==> SHEFlashPartition::spec_parse(
            partition.spec_word(),
        ) == partition,
        mode.size < 0x4000_0000 && mode.mode < 4 ==> SHEBootMode::spec_parse(mode.spec_word())
            == mode,
{
}

/// Decoding inverts spelling out: the words that spell a value out are a
/// decodable reply to a query for its property, and they decode to that value.
pub proof fn lemma_property_roundtrip(value: PropertyTag)
    requires
        value.spelled_out(),
    ensures
        PropertyTag::decodable(value.spec_discriminant(), value.spec_words()),
        value.is_value_of(value.spec_discriminant(), value.spec_words()),
{
    match value {
        PropertyTag::CurrentVersion(v) | PropertyTag::TargetVersion(v) => {
            lemma_version_roundtrip(v);
        },
        PropertyTag::UniqueDeviceId(id) => {
            lemma_bytes_words_roundtrip(id@);
        },
        PropertyTag::ReservedRegions(regions) => {
            lemma_reserved_regions_roundtrip(regions@);
        },
        PropertyTag::ExternalMemoryAttributes(attributes) => {
            lemma_external_memory_roundtrip(attributes);
        },
        PropertyTag::CRCCheckStatus(status)
        | PropertyTag::QSPIInitStatus(status)
        | PropertyTag::ReliableUpdateStatus(status) => {
            super::status::lemma_status_code_roundtrip(status, 0);
        },
        PropertyTag::IrqNotifierPin(pin) => {
            lemma_irq_pin_roundtrip(pin);
        },
        PropertyTag::SHEFlashPartition(partition) => {
            lemma_she_roundtrip(partition, SHEBootMode { size: 0, mode: 0 });
        },
        PropertyTag::SHEBootMode(mode) => {
            lemma_she_roundtrip(SHEFlashPartition { max_keys: 0, flash_size: 0 }, mode);
        },
        PropertyTag::AvailablePeripherals(list) => {
            let word = choose|word: u32| list@ == #[trigger] PeripheryTag::in_mask(word);
            lemma_peripheral_mask_roundtrip(word);
        },
        PropertyTag::AvailableCommands(list) => {
            let word = choose|word: u32| list@ == #[trigger] CommandTagDiscriminants::in_mask(word);
            lemma_command_mask_roundtrip(word);
        },
        _ => {},
    }
}

impl ToAddress for PropertyTag {
    open spec fn spec_code(&self) -> u8 {
        self.spec_discriminant().spec_code()
    }

    fn code(&self) -> (c: u8) {
        self.discriminant().code()
    }
}

impl PropertyTagDiscriminants {
    /// The property that a text names: by its code where the text is a number
    /// that fits a byte, by its name otherwise.
    pub open spec fn spec_parse_property(s: Seq<char>) -> Option<PropertyTagDiscriminants> {
        match spec_parse_number(s, u8::MAX as int) {
            Some(n) => PropertyTagDiscriminants::from_code(n as u8),
            None => PropertyTagDiscriminants::spec_from_name(s),
        }
    }

    /// Reads a property from its code, decimal or hexadecimal behind `0x`, or
    /// from its name. The error says which of the two was not found.
    pub fn parse_property(s: &str) -> (r: Result<PropertyTagDiscriminants, &'static str>)
        ensures
            r matches Ok(t) ==> Self::spec_parse_property(s@) == Some(t),
            r matches Err(e) ==> (Self::spec_parse_property(s@) is None && e@ == (if spec_parse_number(
                s@,
                u8::MAX as int,
            ) is Some {
                "Could not find property with this number"@
            } else {
                "Property with this name does not exist"@
            })),
    {
        match parse_number::<u8>(s) {
            Ok(num) => match PropertyTagDiscriminants::try_from(num) {
                Ok(t) => Ok(t),
                Err(_) => Err("Could not find property with this number"),
            },
            Err(_) => match PropertyTagDiscriminants::from_name(s) {
                Some(t) => Ok(t),
                None => Err("Property with this name does not exist"),
            },
        }
    }
}

/// A bootloader version: a letter and three numbers.
#[derive(Clone, Copy, Debug, PartialEq, Eq, Structural)]
pub struct Version {
    /// Letter in front of the numbers.
    pub mark: char,
    /// Major number.
    pub major: u8,
    /// Minor number.
    pub minor: u8,
    /// Bugfix number.
    pub fixation: u8,
}

impl Version {
    /// The version that a word packs: mark, major, minor and bugfix number from
    /// the most significant byte down.
    pub open spec fn spec_parse(num: u32) -> Version {
        Version {
            mark: ((num / 0x100_0000) as u8) as char,
            major: (num / 0x1_0000 % 0x100) as u8,
            minor: (num / 0x100 % 0x100) as u8,
            fixation: (num % 0x100) as u8,
        }
    }

    /// The word that packs this version.
    pub open spec fn spec_word(self) -> u32 {
        (self.mark as u32 * 0x100_0000 + self.major * 0x1_0000 + self.minor * 0x100
            + self.fixation) as u32
    }

    /// The version as text: the mark, then the three numbers with dots between
    /// them.
    pub open spec fn spec_text(self) -> Seq<char> {
        seq![self.mark] + decimal_text(self.major as nat) + seq!['.'] + decimal_text(
            self.minor as nat,
        ) + seq!['.'] + decimal_text(self.fixation as nat)
    }

    /// The version as text.
    pub fn to_string(&self) -> (text: String)
        ensures
            text@ == self.spec_text(),
    {
        let mut text = char_text(self.mark);
        let major = decimal(self.major as u32);
        let minor = decimal(self.minor as u32);
        let fixation = decimal(self.fixation as u32);
        proof {
            reveal_strlit(".");
        }
        text.append(major.as_str());
        text.append(".");
        text.append(minor.as_str());
        text.append(".");
        text.append(fixation.as_str());
        assert(text@ =~= self.spec_text());
        text
    }

    /// Unpacks a version from a word.
    pub fn parse(num: u32) -> (v: Version)
        ensures
            v == Self::spec_parse(num),
    {
        Version {
            mark: ((num / 0x100_0000) as u8) as char,
            major: (num / 0x1_0000 % 0x100) as u8,
            minor: (num / 0x100 % 0x100) as u8,
            fixation: (num % 0x100) as u8,
        }
    }
}

/// A peripheral through which the bootloader can be reached.
#[derive(Clone, Copy, Debug, PartialEq, Eq, Structural)]
pub enum PeripheryTag {
    /// UART.
    Uart,
    /// I2C slave.
    I2CSlave,
    /// SPI slave.
    SPISlave,
    /// CAN.
    Can,
    /// USB, HID class.
    UsbHid,
    /// USB, CDC class.
    UsbCdc,
    /// USB, DFU class.
    UsbDfu,
    /// LIN.
    Lin,
}

impl PeripheryTag {
    /// The bit that stands for the peripheral in a peripheral mask.
    pub open spec fn spec_code(self) -> u8 {
        match self {
            PeripheryTag::Uart => 0x01,
            PeripheryTag::I2CSlave => 0x02,
            PeripheryTag::SPISlave => 0x04,
            PeripheryTag::Can => 0x08,
            PeripheryTag::UsbHid => 0x10,
            PeripheryTag::UsbCdc => 0x20,
            PeripheryTag::UsbDfu => 0x40,
            PeripheryTag::Lin => 0x80,
        }
    }

    /// The short name of the peripheral.
    pub open spec fn spec_name(self) -> Seq<char> {
        match self {
            PeripheryTag::Uart => "UART"@,
            PeripheryTag::I2CSlave => "I2C-Slave"@,
            PeripheryTag::SPISlave => "SPI-Slave"@,
            PeripheryTag::Can => "CAN"@,
            PeripheryTag::UsbHid => "USB-HID"@,
            PeripheryTag::UsbCdc => "USB-CDC"@,
            PeripheryTag::UsbDfu => "USB-DFU"@,
            PeripheryTag::Lin => "LIN"@,
        }
    }

    /// The short name of the peripheral.
    pub fn name(self) -> (text: &'static str)
        ensures
            text@ == self.spec_name(),
    {
        match self {
            PeripheryTag::Uart => "UART",
            PeripheryTag::I2CSlave => "I2C-Slave",
            PeripheryTag::SPISlave => "SPI-Slave",
            PeripheryTag::Can => "CAN",
            PeripheryTag::UsbHid => "USB-HID",
            PeripheryTag::UsbCdc => "USB-CDC",
            PeripheryTag::UsbDfu => "USB-DFU",
            PeripheryTag::Lin => "LIN",
        }
    }

    /// Every peripheral, in the order of the bits.
    pub open spec fn spec_all() -> Seq<PeripheryTag> {
        seq![
            PeripheryTag::Uart,
            PeripheryTag::I2CSlave,
            PeripheryTag::SPISlave,
            PeripheryTag::Can,
            PeripheryTag::UsbHid,
            PeripheryTag::UsbCdc,
            PeripheryTag::UsbDfu,
            PeripheryTag::Lin,
        ]
    }

    /// The bit that stands for a peripheral, as a function.
    pub open spec fn spec_bit() -> spec_fn(PeripheryTag) -> u32 {
        |per: PeripheryTag| per.spec_code() as u32
    }

    /// The mask that lists the given peripherals and no others.
    pub open spec fn mask_of(list: Seq<PeripheryTag>) -> u32 {
        or_of(list, Self::spec_bit())
    }

    /// Whether a peripheral mask lists the peripheral.
    pub open spec fn listed(word: u32, per: PeripheryTag) -> bool {
        word & (per.spec_code() as u32) != 0
    }

    /// [`PeripheryTag::listed`] for a fixed mask.
    pub open spec fn listed_in(word: u32) -> spec_fn(PeripheryTag) -> bool {
        |per: PeripheryTag| Self::listed(word, per)
    }

    /// The peripherals that a mask lists, in the order of the bits.
    pub open spec fn in_mask(word: u32) -> Seq<PeripheryTag> {
        Self::spec_all().filter(Self::listed_in(word))
    }

    /// The bit that stands for the peripheral in a peripheral mask.
    pub fn code(self) -> (c: u8)
        ensures
            c == self.spec_code(),
    {
        match self {
            PeripheryTag::Uart => 0x01,
            PeripheryTag::I2CSlave => 0x02,
            PeripheryTag::SPISlave => 0x04,
            PeripheryTag::Can => 0x08,
            PeripheryTag::UsbHid => 0x10,
            PeripheryTag::UsbCdc => 0x20,
            PeripheryTag::UsbDfu => 0x40,
            PeripheryTag::Lin => 0x80,
        }
    }

    /// Every peripheral, in the order of the bits.
    pub fn all() -> (v: Vec<PeripheryTag>)
        ensures
            v@ == Self::spec_all(),
    {
        let v = vec![
            PeripheryTag::Uart,
            PeripheryTag::I2CSlave,
            PeripheryTag::SPISlave,
            PeripheryTag::Can,
            PeripheryTag::UsbHid,
            PeripheryTag::UsbCdc,
            PeripheryTag::UsbDfu,
            PeripheryTag::Lin,
        ];
        assert(v@ =~= Self::spec_all());
        v
    }

    /// Lists the peripherals whose bit is set in a mask.
    pub fn from_mask(word: u32) -> (v: Vec<PeripheryTag>)
        ensures
            v@ == Self::in_mask(word),
    {
        let all = Self::all();
        let mut v: Vec<PeripheryTag> = Vec::new();
        let mut i: usize = 0;
        while i < all.len()
            invariant
                i <= all@.len(),
                all@ == Self::spec_all(),
                v@ == all@.take(i as int).filter(Self::listed_in(word)),
            decreases all@.len() - i,
        {
            let per = all[i];
            proof {
                assert(all@.take(i + 1) =~= all@.take(i as int).push(per));
                all@.take(i as int).lemma_filter_push(per, Self::listed_in(word));
            }
            if word & (per.code() as u32) != 0 {
                v.push(per);
            }
            i += 1;
        }
        assert(all@.take(i as int) =~= all@);
        v
    }
}

impl From<PeripheryTag> for u8 {
    fn from(value: PeripheryTag) -> (c: u8) {
        value.code()
    }
}

impl vstd::std_specs::convert::FromSpecImpl<PeripheryTag> for u8 {
    open spec fn obeys_from_spec() -> bool {
        true
    }

    open spec fn from_spec(v: PeripheryTag) -> u8 {
        v.spec_code()
    }
}

impl CommandTagDiscriminants {
    /// The bit that stands for a command, as a function: bit `c - 1` for a
    /// command with a code `c` from 1 to 0x9F, none for any other.
    pub open spec fn spec_bit() -> spec_fn(CommandTagDiscriminants) -> u32 {
        |cmd: CommandTagDiscriminants|
            if 0 < cmd.spec_code() < 0xA0 {
                1u32 << ((cmd.spec_code() - 1) as u32)
            } else {
                0
            }
    }

    /// The mask that lists the given commands and no others.
    pub open spec fn mask_of(list: Seq<CommandTagDiscriminants>) -> u32 {
        or_of(list, Self::spec_bit())
    }

    /// Whether a command mask lists the command: a command with a code `c` from
    /// 1 to 0x9F is listed by bit `c - 1`.
    pub open spec fn listed(word: u32, cmd: CommandTagDiscriminants) -> bool {
        &&& 0 < cmd.spec_code() < 0xA0
        &&& word & (1u32 << ((cmd.spec_code() - 1) as u32)) != 0
    }

    /// [`CommandTagDiscriminants::listed`] for a fixed mask.
    pub open spec fn listed_in(word: u32) -> spec_fn(CommandTagDiscriminants) -> bool {
        |cmd: CommandTagDiscriminants| Self::listed(word, cmd)
    }

    /// The commands that a mask lists, in the order of the codes.
    pub open spec fn in_mask(word: u32) -> Seq<CommandTagDiscriminants> {
        Self::spec_all().filter(Self::listed_in(word))
    }

    /// Lists the commands whose bit is set in a mask.
    pub fn from_mask(word: u32) -> (v: Vec<CommandTagDiscriminants>)
        ensures
            v@ == Self::in_mask(word),
    {
        let all = Self::all();
        let mut v: Vec<CommandTagDiscriminants> = Vec::new();
        let mut i: usize = 0;
        while i < all.len()
            invariant
                i <= all@.len(),
                all@ == Self::spec_all(),
                v@ == all@.take(i as int).filter(Self::listed_in(word)),
            decreases all@.len() - i,
        {
            let cmd = all[i];
            let code = cmd.code();
            proof {
                assert(all@.take(i + 1) =~= all@.take(i as int).push(cmd));
                all@.take(i as int).lemma_filter_push(cmd, Self::listed_in(word));
            }
            if 0 < code && code < 0xA0 && word & (1u32 << ((code - 1) as u32)) != 0 {
                v.push(cmd);
            }
            i += 1;
        }
        assert(all@.take(i as int) =~= all@);
        v
    }
}

/// The peripherals that a mask lists are listed again by the mask of just
/// these peripherals.
pub proof fn lemma_peripheral_mask_roundtrip(word: u32)
    ensures
        PeripheryTag::in_mask(PeripheryTag::mask_of(PeripheryTag::in_mask(word)))
            == PeripheryTag::in_mask(word),
{
    let all = PeripheryTag::spec_all();
    let bit = PeripheryTag::spec_bit();
    assert forall|i: int| 0 <= i < all.len() implies at_most_one_bit(#[trigger] bit(all[i])) by {
        let b = bit(all[i]);
        assert(b == 0 || b & ((b - 1) as u32) == 0) by (bit_vector)
            requires
                b == 1 || b == 2 || b == 4 || b == 8 || b == 0x10 || b == 0x20 || b == 0x40 || b
                    == 0x80,
        ;
    }
    lemma_filter_congruence(all, PeripheryTag::listed_in(word), marked(word, bit));
    let again = PeripheryTag::mask_of(PeripheryTag::in_mask(word));
    lemma_filter_congruence(all, PeripheryTag::listed_in(again), marked(again, bit));
    lemma_mask_roundtrip(all, word, bit);
}

/// The commands that a mask lists are listed again by the mask of just these
/// commands.
pub proof fn lemma_command_mask_roundtrip(word: u32)
    ensures
        CommandTagDiscriminants::in_mask(
            CommandTagDiscriminants::mask_of(CommandTagDiscriminants::in_mask(word)),
        ) == CommandTagDiscriminants::in_mask(word),
{
    let all = CommandTagDiscriminants::spec_all();
    let bit = CommandTagDiscriminants::spec_bit();
    assert forall|i: int| 0 <= i < all.len() implies at_most_one_bit(#[trigger] bit(all[i])) by {
        let b = bit(all[i]);
        let code = all[i].spec_code();
        if 0 < code < 0xA0 {
            let k = (code - 1) as u32;
            assert(k < 32);
            assert(b == 0 || b & ((b - 1) as u32) == 0) by (bit_vector)
                requires
                    k < 32,
                    b == 1u32 << k,
            ;
        }
    }
    assert forall|i: int| 0 <= i < all.len() implies CommandTagDiscriminants::listed_in(word)(
        #[trigger] all[i],
    ) == marked(word, bit)(all[i]) by {
        assert(word & 0 == 0) by (bit_vector);
    }
    lemma_filter_congruence(all, CommandTagDiscriminants::listed_in(word), marked(word, bit));
    let again = CommandTagDiscriminants::mask_of(CommandTagDiscriminants::in_mask(word));
    assert forall|i: int| 0 <= i < all.len() implies CommandTagDiscriminants::listed_in(again)(
        #[trigger] all[i],
    ) == marked(again, bit)(all[i]) by {
        assert(again & 0 == 0) by (bit_vector);
    }
    lemma_filter_congruence(all, CommandTagDiscriminants::listed_in(again), marked(again, bit));
    lemma_mask_roundtrip(all, word, bit);
}

/// A command is among the commands that a mask lists if and only if its code
/// `c` is between 1 and 0x9F and bit `c - 1` of the mask is set.
pub proof fn lemma_listed_commands(word: u32, cmd: CommandTagDiscriminants)
    ensures
        CommandTagDiscriminants::in_mask(word).contains(cmd) <==> CommandTagDiscriminants::listed(
            word,
            cmd,
        ),
{
    let all = CommandTagDiscriminants::spec_all();
    let pred = CommandTagDiscriminants::listed_in(word);
    let position: int = match cmd {
        CommandTagDiscriminants::NoCommand => 0,
        CommandTagDiscriminants::FlashEraseAll => 1,
        CommandTagDiscriminants::FlashEraseRegion => 2,
        CommandTagDiscriminants::ReadMemory => 3,
        CommandTagDiscriminants::WriteMemory => 4,
        CommandTagDiscriminants::FillMemory => 5,
        CommandTagDiscriminants::FlashSecurityDisable => 6,
        CommandTagDiscriminants::GetProperty => 7,
        CommandTagDiscriminants::ReceiveSBFile => 8,
        CommandTagDiscriminants::Execute => 9,
        CommandTagDiscriminants::Call => 10,
        CommandTagDiscriminants::Reset => 11,
        CommandTagDiscriminants::SetProperty => 12,
        CommandTagDiscriminants::FlashEraseAllUnsecure => 13,
        CommandTagDiscriminants::FlashProgramOnce => 14,
        CommandTagDiscriminants::FlashReadOnce => 15,
        CommandTagDiscriminants::FlashReadResource => 16,
        CommandTagDiscriminants::ConfigureMemory => 17,
        CommandTagDiscriminants::ReliableUpdate => 18,
        CommandTagDiscriminants::GenerateKeyBlob => 19,
        CommandTagDiscriminants::FuseProgram => 20,
        CommandTagDiscriminants::KeyProvisioning => 21,
        CommandTagDiscriminants::TrustProvisioning => 22,
        CommandTagDiscriminants::FuseRead => 23,
        CommandTagDiscriminants::UpdateLifeCycle => 24,
        CommandTagDiscriminants::EleMessage => 25,
        CommandTagDiscriminants::EL2GO => 26,
        CommandTagDiscriminants::ConfigureI2C => 27,
        CommandTagDiscriminants::ConfigureSPI => 28,
        CommandTagDiscriminants::ConfigureCAN => 29,
    };
    assert(all[position] == cmd);
    if all.filter(pred).contains(cmd) {
        let j = choose|j: int| 0 <= j < all.filter(pred).len() && all.filter(pred)[j] == cmd;
        all.lemma_filter_pred(pred, j);
    }
    if pred(cmd) {
        all.lemma_filter_contains(pred, position);
    }
}

/// A peripheral is among the peripherals that a mask lists if and only if its
/// bit is set in the mask.
pub proof fn lemma_listed_peripherals(word: u32, per: PeripheryTag)
    ensures
        PeripheryTag::in_mask(word).contains(per) <==> PeripheryTag::listed(word, per),
{
    let all = PeripheryTag::spec_all();
    let pred = PeripheryTag::listed_in(word);
    let position: int = match per {
        PeripheryTag::Uart => 0,
        PeripheryTag::I2CSlave => 1,
        PeripheryTag::SPISlave => 2,
        PeripheryTag::Can => 3,
        PeripheryTag::UsbHid => 4,
        PeripheryTag::UsbCdc => 5,
        PeripheryTag::UsbDfu => 6,
        PeripheryTag::Lin => 7,
    };
    assert(all[position] == per);
    if all.filter(pred).contains(per) {
        let j = choose|j: int| 0 <= j < all.filter(pred).len() && all.filter(pred)[j] == per;
        all.lemma_filter_pred(pred, j);
    }
    if pred(per) {
        all.lemma_filter_contains(pred, position);
    }
}

/// Whether the flash is open. `true` stands for unsecured flash.
#[derive(Clone, Copy, Debug, PartialEq, Eq, Structural)]
pub struct FlashSecurityState(pub bool);

impl FlashSecurityState {
    /// `UNSECURE` for open flash, `SECURE` for secured flash.
    pub open spec fn spec_text(self) -> Seq<char> {
        if self.0 {
            "UNSECURE"@
        } else {
            "SECURE"@
        }
    }

    /// `UNSECURE` for open flash, `SECURE` for secured flash.
    pub fn to_string(&self) -> (text: &'static str)
        ensures
            text@ == self.spec_text(),
    {
        if self.0 {
            "UNSECURE"
        } else {
            "SECURE"
        }
    }
}

/// Whether a word that reports a security or life cycle state names the open
/// pole: zero and `0x5AA55AA5` do, every other value does not.
pub open spec fn is_open_state(word: u32) -> bool {
    word == 0 || word == 0x5AA5_5AA5
}

/// The pin that signals an interrupt to the host.
#[derive(Clone, Copy, Debug, PartialEq, Eq, Structural)]
pub struct IrqNotifierPin {
    /// Number of the pin.
    pub pin: u8,
    /// Number of the port.
    pub port: u8,
    /// Whether the notification is switched on.
    pub enabled: bool,
}

impl IrqNotifierPin {
    /// The pin that a word describes: pin in the lowest byte, port in the next
    /// one, and the highest bit set where the notification is on.
    pub open spec fn spec_parse(value: u32) -> IrqNotifierPin {
        IrqNotifierPin {
            pin: (value % 0x100) as u8,
            port: (value / 0x100 % 0x100) as u8,
            enabled: value >= 0x8000_0000,
        }
    }

    /// The word that describes this pin, with every unused bit clear.
    pub open spec fn spec_word(self) -> u32 {
        (self.pin + self.port * 0x100 + if self.enabled {
            0x8000_0000int
        } else {
            0
        }) as u32
    }

    /// The pin as text: port, pin and whether the notification is on.
    pub open spec fn spec_text(self) -> Seq<char> {
        "IRQ Port["@ + decimal_text(self.port as nat) + "], Pin["@ + decimal_text(self.pin as nat)
            + "] is "@ + (if self.enabled {
            "enabled"@
        } else {
            "disabled"@
        })
    }

    /// The pin as text.
    pub fn to_string(&self) -> (text: String)
        ensures
            text@ == self.spec_text(),
    {
        let port = decimal(self.port as u32);
        let pin = decimal(self.pin as u32);
        let mut text = String::from_str("IRQ Port[");
        text.append(port.as_str());
        text.append("], Pin[");
        text.append(pin.as_str());
        text.append("] is ");
        text.append(
            if self.enabled {
                "enabled"
            } else {
                "disabled"
            },
        );
        assert(text@ =~= self.spec_text());
        text
    }

    /// Reads the pin from a word.
    pub fn parse(value: u32) -> (p: IrqNotifierPin)
        ensures
            p == Self::spec_parse(value),
    {
        IrqNotifierPin {
            pin: (value % 0x100) as u8,
            port: (value / 0x100 % 0x100) as u8,
            enabled: value >= 0x8000_0000,
        }
    }
}

/// How the key store in protected flash is updated.
#[derive(Clone, Copy, Debug, PartialEq, Eq, Structural)]
pub enum PfrKeystoreUpdateOpt {
    /// Through key provisioning.
    KeyProvisioning,
    /// Through memory writes.
    WriteMemory,
}

impl PfrKeystoreUpdateOpt {
    /// The option that a word names: 1 is [`PfrKeystoreUpdateOpt::WriteMemory`],
    /// every other value [`PfrKeystoreUpdateOpt::KeyProvisioning`].
    pub open spec fn spec_parse(value: u32) -> PfrKeystoreUpdateOpt {
        if value == 1 {
            PfrKeystoreUpdateOpt::WriteMemory
        } else {
            PfrKeystoreUpdateOpt::KeyProvisioning
        }
    }

    /// The word that names this option.
    pub open spec fn spec_word(self) -> u32 {
        match self {
            PfrKeystoreUpdateOpt::KeyProvisioning => 0,
            PfrKeystoreUpdateOpt::WriteMemory => 1,
        }
    }

    /// The name of the option.
    pub open spec fn spec_text(self) -> Seq<char> {
        match self {
            PfrKeystoreUpdateOpt::KeyProvisioning => "KEY_PROVISIONING"@,
            PfrKeystoreUpdateOpt::WriteMemory => "WRITE_MEMORY"@,
        }
    }

    /// The name of the option.
    pub fn to_string(&self) -> (text: &'static str)
        ensures
            text@ == self.spec_text(),
    {
        match self {
            PfrKeystoreUpdateOpt::KeyProvisioning => "KEY_PROVISIONING",
            PfrKeystoreUpdateOpt::WriteMemory => "WRITE_MEMORY",
        }
    }

    /// Reads the option from a word.
    pub fn parse(value: u32) -> (o: PfrKeystoreUpdateOpt)
        ensures
            o == Self::spec_parse(value),
    {
        match value {
            1 => PfrKeystoreUpdateOpt::WriteMemory,
            _ => PfrKeystoreUpdateOpt::KeyProvisioning,
        }
    }
}

/// Margin level of flash reads.
#[derive(Clone, Copy, Debug, PartialEq, Eq, Structural)]
pub enum FlashReadMargin {
    /// Normal margin.
    Normal,
    /// User margin.
    User,
    /// Factory margin.
    Factory,
}

impl FlashReadMargin {
    /// The margin that a word names: 1 is [`FlashReadMargin::User`], 2 is
    /// [`FlashReadMargin::Factory`], every other value [`FlashReadMargin::Normal`].
    pub open spec fn spec_parse(value: u32) -> FlashReadMargin {
        if value == 1 {
            FlashReadMargin::User
        } else if value == 2 {
            FlashReadMargin::Factory
        } else {
            FlashReadMargin::Normal
        }
    }

    /// The word that names this margin.
    pub open spec fn spec_word(self) -> u32 {
        match self {
            FlashReadMargin::Normal => 0,
            FlashReadMargin::User => 1,
            FlashReadMargin::Factory => 2,
        }
    }

    /// The name of the margin.
    pub open spec fn spec_text(self) -> Seq<char> {
        match self {
            FlashReadMargin::Normal => "NORMAL"@,
            FlashReadMargin::User => "USER"@,
            FlashReadMargin::Factory => "FACTORY"@,
        }
    }

    /// The name of the margin.
    pub fn to_string(&self) -> (text: &'static str)
        ensures
            text@ == self.spec_text(),
    {
        match self {
            FlashReadMargin::Normal => "NORMAL",
            FlashReadMargin::User => "USER",
            FlashReadMargin::Factory => "FACTORY",
        }
    }

    /// Reads the margin from a word.
    pub fn parse(value: u32) -> (m: FlashReadMargin)
        ensures
            m == Self::spec_parse(value),
    {
        match value {
            1 => FlashReadMargin::User,
            2 => FlashReadMargin::Factory,
            _ => FlashReadMargin::Normal,
        }
    }
}

/// Voltage used to program fuses. `true` stands for the overdrive voltage.
#[derive(Clone, Copy, Debug, PartialEq, Eq, Structural)]
pub struct FuseProgramVoltage(pub bool);

impl FuseProgramVoltage {
    /// The name of the voltage.
    pub open spec fn spec_text(self) -> Seq<char> {
        if self.0 {
            "Over Drive Voltage (2.5 V)"@
        } else {
            "Normal Voltage (1.8 V)"@
        }
    }

    /// The name of the voltage.
    pub fn to_string(&self) -> (text: &'static str)
        ensures
            text@ == self.spec_text(),
    {
        if self.0 {
            "Over Drive Voltage (2.5 V)"
        } else {
            "Normal Voltage (1.8 V)"
        }
    }

    /// Reads the voltage from a word: any value but zero is overdrive.
    pub fn parse(value: u32) -> (v: FuseProgramVoltage)
        ensures
            v == FuseProgramVoltage(value != 0),
    {
        FuseProgramVoltage(value != 0)
    }
}

/// Partitioning of the flash for the secure hardware extension.
#[derive(Clone, Copy, Debug, PartialEq, Eq, Structural)]
pub struct SHEFlashPartition {
    /// Code of the largest number of keys.
    pub max_keys: u8,
    /// Code of the size of the emulated EEPROM.
    pub flash_size: u8,
}

impl SHEFlashPartition {
    /// The partitioning that a word describes: the key code in bits 0 and 1,
    /// the size code in bits 8 and 9.
    pub open spec fn spec_parse(value: u32) -> SHEFlashPartition {
        SHEFlashPartition { max_keys: (value % 4) as u8, flash_size: (value / 0x100 % 4) as u8 }
    }

    /// The word that describes this partitioning, with every unused bit clear.
    pub open spec fn spec_word(self) -> u32 {
        (self.max_keys + self.flash_size * 0x100) as u32
    }

    /// What a code of the largest number of keys stands for.
    pub open spec fn spec_keys_text(code: u8) -> Seq<char> {
        if code == 0 {
            "0 Keys, CSEc disabled"@
        } else if code == 1 {
            "max 5 Key"@
        } else if code == 2 {
            "max 10 Keys"@
        } else if code == 3 {
            "max 20 Keys"@
        } else {
            "Unknown"@
        }
    }

    /// What a code of the size of the emulated EEPROM stands for.
    pub open spec fn spec_size_text(code: u8) -> Seq<char> {
        if code == 0 {
            "64kB"@
        } else if code == 1 {
            "48kB"@
        } else if code == 2 {
            "32kB"@
        } else if code == 3 {
            "0kB"@
        } else {
            "Unknown"@
        }
    }

    /// The partitioning as text: the size of the emulated EEPROM and the
    /// largest number of keys.
    pub open spec fn spec_text(self) -> Seq<char> {
        Self::spec_size_text(self.flash_size) + " EEPROM with "@ + Self::spec_keys_text(
            self.max_keys,
        )
    }

    /// The partitioning as text.
    pub fn to_string(&self) -> (text: String)
        ensures
            text@ == self.spec_text(),
    {
        let max_keys_str = match self.max_keys {
            0 => "0 Keys, CSEc disabled",
            1 => "max 5 Key",
            2 => "max 10 Keys",
            3 => "max 20 Keys",
            _ => "Unknown",
        };
        let flash_size_str = match self.flash_size {
            0 => "64kB",
            1 => "48kB",
            2 => "32kB",
            3 => "0kB",
            _ => "Unknown",
        };
        let mut text = String::from_str(flash_size_str);
        text.append(" EEPROM with ");
        text.append(max_keys_str);
        text
    }

    /// Reads the partitioning from a word.
    pub fn parse(value: u32) -> (p: SHEFlashPartition)
        ensures
            p == Self::spec_parse(value),
    {
        SHEFlashPartition { max_keys: (value % 4) as u8, flash_size: (value / 0x100 % 4) as u8 }
    }
}

/// Boot mode of the secure hardware extension.
#[derive(Clone, Copy, Debug, PartialEq, Eq, Structural)]
pub struct SHEBootMode {
    /// Size of the boot image in bits.
    pub size: u32,
    /// Code of the mode.
    pub mode: u8,
}

impl SHEBootMode {
    /// The boot mode that a word describes: the size in the low 30 bits, the
    /// mode in the two bits above.
    pub open spec fn spec_parse(value: u32) -> SHEBootMode {
        SHEBootMode { size: (value % 0x4000_0000) as u32, mode: (value / 0x4000_0000) as u8 }
    }

    /// The word that describes this boot mode.
    pub open spec fn spec_word(self) -> u32 {
        (self.size + self.mode * 0x4000_0000) as u32
    }

    /// Reads the boot mode from a word.
    pub fn parse(value: u32) -> (m: SHEBootMode)
        ensures
            m == Self::spec_parse(value),
    {
        SHEBootMode { size: value % 0x4000_0000, mode: (value / 0x4000_0000) as u8 }
    }
}

/// Life cycle state of the device. `true` stands for the development life
/// cycle.
#[derive(Clone, Copy, Debug, PartialEq, Eq, Structural)]
pub struct LifeCycleState(pub bool);

impl LifeCycleState {
    /// The name of the life cycle.
    pub open spec fn spec_text(self) -> Seq<char> {
        if self.0 {
            "development life cycle"@
        } else {
            "deployment life cycle"@
        }
    }

    /// The name of the life cycle.
    pub fn to_string(&self) -> (text: &'static str)
        ensures
            text@ == self.spec_text(),
    {
        if self.0 {
            "development life cycle"
        } else {
            "deployment life cycle"
        }
    }
}

} // verus!

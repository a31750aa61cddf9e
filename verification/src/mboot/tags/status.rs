//! Status codes that the bootloader reports.
//!
//! The set is closed: every code the bootloader documents has a variant, and
//! [`StatusCode::UnknownStatusCode`] stands in wherever a value outside the set
//! has to be named.
use vstd::prelude::*;

verus! {

/// The result of a command, as the bootloader reports it.
#[derive(Clone, Copy, Debug, PartialEq, Eq, Structural)]
pub enum StatusCode {
    /// Command executed successfully.
    Success,
    /// General failure.
    Fail,
    /// Operation not allowed on read-only target.
    ReadOnly,
    /// Parameter value is out of range.
    OutOfRange,
    /// Invalid argument provided.
    InvalidArgument,
    /// Operation timed out.
    Timeout,
    /// No data transfer currently in progress.
    NoTransferInProgress,
    // Flash driver errors
    /// Flash driver: Size parameter is invalid.
    FlashSizeError,
    /// Flash driver: Address alignment is incorrect.
    FlashAlignmentError,
    /// Flash driver: Address is invalid or out of range.
    FlashAddressError,
    /// Flash driver: Access to flash memory failed.
    FlashAccessError,
    /// Flash driver: Write protection violation.
    FlashProtectionViolation,
    /// Flash driver: Flash command execution failed.
    FlashCommandFailure,
    /// Flash driver: Unknown property requested.
    FlashUnknownProperty,
    /// Flash driver: Erase key does not match programmed key.
    FlashEraseKeyError,
    /// Flash driver: Region is execute-only.
    FlashRegionExecuteOnly,
    /// Flash driver: Execute-in-RAM function not ready.
    FlashExecInRamNotReady,
    /// Flash driver: Command not supported.
    FlashCommandNotSupported,
    /// Flash driver: Property is read-only.
    FlashReadOnlyProperty,
    /// Flash driver: Property value is out of range.
    FlashInvalidPropertyValue,
    /// Flash driver: Prefetch speculation option is invalid.
    FlashInvalidSpeculationOption,
    /// Flash driver: ECC error detected.
    FlashEccError,
    /// Flash driver: Memory contents do not match after verification.
    FlashCompareError,
    /// Flash driver: Regulation lost during read operation.
    FlashRegulationLoss,
    /// Flash driver: Wait state cycles setting is invalid.
    FlashInvalidWaitStateCycles,
    /// Flash driver: CFPA page is out of date.
    FlashOutOfDateCfpaPage,
    /// Flash driver: IFR page data is blank.
    FlashBlankIfrPageData,
    /// Flash driver: Encrypted regions must be erased together.
    FlashEncryptedRegionsEraseNotDoneAtOnce,
    /// Flash driver: Program verification is not allowed.
    FlashProgramVerificationNotAllowed,
    /// Flash driver: Hash check failed.
    FlashHashCheckError,
    /// Flash driver: PFR region is sealed.
    FlashSealedPfrRegion,
    /// Flash driver: PFR region write is broken.
    FlashPfrRegionWriteBroken,
    /// Flash driver: NMPA update is not allowed.
    FlashNmpaUpdateNotAllowed,
    /// Flash driver: CMPA configuration direct erase is not allowed.
    FlashCmpaCfgDirectEraseNotAllowed,
    /// Flash driver: PFR bank is locked.
    FlashPfrBankIsLocked,
    /// Flash driver: CFPA scratch page is invalid.
    FlashCfpaScratchPageInvalid,
    /// Flash driver: CFPA version rollback is disallowed.
    FlashCfpaVersionRollbackDisallowed,
    /// Flash driver: Reading from hiding area is disallowed.
    FlashReadHidingAreaDisallowed,
    /// Flash driver: Modifying protected area is disallowed.
    FlashModifyProtectedAreaDisallowed,
    /// Flash driver: Flash command operation is in progress.
    FlashCommandOperationInProgress,
    // I2C driver errors
    /// I2C driver: Slave transmit underrun.
    I2cSlaveTxUnderrun,
    /// I2C driver: Slave receive overrun.
    I2cSlaveRxOverrun,
    /// I2C driver: Arbitration lost on bus.
    I2cArbitrationLost,
    // SPI errors
    /// SPI driver: Slave transmit underrun.
    SpiSlaveTxUnderrun,
    /// SPI driver: Slave receive overrun.
    SpiSlaveRxOverrun,
    // QuadSPI driver errors
    /// QuadSPI driver: Flash size error.
    QspiFlashSizeError,
    /// QuadSPI driver: Flash alignment error.
    QspiFlashAlignmentError,
    /// QuadSPI driver: Flash address error.
    QspiFlashAddressError,
    /// QuadSPI driver: Flash command failure.
    QspiFlashCommandFailure,
    /// QuadSPI driver: Unknown property.
    QspiFlashUnknownProperty,
    /// QuadSPI driver: Interface not configured.
    QspiNotConfigured,
    /// QuadSPI driver: Command not supported.
    QspiCommandNotSupported,
    /// QuadSPI driver: Command timed out.
    QspiCommandTimeout,
    /// QuadSPI driver: Write operation failed.
    QspiWriteFailure,
    // OTFAD driver errors
    /// OTFAD driver: Security violation detected.
    OtfadSecurityViolation,
    /// OTFAD driver: Logically disabled.
    OtfadLogicallyDisabled,
    /// OTFAD driver: Invalid key provided.
    OtfadInvalidKey,
    /// OTFAD driver: Invalid key blob.
    OtfadInvalidKeyBlob,
    // Sending errors
    /// Send operation condition failed.
    SendingOperationConditionError,
    // FlexSPI statuses
    /// FlexSPI: Sequence execution timeout (RT5xx).
    FlexspiSequenceExecutionTimeoutRt5xx,
    /// FlexSPI: Invalid sequence (RT5xx).
    FlexspiInvalidSequenceRt5xx,
    /// FlexSPI: Device timeout (RT5xx).
    FlexspiDeviceTimeoutRt5xx,
    /// FlexSPI: Sequence execution timeout.
    FlexspiSequenceExecutionTimeout,
    /// FlexSPI: Invalid sequence.
    FlexspiInvalidSequence,
    /// FlexSPI: Device timeout.
    FlexspiDeviceTimeout,
    // Bootloader errors
    /// Bootloader: Unknown command received.
    UnknownCommand,
    /// Bootloader: Security violation detected.
    SecurityViolation,
    /// Bootloader: Data phase aborted.
    AbortDataPhase,
    /// Bootloader: Ping command failed.
    PingError,
    /// Bootloader: No response packet received from target.
    NoResponse,
    /// Bootloader: No response expected for this command.
    NoResponseExpected,
    /// Bootloader: Command is not supported.
    UnsupportedCommand,
    // SB loader errors
    /// ROM loader: Section overrun detected.
    RomldrSectionOverrun,
    /// ROM loader: Signature verification failed.
    RomldrSignature,
    /// ROM loader: Section length is invalid.
    RomldrSectionLength,
    /// ROM loader: Only unencrypted content allowed.
    RomldrUnencryptedOnly,
    /// ROM loader: End of file reached.
    RomldrEofReached,
    /// ROM loader: Checksum verification failed.
    RomldrChecksum,
    /// ROM loader: CRC32 verification failed.
    RomldrCrc32Error,
    /// ROM loader: Unknown command received.
    RomldrUnknownCommand,
    /// ROM loader: ID not found.
    RomldrIdNotFound,
    /// ROM loader: Data underrun detected.
    RomldrDataUnderrun,
    /// ROM loader: Jump instruction returned.
    RomldrJumpReturned,
    /// ROM loader: Function call failed.
    RomldrCallFailed,
    /// ROM loader: Key not found.
    RomldrKeyNotFound,
    /// ROM loader: Secure mode only.
    RomldrSecureOnly,
    /// ROM loader: Reset instruction returned.
    RomldrResetReturned,
    /// ROM loader: Rollback is blocked.
    RomldrRollbackBlocked,
    /// ROM loader: Invalid section MAC count.
    RomldrInvalidSectionMacCount,
    /// ROM loader: Unexpected command received.
    RomldrUnexpectedCommand,
    /// ROM loader: Bad SBKEK detected.
    RomldrBadSbkek,
    /// ROM loader: Jump command is pending.
    RomldrPendingJumpCommand,
    // Memory interface errors
    /// Memory interface: Address range is invalid.
    MemoryRangeInvalid,
    /// Memory interface: Read operation failed.
    MemoryReadFailed,
    /// Memory interface: Write operation failed.
    MemoryWriteFailed,
    /// Memory interface: Cumulative write detected.
    MemoryCumulativeWrite,
    /// Memory interface: Application overlaps with execute-only region.
    MemoryAppOverlapWithExecuteOnlyRegion,
    /// Memory interface: Memory not configured.
    MemoryNotConfigured,
    /// Memory interface: Address alignment error.
    MemoryAlignmentError,
    /// Memory interface: Verification failed.
    MemoryVerifyFailed,
    /// Memory interface: Memory is write protected.
    MemoryWriteProtected,
    /// Memory interface: Address is invalid.
    MemoryAddressError,
    /// Memory interface: Blank check failed.
    MemoryBlankCheckFailed,
    /// Memory interface: Blank page read is disallowed.
    MemoryBlankPageReadDisallowed,
    /// Memory interface: Protected page read is disallowed.
    MemoryProtectedPageReadDisallowed,
    /// Memory interface: PFR spec region write is broken.
    MemoryPfrSpecRegionWriteBroken,
    /// Memory interface: Command not supported.
    MemoryUnsupportedCommand,
    // Property store errors
    /// Property store: Unknown property requested.
    UnknownProperty,
    /// Property store: Property is read-only.
    ReadOnlyProperty,
    /// Property store: Property value is invalid.
    InvalidPropertyValue,
    // CRC errors
    /// Application CRC check passed.
    AppCrcCheckPassed,
    /// Application CRC check failed.
    AppCrcCheckFailed,
    /// Application CRC check is inactive.
    AppCrcCheckInactive,
    /// Application CRC check is invalid.
    AppCrcCheckInvalid,
    /// Application CRC check is out of range.
    AppCrcCheckOutOfRange,
    // Packetizer errors
    /// Packetizer: No ping response received.
    PacketizerNoPingResponse,
    /// Packetizer: Invalid packet type.
    PacketizerInvalidPacketType,
    /// Packetizer: Invalid CRC.
    PacketizerInvalidCrc,
    /// Packetizer: No command response received.
    PacketizerNoCommandResponse,
    // Reliable Update statuses
    /// Reliable update: Operation successful.
    ReliableUpdateSuccess,
    /// Reliable update: Operation failed.
    ReliableUpdateFail,
    /// Reliable update: Feature is inactive.
    ReliableUpdateInactive,
    /// Reliable update: Backup application is invalid.
    ReliableUpdateBackupapplicationinvalid,
    /// Reliable update: Still in main application.
    ReliableUpdateStillinmainapplication,
    /// Reliable update: Swap system is not ready.
    ReliableUpdateSwapsystemnotready,
    /// Reliable update: Backup bootloader is not ready.
    ReliableUpdateBackupbootloadernotready,
    /// Reliable update: Swap indicator address is invalid.
    ReliableUpdateSwapindicatoraddressinvalid,
    /// Reliable update: Swap system is not available.
    ReliableUpdateSwapsystemnotavailable,
    /// Reliable update: Swap test mode.
    ReliableUpdateSwaptest,
    // Serial NOR/EEPROM statuses
    /// Serial NOR/EEPROM: Address is invalid.
    SerialNorEepromAddressInvalid,
    /// Serial NOR/EEPROM: Transfer error occurred.
    SerialNorEepromTransferError,
    /// Serial NOR/EEPROM: Type is invalid.
    SerialNorEepromTypeInvalid,
    /// Serial NOR/EEPROM: Size is invalid.
    SerialNorEepromSizeInvalid,
    /// Serial NOR/EEPROM: Command is invalid.
    SerialNorEepromCommandInvalid,
    // ROM API statuses
    /// ROM API: Need more data.
    RomApiNeedMoreData,
    /// ROM API: Buffer size is not enough.
    RomApiBufferSizeNotEnough,
    /// ROM API: Invalid buffer provided.
    RomApiInvalidBuffer,
    // FlexSPI NAND statuses
    /// FlexSPI NAND: Read page failed.
    FlexspinandReadPageFail,
    /// FlexSPI NAND: Read cache failed.
    FlexspinandReadCacheFail,
    /// FlexSPI NAND: ECC check failed.
    FlexspinandEccCheckFail,
    /// FlexSPI NAND: Page load failed.
    FlexspinandPageLoadFail,
    /// FlexSPI NAND: Page execute failed.
    FlexspinandPageExecuteFail,
    /// FlexSPI NAND: Erase block failed.
    FlexspinandEraseBlockFail,
    /// FlexSPI NAND: Wait timeout occurred.
    FlexspinandWaitTimeout,
    /// FlexSPI NAND: Page size exceeds maximum supported.
    FlexSpinandNotSupported,
    /// FlexSPI NAND: FCB update failed.
    FlexSpinandFcbUpdateFail,
    /// FlexSPI NAND: DBBT update failed.
    FlexSpinandDbbtUpdateFail,
    /// FlexSPI NAND: Write alignment error.
    FlexspinandWritealignmenterror,
    /// FlexSPI NAND: Device not found.
    FlexspinandNotFound,
    // FlexSPI NOR statuses
    /// FlexSPI NOR: Program operation failed.
    FlexspinorProgramFail,
    /// FlexSPI NOR: Erase sector failed.
    FlexspinorEraseSectorFail,
    /// FlexSPI NOR: Erase all failed.
    FlexspinorEraseAllFail,
    /// FlexSPI NOR: Wait timeout occurred.
    FlexspinorWaitTimeout,
    /// FlexSPI NOR: Page size exceeds maximum supported.
    FlexspinorNotSupported,
    /// FlexSPI NOR: Write alignment error.
    FlexspinorWriteAlignmentError,
    /// FlexSPI NOR: Command failure.
    FlexspinorCommandFailure,
    /// FlexSPI NOR: SFDP not found.
    FlexspinorSfdpNotFound,
    /// FlexSPI NOR: Unsupported SFDP version.
    FlexspinorUnsupportedSfdpVersion,
    /// FlexSPI NOR: Flash not found.
    FlexspinorFlashNotFound,
    /// FlexSPI NOR: DTR read dummy probe failed.
    FlexspinorDtrReadDummyProbeFailed,
    // OCOTP statuses
    /// OCOTP: Read failure.
    OcotpReadFailure,
    /// OCOTP: Program failure.
    OcotpProgramFailure,
    /// OCOTP: Reload failure.
    OcotpReloadFailure,
    /// OCOTP: Wait timeout occurred.
    OcotpWaitTimeout,
    // SEMC NOR statuses
    /// SEMC NOR: Device timeout.
    SemcnorDeviceTimeout,
    /// SEMC NOR: Invalid memory address.
    SemcnorInvalidMemoryAddress,
    /// SEMC NOR: Unmatched command set.
    SemcnorUnmatchedCommandSet,
    /// SEMC NOR: Address alignment error.
    SemcnorAddressAlignmentError,
    /// SEMC NOR: Invalid CFI signature.
    SemcnorInvalidCfiSignature,
    /// SEMC NOR: Command error - no operation to suspend.
    SemcnorCommandErrorNoOpToSuspend,
    /// SEMC NOR: Command error - no information available.
    SemcnorCommandErrorNoInfoAvailable,
    /// SEMC NOR: Block erase command failure.
    SemcnorBlockEraseCommandFailure,
    /// SEMC NOR: Buffer program command failure.
    SemcnorBufferProgramCommandFailure,
    /// SEMC NOR: Program verify failure.
    SemcnorProgramVerifyFailure,
    /// SEMC NOR: Erase verify failure.
    SemcnorEraseVerifyFailure,
    /// SEMC NOR: Invalid configuration tag.
    SemcnorInvalidCfgTag,
    // SEMC NAND statuses
    /// SEMC NAND: Device timeout.
    SemcnandDeviceTimeout,
    /// SEMC NAND: Invalid memory address.
    SemcnandInvalidMemoryAddress,
    /// SEMC NAND: Not equal to one page size.
    SemcnandNotEqualToOnePageSize,
    /// SEMC NAND: More than one page size.
    SemcnandMoreThanOnePageSize,
    /// SEMC NAND: ECC check failed.
    SemcnandEccCheckFail,
    /// SEMC NAND: Invalid ONFI parameter.
    SemcnandInvalidOnfiParameter,
    /// SEMC NAND: Cannot enable device ECC.
    SemcnandCannotEnableDeviceEcc,
    /// SEMC NAND: Switch timing mode failure.
    SemcnandSwitchTimingModeFailure,
    /// SEMC NAND: Program verify failure.
    SemcnandProgramVerifyFailure,
    /// SEMC NAND: Erase verify failure.
    SemcnandEraseVerifyFailure,
    /// SEMC NAND: Invalid readback buffer.
    SemcnandInvalidReadbackBuffer,
    /// SEMC NAND: Invalid configuration tag.
    SemcnandInvalidCfgTag,
    /// SEMC NAND: Failed to update FCB.
    SemcnandFailToUpdateFcb,
    /// SEMC NAND: Failed to update DBBT.
    SemcnandFailToUpdateDbbt,
    /// SEMC NAND: Disallow overwrite BCB.
    SemcnandDisallowOverwriteBcb,
    /// SEMC NAND: Only support ONFI device.
    SemcnandOnlySupportOnfiDevice,
    /// SEMC NAND: More than max image copy.
    SemcnandMoreThanMaxImageCopy,
    /// SEMC NAND: Disordered image copies.
    SemcnandDisorderedImageCopies,
    // SPIFI NOR statuses
    /// SPIFI NOR: Program operation failed.
    SpifinorProgramFail,
    /// SPIFI NOR: Erase sector failed.
    SpifinorEraseSectorfail,
    /// SPIFI NOR: Erase all failed.
    SpifinorEraseAllFail,
    /// SPIFI NOR: Wait timeout occurred.
    SpifinorWaitTimeout,
    /// SPIFI NOR: Operation not supported.
    SpifinorNotSupported,
    /// SPIFI NOR: Write alignment error.
    SpifinorWriteAlignmentError,
    /// SPIFI NOR: Command failure.
    SpifinorCommandFailure,
    /// SPIFI NOR: SFDP not found.
    SpifinorSfdpNotFound,
    // EDGELOCK ENCLAVE statuses
    /// EdgeLock Enclave: Invalid response.
    EdgelockInvalidResponse,
    /// EdgeLock Enclave: Response error.
    EdgelockResponseError,
    /// EdgeLock Enclave: Operation aborted.
    EdgelockAbort,
    /// EdgeLock Enclave: Operation failed.
    EdgelockOperationFailed,
    /// EdgeLock Enclave: OTP program failure.
    EdgelockOtpProgramFailure,
    /// EdgeLock Enclave: OTP is locked.
    EdgelockOtpLocked,
    /// EdgeLock Enclave: OTP invalid index.
    EdgelockOtpInvalidIdx,
    /// EdgeLock Enclave: Invalid lifecycle state.
    EdgelockInvalidLifecycle,
    // OTP statuses
    /// OTP: Invalid OTP address.
    OtpInvalidAddress,
    /// OTP: Programming failed.
    OtpProgramFail,
    /// OTP: CRC check failed.
    OtpCrcFail,
    /// OTP: Error occurred during operation.
    OtpError,
    /// OTP: ECC check failed during operation.
    OtpEccCrcFail,
    /// OTP: Field is locked when programming.
    OtpLocked,
    /// OTP: Operation timed out.
    OtpTimeout,
    /// OTP: CRC check passed.
    OtpCrcCheckPass,
    /// OTP: the value read back after programming lacks bits that were written. Raised by the host, never by the device.
    OtpVerifyFail,
    // Security subsystem statuses
    /// Security subsystem error.
    SecuritySubsystemError,
    // TrustProvisioning statuses
    /// Trust Provisioning: General error.
    TpGeneralError,
    /// Trust Provisioning: Cryptographic operation error.
    TpCryptoError,
    /// Trust Provisioning: Null pointer dereference or buffer allocation failed.
    TpNullptrError,
    /// Trust Provisioning: Already initialized.
    TpAlreadyinitialized,
    /// Trust Provisioning: Buffer is too small.
    TpBuffersmall,
    /// Trust Provisioning: Address out of range or buffer allocation failed.
    TpAddressError,
    /// Trust Provisioning: Container header or size is invalid.
    TpContainerInvalid,
    /// Trust Provisioning: Container entry invalid.
    TpContainerentryinvalid,
    /// Trust Provisioning: Container entry not found.
    TpContainerentrynotfound,
    /// Trust Provisioning: Invalid state operation.
    TpInvalidstateoperation,
    /// Trust Provisioning: ISP command arguments are invalid.
    TpCommandError,
    /// Trust Provisioning: PUF operation error.
    TpPufError,
    /// Trust Provisioning: Flash operation failed.
    TpFlashError,
    /// Trust Provisioning: Secret box error.
    TpSecretboxError,
    /// Trust Provisioning: PFR operation failed.
    TpPfrError,
    /// Trust Provisioning: Container signature verification failed.
    TpVerificationError,
    /// Trust Provisioning: CFPA page cannot be stored.
    TpCfpaError,
    /// Trust Provisioning: CMPA page cannot be stored.
    TpCmpaError,
    /// Trust Provisioning: Address is out of range.
    TpAddrOutOfRange,
    /// Trust Provisioning: Container address error.
    TpContainerAddrError,
    /// Trust Provisioning: Container address unaligned.
    TpContainerAddrUnaligned,
    /// Trust Provisioning: Container buffer too small.
    TpContainerBuffSmall,
    /// Trust Provisioning: Container has no entry.
    TpContainerNoEntry,
    /// Trust Provisioning: Certificate address error.
    TpCertAddrError,
    /// Trust Provisioning: Certificate address unaligned.
    TpCertAddrUnaligned,
    /// Trust Provisioning: Certificate overlapping.
    TpCertOverlapping,
    /// Trust Provisioning: Packet error.
    TpPacketError,
    /// Trust Provisioning: Packet data error.
    TpPacketDataError,
    /// Trust Provisioning: Unknown command.
    TpUnknownCommand,
    /// Trust Provisioning: SB3 file error.
    TpSb3FileError,
    /// Trust Provisioning: General critical error.
    TpGeneralCriticalError,
    /// Trust Provisioning: Crypto critical error.
    TpCryptoCriticalError,
    /// Trust Provisioning: PUF critical error.
    TpPufCriticalError,
    /// Trust Provisioning: PFR critical error.
    TpPfrCriticalError,
    /// Trust Provisioning: Peripheral critical error.
    TpPeripheralCriticalError,
    /// Trust Provisioning: Prince critical error.
    TpPrinceCriticalError,
    /// Trust Provisioning: SHA check verification failed.
    TpShaCheckCriticalError,
    // IAP statuses
    /// IAP: Invalid argument detected during API execution.
    IapInvalidArgument,
    /// IAP: Heap size not large enough during API execution.
    IapOutOfMemory,
    /// IAP: Read memory operation disallowed during API execution.
    IapReadDisallowed,
    /// IAP: Flash memory region to be programmed is not empty.
    IapCumulativeWrite,
    /// IAP: Erase operation failed.
    IapEraseFailure,
    /// IAP: Specific command not supported.
    IapCommandNotSupported,
    /// IAP: Memory access disabled.
    IapMemoryAccessDisabled,
    // EL2Go ProvFW statuses
    /// EL2Go: Device has been successfully provisioned.
    El2goProvSuccess,
    /// Stands for a code outside the documented set.
    UnknownStatusCode,
}

impl StatusCode {
    /// The numeric value of this status on the wire.
    pub open spec fn spec_code(self) -> u32 {
        match self {
            StatusCode::Success => 0,
            StatusCode::Fail => 1,
            StatusCode::ReadOnly => 2,
            StatusCode::OutOfRange => 3,
            StatusCode::InvalidArgument => 4,
            StatusCode::Timeout => 5,
            StatusCode::NoTransferInProgress => 6,
            StatusCode::FlashSizeError => 100,
            StatusCode::FlashAlignmentError => 101,
            StatusCode::FlashAddressError => 102,
            StatusCode::FlashAccessError => 103,
            StatusCode::FlashProtectionViolation => 104,
            StatusCode::FlashCommandFailure => 105,
            StatusCode::FlashUnknownProperty => 106,
            StatusCode::FlashEraseKeyError => 107,
            StatusCode::FlashRegionExecuteOnly => 108,
            StatusCode::FlashExecInRamNotReady => 109,
            StatusCode::FlashCommandNotSupported => 111,
            StatusCode::FlashReadOnlyProperty => 112,
            StatusCode::FlashInvalidPropertyValue => 113,
            StatusCode::FlashInvalidSpeculationOption => 114,
            StatusCode::FlashEccError => 116,
            StatusCode::FlashCompareError => 117,
            StatusCode::FlashRegulationLoss => 118,
            StatusCode::FlashInvalidWaitStateCycles => 119,
            StatusCode::FlashOutOfDateCfpaPage => 132,
            StatusCode::FlashBlankIfrPageData => 133,
            StatusCode::FlashEncryptedRegionsEraseNotDoneAtOnce => 134,
            StatusCode::FlashProgramVerificationNotAllowed => 135,
            StatusCode::FlashHashCheckError => 136,
            StatusCode::FlashSealedPfrRegion => 137,
            StatusCode::FlashPfrRegionWriteBroken => 138,
            StatusCode::FlashNmpaUpdateNotAllowed => 139,
            StatusCode::FlashCmpaCfgDirectEraseNotAllowed => 140,
            StatusCode::FlashPfrBankIsLocked => 141,
            StatusCode::FlashCfpaScratchPageInvalid => 148,
            StatusCode::FlashCfpaVersionRollbackDisallowed => 149,
            StatusCode::FlashReadHidingAreaDisallowed => 150,
            StatusCode::FlashModifyProtectedAreaDisallowed => 151,
            StatusCode::FlashCommandOperationInProgress => 152,
            StatusCode::I2cSlaveTxUnderrun => 200,
            StatusCode::I2cSlaveRxOverrun => 201,
            StatusCode::I2cArbitrationLost => 202,
            StatusCode::SpiSlaveTxUnderrun => 300,
            StatusCode::SpiSlaveRxOverrun => 301,
            StatusCode::QspiFlashSizeError => 400,
            StatusCode::QspiFlashAlignmentError => 401,
            StatusCode::QspiFlashAddressError => 402,
            StatusCode::QspiFlashCommandFailure => 403,
            StatusCode::QspiFlashUnknownProperty => 404,
            StatusCode::QspiNotConfigured => 405,
            StatusCode::QspiCommandNotSupported => 406,
            StatusCode::QspiCommandTimeout => 407,
            StatusCode::QspiWriteFailure => 408,
            StatusCode::OtfadSecurityViolation => 500,
            StatusCode::OtfadLogicallyDisabled => 501,
            StatusCode::OtfadInvalidKey => 502,
            StatusCode::OtfadInvalidKeyBlob => 503,
            StatusCode::SendingOperationConditionError => 1812,
            StatusCode::FlexspiSequenceExecutionTimeoutRt5xx => 6000,
            StatusCode::FlexspiInvalidSequenceRt5xx => 6001,
            StatusCode::FlexspiDeviceTimeoutRt5xx => 6002,
            StatusCode::FlexspiSequenceExecutionTimeout => 7000,
            StatusCode::FlexspiInvalidSequence => 7001,
            StatusCode::FlexspiDeviceTimeout => 7002,
            StatusCode::UnknownCommand => 10000,
            StatusCode::SecurityViolation => 10001,
            StatusCode::AbortDataPhase => 10002,
            StatusCode::PingError => 10003,
            StatusCode::NoResponse => 10004,
            StatusCode::NoResponseExpected => 10005,
            StatusCode::UnsupportedCommand => 10006,
            StatusCode::RomldrSectionOverrun => 10100,
            StatusCode::RomldrSignature => 10101,
            StatusCode::RomldrSectionLength => 10102,
            StatusCode::RomldrUnencryptedOnly => 10103,
            StatusCode::RomldrEofReached => 10104,
            StatusCode::RomldrChecksum => 10105,
            StatusCode::RomldrCrc32Error => 10106,
            StatusCode::RomldrUnknownCommand => 10107,
            StatusCode::RomldrIdNotFound => 10108,
            StatusCode::RomldrDataUnderrun => 10109,
            StatusCode::RomldrJumpReturned => 10110,
            StatusCode::RomldrCallFailed => 10111,
            StatusCode::RomldrKeyNotFound => 10112,
            StatusCode::RomldrSecureOnly => 10113,
            StatusCode::RomldrResetReturned => 10114,
            StatusCode::RomldrRollbackBlocked => 10115,
            StatusCode::RomldrInvalidSectionMacCount => 10116,
            StatusCode::RomldrUnexpectedCommand => 10117,
            StatusCode::RomldrBadSbkek => 10118,
            StatusCode::RomldrPendingJumpCommand => 10119,
            StatusCode::MemoryRangeInvalid => 10200,
            StatusCode::MemoryReadFailed => 10201,
            StatusCode::MemoryWriteFailed => 10202,
            StatusCode::MemoryCumulativeWrite => 10203,
            StatusCode::MemoryAppOverlapWithExecuteOnlyRegion => 10204,
            StatusCode::MemoryNotConfigured => 10205,
            StatusCode::MemoryAlignmentError => 10206,
            StatusCode::MemoryVerifyFailed => 10207,
            StatusCode::MemoryWriteProtected => 10208,
            StatusCode::MemoryAddressError => 10209,
            StatusCode::MemoryBlankCheckFailed => 10210,
            StatusCode::MemoryBlankPageReadDisallowed => 10211,
            StatusCode::MemoryProtectedPageReadDisallowed => 10212,
            StatusCode::MemoryPfrSpecRegionWriteBroken => 10213,
            StatusCode::MemoryUnsupportedCommand => 10214,
            StatusCode::UnknownProperty => 10300,
            StatusCode::ReadOnlyProperty => 10301,
            StatusCode::InvalidPropertyValue => 10302,
            StatusCode::AppCrcCheckPassed => 10400,
            StatusCode::AppCrcCheckFailed => 10401,
            StatusCode::AppCrcCheckInactive => 10402,
            StatusCode::AppCrcCheckInvalid => 10403,
            StatusCode::AppCrcCheckOutOfRange => 10404,
            StatusCode::PacketizerNoPingResponse => 10500,
            StatusCode::PacketizerInvalidPacketType => 10501,
            StatusCode::PacketizerInvalidCrc => 10502,
            StatusCode::PacketizerNoCommandResponse => 10503,
            StatusCode::ReliableUpdateSuccess => 10600,
            StatusCode::ReliableUpdateFail => 10601,
            StatusCode::ReliableUpdateInactive => 10602,
            StatusCode::ReliableUpdateBackupapplicationinvalid => 10603,
            StatusCode::ReliableUpdateStillinmainapplication => 10604,
            StatusCode::ReliableUpdateSwapsystemnotready => 10605,
            StatusCode::ReliableUpdateBackupbootloadernotready => 10606,
            StatusCode::ReliableUpdateSwapindicatoraddressinvalid => 10607,
            StatusCode::ReliableUpdateSwapsystemnotavailable => 10608,
            StatusCode::ReliableUpdateSwaptest => 10609,
            StatusCode::SerialNorEepromAddressInvalid => 10700,
            StatusCode::SerialNorEepromTransferError => 10701,
            StatusCode::SerialNorEepromTypeInvalid => 10702,
            StatusCode::SerialNorEepromSizeInvalid => 10703,
            StatusCode::SerialNorEepromCommandInvalid => 10704,
            StatusCode::RomApiNeedMoreData => 10800,
            StatusCode::RomApiBufferSizeNotEnough => 10801,
            StatusCode::RomApiInvalidBuffer => 10802,
            StatusCode::FlexspinandReadPageFail => 20000,
            StatusCode::FlexspinandReadCacheFail => 20001,
            StatusCode::FlexspinandEccCheckFail => 20002,
            StatusCode::FlexspinandPageLoadFail => 20003,
            StatusCode::FlexspinandPageExecuteFail => 20004,
            StatusCode::FlexspinandEraseBlockFail => 20005,
            StatusCode::FlexspinandWaitTimeout => 20006,
            StatusCode::FlexSpinandNotSupported => 20007,
            StatusCode::FlexSpinandFcbUpdateFail => 20008,
            StatusCode::FlexSpinandDbbtUpdateFail => 20009,
            StatusCode::FlexspinandWritealignmenterror => 20010,
            StatusCode::FlexspinandNotFound => 20011,
            StatusCode::FlexspinorProgramFail => 20100,
            StatusCode::FlexspinorEraseSectorFail => 20101,
            StatusCode::FlexspinorEraseAllFail => 20102,
            StatusCode::FlexspinorWaitTimeout => 20103,
            StatusCode::FlexspinorNotSupported => 20104,
            StatusCode::FlexspinorWriteAlignmentError => 20105,
            StatusCode::FlexspinorCommandFailure => 20106,
            StatusCode::FlexspinorSfdpNotFound => 20107,
            StatusCode::FlexspinorUnsupportedSfdpVersion => 20108,
            StatusCode::FlexspinorFlashNotFound => 20109,
            StatusCode::FlexspinorDtrReadDummyProbeFailed => 20110,
            StatusCode::OcotpReadFailure => 20200,
            StatusCode::OcotpProgramFailure => 20201,
            StatusCode::OcotpReloadFailure => 20202,
            StatusCode::OcotpWaitTimeout => 20203,
            StatusCode::SemcnorDeviceTimeout => 21100,
            StatusCode::SemcnorInvalidMemoryAddress => 21101,
            StatusCode::SemcnorUnmatchedCommandSet => 21102,
            StatusCode::SemcnorAddressAlignmentError => 21103,
            StatusCode::SemcnorInvalidCfiSignature => 21104,
            StatusCode::SemcnorCommandErrorNoOpToSuspend => 21105,
            StatusCode::SemcnorCommandErrorNoInfoAvailable => 21106,
            StatusCode::SemcnorBlockEraseCommandFailure => 21107,
            StatusCode::SemcnorBufferProgramCommandFailure => 21108,
            StatusCode::SemcnorProgramVerifyFailure => 21109,
            StatusCode::SemcnorEraseVerifyFailure => 21110,
            StatusCode::SemcnorInvalidCfgTag => 21116,
            StatusCode::SemcnandDeviceTimeout => 21200,
            StatusCode::SemcnandInvalidMemoryAddress => 21201,
            StatusCode::SemcnandNotEqualToOnePageSize => 21202,
            StatusCode::SemcnandMoreThanOnePageSize => 21203,
            StatusCode::SemcnandEccCheckFail => 21204,
            StatusCode::SemcnandInvalidOnfiParameter => 21205,
            StatusCode::SemcnandCannotEnableDeviceEcc => 21206,
            StatusCode::SemcnandSwitchTimingModeFailure => 21207,
            StatusCode::SemcnandProgramVerifyFailure => 21208,
            StatusCode::SemcnandEraseVerifyFailure => 21209,
            StatusCode::SemcnandInvalidReadbackBuffer => 21210,
            StatusCode::SemcnandInvalidCfgTag => 21216,
            StatusCode::SemcnandFailToUpdateFcb => 21217,
            StatusCode::SemcnandFailToUpdateDbbt => 21218,
            StatusCode::SemcnandDisallowOverwriteBcb => 21219,
            StatusCode::SemcnandOnlySupportOnfiDevice => 21220,
            StatusCode::SemcnandMoreThanMaxImageCopy => 21221,
            StatusCode::SemcnandDisorderedImageCopies => 21222,
            StatusCode::SpifinorProgramFail => 22000,
            StatusCode::SpifinorEraseSectorfail => 22001,
            StatusCode::SpifinorEraseAllFail => 22002,
            StatusCode::SpifinorWaitTimeout => 22003,
            StatusCode::SpifinorNotSupported => 22004,
            StatusCode::SpifinorWriteAlignmentError => 22005,
            StatusCode::SpifinorCommandFailure => 22006,
            StatusCode::SpifinorSfdpNotFound => 22007,
            StatusCode::EdgelockInvalidResponse => 30000,
            StatusCode::EdgelockResponseError => 30001,
            StatusCode::EdgelockAbort => 30002,
            StatusCode::EdgelockOperationFailed => 30003,
            StatusCode::EdgelockOtpProgramFailure => 30004,
            StatusCode::EdgelockOtpLocked => 30005,
            StatusCode::EdgelockOtpInvalidIdx => 30006,
            StatusCode::EdgelockInvalidLifecycle => 30007,
            StatusCode::OtpInvalidAddress => 52801,
            StatusCode::OtpProgramFail => 52802,
            StatusCode::OtpCrcFail => 52803,
            StatusCode::OtpError => 52804,
            StatusCode::OtpEccCrcFail => 52805,
            StatusCode::OtpLocked => 52806,
            StatusCode::OtpTimeout => 52807,
            StatusCode::OtpCrcCheckPass => 52808,
            StatusCode::OtpVerifyFail => 52009,
            StatusCode::SecuritySubsystemError => 1515890085,
            StatusCode::TpGeneralError => 80000,
            StatusCode::TpCryptoError => 80001,
            StatusCode::TpNullptrError => 80002,
            StatusCode::TpAlreadyinitialized => 80003,
            StatusCode::TpBuffersmall => 80004,
            StatusCode::TpAddressError => 80005,
            StatusCode::TpContainerInvalid => 80006,
            StatusCode::TpContainerentryinvalid => 80007,
            StatusCode::TpContainerentrynotfound => 80008,
            StatusCode::TpInvalidstateoperation => 80009,
            StatusCode::TpCommandError => 80010,
            StatusCode::TpPufError => 80011,
            StatusCode::TpFlashError => 80012,
            StatusCode::TpSecretboxError => 80013,
            StatusCode::TpPfrError => 80014,
            StatusCode::TpVerificationError => 80015,
            StatusCode::TpCfpaError => 80016,
            StatusCode::TpCmpaError => 80017,
            StatusCode::TpAddrOutOfRange => 80018,
            StatusCode::TpContainerAddrError => 80019,
            StatusCode::TpContainerAddrUnaligned => 80020,
            StatusCode::TpContainerBuffSmall => 80021,
            StatusCode::TpContainerNoEntry => 80022,
            StatusCode::TpCertAddrError => 80023,
            StatusCode::TpCertAddrUnaligned => 80024,
            StatusCode::TpCertOverlapping => 80025,
            StatusCode::TpPacketError => 80026,
            StatusCode::TpPacketDataError => 80027,
            StatusCode::TpUnknownCommand => 80028,
            StatusCode::TpSb3FileError => 80029,
            StatusCode::TpGeneralCriticalError => 80101,
            StatusCode::TpCryptoCriticalError => 80102,
            StatusCode::TpPufCriticalError => 80103,
            StatusCode::TpPfrCriticalError => 80104,
            StatusCode::TpPeripheralCriticalError => 80105,
            StatusCode::TpPrinceCriticalError => 80106,
            StatusCode::TpShaCheckCriticalError => 80107,
            StatusCode::IapInvalidArgument => 100001,
            StatusCode::IapOutOfMemory => 100002,
            StatusCode::IapReadDisallowed => 100003,
            StatusCode::IapCumulativeWrite => 100004,
            StatusCode::IapEraseFailure => 100005,
            StatusCode::IapCommandNotSupported => 100006,
            StatusCode::IapMemoryAccessDisabled => 100007,
            StatusCode::El2goProvSuccess => 0x5a5a5a5a,
            StatusCode::UnknownStatusCode => 0xdeadbeef,
        }
    }

    /// The status that a numeric value stands for, if it is a documented one.
    /// The number of [`StatusCode::UnknownStatusCode`] is not.
    pub open spec fn from_code(n: u32) -> Option<StatusCode> {
        match n {
            0 => Some(StatusCode::Success),
            1 => Some(StatusCode::Fail),
            2 => Some(StatusCode::ReadOnly),
            3 => Some(StatusCode::OutOfRange),
            4 => Some(StatusCode::InvalidArgument),
            5 => Some(StatusCode::Timeout),
            6 => Some(StatusCode::NoTransferInProgress),
            100 => Some(StatusCode::FlashSizeError),
            101 => Some(StatusCode::FlashAlignmentError),
            102 => Some(StatusCode::FlashAddressError),
            103 => Some(StatusCode::FlashAccessError),
            104 => Some(StatusCode::FlashProtectionViolation),
            105 => Some(StatusCode::FlashCommandFailure),
            106 => Some(StatusCode::FlashUnknownProperty),
            107 => Some(StatusCode::FlashEraseKeyError),
            108 => Some(StatusCode::FlashRegionExecuteOnly),
            109 => Some(StatusCode::FlashExecInRamNotReady),
            111 => Some(StatusCode::FlashCommandNotSupported),
            112 => Some(StatusCode::FlashReadOnlyProperty),
            113 => Some(StatusCode::FlashInvalidPropertyValue),
            114 => Some(StatusCode::FlashInvalidSpeculationOption),
            116 => Some(StatusCode::FlashEccError),
            117 => Some(StatusCode::FlashCompareError),
            118 => Some(StatusCode::FlashRegulationLoss),
            119 => Some(StatusCode::FlashInvalidWaitStateCycles),
            132 => Some(StatusCode::FlashOutOfDateCfpaPage),
            133 => Some(StatusCode::FlashBlankIfrPageData),
            134 => Some(StatusCode::FlashEncryptedRegionsEraseNotDoneAtOnce),
            135 => Some(StatusCode::FlashProgramVerificationNotAllowed),
            136 => Some(StatusCode::FlashHashCheckError),
            137 => Some(StatusCode::FlashSealedPfrRegion),
            138 => Some(StatusCode::FlashPfrRegionWriteBroken),
            139 => Some(StatusCode::FlashNmpaUpdateNotAllowed),
            140 => Some(StatusCode::FlashCmpaCfgDirectEraseNotAllowed),
            141 => Some(StatusCode::FlashPfrBankIsLocked),
            148 => Some(StatusCode::FlashCfpaScratchPageInvalid),
            149 => Some(StatusCode::FlashCfpaVersionRollbackDisallowed),
            150 => Some(StatusCode::FlashReadHidingAreaDisallowed),
            151 => Some(StatusCode::FlashModifyProtectedAreaDisallowed),
            152 => Some(StatusCode::FlashCommandOperationInProgress),
            200 => Some(StatusCode::I2cSlaveTxUnderrun),
            201 => Some(StatusCode::I2cSlaveRxOverrun),
            202 => Some(StatusCode::I2cArbitrationLost),
            300 => Some(StatusCode::SpiSlaveTxUnderrun),
            301 => Some(StatusCode::SpiSlaveRxOverrun),
            400 => Some(StatusCode::QspiFlashSizeError),
            401 => Some(StatusCode::QspiFlashAlignmentError),
            402 => Some(StatusCode::QspiFlashAddressError),
            403 => Some(StatusCode::QspiFlashCommandFailure),
            404 => Some(StatusCode::QspiFlashUnknownProperty),
            405 => Some(StatusCode::QspiNotConfigured),
            406 => Some(StatusCode::QspiCommandNotSupported),
            407 => Some(StatusCode::QspiCommandTimeout),
            408 => Some(StatusCode::QspiWriteFailure),
            500 => Some(StatusCode::OtfadSecurityViolation),
            501 => Some(StatusCode::OtfadLogicallyDisabled),
            502 => Some(StatusCode::OtfadInvalidKey),
            503 => Some(StatusCode::OtfadInvalidKeyBlob),
            1812 => Some(StatusCode::SendingOperationConditionError),
            6000 => Some(StatusCode::FlexspiSequenceExecutionTimeoutRt5xx),
            6001 => Some(StatusCode::FlexspiInvalidSequenceRt5xx),
            6002 => Some(StatusCode::FlexspiDeviceTimeoutRt5xx),
            7000 => Some(StatusCode::FlexspiSequenceExecutionTimeout),
            7001 => Some(StatusCode::FlexspiInvalidSequence),
            7002 => Some(StatusCode::FlexspiDeviceTimeout),
            10000 => Some(StatusCode::UnknownCommand),
            10001 => Some(StatusCode::SecurityViolation),
            10002 => Some(StatusCode::AbortDataPhase),
            10003 => Some(StatusCode::PingError),
            10004 => Some(StatusCode::NoResponse),
            10005 => Some(StatusCode::NoResponseExpected),
            10006 => Some(StatusCode::UnsupportedCommand),
            10100 => Some(StatusCode::RomldrSectionOverrun),
            10101 => Some(StatusCode::RomldrSignature),
            10102 => Some(StatusCode::RomldrSectionLength),
            10103 => Some(StatusCode::RomldrUnencryptedOnly),
            10104 => Some(StatusCode::RomldrEofReached),
            10105 => Some(StatusCode::RomldrChecksum),
            10106 => Some(StatusCode::RomldrCrc32Error),
            10107 => Some(StatusCode::RomldrUnknownCommand),
            10108 => Some(StatusCode::RomldrIdNotFound),
            10109 => Some(StatusCode::RomldrDataUnderrun),
            10110 => Some(StatusCode::RomldrJumpReturned),
            10111 => Some(StatusCode::RomldrCallFailed),
            10112 => Some(StatusCode::RomldrKeyNotFound),
            10113 => Some(StatusCode::RomldrSecureOnly),
            10114 => Some(StatusCode::RomldrResetReturned),
            10115 => Some(StatusCode::RomldrRollbackBlocked),
            10116 => Some(StatusCode::RomldrInvalidSectionMacCount),
            10117 => Some(StatusCode::RomldrUnexpectedCommand),
            10118 => Some(StatusCode::RomldrBadSbkek),
            10119 => Some(StatusCode::RomldrPendingJumpCommand),
            10200 => Some(StatusCode::MemoryRangeInvalid),
            10201 => Some(StatusCode::MemoryReadFailed),
            10202 => Some(StatusCode::MemoryWriteFailed),
            10203 => Some(StatusCode::MemoryCumulativeWrite),
            10204 => Some(StatusCode::MemoryAppOverlapWithExecuteOnlyRegion),
            10205 => Some(StatusCode::MemoryNotConfigured),
            10206 => Some(StatusCode::MemoryAlignmentError),
            10207 => Some(StatusCode::MemoryVerifyFailed),
            10208 => Some(StatusCode::MemoryWriteProtected),
            10209 => Some(StatusCode::MemoryAddressError),
            10210 => Some(StatusCode::MemoryBlankCheckFailed),
            10211 => Some(StatusCode::MemoryBlankPageReadDisallowed),
            10212 => Some(StatusCode::MemoryProtectedPageReadDisallowed),
            10213 => Some(StatusCode::MemoryPfrSpecRegionWriteBroken),
            10214 => Some(StatusCode::MemoryUnsupportedCommand),
            10300 => Some(StatusCode::UnknownProperty),
            10301 => Some(StatusCode::ReadOnlyProperty),
            10302 => Some(StatusCode::InvalidPropertyValue),
            10400 => Some(StatusCode::AppCrcCheckPassed),
            10401 => Some(StatusCode::AppCrcCheckFailed),
            10402 => Some(StatusCode::AppCrcCheckInactive),
            10403 => Some(StatusCode::AppCrcCheckInvalid),
            10404 => Some(StatusCode::AppCrcCheckOutOfRange),
            10500 => Some(StatusCode::PacketizerNoPingResponse),
            10501 => Some(StatusCode::PacketizerInvalidPacketType),
            10502 => Some(StatusCode::PacketizerInvalidCrc),
            10503 => Some(StatusCode::PacketizerNoCommandResponse),
            10600 => Some(StatusCode::ReliableUpdateSuccess),
            10601 => Some(StatusCode::ReliableUpdateFail),
            10602 => Some(StatusCode::ReliableUpdateInactive),
            10603 => Some(StatusCode::ReliableUpdateBackupapplicationinvalid),
            10604 => Some(StatusCode::ReliableUpdateStillinmainapplication),
            10605 => Some(StatusCode::ReliableUpdateSwapsystemnotready),
            10606 => Some(StatusCode::ReliableUpdateBackupbootloadernotready),
            10607 => Some(StatusCode::ReliableUpdateSwapindicatoraddressinvalid),
            10608 => Some(StatusCode::ReliableUpdateSwapsystemnotavailable),
            10609 => Some(StatusCode::ReliableUpdateSwaptest),
            10700 => Some(StatusCode::SerialNorEepromAddressInvalid),
            10701 => Some(StatusCode::SerialNorEepromTransferError),
            10702 => Some(StatusCode::SerialNorEepromTypeInvalid),
            10703 => Some(StatusCode::SerialNorEepromSizeInvalid),
            10704 => Some(StatusCode::SerialNorEepromCommandInvalid),
            10800 => Some(StatusCode::RomApiNeedMoreData),
            10801 => Some(StatusCode::RomApiBufferSizeNotEnough),
            10802 => Some(StatusCode::RomApiInvalidBuffer),
            20000 => Some(StatusCode::FlexspinandReadPageFail),
            20001 => Some(StatusCode::FlexspinandReadCacheFail),
            20002 => Some(StatusCode::FlexspinandEccCheckFail),
            20003 => Some(StatusCode::FlexspinandPageLoadFail),
            20004 => Some(StatusCode::FlexspinandPageExecuteFail),
            20005 => Some(StatusCode::FlexspinandEraseBlockFail),
            20006 => Some(StatusCode::FlexspinandWaitTimeout),
            20007 => Some(StatusCode::FlexSpinandNotSupported),
            20008 => Some(StatusCode::FlexSpinandFcbUpdateFail),
            20009 => Some(StatusCode::FlexSpinandDbbtUpdateFail),
            20010 => Some(StatusCode::FlexspinandWritealignmenterror),
            20011 => Some(StatusCode::FlexspinandNotFound),
            20100 => Some(StatusCode::FlexspinorProgramFail),
            20101 => Some(StatusCode::FlexspinorEraseSectorFail),
            20102 => Some(StatusCode::FlexspinorEraseAllFail),
            20103 => Some(StatusCode::FlexspinorWaitTimeout),
            20104 => Some(StatusCode::FlexspinorNotSupported),
            20105 => Some(StatusCode::FlexspinorWriteAlignmentError),
            20106 => Some(StatusCode::FlexspinorCommandFailure),
            20107 => Some(StatusCode::FlexspinorSfdpNotFound),
            20108 => Some(StatusCode::FlexspinorUnsupportedSfdpVersion),
            20109 => Some(StatusCode::FlexspinorFlashNotFound),
            20110 => Some(StatusCode::FlexspinorDtrReadDummyProbeFailed),
            20200 => Some(StatusCode::OcotpReadFailure),
            20201 => Some(StatusCode::OcotpProgramFailure),
            20202 => Some(StatusCode::OcotpReloadFailure),
            20203 => Some(StatusCode::OcotpWaitTimeout),
            21100 => Some(StatusCode::SemcnorDeviceTimeout),
            21101 => Some(StatusCode::SemcnorInvalidMemoryAddress),
            21102 => Some(StatusCode::SemcnorUnmatchedCommandSet),
            21103 => Some(StatusCode::SemcnorAddressAlignmentError),
            21104 => Some(StatusCode::SemcnorInvalidCfiSignature),
            21105 => Some(StatusCode::SemcnorCommandErrorNoOpToSuspend),
            21106 => Some(StatusCode::SemcnorCommandErrorNoInfoAvailable),
            21107 => Some(StatusCode::SemcnorBlockEraseCommandFailure),
            21108 => Some(StatusCode::SemcnorBufferProgramCommandFailure),
            21109 => Some(StatusCode::SemcnorProgramVerifyFailure),
            21110 => Some(StatusCode::SemcnorEraseVerifyFailure),
            21116 => Some(StatusCode::SemcnorInvalidCfgTag),
            21200 => Some(StatusCode::SemcnandDeviceTimeout),
            21201 => Some(StatusCode::SemcnandInvalidMemoryAddress),
            21202 => Some(StatusCode::SemcnandNotEqualToOnePageSize),
            21203 => Some(StatusCode::SemcnandMoreThanOnePageSize),
            21204 => Some(StatusCode::SemcnandEccCheckFail),
            21205 => Some(StatusCode::SemcnandInvalidOnfiParameter),
            21206 => Some(StatusCode::SemcnandCannotEnableDeviceEcc),
            21207 => Some(StatusCode::SemcnandSwitchTimingModeFailure),
            21208 => Some(StatusCode::SemcnandProgramVerifyFailure),
            21209 => Some(StatusCode::SemcnandEraseVerifyFailure),
            21210 => Some(StatusCode::SemcnandInvalidReadbackBuffer),
            21216 => Some(StatusCode::SemcnandInvalidCfgTag),
            21217 => Some(StatusCode::SemcnandFailToUpdateFcb),
            21218 => Some(StatusCode::SemcnandFailToUpdateDbbt),
            21219 => Some(StatusCode::SemcnandDisallowOverwriteBcb),
            21220 => Some(StatusCode::SemcnandOnlySupportOnfiDevice),
            21221 => Some(StatusCode::SemcnandMoreThanMaxImageCopy),
            21222 => Some(StatusCode::SemcnandDisorderedImageCopies),
            22000 => Some(StatusCode::SpifinorProgramFail),
            22001 => Some(StatusCode::SpifinorEraseSectorfail),
            22002 => Some(StatusCode::SpifinorEraseAllFail),
            22003 => Some(StatusCode::SpifinorWaitTimeout),
            22004 => Some(StatusCode::SpifinorNotSupported),
            22005 => Some(StatusCode::SpifinorWriteAlignmentError),
            22006 => Some(StatusCode::SpifinorCommandFailure),
            22007 => Some(StatusCode::SpifinorSfdpNotFound),
            30000 => Some(StatusCode::EdgelockInvalidResponse),
            30001 => Some(StatusCode::EdgelockResponseError),
            30002 => Some(StatusCode::EdgelockAbort),
            30003 => Some(StatusCode::EdgelockOperationFailed),
            30004 => Some(StatusCode::EdgelockOtpProgramFailure),
            30005 => Some(StatusCode::EdgelockOtpLocked),
            30006 => Some(StatusCode::EdgelockOtpInvalidIdx),
            30007 => Some(StatusCode::EdgelockInvalidLifecycle),
            52801 => Some(StatusCode::OtpInvalidAddress),
            52802 => Some(StatusCode::OtpProgramFail),
            52803 => Some(StatusCode::OtpCrcFail),
            52804 => Some(StatusCode::OtpError),
            52805 => Some(StatusCode::OtpEccCrcFail),
            52806 => Some(StatusCode::OtpLocked),
            52807 => Some(StatusCode::OtpTimeout),
            52808 => Some(StatusCode::OtpCrcCheckPass),
            52009 => Some(StatusCode::OtpVerifyFail),
            1515890085 => Some(StatusCode::SecuritySubsystemError),
            80000 => Some(StatusCode::TpGeneralError),
            80001 => Some(StatusCode::TpCryptoError),
            80002 => Some(StatusCode::TpNullptrError),
            80003 => Some(StatusCode::TpAlreadyinitialized),
            80004 => Some(StatusCode::TpBuffersmall),
            80005 => Some(StatusCode::TpAddressError),
            80006 => Some(StatusCode::TpContainerInvalid),
            80007 => Some(StatusCode::TpContainerentryinvalid),
            80008 => Some(StatusCode::TpContainerentrynotfound),
            80009 => Some(StatusCode::TpInvalidstateoperation),
            80010 => Some(StatusCode::TpCommandError),
            80011 => Some(StatusCode::TpPufError),
            80012 => Some(StatusCode::TpFlashError),
            80013 => Some(StatusCode::TpSecretboxError),
            80014 => Some(StatusCode::TpPfrError),
            80015 => Some(StatusCode::TpVerificationError),
            80016 => Some(StatusCode::TpCfpaError),
            80017 => Some(StatusCode::TpCmpaError),
            80018 => Some(StatusCode::TpAddrOutOfRange),
            80019 => Some(StatusCode::TpContainerAddrError),
            80020 => Some(StatusCode::TpContainerAddrUnaligned),
            80021 => Some(StatusCode::TpContainerBuffSmall),
            80022 => Some(StatusCode::TpContainerNoEntry),
            80023 => Some(StatusCode::TpCertAddrError),
            80024 => Some(StatusCode::TpCertAddrUnaligned),
            80025 => Some(StatusCode::TpCertOverlapping),
            80026 => Some(StatusCode::TpPacketError),
            80027 => Some(StatusCode::TpPacketDataError),
            80028 => Some(StatusCode::TpUnknownCommand),
            80029 => Some(StatusCode::TpSb3FileError),
            80101 => Some(StatusCode::TpGeneralCriticalError),
            80102 => Some(StatusCode::TpCryptoCriticalError),
            80103 => Some(StatusCode::TpPufCriticalError),
            80104 => Some(StatusCode::TpPfrCriticalError),
            80105 => Some(StatusCode::TpPeripheralCriticalError),
            80106 => Some(StatusCode::TpPrinceCriticalError),
            80107 => Some(StatusCode::TpShaCheckCriticalError),
            100001 => Some(StatusCode::IapInvalidArgument),
            100002 => Some(StatusCode::IapOutOfMemory),
            100003 => Some(StatusCode::IapReadDisallowed),
            100004 => Some(StatusCode::IapCumulativeWrite),
            100005 => Some(StatusCode::IapEraseFailure),
            100006 => Some(StatusCode::IapCommandNotSupported),
            100007 => Some(StatusCode::IapMemoryAccessDisabled),
            0x5a5a5a5a => Some(StatusCode::El2goProvSuccess),
            _ => None,
        }
    }

    /// The text that describes this status.
    pub open spec fn spec_description(self) -> Seq<char> {
        match self {
            StatusCode::Success => "Success"@,
            StatusCode::Fail => "Fail"@,
            StatusCode::ReadOnly => "ReadOnly"@,
            StatusCode::OutOfRange => "OutOfRange"@,
            StatusCode::InvalidArgument => "InvalidArgument"@,
            StatusCode::Timeout => "Timeout"@,
            StatusCode::NoTransferInProgress => "NoTransferInProgress"@,
            StatusCode::FlashSizeError => "FLASH Driver: Size Error"@,
            StatusCode::FlashAlignmentError => "FLASH Driver: Alignment Error"@,
            StatusCode::FlashAddressError => "FLASH Driver: Address Error"@,
            StatusCode::FlashAccessError => "FLASH Driver: Access Error"@,
            StatusCode::FlashProtectionViolation => "FLASH Driver: Protection Violation"@,
            StatusCode::FlashCommandFailure => "FLASH Driver: Command Failure"@,
            StatusCode::FlashUnknownProperty => "FLASH Driver: Unknown Property"@,
            StatusCode::FlashEraseKeyError => "FLASH Driver: Provided Key Does Not Match Programmed Flash Memory Key"@,
            StatusCode::FlashRegionExecuteOnly => "FLASH Driver: Region Execute Only"@,
            StatusCode::FlashExecInRamNotReady => "FLASH Driver: Execute In RAM Function Not Ready"@,
            StatusCode::FlashCommandNotSupported => "FLASH Driver: Command Not Supported"@,
            StatusCode::FlashReadOnlyProperty => "FLASH Driver: Flash Memory Property Is Read-Only"@,
            StatusCode::FlashInvalidPropertyValue => "FLASH Driver: Flash Memory Property Value Out Of Range"@,
            StatusCode::FlashInvalidSpeculationOption => "FLASH Driver: Flash Memory Prefetch Speculation Option Is Invalid"@,
            StatusCode::FlashEccError => "FLASH Driver: ECC Error"@,
            StatusCode::FlashCompareError => "FLASH Driver: Destination And Source Memory Contents Do Not Match"@,
            StatusCode::FlashRegulationLoss => "FLASH Driver: Loss Of Regulation During Read"@,
            StatusCode::FlashInvalidWaitStateCycles => "FLASH Driver: Wait State Cycle Set To Read/Write Mode Is Invalid"@,
            StatusCode::FlashOutOfDateCfpaPage => "FLASH Driver: Out Of Date CFPA Page"@,
            StatusCode::FlashBlankIfrPageData => "FLASH Driver: Blank IFR Page Data"@,
            StatusCode::FlashEncryptedRegionsEraseNotDoneAtOnce => "FLASH Driver: Encrypted Regions Erase Not Done At Once"@,
            StatusCode::FlashProgramVerificationNotAllowed => "FLASH Driver: Program Verification Not Allowed"@,
            StatusCode::FlashHashCheckError => "FLASH Driver: Hash Check Error"@,
            StatusCode::FlashSealedPfrRegion => "FLASH Driver: Sealed PFR Region"@,
            StatusCode::FlashPfrRegionWriteBroken => "FLASH Driver: PFR Region Write Broken"@,
            StatusCode::FlashNmpaUpdateNotAllowed => "FLASH Driver: NMPA Update Not Allowed"@,
            StatusCode::FlashCmpaCfgDirectEraseNotAllowed => "FLASH Driver: CMPA Cfg Direct Erase Not Allowed"@,
            StatusCode::FlashPfrBankIsLocked => "FLASH Driver: PFR Bank Is Locked"@,
            StatusCode::FlashCfpaScratchPageInvalid => "FLASH Driver: CFPA Scratch Page Invalid"@,
            StatusCode::FlashCfpaVersionRollbackDisallowed => "FLASH Driver: CFPA Version Rollback Disallowed"@,
            StatusCode::FlashReadHidingAreaDisallowed => "FLASH Driver: Flash Memory Hiding Read Not Allowed"@,
            StatusCode::FlashModifyProtectedAreaDisallowed => "FLASH Driver: Flash Firewall Page Locked Erase And Program Are Not Allowed"@,
            StatusCode::FlashCommandOperationInProgress => "FLASH Driver: Flash Memory State Busy Flash Memory Command Is In Progress"@,
            StatusCode::I2cSlaveTxUnderrun => "I2C Driver: Slave Tx Underrun"@,
            StatusCode::I2cSlaveRxOverrun => "I2C Driver: Slave Rx Overrun"@,
            StatusCode::I2cArbitrationLost => "I2C Driver: Arbitration Lost"@,
            StatusCode::SpiSlaveTxUnderrun => "SPI Driver: Slave Tx Underrun"@,
            StatusCode::SpiSlaveRxOverrun => "SPI Driver: Slave Rx Overrun"@,
            StatusCode::QspiFlashSizeError => "QSPI Driver: Flash Size Error"@,
            StatusCode::QspiFlashAlignmentError => "QSPI Driver: Flash Alignment Error"@,
            StatusCode::QspiFlashAddressError => "QSPI Driver: Flash Address Error"@,
            StatusCode::QspiFlashCommandFailure => "QSPI Driver: Flash Command Failure"@,
            StatusCode::QspiFlashUnknownProperty => "QSPI Driver: Flash Unknown Property"@,
            StatusCode::QspiNotConfigured => "QSPI Driver: Not Configured"@,
            StatusCode::QspiCommandNotSupported => "QSPI Driver: Command Not Supported"@,
            StatusCode::QspiCommandTimeout => "QSPI Driver: Command Timeout"@,
            StatusCode::QspiWriteFailure => "QSPI Driver: Write Failure"@,
            StatusCode::OtfadSecurityViolation => "OTFAD Driver: Security Violation"@,
            StatusCode::OtfadLogicallyDisabled => "OTFAD Driver: Logically Disabled"@,
            StatusCode::OtfadInvalidKey => "OTFAD Driver: Invalid Key"@,
            StatusCode::OtfadInvalidKeyBlob => "OTFAD Driver: Invalid Key Blob"@,
            StatusCode::SendingOperationConditionError => "Send Operation Condition failed"@,
            StatusCode::FlexspiSequenceExecutionTimeoutRt5xx => "FLEXSPI: Sequence Execution Timeout"@,
            StatusCode::FlexspiInvalidSequenceRt5xx => "FLEXSPI: Invalid Sequence"@,
            StatusCode::FlexspiDeviceTimeoutRt5xx => "FLEXSPI: Device Timeout"@,
            StatusCode::FlexspiSequenceExecutionTimeout => "FLEXSPI: Sequence Execution Timeout"@,
            StatusCode::FlexspiInvalidSequence => "FLEXSPI: Invalid Sequence"@,
            StatusCode::FlexspiDeviceTimeout => "FLEXSPI: Device Timeout"@,
            StatusCode::UnknownCommand => "Unknown Command"@,
            StatusCode::SecurityViolation => "Security Violation"@,
            StatusCode::AbortDataPhase => "Abort Data Phase"@,
            StatusCode::PingError => "Ping Error"@,
            StatusCode::NoResponse => "No response packet from target device"@,
            StatusCode::NoResponseExpected => "No Response Expected"@,
            StatusCode::UnsupportedCommand => "Unsupported Command"@,
            StatusCode::RomldrSectionOverrun => "ROM Loader: Section Overrun"@,
            StatusCode::RomldrSignature => "ROM Loader: Signature Error"@,
            StatusCode::RomldrSectionLength => "ROM Loader: Section Length Error"@,
            StatusCode::RomldrUnencryptedOnly => "ROM Loader: Unencrypted Only"@,
            StatusCode::RomldrEofReached => "ROM Loader: EOF Reached"@,
            StatusCode::RomldrChecksum => "ROM Loader: Checksum Error"@,
            StatusCode::RomldrCrc32Error => "ROM Loader: CRC32 Error"@,
            StatusCode::RomldrUnknownCommand => "ROM Loader: Unknown Command"@,
            StatusCode::RomldrIdNotFound => "ROM Loader: ID Not Found"@,
            StatusCode::RomldrDataUnderrun => "ROM Loader: Data Underrun"@,
            StatusCode::RomldrJumpReturned => "ROM Loader: Jump Returned"@,
            StatusCode::RomldrCallFailed => "ROM Loader: Call Failed"@,
            StatusCode::RomldrKeyNotFound => "ROM Loader: Key Not Found"@,
            StatusCode::RomldrSecureOnly => "ROM Loader: Secure Only"@,
            StatusCode::RomldrResetReturned => "ROM Loader: Reset Returned"@,
            StatusCode::RomldrRollbackBlocked => "ROM Loader: Rollback Blocked"@,
            StatusCode::RomldrInvalidSectionMacCount => "ROM Loader: Invalid Section Mac Count"@,
            StatusCode::RomldrUnexpectedCommand => "ROM Loader: Unexpected Command"@,
            StatusCode::RomldrBadSbkek => "ROM Loader: Bad SBKEK Detected"@,
            StatusCode::RomldrPendingJumpCommand => "ROM Loader: Pending Jump Command"@,
            StatusCode::MemoryRangeInvalid => "Memory Range Invalid"@,
            StatusCode::MemoryReadFailed => "Memory Read Failed"@,
            StatusCode::MemoryWriteFailed => "Memory Write Failed"@,
            StatusCode::MemoryCumulativeWrite => "Memory Cumulative Write"@,
            StatusCode::MemoryAppOverlapWithExecuteOnlyRegion => "Memory App Overlap with exec region"@,
            StatusCode::MemoryNotConfigured => "Memory Not Configured"@,
            StatusCode::MemoryAlignmentError => "Memory Alignment Error"@,
            StatusCode::MemoryVerifyFailed => "Memory Verify Failed"@,
            StatusCode::MemoryWriteProtected => "Memory Write Protected"@,
            StatusCode::MemoryAddressError => "Memory Address Error"@,
            StatusCode::MemoryBlankCheckFailed => "Memory Black Check Failed"@,
            StatusCode::MemoryBlankPageReadDisallowed => "Memory Blank Page Read Disallowed"@,
            StatusCode::MemoryProtectedPageReadDisallowed => "Memory Protected Page Read Disallowed"@,
            StatusCode::MemoryPfrSpecRegionWriteBroken => "Memory PFR Spec Region Write Broken"@,
            StatusCode::MemoryUnsupportedCommand => "Memory Unsupported Command"@,
            StatusCode::UnknownProperty => "Unknown Property"@,
            StatusCode::ReadOnlyProperty => "Read Only Property"@,
            StatusCode::InvalidPropertyValue => "Invalid Property Value"@,
            StatusCode::AppCrcCheckPassed => "Application CRC Check: Passed"@,
            StatusCode::AppCrcCheckFailed => "Application: CRC Check: Failed"@,
            StatusCode::AppCrcCheckInactive => "Application CRC Check: Inactive"@,
            StatusCode::AppCrcCheckInvalid => "Application CRC Check: Invalid"@,
            StatusCode::AppCrcCheckOutOfRange => "Application CRC Check: Out Of Range"@,
            StatusCode::PacketizerNoPingResponse => "Packetizer Error: No Ping Response"@,
            StatusCode::PacketizerInvalidPacketType => "Packetizer Error: No response received for ping command"@,
            StatusCode::PacketizerInvalidCrc => "Packetizer Error: Invalid packet type"@,
            StatusCode::PacketizerNoCommandResponse => "Packetizer Error: No response received for command"@,
            StatusCode::ReliableUpdateSuccess => "Reliable Update: Success"@,
            StatusCode::ReliableUpdateFail => "Reliable Update: Fail"@,
            StatusCode::ReliableUpdateInactive => "Reliable Update: Inactive"@,
            StatusCode::ReliableUpdateBackupapplicationinvalid => "Reliable Update: Backup Application Invalid"@,
            StatusCode::ReliableUpdateStillinmainapplication => "Reliable Update: Still In Main Application"@,
            StatusCode::ReliableUpdateSwapsystemnotready => "Reliable Update: Swap System Not Ready"@,
            StatusCode::ReliableUpdateBackupbootloadernotready => "Reliable Update: Backup Bootloader Not Ready"@,
            StatusCode::ReliableUpdateSwapindicatoraddressinvalid => "Reliable Update: Swap Indicator Address Invalid"@,
            StatusCode::ReliableUpdateSwapsystemnotavailable => "Reliable Update: Swap System Not Available"@,
            StatusCode::ReliableUpdateSwaptest => "Reliable Update: Swap Test"@,
            StatusCode::SerialNorEepromAddressInvalid => "SerialNorEeprom: Address Invalid"@,
            StatusCode::SerialNorEepromTransferError => "SerialNorEeprom: Transfer Error"@,
            StatusCode::SerialNorEepromTypeInvalid => "SerialNorEeprom: Type Invalid"@,
            StatusCode::SerialNorEepromSizeInvalid => "SerialNorEeprom: Size Invalid"@,
            StatusCode::SerialNorEepromCommandInvalid => "SerialNorEeprom: Command Invalid"@,
            StatusCode::RomApiNeedMoreData => "RomApi: Need More Data"@,
            StatusCode::RomApiBufferSizeNotEnough => "RomApi: Buffer Size Not Enough"@,
            StatusCode::RomApiInvalidBuffer => "RomApi: Invalid Buffer"@,
            StatusCode::FlexspinandReadPageFail => "FlexSPINAND: Read Page Fail"@,
            StatusCode::FlexspinandReadCacheFail => "FlexSPINAND: Read Cache Fail"@,
            StatusCode::FlexspinandEccCheckFail => "FlexSPINAND: Ecc Check Fail"@,
            StatusCode::FlexspinandPageLoadFail => "FlexSPINAND: Page Load Fail"@,
            StatusCode::FlexspinandPageExecuteFail => "FlexSPINAND: Page Execute Fail"@,
            StatusCode::FlexspinandEraseBlockFail => "FlexSPINAND: Erase Block Fail"@,
            StatusCode::FlexspinandWaitTimeout => "FlexSPINAND: Wait Timeout"@,
            StatusCode::FlexSpinandNotSupported => "SPI NAND: PageSize over the max supported size"@,
            StatusCode::FlexSpinandFcbUpdateFail => "SPI NAND: Failed to update Flash config block to SPI NAND"@,
            StatusCode::FlexSpinandDbbtUpdateFail => "SPI NAND: Failed to update discovered bad block table to SPI NAND"@,
            StatusCode::FlexspinandWritealignmenterror => "FlexSPINAND: Write Alignment Error"@,
            StatusCode::FlexspinandNotFound => "FlexSPINAND: Not Found"@,
            StatusCode::FlexspinorProgramFail => "FLEXSPINOR: Program Fail"@,
            StatusCode::FlexspinorEraseSectorFail => "FLEXSPINOR: Erase Sector Fail"@,
            StatusCode::FlexspinorEraseAllFail => "FLEXSPINOR: Erase All Fail"@,
            StatusCode::FlexspinorWaitTimeout => "FLEXSPINOR:Wait Timeout"@,
            StatusCode::FlexspinorNotSupported => "FlexSPINOR: PageSize over the max supported size"@,
            StatusCode::FlexspinorWriteAlignmentError => "FlexSPINOR:Write Alignment Error"@,
            StatusCode::FlexspinorCommandFailure => "FlexSPINOR: Command Failure"@,
            StatusCode::FlexspinorSfdpNotFound => "FlexSPINOR: SFDP Not Found"@,
            StatusCode::FlexspinorUnsupportedSfdpVersion => "FLEXSPINOR: Unsupported SFDP Version"@,
            StatusCode::FlexspinorFlashNotFound => "FLEXSPINOR Flash Not Found"@,
            StatusCode::FlexspinorDtrReadDummyProbeFailed => "FLEXSPINOR: DTR Read Dummy Probe Failed"@,
            StatusCode::OcotpReadFailure => "OCOTP: Read Failure"@,
            StatusCode::OcotpProgramFailure => "OCOTP: Program Failure"@,
            StatusCode::OcotpReloadFailure => "OCOTP: Reload Failure"@,
            StatusCode::OcotpWaitTimeout => "OCOTP: Wait Timeout"@,
            StatusCode::SemcnorDeviceTimeout => "SemcNOR: Device Timeout"@,
            StatusCode::SemcnorInvalidMemoryAddress => "SemcNOR: Invalid Memory Address"@,
            StatusCode::SemcnorUnmatchedCommandSet => "SemcNOR: unmatched Command Set"@,
            StatusCode::SemcnorAddressAlignmentError => "SemcNOR: Address Alignment Error"@,
            StatusCode::SemcnorInvalidCfiSignature => "SemcNOR: Invalid Cfi Signature"@,
            StatusCode::SemcnorCommandErrorNoOpToSuspend => "SemcNOR: Command Error No Op To Suspend"@,
            StatusCode::SemcnorCommandErrorNoInfoAvailable => "SemcNOR: Command Error No Info Available"@,
            StatusCode::SemcnorBlockEraseCommandFailure => "SemcNOR: Block Erase Command Failure"@,
            StatusCode::SemcnorBufferProgramCommandFailure => "SemcNOR: Buffer Program Command Failure"@,
            StatusCode::SemcnorProgramVerifyFailure => "SemcNOR: Program Verify Failure"@,
            StatusCode::SemcnorEraseVerifyFailure => "SemcNOR: Erase Verify Failure"@,
            StatusCode::SemcnorInvalidCfgTag => "SemcNOR: Invalid Cfg Tag"@,
            StatusCode::SemcnandDeviceTimeout => "SemcNAND: Device Timeout"@,
            StatusCode::SemcnandInvalidMemoryAddress => "SemcNAND: Invalid Memory Address"@,
            StatusCode::SemcnandNotEqualToOnePageSize => "SemcNAND: Not Equal To One Page Size"@,
            StatusCode::SemcnandMoreThanOnePageSize => "SemcNAND: More Than One Page Size"@,
            StatusCode::SemcnandEccCheckFail => "SemcNAND: Ecc Check Fail"@,
            StatusCode::SemcnandInvalidOnfiParameter => "SemcNAND: Invalid Onfi Parameter"@,
            StatusCode::SemcnandCannotEnableDeviceEcc => "SemcNAND: Cannot Enable Device Ecc"@,
            StatusCode::SemcnandSwitchTimingModeFailure => "SemcNAND: Switch Timing Mode Failure"@,
            StatusCode::SemcnandProgramVerifyFailure => "SemcNAND: Program Verify Failure"@,
            StatusCode::SemcnandEraseVerifyFailure => "SemcNAND: Erase Verify Failure"@,
            StatusCode::SemcnandInvalidReadbackBuffer => "SemcNAND: Invalid Readback Buffer"@,
            StatusCode::SemcnandInvalidCfgTag => "SemcNAND: Invalid Cfg Tag"@,
            StatusCode::SemcnandFailToUpdateFcb => "SemcNAND: Fail To Update Fcb"@,
            StatusCode::SemcnandFailToUpdateDbbt => "SemcNAND: Fail To Update Dbbt"@,
            StatusCode::SemcnandDisallowOverwriteBcb => "SemcNAND: Disallow Overwrite Bcb"@,
            StatusCode::SemcnandOnlySupportOnfiDevice => "SemcNAND: Only Support Onfi Device"@,
            StatusCode::SemcnandMoreThanMaxImageCopy => "SemcNAND: More Than Max Image Copy"@,
            StatusCode::SemcnandDisorderedImageCopies => "SemcNAND: Disordered Image Copies"@,
            StatusCode::SpifinorProgramFail => "SPIFINOR: Program Fail"@,
            StatusCode::SpifinorEraseSectorfail => "SPIFINOR: Erase Sector Fail"@,
            StatusCode::SpifinorEraseAllFail => "SPIFINOR: Erase All Fail"@,
            StatusCode::SpifinorWaitTimeout => "SPIFINOR: Wait Timeout"@,
            StatusCode::SpifinorNotSupported => "SPIFINOR: Not Supported"@,
            StatusCode::SpifinorWriteAlignmentError => "SPIFINOR: Write Alignment Error"@,
            StatusCode::SpifinorCommandFailure => "SPIFINOR: Command Failure"@,
            StatusCode::SpifinorSfdpNotFound => "SPIFINOR: SFDP Not Found"@,
            StatusCode::EdgelockInvalidResponse => "EDGELOCK: Invalid Response"@,
            StatusCode::EdgelockResponseError => "EDGELOCK: Response Error"@,
            StatusCode::EdgelockAbort => "EDGELOCK: Abort"@,
            StatusCode::EdgelockOperationFailed => "EDGELOCK: Operation Failed"@,
            StatusCode::EdgelockOtpProgramFailure => "EDGELOCK: OTP Program Failure"@,
            StatusCode::EdgelockOtpLocked => "EDGELOCK: OTP Locked"@,
            StatusCode::EdgelockOtpInvalidIdx => "EDGELOCK: OTP Invalid IDX"@,
            StatusCode::EdgelockInvalidLifecycle => "EDGELOCK: Invalid Lifecycle"@,
            StatusCode::OtpInvalidAddress => "OTD: Invalid OTP address"@,
            StatusCode::OtpProgramFail => "OTD: Programming failed"@,
            StatusCode::OtpCrcFail => "OTP: CRC check failed"@,
            StatusCode::OtpError => "OTP: Error happened during OTP operation"@,
            StatusCode::OtpEccCrcFail => "OTP: ECC check failed during OTP operation"@,
            StatusCode::OtpLocked => "OTP: Field is locked when programming"@,
            StatusCode::OtpTimeout => "OTP: Operation timed out"@,
            StatusCode::OtpCrcCheckPass => "OTP: CRC check passed"@,
            StatusCode::OtpVerifyFail => "OTP: Failed to verify OTP write"@,
            StatusCode::SecuritySubsystemError => "Security SubSystem Error"@,
            StatusCode::TpGeneralError => "TP: General error"@,
            StatusCode::TpCryptoError => "TP: Error during cryptographic operation"@,
            StatusCode::TpNullptrError => "TP: NULL pointer dereference or when buffer could not be allocated"@,
            StatusCode::TpAlreadyinitialized => "TP: Already initialized"@,
            StatusCode::TpBuffersmall => "TP: Buffer is too small"@,
            StatusCode::TpAddressError => "TP: Address out of allowed range or buffer could not be allocated"@,
            StatusCode::TpContainerInvalid => "TP: Container header or size is invalid"@,
            StatusCode::TpContainerentryinvalid => "TP: Container entry invalid"@,
            StatusCode::TpContainerentrynotfound => "TP: Container entry not found in container"@,
            StatusCode::TpInvalidstateoperation => "TP: Attempt to process command in disallowed state"@,
            StatusCode::TpCommandError => "TP: ISP command arguments are invalid"@,
            StatusCode::TpPufError => "TP: PUF operation error"@,
            StatusCode::TpFlashError => "TP: Flash erase/program/verify_erase failed"@,
            StatusCode::TpSecretboxError => "TP: SBKEK or USER KEK cannot be stored in secret box"@,
            StatusCode::TpPfrError => "TP: Protected Flash Region operation failed"@,
            StatusCode::TpVerificationError => "TP: Container signature verification failed"@,
            StatusCode::TpCfpaError => "TP: CFPA page cannot be stored"@,
            StatusCode::TpCmpaError => "TP: CMPA page cannot be stored or ROTKH or SECU registers are invalid"@,
            StatusCode::TpAddrOutOfRange => "TP: Address is out of range"@,
            StatusCode::TpContainerAddrError => "TP: Container address in write context is invalid or there is no memory for entry storage"@,
            StatusCode::TpContainerAddrUnaligned => "TP: Container address in read context is unaligned"@,
            StatusCode::TpContainerBuffSmall => "TP: There is not enough memory to store the container"@,
            StatusCode::TpContainerNoEntry => "TP: Attempt to sign an empty container"@,
            StatusCode::TpCertAddrError => "TP: Destination address of OEM certificate is invalid"@,
            StatusCode::TpCertAddrUnaligned => "TP: Destination address of certificate is unaligned"@,
            StatusCode::TpCertOverlapping => "TP: OEM certificates are overlapping due to wrong destination addresses"@,
            StatusCode::TpPacketError => "TP: Error during packet sending/receiving"@,
            StatusCode::TpPacketDataError => "TP: Data in packet handle are invalid"@,
            StatusCode::TpUnknownCommand => "TP: Unknown command was received"@,
            StatusCode::TpSb3FileError => "TP: Error during processing SB3 file"@,
            StatusCode::TpGeneralCriticalError => "TP: Critical error"@,
            StatusCode::TpCryptoCriticalError => "TP: Error of crypto module which prevents proper functionality"@,
            StatusCode::TpPufCriticalError => "TP: Initialization or start of the PUF periphery failed"@,
            StatusCode::TpPfrCriticalError => "TP: Initialization of PFR or reading of activation code failed"@,
            StatusCode::TpPeripheralCriticalError => "TP: Peripheral failure"@,
            StatusCode::TpPrinceCriticalError => "TP: Error during PRINCE encryption/decryption"@,
            StatusCode::TpShaCheckCriticalError => "TP: SHA check verification failed"@,
            StatusCode::IapInvalidArgument => "IAP: Invalid Argument Detected During API Execution"@,
            StatusCode::IapOutOfMemory => "IAP: Heap Size Not Large Enough During API Execution"@,
            StatusCode::IapReadDisallowed => "IAP: Read Memory Operation Disallowed During API Execution"@,
            StatusCode::IapCumulativeWrite => "IAP: Flash Memory Region To Be Programmed Is Not Empty"@,
            StatusCode::IapEraseFailure => "IAP: Erase Operation Failed"@,
            StatusCode::IapCommandNotSupported => "IAP: Specific Command Not Supported"@,
            StatusCode::IapMemoryAccessDisabled => "IAP: Memory Access Disabled"@,
            StatusCode::El2goProvSuccess => "Device has been successfully provisioned."@,
            StatusCode::UnknownStatusCode => "Unknown status code"@,
        }
    }

    /// The text that describes this status.
    pub fn description(self) -> (text: &'static str)
        ensures
            text@ == self.spec_description(),
    {
        match self {
            StatusCode::Success => "Success",
            StatusCode::Fail => "Fail",
            StatusCode::ReadOnly => "ReadOnly",
            StatusCode::OutOfRange => "OutOfRange",
            StatusCode::InvalidArgument => "InvalidArgument",
            StatusCode::Timeout => "Timeout",
            StatusCode::NoTransferInProgress => "NoTransferInProgress",
            StatusCode::FlashSizeError => "FLASH Driver: Size Error",
            StatusCode::FlashAlignmentError => "FLASH Driver: Alignment Error",
            StatusCode::FlashAddressError => "FLASH Driver: Address Error",
            StatusCode::FlashAccessError => "FLASH Driver: Access Error",
            StatusCode::FlashProtectionViolation => "FLASH Driver: Protection Violation",
            StatusCode::FlashCommandFailure => "FLASH Driver: Command Failure",
            StatusCode::FlashUnknownProperty => "FLASH Driver: Unknown Property",
            StatusCode::FlashEraseKeyError => "FLASH Driver: Provided Key Does Not Match Programmed Flash Memory Key",
            StatusCode::FlashRegionExecuteOnly => "FLASH Driver: Region Execute Only",
            StatusCode::FlashExecInRamNotReady => "FLASH Driver: Execute In RAM Function Not Ready",
            StatusCode::FlashCommandNotSupported => "FLASH Driver: Command Not Supported",
            StatusCode::FlashReadOnlyProperty => "FLASH Driver: Flash Memory Property Is Read-Only",
            StatusCode::FlashInvalidPropertyValue => "FLASH Driver: Flash Memory Property Value Out Of Range",
            StatusCode::FlashInvalidSpeculationOption => "FLASH Driver: Flash Memory Prefetch Speculation Option Is Invalid",
            StatusCode::FlashEccError => "FLASH Driver: ECC Error",
            StatusCode::FlashCompareError => "FLASH Driver: Destination And Source Memory Contents Do Not Match",
            StatusCode::FlashRegulationLoss => "FLASH Driver: Loss Of Regulation During Read",
            StatusCode::FlashInvalidWaitStateCycles => "FLASH Driver: Wait State Cycle Set To Read/Write Mode Is Invalid",
            StatusCode::FlashOutOfDateCfpaPage => "FLASH Driver: Out Of Date CFPA Page",
            StatusCode::FlashBlankIfrPageData => "FLASH Driver: Blank IFR Page Data",
            StatusCode::FlashEncryptedRegionsEraseNotDoneAtOnce => "FLASH Driver: Encrypted Regions Erase Not Done At Once",
            StatusCode::FlashProgramVerificationNotAllowed => "FLASH Driver: Program Verification Not Allowed",
            StatusCode::FlashHashCheckError => "FLASH Driver: Hash Check Error",
            StatusCode::FlashSealedPfrRegion => "FLASH Driver: Sealed PFR Region",
            StatusCode::FlashPfrRegionWriteBroken => "FLASH Driver: PFR Region Write Broken",
            StatusCode::FlashNmpaUpdateNotAllowed => "FLASH Driver: NMPA Update Not Allowed",
            StatusCode::FlashCmpaCfgDirectEraseNotAllowed => "FLASH Driver: CMPA Cfg Direct Erase Not Allowed",
            StatusCode::FlashPfrBankIsLocked => "FLASH Driver: PFR Bank Is Locked",
            StatusCode::FlashCfpaScratchPageInvalid => "FLASH Driver: CFPA Scratch Page Invalid",
            StatusCode::FlashCfpaVersionRollbackDisallowed => "FLASH Driver: CFPA Version Rollback Disallowed",
            StatusCode::FlashReadHidingAreaDisallowed => "FLASH Driver: Flash Memory Hiding Read Not Allowed",
            StatusCode::FlashModifyProtectedAreaDisallowed => "FLASH Driver: Flash Firewall Page Locked Erase And Program Are Not Allowed",
            StatusCode::FlashCommandOperationInProgress => "FLASH Driver: Flash Memory State Busy Flash Memory Command Is In Progress",
            StatusCode::I2cSlaveTxUnderrun => "I2C Driver: Slave Tx Underrun",
            StatusCode::I2cSlaveRxOverrun => "I2C Driver: Slave Rx Overrun",
            StatusCode::I2cArbitrationLost => "I2C Driver: Arbitration Lost",
            StatusCode::SpiSlaveTxUnderrun => "SPI Driver: Slave Tx Underrun",
            StatusCode::SpiSlaveRxOverrun => "SPI Driver: Slave Rx Overrun",
            StatusCode::QspiFlashSizeError => "QSPI Driver: Flash Size Error",
            StatusCode::QspiFlashAlignmentError => "QSPI Driver: Flash Alignment Error",
            StatusCode::QspiFlashAddressError => "QSPI Driver: Flash Address Error",
            StatusCode::QspiFlashCommandFailure => "QSPI Driver: Flash Command Failure",
            StatusCode::QspiFlashUnknownProperty => "QSPI Driver: Flash Unknown Property",
            StatusCode::QspiNotConfigured => "QSPI Driver: Not Configured",
            StatusCode::QspiCommandNotSupported => "QSPI Driver: Command Not Supported",
            StatusCode::QspiCommandTimeout => "QSPI Driver: Command Timeout",
            StatusCode::QspiWriteFailure => "QSPI Driver: Write Failure",
            StatusCode::OtfadSecurityViolation => "OTFAD Driver: Security Violation",
            StatusCode::OtfadLogicallyDisabled => "OTFAD Driver: Logically Disabled",
            StatusCode::OtfadInvalidKey => "OTFAD Driver: Invalid Key",
            StatusCode::OtfadInvalidKeyBlob => "OTFAD Driver: Invalid Key Blob",
            StatusCode::SendingOperationConditionError => "Send Operation Condition failed",
            StatusCode::FlexspiSequenceExecutionTimeoutRt5xx => "FLEXSPI: Sequence Execution Timeout",
            StatusCode::FlexspiInvalidSequenceRt5xx => "FLEXSPI: Invalid Sequence",
            StatusCode::FlexspiDeviceTimeoutRt5xx => "FLEXSPI: Device Timeout",
            StatusCode::FlexspiSequenceExecutionTimeout => "FLEXSPI: Sequence Execution Timeout",
            StatusCode::FlexspiInvalidSequence => "FLEXSPI: Invalid Sequence",
            StatusCode::FlexspiDeviceTimeout => "FLEXSPI: Device Timeout",
            StatusCode::UnknownCommand => "Unknown Command",
            StatusCode::SecurityViolation => "Security Violation",
            StatusCode::AbortDataPhase => "Abort Data Phase",
            StatusCode::PingError => "Ping Error",
            StatusCode::NoResponse => "No response packet from target device",
            StatusCode::NoResponseExpected => "No Response Expected",
            StatusCode::UnsupportedCommand => "Unsupported Command",
            StatusCode::RomldrSectionOverrun => "ROM Loader: Section Overrun",
            StatusCode::RomldrSignature => "ROM Loader: Signature Error",
            StatusCode::RomldrSectionLength => "ROM Loader: Section Length Error",
            StatusCode::RomldrUnencryptedOnly => "ROM Loader: Unencrypted Only",
            StatusCode::RomldrEofReached => "ROM Loader: EOF Reached",
            StatusCode::RomldrChecksum => "ROM Loader: Checksum Error",
            StatusCode::RomldrCrc32Error => "ROM Loader: CRC32 Error",
            StatusCode::RomldrUnknownCommand => "ROM Loader: Unknown Command",
            StatusCode::RomldrIdNotFound => "ROM Loader: ID Not Found",
            StatusCode::RomldrDataUnderrun => "ROM Loader: Data Underrun",
            StatusCode::RomldrJumpReturned => "ROM Loader: Jump Returned",
            StatusCode::RomldrCallFailed => "ROM Loader: Call Failed",
            StatusCode::RomldrKeyNotFound => "ROM Loader: Key Not Found",
            StatusCode::RomldrSecureOnly => "ROM Loader: Secure Only",
            StatusCode::RomldrResetReturned => "ROM Loader: Reset Returned",
            StatusCode::RomldrRollbackBlocked => "ROM Loader: Rollback Blocked",
            StatusCode::RomldrInvalidSectionMacCount => "ROM Loader: Invalid Section Mac Count",
            StatusCode::RomldrUnexpectedCommand => "ROM Loader: Unexpected Command",
            StatusCode::RomldrBadSbkek => "ROM Loader: Bad SBKEK Detected",
            StatusCode::RomldrPendingJumpCommand => "ROM Loader: Pending Jump Command",
            StatusCode::MemoryRangeInvalid => "Memory Range Invalid",
            StatusCode::MemoryReadFailed => "Memory Read Failed",
            StatusCode::MemoryWriteFailed => "Memory Write Failed",
            StatusCode::MemoryCumulativeWrite => "Memory Cumulative Write",
            StatusCode::MemoryAppOverlapWithExecuteOnlyRegion => "Memory App Overlap with exec region",
            StatusCode::MemoryNotConfigured => "Memory Not Configured",
            StatusCode::MemoryAlignmentError => "Memory Alignment Error",
            StatusCode::MemoryVerifyFailed => "Memory Verify Failed",
            StatusCode::MemoryWriteProtected => "Memory Write Protected",
            StatusCode::MemoryAddressError => "Memory Address Error",
            StatusCode::MemoryBlankCheckFailed => "Memory Black Check Failed",
            StatusCode::MemoryBlankPageReadDisallowed => "Memory Blank Page Read Disallowed",
            StatusCode::MemoryProtectedPageReadDisallowed => "Memory Protected Page Read Disallowed",
            StatusCode::MemoryPfrSpecRegionWriteBroken => "Memory PFR Spec Region Write Broken",
            StatusCode::MemoryUnsupportedCommand => "Memory Unsupported Command",
            StatusCode::UnknownProperty => "Unknown Property",
            StatusCode::ReadOnlyProperty => "Read Only Property",
            StatusCode::InvalidPropertyValue => "Invalid Property Value",
            StatusCode::AppCrcCheckPassed => "Application CRC Check: Passed",
            StatusCode::AppCrcCheckFailed => "Application: CRC Check: Failed",
            StatusCode::AppCrcCheckInactive => "Application CRC Check: Inactive",
            StatusCode::AppCrcCheckInvalid => "Application CRC Check: Invalid",
            StatusCode::AppCrcCheckOutOfRange => "Application CRC Check: Out Of Range",
            StatusCode::PacketizerNoPingResponse => "Packetizer Error: No Ping Response",
            StatusCode::PacketizerInvalidPacketType => "Packetizer Error: No response received for ping command",
            StatusCode::PacketizerInvalidCrc => "Packetizer Error: Invalid packet type",
            StatusCode::PacketizerNoCommandResponse => "Packetizer Error: No response received for command",
            StatusCode::ReliableUpdateSuccess => "Reliable Update: Success",
            StatusCode::ReliableUpdateFail => "Reliable Update: Fail",
            StatusCode::ReliableUpdateInactive => "Reliable Update: Inactive",
            StatusCode::ReliableUpdateBackupapplicationinvalid => "Reliable Update: Backup Application Invalid",
            StatusCode::ReliableUpdateStillinmainapplication => "Reliable Update: Still In Main Application",
            StatusCode::ReliableUpdateSwapsystemnotready => "Reliable Update: Swap System Not Ready",
            StatusCode::ReliableUpdateBackupbootloadernotready => "Reliable Update: Backup Bootloader Not Ready",
            StatusCode::ReliableUpdateSwapindicatoraddressinvalid => "Reliable Update: Swap Indicator Address Invalid",
            StatusCode::ReliableUpdateSwapsystemnotavailable => "Reliable Update: Swap System Not Available",
            StatusCode::ReliableUpdateSwaptest => "Reliable Update: Swap Test",
            StatusCode::SerialNorEepromAddressInvalid => "SerialNorEeprom: Address Invalid",
            StatusCode::SerialNorEepromTransferError => "SerialNorEeprom: Transfer Error",
            StatusCode::SerialNorEepromTypeInvalid => "SerialNorEeprom: Type Invalid",
            StatusCode::SerialNorEepromSizeInvalid => "SerialNorEeprom: Size Invalid",
            StatusCode::SerialNorEepromCommandInvalid => "SerialNorEeprom: Command Invalid",
            StatusCode::RomApiNeedMoreData => "RomApi: Need More Data",
            StatusCode::RomApiBufferSizeNotEnough => "RomApi: Buffer Size Not Enough",
            StatusCode::RomApiInvalidBuffer => "RomApi: Invalid Buffer",
            StatusCode::FlexspinandReadPageFail => "FlexSPINAND: Read Page Fail",
            StatusCode::FlexspinandReadCacheFail => "FlexSPINAND: Read Cache Fail",
            StatusCode::FlexspinandEccCheckFail => "FlexSPINAND: Ecc Check Fail",
            StatusCode::FlexspinandPageLoadFail => "FlexSPINAND: Page Load Fail",
            StatusCode::FlexspinandPageExecuteFail => "FlexSPINAND: Page Execute Fail",
            StatusCode::FlexspinandEraseBlockFail => "FlexSPINAND: Erase Block Fail",
            StatusCode::FlexspinandWaitTimeout => "FlexSPINAND: Wait Timeout",
            StatusCode::FlexSpinandNotSupported => "SPI NAND: PageSize over the max supported size",
            StatusCode::FlexSpinandFcbUpdateFail => "SPI NAND: Failed to update Flash config block to SPI NAND",
            StatusCode::FlexSpinandDbbtUpdateFail => "SPI NAND: Failed to update discovered bad block table to SPI NAND",
            StatusCode::FlexspinandWritealignmenterror => "FlexSPINAND: Write Alignment Error",
            StatusCode::FlexspinandNotFound => "FlexSPINAND: Not Found",
            StatusCode::FlexspinorProgramFail => "FLEXSPINOR: Program Fail",
            StatusCode::FlexspinorEraseSectorFail => "FLEXSPINOR: Erase Sector Fail",
            StatusCode::FlexspinorEraseAllFail => "FLEXSPINOR: Erase All Fail",
            StatusCode::FlexspinorWaitTimeout => "FLEXSPINOR:Wait Timeout",
            StatusCode::FlexspinorNotSupported => "FlexSPINOR: PageSize over the max supported size",
            StatusCode::FlexspinorWriteAlignmentError => "FlexSPINOR:Write Alignment Error",
            StatusCode::FlexspinorCommandFailure => "FlexSPINOR: Command Failure",
            StatusCode::FlexspinorSfdpNotFound => "FlexSPINOR: SFDP Not Found",
            StatusCode::FlexspinorUnsupportedSfdpVersion => "FLEXSPINOR: Unsupported SFDP Version",
            StatusCode::FlexspinorFlashNotFound => "FLEXSPINOR Flash Not Found",
            StatusCode::FlexspinorDtrReadDummyProbeFailed => "FLEXSPINOR: DTR Read Dummy Probe Failed",
            StatusCode::OcotpReadFailure => "OCOTP: Read Failure",
            StatusCode::OcotpProgramFailure => "OCOTP: Program Failure",
            StatusCode::OcotpReloadFailure => "OCOTP: Reload Failure",
            StatusCode::OcotpWaitTimeout => "OCOTP: Wait Timeout",
            StatusCode::SemcnorDeviceTimeout => "SemcNOR: Device Timeout",
            StatusCode::SemcnorInvalidMemoryAddress => "SemcNOR: Invalid Memory Address",
            StatusCode::SemcnorUnmatchedCommandSet => "SemcNOR: unmatched Command Set",
            StatusCode::SemcnorAddressAlignmentError => "SemcNOR: Address Alignment Error",
            StatusCode::SemcnorInvalidCfiSignature => "SemcNOR: Invalid Cfi Signature",
            StatusCode::SemcnorCommandErrorNoOpToSuspend => "SemcNOR: Command Error No Op To Suspend",
            StatusCode::SemcnorCommandErrorNoInfoAvailable => "SemcNOR: Command Error No Info Available",
            StatusCode::SemcnorBlockEraseCommandFailure => "SemcNOR: Block Erase Command Failure",
            StatusCode::SemcnorBufferProgramCommandFailure => "SemcNOR: Buffer Program Command Failure",
            StatusCode::SemcnorProgramVerifyFailure => "SemcNOR: Program Verify Failure",
            StatusCode::SemcnorEraseVerifyFailure => "SemcNOR: Erase Verify Failure",
            StatusCode::SemcnorInvalidCfgTag => "SemcNOR: Invalid Cfg Tag",
            StatusCode::SemcnandDeviceTimeout => "SemcNAND: Device Timeout",
            StatusCode::SemcnandInvalidMemoryAddress => "SemcNAND: Invalid Memory Address",
            StatusCode::SemcnandNotEqualToOnePageSize => "SemcNAND: Not Equal To One Page Size",
            StatusCode::SemcnandMoreThanOnePageSize => "SemcNAND: More Than One Page Size",
            StatusCode::SemcnandEccCheckFail => "SemcNAND: Ecc Check Fail",
            StatusCode::SemcnandInvalidOnfiParameter => "SemcNAND: Invalid Onfi Parameter",
            StatusCode::SemcnandCannotEnableDeviceEcc => "SemcNAND: Cannot Enable Device Ecc",
            StatusCode::SemcnandSwitchTimingModeFailure => "SemcNAND: Switch Timing Mode Failure",
            StatusCode::SemcnandProgramVerifyFailure => "SemcNAND: Program Verify Failure",
            StatusCode::SemcnandEraseVerifyFailure => "SemcNAND: Erase Verify Failure",
            StatusCode::SemcnandInvalidReadbackBuffer => "SemcNAND: Invalid Readback Buffer",
            StatusCode::SemcnandInvalidCfgTag => "SemcNAND: Invalid Cfg Tag",
            StatusCode::SemcnandFailToUpdateFcb => "SemcNAND: Fail To Update Fcb",
            StatusCode::SemcnandFailToUpdateDbbt => "SemcNAND: Fail To Update Dbbt",
            StatusCode::SemcnandDisallowOverwriteBcb => "SemcNAND: Disallow Overwrite Bcb",
            StatusCode::SemcnandOnlySupportOnfiDevice => "SemcNAND: Only Support Onfi Device",
            StatusCode::SemcnandMoreThanMaxImageCopy => "SemcNAND: More Than Max Image Copy",
            StatusCode::SemcnandDisorderedImageCopies => "SemcNAND: Disordered Image Copies",
            StatusCode::SpifinorProgramFail => "SPIFINOR: Program Fail",
            StatusCode::SpifinorEraseSectorfail => "SPIFINOR: Erase Sector Fail",
            StatusCode::SpifinorEraseAllFail => "SPIFINOR: Erase All Fail",
            StatusCode::SpifinorWaitTimeout => "SPIFINOR: Wait Timeout",
            StatusCode::SpifinorNotSupported => "SPIFINOR: Not Supported",
            StatusCode::SpifinorWriteAlignmentError => "SPIFINOR: Write Alignment Error",
            StatusCode::SpifinorCommandFailure => "SPIFINOR: Command Failure",
            StatusCode::SpifinorSfdpNotFound => "SPIFINOR: SFDP Not Found",
            StatusCode::EdgelockInvalidResponse => "EDGELOCK: Invalid Response",
            StatusCode::EdgelockResponseError => "EDGELOCK: Response Error",
            StatusCode::EdgelockAbort => "EDGELOCK: Abort",
            StatusCode::EdgelockOperationFailed => "EDGELOCK: Operation Failed",
            StatusCode::EdgelockOtpProgramFailure => "EDGELOCK: OTP Program Failure",
            StatusCode::EdgelockOtpLocked => "EDGELOCK: OTP Locked",
            StatusCode::EdgelockOtpInvalidIdx => "EDGELOCK: OTP Invalid IDX",
            StatusCode::EdgelockInvalidLifecycle => "EDGELOCK: Invalid Lifecycle",
            StatusCode::OtpInvalidAddress => "OTD: Invalid OTP address",
            StatusCode::OtpProgramFail => "OTD: Programming failed",
            StatusCode::OtpCrcFail => "OTP: CRC check failed",
            StatusCode::OtpError => "OTP: Error happened during OTP operation",
            StatusCode::OtpEccCrcFail => "OTP: ECC check failed during OTP operation",
            StatusCode::OtpLocked => "OTP: Field is locked when programming",
            StatusCode::OtpTimeout => "OTP: Operation timed out",
            StatusCode::OtpCrcCheckPass => "OTP: CRC check passed",
            StatusCode::OtpVerifyFail => "OTP: Failed to verify OTP write",
            StatusCode::SecuritySubsystemError => "Security SubSystem Error",
            StatusCode::TpGeneralError => "TP: General error",
            StatusCode::TpCryptoError => "TP: Error during cryptographic operation",
            StatusCode::TpNullptrError => "TP: NULL pointer dereference or when buffer could not be allocated",
            StatusCode::TpAlreadyinitialized => "TP: Already initialized",
            StatusCode::TpBuffersmall => "TP: Buffer is too small",
            StatusCode::TpAddressError => "TP: Address out of allowed range or buffer could not be allocated",
            StatusCode::TpContainerInvalid => "TP: Container header or size is invalid",
            StatusCode::TpContainerentryinvalid => "TP: Container entry invalid",
            StatusCode::TpContainerentrynotfound => "TP: Container entry not found in container",
            StatusCode::TpInvalidstateoperation => "TP: Attempt to process command in disallowed state",
            StatusCode::TpCommandError => "TP: ISP command arguments are invalid",
            StatusCode::TpPufError => "TP: PUF operation error",
            StatusCode::TpFlashError => "TP: Flash erase/program/verify_erase failed",
            StatusCode::TpSecretboxError => "TP: SBKEK or USER KEK cannot be stored in secret box",
            StatusCode::TpPfrError => "TP: Protected Flash Region operation failed",
            StatusCode::TpVerificationError => "TP: Container signature verification failed",
            StatusCode::TpCfpaError => "TP: CFPA page cannot be stored",
            StatusCode::TpCmpaError => "TP: CMPA page cannot be stored or ROTKH or SECU registers are invalid",
            StatusCode::TpAddrOutOfRange => "TP: Address is out of range",
            StatusCode::TpContainerAddrError => "TP: Container address in write context is invalid or there is no memory for entry storage",
            StatusCode::TpContainerAddrUnaligned => "TP: Container address in read context is unaligned",
            StatusCode::TpContainerBuffSmall => "TP: There is not enough memory to store the container",
            StatusCode::TpContainerNoEntry => "TP: Attempt to sign an empty container",
            StatusCode::TpCertAddrError => "TP: Destination address of OEM certificate is invalid",
            StatusCode::TpCertAddrUnaligned => "TP: Destination address of certificate is unaligned",
            StatusCode::TpCertOverlapping => "TP: OEM certificates are overlapping due to wrong destination addresses",
            StatusCode::TpPacketError => "TP: Error during packet sending/receiving",
            StatusCode::TpPacketDataError => "TP: Data in packet handle are invalid",
            StatusCode::TpUnknownCommand => "TP: Unknown command was received",
            StatusCode::TpSb3FileError => "TP: Error during processing SB3 file",
            StatusCode::TpGeneralCriticalError => "TP: Critical error",
            StatusCode::TpCryptoCriticalError => "TP: Error of crypto module which prevents proper functionality",
            StatusCode::TpPufCriticalError => "TP: Initialization or start of the PUF periphery failed",
            StatusCode::TpPfrCriticalError => "TP: Initialization of PFR or reading of activation code failed",
            StatusCode::TpPeripheralCriticalError => "TP: Peripheral failure",
            StatusCode::TpPrinceCriticalError => "TP: Error during PRINCE encryption/decryption",
            StatusCode::TpShaCheckCriticalError => "TP: SHA check verification failed",
            StatusCode::IapInvalidArgument => "IAP: Invalid Argument Detected During API Execution",
            StatusCode::IapOutOfMemory => "IAP: Heap Size Not Large Enough During API Execution",
            StatusCode::IapReadDisallowed => "IAP: Read Memory Operation Disallowed During API Execution",
            StatusCode::IapCumulativeWrite => "IAP: Flash Memory Region To Be Programmed Is Not Empty",
            StatusCode::IapEraseFailure => "IAP: Erase Operation Failed",
            StatusCode::IapCommandNotSupported => "IAP: Specific Command Not Supported",
            StatusCode::IapMemoryAccessDisabled => "IAP: Memory Access Disabled",
            StatusCode::El2goProvSuccess => "Device has been successfully provisioned.",
            StatusCode::UnknownStatusCode => "Unknown status code",
        }
    }

    /// The numeric value of this status on the wire.
    pub fn code(self) -> (n: u32)
        ensures
            n == self.spec_code(),
    {
        match self {
            StatusCode::Success => 0,
            StatusCode::Fail => 1,
            StatusCode::ReadOnly => 2,
            StatusCode::OutOfRange => 3,
            StatusCode::InvalidArgument => 4,
            StatusCode::Timeout => 5,
            StatusCode::NoTransferInProgress => 6,
            StatusCode::FlashSizeError => 100,
            StatusCode::FlashAlignmentError => 101,
            StatusCode::FlashAddressError => 102,
            StatusCode::FlashAccessError => 103,
            StatusCode::FlashProtectionViolation => 104,
            StatusCode::FlashCommandFailure => 105,
            StatusCode::FlashUnknownProperty => 106,
            StatusCode::FlashEraseKeyError => 107,
            StatusCode::FlashRegionExecuteOnly => 108,
            StatusCode::FlashExecInRamNotReady => 109,
            StatusCode::FlashCommandNotSupported => 111,
            StatusCode::FlashReadOnlyProperty => 112,
            StatusCode::FlashInvalidPropertyValue => 113,
            StatusCode::FlashInvalidSpeculationOption => 114,
            StatusCode::FlashEccError => 116,
            StatusCode::FlashCompareError => 117,
            StatusCode::FlashRegulationLoss => 118,
            StatusCode::FlashInvalidWaitStateCycles => 119,
            StatusCode::FlashOutOfDateCfpaPage => 132,
            StatusCode::FlashBlankIfrPageData => 133,
            StatusCode::FlashEncryptedRegionsEraseNotDoneAtOnce => 134,
            StatusCode::FlashProgramVerificationNotAllowed => 135,
            StatusCode::FlashHashCheckError => 136,
            StatusCode::FlashSealedPfrRegion => 137,
            StatusCode::FlashPfrRegionWriteBroken => 138,
            StatusCode::FlashNmpaUpdateNotAllowed => 139,
            StatusCode::FlashCmpaCfgDirectEraseNotAllowed => 140,
            StatusCode::FlashPfrBankIsLocked => 141,
            StatusCode::FlashCfpaScratchPageInvalid => 148,
            StatusCode::FlashCfpaVersionRollbackDisallowed => 149,
            StatusCode::FlashReadHidingAreaDisallowed => 150,
            StatusCode::FlashModifyProtectedAreaDisallowed => 151,
            StatusCode::FlashCommandOperationInProgress => 152,
            StatusCode::I2cSlaveTxUnderrun => 200,
            StatusCode::I2cSlaveRxOverrun => 201,
            StatusCode::I2cArbitrationLost => 202,
            StatusCode::SpiSlaveTxUnderrun => 300,
            StatusCode::SpiSlaveRxOverrun => 301,
            StatusCode::QspiFlashSizeError => 400,
            StatusCode::QspiFlashAlignmentError => 401,
            StatusCode::QspiFlashAddressError => 402,
            StatusCode::QspiFlashCommandFailure => 403,
            StatusCode::QspiFlashUnknownProperty => 404,
            StatusCode::QspiNotConfigured => 405,
            StatusCode::QspiCommandNotSupported => 406,
            StatusCode::QspiCommandTimeout => 407,
            StatusCode::QspiWriteFailure => 408,
            StatusCode::OtfadSecurityViolation => 500,
            StatusCode::OtfadLogicallyDisabled => 501,
            StatusCode::OtfadInvalidKey => 502,
            StatusCode::OtfadInvalidKeyBlob => 503,
            StatusCode::SendingOperationConditionError => 1812,
            StatusCode::FlexspiSequenceExecutionTimeoutRt5xx => 6000,
            StatusCode::FlexspiInvalidSequenceRt5xx => 6001,
            StatusCode::FlexspiDeviceTimeoutRt5xx => 6002,
            StatusCode::FlexspiSequenceExecutionTimeout => 7000,
            StatusCode::FlexspiInvalidSequence => 7001,
            StatusCode::FlexspiDeviceTimeout => 7002,
            StatusCode::UnknownCommand => 10000,
            StatusCode::SecurityViolation => 10001,
            StatusCode::AbortDataPhase => 10002,
            StatusCode::PingError => 10003,
            StatusCode::NoResponse => 10004,
            StatusCode::NoResponseExpected => 10005,
            StatusCode::UnsupportedCommand => 10006,
            StatusCode::RomldrSectionOverrun => 10100,
            StatusCode::RomldrSignature => 10101,
            StatusCode::RomldrSectionLength => 10102,
            StatusCode::RomldrUnencryptedOnly => 10103,
            StatusCode::RomldrEofReached => 10104,
            StatusCode::RomldrChecksum => 10105,
            StatusCode::RomldrCrc32Error => 10106,
            StatusCode::RomldrUnknownCommand => 10107,
            StatusCode::RomldrIdNotFound => 10108,
            StatusCode::RomldrDataUnderrun => 10109,
            StatusCode::RomldrJumpReturned => 10110,
            StatusCode::RomldrCallFailed => 10111,
            StatusCode::RomldrKeyNotFound => 10112,
            StatusCode::RomldrSecureOnly => 10113,
            StatusCode::RomldrResetReturned => 10114,
            StatusCode::RomldrRollbackBlocked => 10115,
            StatusCode::RomldrInvalidSectionMacCount => 10116,
            StatusCode::RomldrUnexpectedCommand => 10117,
            StatusCode::RomldrBadSbkek => 10118,
            StatusCode::RomldrPendingJumpCommand => 10119,
            StatusCode::MemoryRangeInvalid => 10200,
            StatusCode::MemoryReadFailed => 10201,
            StatusCode::MemoryWriteFailed => 10202,
            StatusCode::MemoryCumulativeWrite => 10203,
            StatusCode::MemoryAppOverlapWithExecuteOnlyRegion => 10204,
            StatusCode::MemoryNotConfigured => 10205,
            StatusCode::MemoryAlignmentError => 10206,
            StatusCode::MemoryVerifyFailed => 10207,
            StatusCode::MemoryWriteProtected => 10208,
            StatusCode::MemoryAddressError => 10209,
            StatusCode::MemoryBlankCheckFailed => 10210,
            StatusCode::MemoryBlankPageReadDisallowed => 10211,
            StatusCode::MemoryProtectedPageReadDisallowed => 10212,
            StatusCode::MemoryPfrSpecRegionWriteBroken => 10213,
            StatusCode::MemoryUnsupportedCommand => 10214,
            StatusCode::UnknownProperty => 10300,
            StatusCode::ReadOnlyProperty => 10301,
            StatusCode::InvalidPropertyValue => 10302,
            StatusCode::AppCrcCheckPassed => 10400,
            StatusCode::AppCrcCheckFailed => 10401,
            StatusCode::AppCrcCheckInactive => 10402,
            StatusCode::AppCrcCheckInvalid => 10403,
            StatusCode::AppCrcCheckOutOfRange => 10404,
            StatusCode::PacketizerNoPingResponse => 10500,
            StatusCode::PacketizerInvalidPacketType => 10501,
            StatusCode::PacketizerInvalidCrc => 10502,
            StatusCode::PacketizerNoCommandResponse => 10503,
            StatusCode::ReliableUpdateSuccess => 10600,
            StatusCode::ReliableUpdateFail => 10601,
            StatusCode::ReliableUpdateInactive => 10602,
            StatusCode::ReliableUpdateBackupapplicationinvalid => 10603,
            StatusCode::ReliableUpdateStillinmainapplication => 10604,
            StatusCode::ReliableUpdateSwapsystemnotready => 10605,
            StatusCode::ReliableUpdateBackupbootloadernotready => 10606,
            StatusCode::ReliableUpdateSwapindicatoraddressinvalid => 10607,
            StatusCode::ReliableUpdateSwapsystemnotavailable => 10608,
            StatusCode::ReliableUpdateSwaptest => 10609,
            StatusCode::SerialNorEepromAddressInvalid => 10700,
            StatusCode::SerialNorEepromTransferError => 10701,
            StatusCode::SerialNorEepromTypeInvalid => 10702,
            StatusCode::SerialNorEepromSizeInvalid => 10703,
            StatusCode::SerialNorEepromCommandInvalid => 10704,
            StatusCode::RomApiNeedMoreData => 10800,
            StatusCode::RomApiBufferSizeNotEnough => 10801,
            StatusCode::RomApiInvalidBuffer => 10802,
            StatusCode::FlexspinandReadPageFail => 20000,
            StatusCode::FlexspinandReadCacheFail => 20001,
            StatusCode::FlexspinandEccCheckFail => 20002,
            StatusCode::FlexspinandPageLoadFail => 20003,
            StatusCode::FlexspinandPageExecuteFail => 20004,
            StatusCode::FlexspinandEraseBlockFail => 20005,
            StatusCode::FlexspinandWaitTimeout => 20006,
            StatusCode::FlexSpinandNotSupported => 20007,
            StatusCode::FlexSpinandFcbUpdateFail => 20008,
            StatusCode::FlexSpinandDbbtUpdateFail => 20009,
            StatusCode::FlexspinandWritealignmenterror => 20010,
            StatusCode::FlexspinandNotFound => 20011,
            StatusCode::FlexspinorProgramFail => 20100,
            StatusCode::FlexspinorEraseSectorFail => 20101,
            StatusCode::FlexspinorEraseAllFail => 20102,
            StatusCode::FlexspinorWaitTimeout => 20103,
            StatusCode::FlexspinorNotSupported => 20104,
            StatusCode::FlexspinorWriteAlignmentError => 20105,
            StatusCode::FlexspinorCommandFailure => 20106,
            StatusCode::FlexspinorSfdpNotFound => 20107,
            StatusCode::FlexspinorUnsupportedSfdpVersion => 20108,
            StatusCode::FlexspinorFlashNotFound => 20109,
            StatusCode::FlexspinorDtrReadDummyProbeFailed => 20110,
            StatusCode::OcotpReadFailure => 20200,
            StatusCode::OcotpProgramFailure => 20201,
            StatusCode::OcotpReloadFailure => 20202,
            StatusCode::OcotpWaitTimeout => 20203,
            StatusCode::SemcnorDeviceTimeout => 21100,
            StatusCode::SemcnorInvalidMemoryAddress => 21101,
            StatusCode::SemcnorUnmatchedCommandSet => 21102,
            StatusCode::SemcnorAddressAlignmentError => 21103,
            StatusCode::SemcnorInvalidCfiSignature => 21104,
            StatusCode::SemcnorCommandErrorNoOpToSuspend => 21105,
            StatusCode::SemcnorCommandErrorNoInfoAvailable => 21106,
            StatusCode::SemcnorBlockEraseCommandFailure => 21107,
            StatusCode::SemcnorBufferProgramCommandFailure => 21108,
            StatusCode::SemcnorProgramVerifyFailure => 21109,
            StatusCode::SemcnorEraseVerifyFailure => 21110,
            StatusCode::SemcnorInvalidCfgTag => 21116,
            StatusCode::SemcnandDeviceTimeout => 21200,
            StatusCode::SemcnandInvalidMemoryAddress => 21201,
            StatusCode::SemcnandNotEqualToOnePageSize => 21202,
            StatusCode::SemcnandMoreThanOnePageSize => 21203,
            StatusCode::SemcnandEccCheckFail => 21204,
            StatusCode::SemcnandInvalidOnfiParameter => 21205,
            StatusCode::SemcnandCannotEnableDeviceEcc => 21206,
            StatusCode::SemcnandSwitchTimingModeFailure => 21207,
            StatusCode::SemcnandProgramVerifyFailure => 21208,
            StatusCode::SemcnandEraseVerifyFailure => 21209,
            StatusCode::SemcnandInvalidReadbackBuffer => 21210,
            StatusCode::SemcnandInvalidCfgTag => 21216,
            StatusCode::SemcnandFailToUpdateFcb => 21217,
            StatusCode::SemcnandFailToUpdateDbbt => 21218,
            StatusCode::SemcnandDisallowOverwriteBcb => 21219,
            StatusCode::SemcnandOnlySupportOnfiDevice => 21220,
            StatusCode::SemcnandMoreThanMaxImageCopy => 21221,
            StatusCode::SemcnandDisorderedImageCopies => 21222,
            StatusCode::SpifinorProgramFail => 22000,
            StatusCode::SpifinorEraseSectorfail => 22001,
            StatusCode::SpifinorEraseAllFail => 22002,
            StatusCode::SpifinorWaitTimeout => 22003,
            StatusCode::SpifinorNotSupported => 22004,
            StatusCode::SpifinorWriteAlignmentError => 22005,
            StatusCode::SpifinorCommandFailure => 22006,
            StatusCode::SpifinorSfdpNotFound => 22007,
            StatusCode::EdgelockInvalidResponse => 30000,
            StatusCode::EdgelockResponseError => 30001,
            StatusCode::EdgelockAbort => 30002,
            StatusCode::EdgelockOperationFailed => 30003,
            StatusCode::EdgelockOtpProgramFailure => 30004,
            StatusCode::EdgelockOtpLocked => 30005,
            StatusCode::EdgelockOtpInvalidIdx => 30006,
            StatusCode::EdgelockInvalidLifecycle => 30007,
            StatusCode::OtpInvalidAddress => 52801,
            StatusCode::OtpProgramFail => 52802,
            StatusCode::OtpCrcFail => 52803,
            StatusCode::OtpError => 52804,
            StatusCode::OtpEccCrcFail => 52805,
            StatusCode::OtpLocked => 52806,
            StatusCode::OtpTimeout => 52807,
            StatusCode::OtpCrcCheckPass => 52808,
            StatusCode::OtpVerifyFail => 52009,
            StatusCode::SecuritySubsystemError => 1515890085,
            StatusCode::TpGeneralError => 80000,
            StatusCode::TpCryptoError => 80001,
            StatusCode::TpNullptrError => 80002,
            StatusCode::TpAlreadyinitialized => 80003,
            StatusCode::TpBuffersmall => 80004,
            StatusCode::TpAddressError => 80005,
            StatusCode::TpContainerInvalid => 80006,
            StatusCode::TpContainerentryinvalid => 80007,
            StatusCode::TpContainerentrynotfound => 80008,
            StatusCode::TpInvalidstateoperation => 80009,
            StatusCode::TpCommandError => 80010,
            StatusCode::TpPufError => 80011,
            StatusCode::TpFlashError => 80012,
            StatusCode::TpSecretboxError => 80013,
            StatusCode::TpPfrError => 80014,
            StatusCode::TpVerificationError => 80015,
            StatusCode::TpCfpaError => 80016,
            StatusCode::TpCmpaError => 80017,
            StatusCode::TpAddrOutOfRange => 80018,
            StatusCode::TpContainerAddrError => 80019,
            StatusCode::TpContainerAddrUnaligned => 80020,
            StatusCode::TpContainerBuffSmall => 80021,
            StatusCode::TpContainerNoEntry => 80022,
            StatusCode::TpCertAddrError => 80023,
            StatusCode::TpCertAddrUnaligned => 80024,
            StatusCode::TpCertOverlapping => 80025,
            StatusCode::TpPacketError => 80026,
            StatusCode::TpPacketDataError => 80027,
            StatusCode::TpUnknownCommand => 80028,
            StatusCode::TpSb3FileError => 80029,
            StatusCode::TpGeneralCriticalError => 80101,
            StatusCode::TpCryptoCriticalError => 80102,
            StatusCode::TpPufCriticalError => 80103,
            StatusCode::TpPfrCriticalError => 80104,
            StatusCode::TpPeripheralCriticalError => 80105,
            StatusCode::TpPrinceCriticalError => 80106,
            StatusCode::TpShaCheckCriticalError => 80107,
            StatusCode::IapInvalidArgument => 100001,
            StatusCode::IapOutOfMemory => 100002,
            StatusCode::IapReadDisallowed => 100003,
            StatusCode::IapCumulativeWrite => 100004,
            StatusCode::IapEraseFailure => 100005,
            StatusCode::IapCommandNotSupported => 100006,
            StatusCode::IapMemoryAccessDisabled => 100007,
            StatusCode::El2goProvSuccess => 0x5a5a5a5a,
            StatusCode::UnknownStatusCode => 0xdeadbeef,
        }
    }

    /// Whether the command succeeded.
    pub fn is_success(&self) -> (b: bool)
        ensures
            b == (*self == StatusCode::Success),
    {
        match self {
            StatusCode::Success => true,
            _ => false,
        }
    }

    /// Whether a read was refused because the page is blank.
    pub fn is_memory_blank_page_read_disallowed(&self) -> (b: bool)
        ensures
            b == (*self == StatusCode::MemoryBlankPageReadDisallowed),
    {
        match self {
            StatusCode::MemoryBlankPageReadDisallowed => true,
            _ => false,
        }
    }
}

impl From<StatusCode> for u32 {
    fn from(value: StatusCode) -> (n: u32) {
        value.code()
    }
}

impl vstd::std_specs::convert::FromSpecImpl<StatusCode> for u32 {
    open spec fn obeys_from_spec() -> bool {
        true
    }

    open spec fn from_spec(v: StatusCode) -> u32 {
        v.spec_code()
    }
}

impl TryFrom<u32> for StatusCode {
    type Error = u32;

    /// Decodes a numeric status; a value outside the documented set is handed
    /// back as the error.
    fn try_from(value: u32) -> (r: Result<StatusCode, u32>) {
        match value {
            0 => Ok(StatusCode::Success),
            1 => Ok(StatusCode::Fail),
            2 => Ok(StatusCode::ReadOnly),
            3 => Ok(StatusCode::OutOfRange),
            4 => Ok(StatusCode::InvalidArgument),
            5 => Ok(StatusCode::Timeout),
            6 => Ok(StatusCode::NoTransferInProgress),
            100 => Ok(StatusCode::FlashSizeError),
            101 => Ok(StatusCode::FlashAlignmentError),
            102 => Ok(StatusCode::FlashAddressError),
            103 => Ok(StatusCode::FlashAccessError),
            104 => Ok(StatusCode::FlashProtectionViolation),
            105 => Ok(StatusCode::FlashCommandFailure),
            106 => Ok(StatusCode::FlashUnknownProperty),
            107 => Ok(StatusCode::FlashEraseKeyError),
            108 => Ok(StatusCode::FlashRegionExecuteOnly),
            109 => Ok(StatusCode::FlashExecInRamNotReady),
            111 => Ok(StatusCode::FlashCommandNotSupported),
            112 => Ok(StatusCode::FlashReadOnlyProperty),
            113 => Ok(StatusCode::FlashInvalidPropertyValue),
            114 => Ok(StatusCode::FlashInvalidSpeculationOption),
            116 => Ok(StatusCode::FlashEccError),
            117 => Ok(StatusCode::FlashCompareError),
            118 => Ok(StatusCode::FlashRegulationLoss),
            119 => Ok(StatusCode::FlashInvalidWaitStateCycles),
            132 => Ok(StatusCode::FlashOutOfDateCfpaPage),
            133 => Ok(StatusCode::FlashBlankIfrPageData),
            134 => Ok(StatusCode::FlashEncryptedRegionsEraseNotDoneAtOnce),
            135 => Ok(StatusCode::FlashProgramVerificationNotAllowed),
            136 => Ok(StatusCode::FlashHashCheckError),
            137 => Ok(StatusCode::FlashSealedPfrRegion),
            138 => Ok(StatusCode::FlashPfrRegionWriteBroken),
            139 => Ok(StatusCode::FlashNmpaUpdateNotAllowed),
            140 => Ok(StatusCode::FlashCmpaCfgDirectEraseNotAllowed),
            141 => Ok(StatusCode::FlashPfrBankIsLocked),
            148 => Ok(StatusCode::FlashCfpaScratchPageInvalid),
            149 => Ok(StatusCode::FlashCfpaVersionRollbackDisallowed),
            150 => Ok(StatusCode::FlashReadHidingAreaDisallowed),
            151 => Ok(StatusCode::FlashModifyProtectedAreaDisallowed),
            152 => Ok(StatusCode::FlashCommandOperationInProgress),
            200 => Ok(StatusCode::I2cSlaveTxUnderrun),
            201 => Ok(StatusCode::I2cSlaveRxOverrun),
            202 => Ok(StatusCode::I2cArbitrationLost),
            300 => Ok(StatusCode::SpiSlaveTxUnderrun),
            301 => Ok(StatusCode::SpiSlaveRxOverrun),
            400 => Ok(StatusCode::QspiFlashSizeError),
            401 => Ok(StatusCode::QspiFlashAlignmentError),
            402 => Ok(StatusCode::QspiFlashAddressError),
            403 => Ok(StatusCode::QspiFlashCommandFailure),
            404 => Ok(StatusCode::QspiFlashUnknownProperty),
            405 => Ok(StatusCode::QspiNotConfigured),
            406 => Ok(StatusCode::QspiCommandNotSupported),
            407 => Ok(StatusCode::QspiCommandTimeout),
            408 => Ok(StatusCode::QspiWriteFailure),
            500 => Ok(StatusCode::OtfadSecurityViolation),
            501 => Ok(StatusCode::OtfadLogicallyDisabled),
            502 => Ok(StatusCode::OtfadInvalidKey),
            503 => Ok(StatusCode::OtfadInvalidKeyBlob),
            1812 => Ok(StatusCode::SendingOperationConditionError),
            6000 => Ok(StatusCode::FlexspiSequenceExecutionTimeoutRt5xx),
            6001 => Ok(StatusCode::FlexspiInvalidSequenceRt5xx),
            6002 => Ok(StatusCode::FlexspiDeviceTimeoutRt5xx),
            7000 => Ok(StatusCode::FlexspiSequenceExecutionTimeout),
            7001 => Ok(StatusCode::FlexspiInvalidSequence),
            7002 => Ok(StatusCode::FlexspiDeviceTimeout),
            10000 => Ok(StatusCode::UnknownCommand),
            10001 => Ok(StatusCode::SecurityViolation),
            10002 => Ok(StatusCode::AbortDataPhase),
            10003 => Ok(StatusCode::PingError),
            10004 => Ok(StatusCode::NoResponse),
            10005 => Ok(StatusCode::NoResponseExpected),
            10006 => Ok(StatusCode::UnsupportedCommand),
            10100 => Ok(StatusCode::RomldrSectionOverrun),
            10101 => Ok(StatusCode::RomldrSignature),
            10102 => Ok(StatusCode::RomldrSectionLength),
            10103 => Ok(StatusCode::RomldrUnencryptedOnly),
            10104 => Ok(StatusCode::RomldrEofReached),
            10105 => Ok(StatusCode::RomldrChecksum),
            10106 => Ok(StatusCode::RomldrCrc32Error),
            10107 => Ok(StatusCode::RomldrUnknownCommand),
            10108 => Ok(StatusCode::RomldrIdNotFound),
            10109 => Ok(StatusCode::RomldrDataUnderrun),
            10110 => Ok(StatusCode::RomldrJumpReturned),
            10111 => Ok(StatusCode::RomldrCallFailed),
            10112 => Ok(StatusCode::RomldrKeyNotFound),
            10113 => Ok(StatusCode::RomldrSecureOnly),
            10114 => Ok(StatusCode::RomldrResetReturned),
            10115 => Ok(StatusCode::RomldrRollbackBlocked),
            10116 => Ok(StatusCode::RomldrInvalidSectionMacCount),
            10117 => Ok(StatusCode::RomldrUnexpectedCommand),
            10118 => Ok(StatusCode::RomldrBadSbkek),
            10119 => Ok(StatusCode::RomldrPendingJumpCommand),
            10200 => Ok(StatusCode::MemoryRangeInvalid),
            10201 => Ok(StatusCode::MemoryReadFailed),
            10202 => Ok(StatusCode::MemoryWriteFailed),
            10203 => Ok(StatusCode::MemoryCumulativeWrite),
            10204 => Ok(StatusCode::MemoryAppOverlapWithExecuteOnlyRegion),
            10205 => Ok(StatusCode::MemoryNotConfigured),
            10206 => Ok(StatusCode::MemoryAlignmentError),
            10207 => Ok(StatusCode::MemoryVerifyFailed),
            10208 => Ok(StatusCode::MemoryWriteProtected),
            10209 => Ok(StatusCode::MemoryAddressError),
            10210 => Ok(StatusCode::MemoryBlankCheckFailed),
            10211 => Ok(StatusCode::MemoryBlankPageReadDisallowed),
            10212 => Ok(StatusCode::MemoryProtectedPageReadDisallowed),
            10213 => Ok(StatusCode::MemoryPfrSpecRegionWriteBroken),
            10214 => Ok(StatusCode::MemoryUnsupportedCommand),
            10300 => Ok(StatusCode::UnknownProperty),
            10301 => Ok(StatusCode::ReadOnlyProperty),
            10302 => Ok(StatusCode::InvalidPropertyValue),
            10400 => Ok(StatusCode::AppCrcCheckPassed),
            10401 => Ok(StatusCode::AppCrcCheckFailed),
            10402 => Ok(StatusCode::AppCrcCheckInactive),
            10403 => Ok(StatusCode::AppCrcCheckInvalid),
            10404 => Ok(StatusCode::AppCrcCheckOutOfRange),
            10500 => Ok(StatusCode::PacketizerNoPingResponse),
            10501 => Ok(StatusCode::PacketizerInvalidPacketType),
            10502 => Ok(StatusCode::PacketizerInvalidCrc),
            10503 => Ok(StatusCode::PacketizerNoCommandResponse),
            10600 => Ok(StatusCode::ReliableUpdateSuccess),
            10601 => Ok(StatusCode::ReliableUpdateFail),
            10602 => Ok(StatusCode::ReliableUpdateInactive),
            10603 => Ok(StatusCode::ReliableUpdateBackupapplicationinvalid),
            10604 => Ok(StatusCode::ReliableUpdateStillinmainapplication),
            10605 => Ok(StatusCode::ReliableUpdateSwapsystemnotready),
            10606 => Ok(StatusCode::ReliableUpdateBackupbootloadernotready),
            10607 => Ok(StatusCode::ReliableUpdateSwapindicatoraddressinvalid),
            10608 => Ok(StatusCode::ReliableUpdateSwapsystemnotavailable),
            10609 => Ok(StatusCode::ReliableUpdateSwaptest),
            10700 => Ok(StatusCode::SerialNorEepromAddressInvalid),
            10701 => Ok(StatusCode::SerialNorEepromTransferError),
            10702 => Ok(StatusCode::SerialNorEepromTypeInvalid),
            10703 => Ok(StatusCode::SerialNorEepromSizeInvalid),
            10704 => Ok(StatusCode::SerialNorEepromCommandInvalid),
            10800 => Ok(StatusCode::RomApiNeedMoreData),
            10801 => Ok(StatusCode::RomApiBufferSizeNotEnough),
            10802 => Ok(StatusCode::RomApiInvalidBuffer),
            20000 => Ok(StatusCode::FlexspinandReadPageFail),
            20001 => Ok(StatusCode::FlexspinandReadCacheFail),
            20002 => Ok(StatusCode::FlexspinandEccCheckFail),
            20003 => Ok(StatusCode::FlexspinandPageLoadFail),
            20004 => Ok(StatusCode::FlexspinandPageExecuteFail),
            20005 => Ok(StatusCode::FlexspinandEraseBlockFail),
            20006 => Ok(StatusCode::FlexspinandWaitTimeout),
            20007 => Ok(StatusCode::FlexSpinandNotSupported),
            20008 => Ok(StatusCode::FlexSpinandFcbUpdateFail),
            20009 => Ok(StatusCode::FlexSpinandDbbtUpdateFail),
            20010 => Ok(StatusCode::FlexspinandWritealignmenterror),
            20011 => Ok(StatusCode::FlexspinandNotFound),
            20100 => Ok(StatusCode::FlexspinorProgramFail),
            20101 => Ok(StatusCode::FlexspinorEraseSectorFail),
            20102 => Ok(StatusCode::FlexspinorEraseAllFail),
            20103 => Ok(StatusCode::FlexspinorWaitTimeout),
            20104 => Ok(StatusCode::FlexspinorNotSupported),
            20105 => Ok(StatusCode::FlexspinorWriteAlignmentError),
            20106 => Ok(StatusCode::FlexspinorCommandFailure),
            20107 => Ok(StatusCode::FlexspinorSfdpNotFound),
            20108 => Ok(StatusCode::FlexspinorUnsupportedSfdpVersion),
            20109 => Ok(StatusCode::FlexspinorFlashNotFound),
            20110 => Ok(StatusCode::FlexspinorDtrReadDummyProbeFailed),
            20200 => Ok(StatusCode::OcotpReadFailure),
            20201 => Ok(StatusCode::OcotpProgramFailure),
            20202 => Ok(StatusCode::OcotpReloadFailure),
            20203 => Ok(StatusCode::OcotpWaitTimeout),
            21100 => Ok(StatusCode::SemcnorDeviceTimeout),
            21101 => Ok(StatusCode::SemcnorInvalidMemoryAddress),
            21102 => Ok(StatusCode::SemcnorUnmatchedCommandSet),
            21103 => Ok(StatusCode::SemcnorAddressAlignmentError),
            21104 => Ok(StatusCode::SemcnorInvalidCfiSignature),
            21105 => Ok(StatusCode::SemcnorCommandErrorNoOpToSuspend),
            21106 => Ok(StatusCode::SemcnorCommandErrorNoInfoAvailable),
            21107 => Ok(StatusCode::SemcnorBlockEraseCommandFailure),
            21108 => Ok(StatusCode::SemcnorBufferProgramCommandFailure),
            21109 => Ok(StatusCode::SemcnorProgramVerifyFailure),
            21110 => Ok(StatusCode::SemcnorEraseVerifyFailure),
            21116 => Ok(StatusCode::SemcnorInvalidCfgTag),
            21200 => Ok(StatusCode::SemcnandDeviceTimeout),
            21201 => Ok(StatusCode::SemcnandInvalidMemoryAddress),
            21202 => Ok(StatusCode::SemcnandNotEqualToOnePageSize),
            21203 => Ok(StatusCode::SemcnandMoreThanOnePageSize),
            21204 => Ok(StatusCode::SemcnandEccCheckFail),
            21205 => Ok(StatusCode::SemcnandInvalidOnfiParameter),
            21206 => Ok(StatusCode::SemcnandCannotEnableDeviceEcc),
            21207 => Ok(StatusCode::SemcnandSwitchTimingModeFailure),
            21208 => Ok(StatusCode::SemcnandProgramVerifyFailure),
            21209 => Ok(StatusCode::SemcnandEraseVerifyFailure),
            21210 => Ok(StatusCode::SemcnandInvalidReadbackBuffer),
            21216 => Ok(StatusCode::SemcnandInvalidCfgTag),
            21217 => Ok(StatusCode::SemcnandFailToUpdateFcb),
            21218 => Ok(StatusCode::SemcnandFailToUpdateDbbt),
            21219 => Ok(StatusCode::SemcnandDisallowOverwriteBcb),
            21220 => Ok(StatusCode::SemcnandOnlySupportOnfiDevice),
            21221 => Ok(StatusCode::SemcnandMoreThanMaxImageCopy),
            21222 => Ok(StatusCode::SemcnandDisorderedImageCopies),
            22000 => Ok(StatusCode::SpifinorProgramFail),
            22001 => Ok(StatusCode::SpifinorEraseSectorfail),
            22002 => Ok(StatusCode::SpifinorEraseAllFail),
            22003 => Ok(StatusCode::SpifinorWaitTimeout),
            22004 => Ok(StatusCode::SpifinorNotSupported),
            22005 => Ok(StatusCode::SpifinorWriteAlignmentError),
            22006 => Ok(StatusCode::SpifinorCommandFailure),
            22007 => Ok(StatusCode::SpifinorSfdpNotFound),
            30000 => Ok(StatusCode::EdgelockInvalidResponse),
            30001 => Ok(StatusCode::EdgelockResponseError),
            30002 => Ok(StatusCode::EdgelockAbort),
            30003 => Ok(StatusCode::EdgelockOperationFailed),
            30004 => Ok(StatusCode::EdgelockOtpProgramFailure),
            30005 => Ok(StatusCode::EdgelockOtpLocked),
            30006 => Ok(StatusCode::EdgelockOtpInvalidIdx),
            30007 => Ok(StatusCode::EdgelockInvalidLifecycle),
            52801 => Ok(StatusCode::OtpInvalidAddress),
            52802 => Ok(StatusCode::OtpProgramFail),
            52803 => Ok(StatusCode::OtpCrcFail),
            52804 => Ok(StatusCode::OtpError),
            52805 => Ok(StatusCode::OtpEccCrcFail),
            52806 => Ok(StatusCode::OtpLocked),
            52807 => Ok(StatusCode::OtpTimeout),
            52808 => Ok(StatusCode::OtpCrcCheckPass),
            52009 => Ok(StatusCode::OtpVerifyFail),
            1515890085 => Ok(StatusCode::SecuritySubsystemError),
            80000 => Ok(StatusCode::TpGeneralError),
            80001 => Ok(StatusCode::TpCryptoError),
            80002 => Ok(StatusCode::TpNullptrError),
            80003 => Ok(StatusCode::TpAlreadyinitialized),
            80004 => Ok(StatusCode::TpBuffersmall),
            80005 => Ok(StatusCode::TpAddressError),
            80006 => Ok(StatusCode::TpContainerInvalid),
            80007 => Ok(StatusCode::TpContainerentryinvalid),
            80008 => Ok(StatusCode::TpContainerentrynotfound),
            80009 => Ok(StatusCode::TpInvalidstateoperation),
            80010 => Ok(StatusCode::TpCommandError),
            80011 => Ok(StatusCode::TpPufError),
            80012 => Ok(StatusCode::TpFlashError),
            80013 => Ok(StatusCode::TpSecretboxError),
            80014 => Ok(StatusCode::TpPfrError),
            80015 => Ok(StatusCode::TpVerificationError),
            80016 => Ok(StatusCode::TpCfpaError),
            80017 => Ok(StatusCode::TpCmpaError),
            80018 => Ok(StatusCode::TpAddrOutOfRange),
            80019 => Ok(StatusCode::TpContainerAddrError),
            80020 => Ok(StatusCode::TpContainerAddrUnaligned),
            80021 => Ok(StatusCode::TpContainerBuffSmall),
            80022 => Ok(StatusCode::TpContainerNoEntry),
            80023 => Ok(StatusCode::TpCertAddrError),
            80024 => Ok(StatusCode::TpCertAddrUnaligned),
            80025 => Ok(StatusCode::TpCertOverlapping),
            80026 => Ok(StatusCode::TpPacketError),
            80027 => Ok(StatusCode::TpPacketDataError),
            80028 => Ok(StatusCode::TpUnknownCommand),
            80029 => Ok(StatusCode::TpSb3FileError),
            80101 => Ok(StatusCode::TpGeneralCriticalError),
            80102 => Ok(StatusCode::TpCryptoCriticalError),
            80103 => Ok(StatusCode::TpPufCriticalError),
            80104 => Ok(StatusCode::TpPfrCriticalError),
            80105 => Ok(StatusCode::TpPeripheralCriticalError),
            80106 => Ok(StatusCode::TpPrinceCriticalError),
            80107 => Ok(StatusCode::TpShaCheckCriticalError),
            100001 => Ok(StatusCode::IapInvalidArgument),
            100002 => Ok(StatusCode::IapOutOfMemory),
            100003 => Ok(StatusCode::IapReadDisallowed),
            100004 => Ok(StatusCode::IapCumulativeWrite),
            100005 => Ok(StatusCode::IapEraseFailure),
            100006 => Ok(StatusCode::IapCommandNotSupported),
            100007 => Ok(StatusCode::IapMemoryAccessDisabled),
            0x5a5a5a5a => Ok(StatusCode::El2goProvSuccess),
            _ => Err(value),
        }
    }
}

impl vstd::std_specs::convert::TryFromSpecImpl<u32> for StatusCode {
    open spec fn obeys_try_from_spec() -> bool {
        true
    }

    open spec fn try_from_spec(v: u32) -> Result<StatusCode, u32> {
        match StatusCode::from_code(v) {
            Some(s) => Ok(s),
            None => Err(v),
        }
    }
}

/// Every documented status is recovered from its own code.
#[verifier::rlimit(100)]
proof fn lemma_decode_of_code(s: StatusCode)
    requires
        s != StatusCode::UnknownStatusCode,
    ensures
        StatusCode::from_code(s.spec_code()) == Some(s),
{
    match s {
        StatusCode::Success => assert(StatusCode::from_code(0) == Some(s)),
        StatusCode::Fail => assert(StatusCode::from_code(1) == Some(s)),
        StatusCode::ReadOnly => assert(StatusCode::from_code(2) == Some(s)),
        StatusCode::OutOfRange => assert(StatusCode::from_code(3) == Some(s)),
        StatusCode::InvalidArgument => assert(StatusCode::from_code(4) == Some(s)),
        StatusCode::Timeout => assert(StatusCode::from_code(5) == Some(s)),
        StatusCode::NoTransferInProgress => assert(StatusCode::from_code(6) == Some(s)),
        StatusCode::FlashSizeError => assert(StatusCode::from_code(100) == Some(s)),
        StatusCode::FlashAlignmentError => assert(StatusCode::from_code(101) == Some(s)),
        StatusCode::FlashAddressError => assert(StatusCode::from_code(102) == Some(s)),
        StatusCode::FlashAccessError => assert(StatusCode::from_code(103) == Some(s)),
        StatusCode::FlashProtectionViolation => assert(StatusCode::from_code(104) == Some(s)),
        StatusCode::FlashCommandFailure => assert(StatusCode::from_code(105) == Some(s)),
        StatusCode::FlashUnknownProperty => assert(StatusCode::from_code(106) == Some(s)),
        StatusCode::FlashEraseKeyError => assert(StatusCode::from_code(107) == Some(s)),
        StatusCode::FlashRegionExecuteOnly => assert(StatusCode::from_code(108) == Some(s)),
        StatusCode::FlashExecInRamNotReady => assert(StatusCode::from_code(109) == Some(s)),
        StatusCode::FlashCommandNotSupported => assert(StatusCode::from_code(111) == Some(s)),
        StatusCode::FlashReadOnlyProperty => assert(StatusCode::from_code(112) == Some(s)),
        StatusCode::FlashInvalidPropertyValue => assert(StatusCode::from_code(113) == Some(s)),
        StatusCode::FlashInvalidSpeculationOption => assert(StatusCode::from_code(114) == Some(s)),
        StatusCode::FlashEccError => assert(StatusCode::from_code(116) == Some(s)),
        StatusCode::FlashCompareError => assert(StatusCode::from_code(117) == Some(s)),
        StatusCode::FlashRegulationLoss => assert(StatusCode::from_code(118) == Some(s)),
        StatusCode::FlashInvalidWaitStateCycles => assert(StatusCode::from_code(119) == Some(s)),
        StatusCode::FlashOutOfDateCfpaPage => assert(StatusCode::from_code(132) == Some(s)),
        StatusCode::FlashBlankIfrPageData => assert(StatusCode::from_code(133) == Some(s)),
        StatusCode::FlashEncryptedRegionsEraseNotDoneAtOnce => assert(StatusCode::from_code(134) == Some(s)),
        StatusCode::FlashProgramVerificationNotAllowed => assert(StatusCode::from_code(135) == Some(s)),
        StatusCode::FlashHashCheckError => assert(StatusCode::from_code(136) == Some(s)),
        StatusCode::FlashSealedPfrRegion => assert(StatusCode::from_code(137) == Some(s)),
        StatusCode::FlashPfrRegionWriteBroken => assert(StatusCode::from_code(138) == Some(s)),
        StatusCode::FlashNmpaUpdateNotAllowed => assert(StatusCode::from_code(139) == Some(s)),
        StatusCode::FlashCmpaCfgDirectEraseNotAllowed => assert(StatusCode::from_code(140) == Some(s)),
        StatusCode::FlashPfrBankIsLocked => assert(StatusCode::from_code(141) == Some(s)),
        StatusCode::FlashCfpaScratchPageInvalid => assert(StatusCode::from_code(148) == Some(s)),
        StatusCode::FlashCfpaVersionRollbackDisallowed => assert(StatusCode::from_code(149) == Some(s)),
        StatusCode::FlashReadHidingAreaDisallowed => assert(StatusCode::from_code(150) == Some(s)),
        StatusCode::FlashModifyProtectedAreaDisallowed => assert(StatusCode::from_code(151) == Some(s)),
        StatusCode::FlashCommandOperationInProgress => assert(StatusCode::from_code(152) == Some(s)),
        StatusCode::I2cSlaveTxUnderrun => assert(StatusCode::from_code(200) == Some(s)),
        StatusCode::I2cSlaveRxOverrun => assert(StatusCode::from_code(201) == Some(s)),
        StatusCode::I2cArbitrationLost => assert(StatusCode::from_code(202) == Some(s)),
        StatusCode::SpiSlaveTxUnderrun => assert(StatusCode::from_code(300) == Some(s)),
        StatusCode::SpiSlaveRxOverrun => assert(StatusCode::from_code(301) == Some(s)),
        StatusCode::QspiFlashSizeError => assert(StatusCode::from_code(400) == Some(s)),
        StatusCode::QspiFlashAlignmentError => assert(StatusCode::from_code(401) == Some(s)),
        StatusCode::QspiFlashAddressError => assert(StatusCode::from_code(402) == Some(s)),
        StatusCode::QspiFlashCommandFailure => assert(StatusCode::from_code(403) == Some(s)),
        StatusCode::QspiFlashUnknownProperty => assert(StatusCode::from_code(404) == Some(s)),
        StatusCode::QspiNotConfigured => assert(StatusCode::from_code(405) == Some(s)),
        StatusCode::QspiCommandNotSupported => assert(StatusCode::from_code(406) == Some(s)),
        StatusCode::QspiCommandTimeout => assert(StatusCode::from_code(407) == Some(s)),
        StatusCode::QspiWriteFailure => assert(StatusCode::from_code(408) == Some(s)),
        StatusCode::OtfadSecurityViolation => assert(StatusCode::from_code(500) == Some(s)),
        StatusCode::OtfadLogicallyDisabled => assert(StatusCode::from_code(501) == Some(s)),
        StatusCode::OtfadInvalidKey => assert(StatusCode::from_code(502) == Some(s)),
        StatusCode::OtfadInvalidKeyBlob => assert(StatusCode::from_code(503) == Some(s)),
        StatusCode::SendingOperationConditionError => assert(StatusCode::from_code(1812) == Some(s)),
        StatusCode::FlexspiSequenceExecutionTimeoutRt5xx => assert(StatusCode::from_code(6000) == Some(s)),
        StatusCode::FlexspiInvalidSequenceRt5xx => assert(StatusCode::from_code(6001) == Some(s)),
        StatusCode::FlexspiDeviceTimeoutRt5xx => assert(StatusCode::from_code(6002) == Some(s)),
        StatusCode::FlexspiSequenceExecutionTimeout => assert(StatusCode::from_code(7000) == Some(s)),
        StatusCode::FlexspiInvalidSequence => assert(StatusCode::from_code(7001) == Some(s)),
        StatusCode::FlexspiDeviceTimeout => assert(StatusCode::from_code(7002) == Some(s)),
        StatusCode::UnknownCommand => assert(StatusCode::from_code(10000) == Some(s)),
        StatusCode::SecurityViolation => assert(StatusCode::from_code(10001) == Some(s)),
        StatusCode::AbortDataPhase => assert(StatusCode::from_code(10002) == Some(s)),
        StatusCode::PingError => assert(StatusCode::from_code(10003) == Some(s)),
        StatusCode::NoResponse => assert(StatusCode::from_code(10004) == Some(s)),
        StatusCode::NoResponseExpected => assert(StatusCode::from_code(10005) == Some(s)),
        StatusCode::UnsupportedCommand => assert(StatusCode::from_code(10006) == Some(s)),
        StatusCode::RomldrSectionOverrun => assert(StatusCode::from_code(10100) == Some(s)),
        StatusCode::RomldrSignature => assert(StatusCode::from_code(10101) == Some(s)),
        StatusCode::RomldrSectionLength => assert(StatusCode::from_code(10102) == Some(s)),
        StatusCode::RomldrUnencryptedOnly => assert(StatusCode::from_code(10103) == Some(s)),
        StatusCode::RomldrEofReached => assert(StatusCode::from_code(10104) == Some(s)),
        StatusCode::RomldrChecksum => assert(StatusCode::from_code(10105) == Some(s)),
        StatusCode::RomldrCrc32Error => assert(StatusCode::from_code(10106) == Some(s)),
        StatusCode::RomldrUnknownCommand => assert(StatusCode::from_code(10107) == Some(s)),
        StatusCode::RomldrIdNotFound => assert(StatusCode::from_code(10108) == Some(s)),
        StatusCode::RomldrDataUnderrun => assert(StatusCode::from_code(10109) == Some(s)),
        StatusCode::RomldrJumpReturned => assert(StatusCode::from_code(10110) == Some(s)),
        StatusCode::RomldrCallFailed => assert(StatusCode::from_code(10111) == Some(s)),
        StatusCode::RomldrKeyNotFound => assert(StatusCode::from_code(10112) == Some(s)),
        StatusCode::RomldrSecureOnly => assert(StatusCode::from_code(10113) == Some(s)),
        StatusCode::RomldrResetReturned => assert(StatusCode::from_code(10114) == Some(s)),
        StatusCode::RomldrRollbackBlocked => assert(StatusCode::from_code(10115) == Some(s)),
        StatusCode::RomldrInvalidSectionMacCount => assert(StatusCode::from_code(10116) == Some(s)),
        StatusCode::RomldrUnexpectedCommand => assert(StatusCode::from_code(10117) == Some(s)),
        StatusCode::RomldrBadSbkek => assert(StatusCode::from_code(10118) == Some(s)),
        StatusCode::RomldrPendingJumpCommand => assert(StatusCode::from_code(10119) == Some(s)),
        StatusCode::MemoryRangeInvalid => assert(StatusCode::from_code(10200) == Some(s)),
        StatusCode::MemoryReadFailed => assert(StatusCode::from_code(10201) == Some(s)),
        StatusCode::MemoryWriteFailed => assert(StatusCode::from_code(10202) == Some(s)),
        StatusCode::MemoryCumulativeWrite => assert(StatusCode::from_code(10203) == Some(s)),
        StatusCode::MemoryAppOverlapWithExecuteOnlyRegion => assert(StatusCode::from_code(10204) == Some(s)),
        StatusCode::MemoryNotConfigured => assert(StatusCode::from_code(10205) == Some(s)),
        StatusCode::MemoryAlignmentError => assert(StatusCode::from_code(10206) == Some(s)),
        StatusCode::MemoryVerifyFailed => assert(StatusCode::from_code(10207) == Some(s)),
        StatusCode::MemoryWriteProtected => assert(StatusCode::from_code(10208) == Some(s)),
        StatusCode::MemoryAddressError => assert(StatusCode::from_code(10209) == Some(s)),
        StatusCode::MemoryBlankCheckFailed => assert(StatusCode::from_code(10210) == Some(s)),
        StatusCode::MemoryBlankPageReadDisallowed => assert(StatusCode::from_code(10211) == Some(s)),
        StatusCode::MemoryProtectedPageReadDisallowed => assert(StatusCode::from_code(10212) == Some(s)),
        StatusCode::MemoryPfrSpecRegionWriteBroken => assert(StatusCode::from_code(10213) == Some(s)),
        StatusCode::MemoryUnsupportedCommand => assert(StatusCode::from_code(10214) == Some(s)),
        StatusCode::UnknownProperty => assert(StatusCode::from_code(10300) == Some(s)),
        StatusCode::ReadOnlyProperty => assert(StatusCode::from_code(10301) == Some(s)),
        StatusCode::InvalidPropertyValue => assert(StatusCode::from_code(10302) == Some(s)),
        StatusCode::AppCrcCheckPassed => assert(StatusCode::from_code(10400) == Some(s)),
        StatusCode::AppCrcCheckFailed => assert(StatusCode::from_code(10401) == Some(s)),
        StatusCode::AppCrcCheckInactive => assert(StatusCode::from_code(10402) == Some(s)),
        StatusCode::AppCrcCheckInvalid => assert(StatusCode::from_code(10403) == Some(s)),
        StatusCode::AppCrcCheckOutOfRange => assert(StatusCode::from_code(10404) == Some(s)),
        StatusCode::PacketizerNoPingResponse => assert(StatusCode::from_code(10500) == Some(s)),
        StatusCode::PacketizerInvalidPacketType => assert(StatusCode::from_code(10501) == Some(s)),
        StatusCode::PacketizerInvalidCrc => assert(StatusCode::from_code(10502) == Some(s)),
        StatusCode::PacketizerNoCommandResponse => assert(StatusCode::from_code(10503) == Some(s)),
        StatusCode::ReliableUpdateSuccess => assert(StatusCode::from_code(10600) == Some(s)),
        StatusCode::ReliableUpdateFail => assert(StatusCode::from_code(10601) == Some(s)),
        StatusCode::ReliableUpdateInactive => assert(StatusCode::from_code(10602) == Some(s)),
        StatusCode::ReliableUpdateBackupapplicationinvalid => assert(StatusCode::from_code(10603) == Some(s)),
        StatusCode::ReliableUpdateStillinmainapplication => assert(StatusCode::from_code(10604) == Some(s)),
        StatusCode::ReliableUpdateSwapsystemnotready => assert(StatusCode::from_code(10605) == Some(s)),
        StatusCode::ReliableUpdateBackupbootloadernotready => assert(StatusCode::from_code(10606) == Some(s)),
        StatusCode::ReliableUpdateSwapindicatoraddressinvalid => assert(StatusCode::from_code(10607) == Some(s)),
        StatusCode::ReliableUpdateSwapsystemnotavailable => assert(StatusCode::from_code(10608) == Some(s)),
        StatusCode::ReliableUpdateSwaptest => assert(StatusCode::from_code(10609) == Some(s)),
        StatusCode::SerialNorEepromAddressInvalid => assert(StatusCode::from_code(10700) == Some(s)),
        StatusCode::SerialNorEepromTransferError => assert(StatusCode::from_code(10701) == Some(s)),
        StatusCode::SerialNorEepromTypeInvalid => assert(StatusCode::from_code(10702) == Some(s)),
        StatusCode::SerialNorEepromSizeInvalid => assert(StatusCode::from_code(10703) == Some(s)),
        StatusCode::SerialNorEepromCommandInvalid => assert(StatusCode::from_code(10704) == Some(s)),
        StatusCode::RomApiNeedMoreData => assert(StatusCode::from_code(10800) == Some(s)),
        StatusCode::RomApiBufferSizeNotEnough => assert(StatusCode::from_code(10801) == Some(s)),
        StatusCode::RomApiInvalidBuffer => assert(StatusCode::from_code(10802) == Some(s)),
        StatusCode::FlexspinandReadPageFail => assert(StatusCode::from_code(20000) == Some(s)),
        StatusCode::FlexspinandReadCacheFail => assert(StatusCode::from_code(20001) == Some(s)),
        StatusCode::FlexspinandEccCheckFail => assert(StatusCode::from_code(20002) == Some(s)),
        StatusCode::FlexspinandPageLoadFail => assert(StatusCode::from_code(20003) == Some(s)),
        StatusCode::FlexspinandPageExecuteFail => assert(StatusCode::from_code(20004) == Some(s)),
        StatusCode::FlexspinandEraseBlockFail => assert(StatusCode::from_code(20005) == Some(s)),
        StatusCode::FlexspinandWaitTimeout => assert(StatusCode::from_code(20006) == Some(s)),
        StatusCode::FlexSpinandNotSupported => assert(StatusCode::from_code(20007) == Some(s)),
        StatusCode::FlexSpinandFcbUpdateFail => assert(StatusCode::from_code(20008) == Some(s)),
        StatusCode::FlexSpinandDbbtUpdateFail => assert(StatusCode::from_code(20009) == Some(s)),
        StatusCode::FlexspinandWritealignmenterror => assert(StatusCode::from_code(20010) == Some(s)),
        StatusCode::FlexspinandNotFound => assert(StatusCode::from_code(20011) == Some(s)),
        StatusCode::FlexspinorProgramFail => assert(StatusCode::from_code(20100) == Some(s)),
        StatusCode::FlexspinorEraseSectorFail => assert(StatusCode::from_code(20101) == Some(s)),
        StatusCode::FlexspinorEraseAllFail => assert(StatusCode::from_code(20102) == Some(s)),
        StatusCode::FlexspinorWaitTimeout => assert(StatusCode::from_code(20103) == Some(s)),
        StatusCode::FlexspinorNotSupported => assert(StatusCode::from_code(20104) == Some(s)),
        StatusCode::FlexspinorWriteAlignmentError => assert(StatusCode::from_code(20105) == Some(s)),
        StatusCode::FlexspinorCommandFailure => assert(StatusCode::from_code(20106) == Some(s)),
        StatusCode::FlexspinorSfdpNotFound => assert(StatusCode::from_code(20107) == Some(s)),
        StatusCode::FlexspinorUnsupportedSfdpVersion => assert(StatusCode::from_code(20108) == Some(s)),
        StatusCode::FlexspinorFlashNotFound => assert(StatusCode::from_code(20109) == Some(s)),
        StatusCode::FlexspinorDtrReadDummyProbeFailed => assert(StatusCode::from_code(20110) == Some(s)),
        StatusCode::OcotpReadFailure => assert(StatusCode::from_code(20200) == Some(s)),
        StatusCode::OcotpProgramFailure => assert(StatusCode::from_code(20201) == Some(s)),
        StatusCode::OcotpReloadFailure => assert(StatusCode::from_code(20202) == Some(s)),
        StatusCode::OcotpWaitTimeout => assert(StatusCode::from_code(20203) == Some(s)),
        StatusCode::SemcnorDeviceTimeout => assert(StatusCode::from_code(21100) == Some(s)),
        StatusCode::SemcnorInvalidMemoryAddress => assert(StatusCode::from_code(21101) == Some(s)),
        StatusCode::SemcnorUnmatchedCommandSet => assert(StatusCode::from_code(21102) == Some(s)),
        StatusCode::SemcnorAddressAlignmentError => assert(StatusCode::from_code(21103) == Some(s)),
        StatusCode::SemcnorInvalidCfiSignature => assert(StatusCode::from_code(21104) == Some(s)),
        StatusCode::SemcnorCommandErrorNoOpToSuspend => assert(StatusCode::from_code(21105) == Some(s)),
        StatusCode::SemcnorCommandErrorNoInfoAvailable => assert(StatusCode::from_code(21106) == Some(s)),
        StatusCode::SemcnorBlockEraseCommandFailure => assert(StatusCode::from_code(21107) == Some(s)),
        StatusCode::SemcnorBufferProgramCommandFailure => assert(StatusCode::from_code(21108) == Some(s)),
        StatusCode::SemcnorProgramVerifyFailure => assert(StatusCode::from_code(21109) == Some(s)),
        StatusCode::SemcnorEraseVerifyFailure => assert(StatusCode::from_code(21110) == Some(s)),
        StatusCode::SemcnorInvalidCfgTag => assert(StatusCode::from_code(21116) == Some(s)),
        StatusCode::SemcnandDeviceTimeout => assert(StatusCode::from_code(21200) == Some(s)),
        StatusCode::SemcnandInvalidMemoryAddress => assert(StatusCode::from_code(21201) == Some(s)),
        StatusCode::SemcnandNotEqualToOnePageSize => assert(StatusCode::from_code(21202) == Some(s)),
        StatusCode::SemcnandMoreThanOnePageSize => assert(StatusCode::from_code(21203) == Some(s)),
        StatusCode::SemcnandEccCheckFail => assert(StatusCode::from_code(21204) == Some(s)),
        StatusCode::SemcnandInvalidOnfiParameter => assert(StatusCode::from_code(21205) == Some(s)),
        StatusCode::SemcnandCannotEnableDeviceEcc => assert(StatusCode::from_code(21206) == Some(s)),
        StatusCode::SemcnandSwitchTimingModeFailure => assert(StatusCode::from_code(21207) == Some(s)),
        StatusCode::SemcnandProgramVerifyFailure => assert(StatusCode::from_code(21208) == Some(s)),
        StatusCode::SemcnandEraseVerifyFailure => assert(StatusCode::from_code(21209) == Some(s)),
        StatusCode::SemcnandInvalidReadbackBuffer => assert(StatusCode::from_code(21210) == Some(s)),
        StatusCode::SemcnandInvalidCfgTag => assert(StatusCode::from_code(21216) == Some(s)),
        StatusCode::SemcnandFailToUpdateFcb => assert(StatusCode::from_code(21217) == Some(s)),
        StatusCode::SemcnandFailToUpdateDbbt => assert(StatusCode::from_code(21218) == Some(s)),
        StatusCode::SemcnandDisallowOverwriteBcb => assert(StatusCode::from_code(21219) == Some(s)),
        StatusCode::SemcnandOnlySupportOnfiDevice => assert(StatusCode::from_code(21220) == Some(s)),
        StatusCode::SemcnandMoreThanMaxImageCopy => assert(StatusCode::from_code(21221) == Some(s)),
        StatusCode::SemcnandDisorderedImageCopies => assert(StatusCode::from_code(21222) == Some(s)),
        StatusCode::SpifinorProgramFail => assert(StatusCode::from_code(22000) == Some(s)),
        StatusCode::SpifinorEraseSectorfail => assert(StatusCode::from_code(22001) == Some(s)),
        StatusCode::SpifinorEraseAllFail => assert(StatusCode::from_code(22002) == Some(s)),
        StatusCode::SpifinorWaitTimeout => assert(StatusCode::from_code(22003) == Some(s)),
        StatusCode::SpifinorNotSupported => assert(StatusCode::from_code(22004) == Some(s)),
        StatusCode::SpifinorWriteAlignmentError => assert(StatusCode::from_code(22005) == Some(s)),
        StatusCode::SpifinorCommandFailure => assert(StatusCode::from_code(22006) == Some(s)),
        StatusCode::SpifinorSfdpNotFound => assert(StatusCode::from_code(22007) == Some(s)),
        StatusCode::EdgelockInvalidResponse => assert(StatusCode::from_code(30000) == Some(s)),
        StatusCode::EdgelockResponseError => assert(StatusCode::from_code(30001) == Some(s)),
        StatusCode::EdgelockAbort => assert(StatusCode::from_code(30002) == Some(s)),
        StatusCode::EdgelockOperationFailed => assert(StatusCode::from_code(30003) == Some(s)),
        StatusCode::EdgelockOtpProgramFailure => assert(StatusCode::from_code(30004) == Some(s)),
        StatusCode::EdgelockOtpLocked => assert(StatusCode::from_code(30005) == Some(s)),
        StatusCode::EdgelockOtpInvalidIdx => assert(StatusCode::from_code(30006) == Some(s)),
        StatusCode::EdgelockInvalidLifecycle => assert(StatusCode::from_code(30007) == Some(s)),
        StatusCode::OtpInvalidAddress => assert(StatusCode::from_code(52801) == Some(s)),
        StatusCode::OtpProgramFail => assert(StatusCode::from_code(52802) == Some(s)),
        StatusCode::OtpCrcFail => assert(StatusCode::from_code(52803) == Some(s)),
        StatusCode::OtpError => assert(StatusCode::from_code(52804) == Some(s)),
        StatusCode::OtpEccCrcFail => assert(StatusCode::from_code(52805) == Some(s)),
        StatusCode::OtpLocked => assert(StatusCode::from_code(52806) == Some(s)),
        StatusCode::OtpTimeout => assert(StatusCode::from_code(52807) == Some(s)),
        StatusCode::OtpCrcCheckPass => assert(StatusCode::from_code(52808) == Some(s)),
        StatusCode::OtpVerifyFail => assert(StatusCode::from_code(52009) == Some(s)),
        StatusCode::SecuritySubsystemError => assert(StatusCode::from_code(1515890085) == Some(s)),
        StatusCode::TpGeneralError => assert(StatusCode::from_code(80000) == Some(s)),
        StatusCode::TpCryptoError => assert(StatusCode::from_code(80001) == Some(s)),
        StatusCode::TpNullptrError => assert(StatusCode::from_code(80002) == Some(s)),
        StatusCode::TpAlreadyinitialized => assert(StatusCode::from_code(80003) == Some(s)),
        StatusCode::TpBuffersmall => assert(StatusCode::from_code(80004) == Some(s)),
        StatusCode::TpAddressError => assert(StatusCode::from_code(80005) == Some(s)),
        StatusCode::TpContainerInvalid => assert(StatusCode::from_code(80006) == Some(s)),
        StatusCode::TpContainerentryinvalid => assert(StatusCode::from_code(80007) == Some(s)),
        StatusCode::TpContainerentrynotfound => assert(StatusCode::from_code(80008) == Some(s)),
        StatusCode::TpInvalidstateoperation => assert(StatusCode::from_code(80009) == Some(s)),
        StatusCode::TpCommandError => assert(StatusCode::from_code(80010) == Some(s)),
        StatusCode::TpPufError => assert(StatusCode::from_code(80011) == Some(s)),
        StatusCode::TpFlashError => assert(StatusCode::from_code(80012) == Some(s)),
        StatusCode::TpSecretboxError => assert(StatusCode::from_code(80013) == Some(s)),
        StatusCode::TpPfrError => assert(StatusCode::from_code(80014) == Some(s)),
        StatusCode::TpVerificationError => assert(StatusCode::from_code(80015) == Some(s)),
        StatusCode::TpCfpaError => assert(StatusCode::from_code(80016) == Some(s)),
        StatusCode::TpCmpaError => assert(StatusCode::from_code(80017) == Some(s)),
        StatusCode::TpAddrOutOfRange => assert(StatusCode::from_code(80018) == Some(s)),
        StatusCode::TpContainerAddrError => assert(StatusCode::from_code(80019) == Some(s)),
        StatusCode::TpContainerAddrUnaligned => assert(StatusCode::from_code(80020) == Some(s)),
        StatusCode::TpContainerBuffSmall => assert(StatusCode::from_code(80021) == Some(s)),
        StatusCode::TpContainerNoEntry => assert(StatusCode::from_code(80022) == Some(s)),
        StatusCode::TpCertAddrError => assert(StatusCode::from_code(80023) == Some(s)),
        StatusCode::TpCertAddrUnaligned => assert(StatusCode::from_code(80024) == Some(s)),
        StatusCode::TpCertOverlapping => assert(StatusCode::from_code(80025) == Some(s)),
        StatusCode::TpPacketError => assert(StatusCode::from_code(80026) == Some(s)),
        StatusCode::TpPacketDataError => assert(StatusCode::from_code(80027) == Some(s)),
        StatusCode::TpUnknownCommand => assert(StatusCode::from_code(80028) == Some(s)),
        StatusCode::TpSb3FileError => assert(StatusCode::from_code(80029) == Some(s)),
        StatusCode::TpGeneralCriticalError => assert(StatusCode::from_code(80101) == Some(s)),
        StatusCode::TpCryptoCriticalError => assert(StatusCode::from_code(80102) == Some(s)),
        StatusCode::TpPufCriticalError => assert(StatusCode::from_code(80103) == Some(s)),
        StatusCode::TpPfrCriticalError => assert(StatusCode::from_code(80104) == Some(s)),
        StatusCode::TpPeripheralCriticalError => assert(StatusCode::from_code(80105) == Some(s)),
        StatusCode::TpPrinceCriticalError => assert(StatusCode::from_code(80106) == Some(s)),
        StatusCode::TpShaCheckCriticalError => assert(StatusCode::from_code(80107) == Some(s)),
        StatusCode::IapInvalidArgument => assert(StatusCode::from_code(100001) == Some(s)),
        StatusCode::IapOutOfMemory => assert(StatusCode::from_code(100002) == Some(s)),
        StatusCode::IapReadDisallowed => assert(StatusCode::from_code(100003) == Some(s)),
        StatusCode::IapCumulativeWrite => assert(StatusCode::from_code(100004) == Some(s)),
        StatusCode::IapEraseFailure => assert(StatusCode::from_code(100005) == Some(s)),
        StatusCode::IapCommandNotSupported => assert(StatusCode::from_code(100006) == Some(s)),
        StatusCode::IapMemoryAccessDisabled => assert(StatusCode::from_code(100007) == Some(s)),
        StatusCode::El2goProvSuccess => assert(StatusCode::from_code(0x5a5a5a5a) == Some(s)),
        StatusCode::UnknownStatusCode => {},
    }
}

/// A value decodes only to the status whose code it is, and never to the
/// stand-in for unknown codes.
#[verifier::rlimit(100)]
proof fn lemma_code_of_decode(n: u32)
    ensures
        StatusCode::from_code(n) matches Some(s) ==> s.spec_code() == n && s
            != StatusCode::UnknownStatusCode,
{
}

/// The numeric codes and the documented statuses correspond one to one: every
/// documented status is recovered from its own code, and a value decodes to a
/// status only if it is that status's code. The stand-in for unknown codes is
/// no documented status: no value decodes to it, not even its own number.
pub proof fn lemma_status_code_roundtrip(s: StatusCode, n: u32)
    ensures
        s != StatusCode::UnknownStatusCode ==> StatusCode::from_code(s.spec_code()) == Some(s),
        StatusCode::from_code(n) == Some(s) <==> n == s.spec_code() && s
            != StatusCode::UnknownStatusCode,
        StatusCode::from_code(StatusCode::UnknownStatusCode.spec_code()) is None,
{
    if s != StatusCode::UnknownStatusCode {
        lemma_decode_of_code(s);
    }
    lemma_code_of_decode(n);
}

} // verus!

//! Commands that the host sends, with their wire codes and parameter layouts.
use vstd::prelude::*;

use vstd::string::*;

use super::property::PropertyTagDiscriminants;
use super::ToAddress;
use crate::parsers::{
    char_is_numeric, is_numeric, number_error, parse_number, spec_parse_number, str_equal,
};

verus! {

/// A command together with its arguments. A command with a data phase borrows
/// the bytes that follow it.
#[derive(Clone, Debug)]
pub enum CommandTag<'a> {
    /// Streams an image with no command packet in front of it.
    NoCommand {
        /// Bytes of the image.
        bytes: &'a [u8],
    },
    /// Erases a whole flash memory.
    FlashEraseAll {
        /// Memory to erase.
        memory_id: u32,
    },
    /// Erases a region of flash.
    FlashEraseRegion {
        /// First address of the region.
        start_address: u32,
        /// Length of the region in bytes.
        byte_count: u32,
        /// Memory that holds the region.
        memory_id: u32,
    },
    /// Reads memory.
    ReadMemory {
        /// First address to read.
        start_address: u32,
        /// Number of bytes to read.
        byte_count: u32,
        /// Memory to read from.
        memory_id: u32,
    },
    /// Writes memory.
    WriteMemory {
        /// First address to write.
        start_address: u32,
        /// Memory to write to.
        memory_id: u32,
        /// Bytes to write.
        bytes: &'a [u8],
    },
    /// Fills memory with a repeated word.
    FillMemory {
        /// First address to fill.
        start_address: u32,
        /// Number of bytes to fill.
        byte_count: u32,
        /// Word to repeat.
        pattern: u32,
    },
    /// Lifts the flash read and write protection.
    FlashSecurityDisable,
    /// Asks for the value of a property.
    GetProperty {
        /// Property asked for.
        tag: PropertyTagDiscriminants,
        /// Memory that the property is asked of.
        memory_index: u32,
    },
    /// Hands over a secure binary file.
    ReceiveSBFile {
        /// Bytes of the file.
        bytes: &'a [u8],
    },
    /// Jumps to code.
    Execute {
        /// Address to jump to.
        start_address: u32,
        /// Argument handed to the code.
        argument: u32,
        /// Stack pointer to start with.
        stackpointer: u32,
    },
    /// Calls a function.
    Call {
        /// Address of the function.
        start_address: u32,
        /// Argument handed to the function.
        argument: u32,
    },
    /// Resets the device.
    Reset,
    /// Sets a property.
    SetProperty {
        /// Property to set.
        tag: PropertyTagDiscriminants,
        /// Value to give it.
        value: u32,
    },
    /// Erases all flash and lifts its protection.
    FlashEraseAllUnsecure,
    /// Programs a word of one-time-programmable memory.
    FlashProgramOnce {
        /// Index of the word.
        index: u32,
        /// Number of bytes to program.
        count: u32,
        /// Value to program.
        data: u32,
    },
    /// Reads a word of one-time-programmable memory.
    FlashReadOnce {
        /// Index of the word.
        index: u32,
        /// Number of bytes to read.
        count: u32,
    },
    /// Reads a flash resource.
    FlashReadResource,
    /// Configures an external memory.
    ConfigureMemory {
        /// Memory to configure.
        memory_id: u32,
        /// Address of the configuration block.
        address: u32,
    },
    /// Swaps to an updated image.
    ReliableUpdate,
    /// Generates a key blob.
    GenerateKeyBlob,
    /// Programs fuses.
    FuseProgram {
        /// First fuse address.
        start_address: u32,
        /// Bytes to program.
        bytes: &'a [u8],
        /// Memory that holds the fuses.
        memory_id: u32,
    },
    /// A key-provisioning operation.
    KeyProvisioning(&'a KeyProvOperation),
    /// A trust-provisioning operation.
    TrustProvisioning(&'a TrustProvOperation),
    /// Reads fuses.
    FuseRead {
        /// First fuse address.
        start_address: u32,
        /// Number of bytes to read.
        byte_count: u32,
        /// Memory that holds the fuses.
        memory_id: u32,
    },
    /// Advances the life cycle state.
    UpdateLifeCycle,
    /// Sends a message to the EdgeLock enclave.
    EleMessage,
    /// EdgeLock 2GO provisioning.
    EL2GO,
    /// Configures the I2C peripheral.
    ConfigureI2C,
    /// Configures the SPI peripheral.
    ConfigureSPI,
    /// Configures the CAN peripheral.
    ConfigureCAN,
}

/// A command without its arguments.
#[derive(Clone, Copy, Debug, PartialEq, Eq, Structural)]
pub enum CommandTagDiscriminants {
    /// See [`CommandTag::NoCommand`].
    NoCommand,
    /// See [`CommandTag::FlashEraseAll`].
    FlashEraseAll,
    /// See [`CommandTag::FlashEraseRegion`].
    FlashEraseRegion,
    /// See [`CommandTag::ReadMemory`].
    ReadMemory,
    /// See [`CommandTag::WriteMemory`].
    WriteMemory,
    /// See [`CommandTag::FillMemory`].
    FillMemory,
    /// See [`CommandTag::FlashSecurityDisable`].
    FlashSecurityDisable,
    /// See [`CommandTag::GetProperty`].
    GetProperty,
    /// See [`CommandTag::ReceiveSBFile`].
    ReceiveSBFile,
    /// See [`CommandTag::Execute`].
    Execute,
    /// See [`CommandTag::Call`].
    Call,
    /// See [`CommandTag::Reset`].
    Reset,
    /// See [`CommandTag::SetProperty`].
    SetProperty,
    /// See [`CommandTag::FlashEraseAllUnsecure`].
    FlashEraseAllUnsecure,
    /// See [`CommandTag::FlashProgramOnce`].
    FlashProgramOnce,
    /// See [`CommandTag::FlashReadOnce`].
    FlashReadOnce,
    /// See [`CommandTag::FlashReadResource`].
    FlashReadResource,
    /// See [`CommandTag::ConfigureMemory`].
    ConfigureMemory,
    /// See [`CommandTag::ReliableUpdate`].
    ReliableUpdate,
    /// See [`CommandTag::GenerateKeyBlob`].
    GenerateKeyBlob,
    /// See [`CommandTag::FuseProgram`].
    FuseProgram,
    /// See [`CommandTag::KeyProvisioning`].
    KeyProvisioning,
    /// See [`CommandTag::TrustProvisioning`].
    TrustProvisioning,
    /// See [`CommandTag::FuseRead`].
    FuseRead,
    /// See [`CommandTag::UpdateLifeCycle`].
    UpdateLifeCycle,
    /// See [`CommandTag::EleMessage`].
    EleMessage,
    /// See [`CommandTag::EL2GO`].
    EL2GO,
    /// See [`CommandTag::ConfigureI2C`].
    ConfigureI2C,
    /// See [`CommandTag::ConfigureSPI`].
    ConfigureSPI,
    /// See [`CommandTag::ConfigureCAN`].
    ConfigureCAN,
}

impl CommandTagDiscriminants {
    /// The wire code of the command.
    pub open spec fn spec_code(self) -> u8 {
        match self {
            CommandTagDiscriminants::NoCommand => 0x00,
            CommandTagDiscriminants::FlashEraseAll => 0x01,
            CommandTagDiscriminants::FlashEraseRegion => 0x02,
            CommandTagDiscriminants::ReadMemory => 0x03,
            CommandTagDiscriminants::WriteMemory => 0x04,
            CommandTagDiscriminants::FillMemory => 0x05,
            CommandTagDiscriminants::FlashSecurityDisable => 0x06,
            CommandTagDiscriminants::GetProperty => 0x07,
            CommandTagDiscriminants::ReceiveSBFile => 0x08,
            CommandTagDiscriminants::Execute => 0x09,
            CommandTagDiscriminants::Call => 0x0A,
            CommandTagDiscriminants::Reset => 0x0B,
            CommandTagDiscriminants::SetProperty => 0x0C,
            CommandTagDiscriminants::FlashEraseAllUnsecure => 0x0D,
            CommandTagDiscriminants::FlashProgramOnce => 0x0E,
            CommandTagDiscriminants::FlashReadOnce => 0x0F,
            CommandTagDiscriminants::FlashReadResource => 0x10,
            CommandTagDiscriminants::ConfigureMemory => 0x11,
            CommandTagDiscriminants::ReliableUpdate => 0x12,
            CommandTagDiscriminants::GenerateKeyBlob => 0x13,
            CommandTagDiscriminants::FuseProgram => 0x14,
            CommandTagDiscriminants::KeyProvisioning => 0x15,
            CommandTagDiscriminants::TrustProvisioning => 0x16,
            CommandTagDiscriminants::FuseRead => 0x17,
            CommandTagDiscriminants::UpdateLifeCycle => 0x18,
            CommandTagDiscriminants::EleMessage => 0x19,
            CommandTagDiscriminants::EL2GO => 0x20,
            CommandTagDiscriminants::ConfigureI2C => 0xC1,
            CommandTagDiscriminants::ConfigureSPI => 0xC2,
            CommandTagDiscriminants::ConfigureCAN => 0xC3,
        }
    }

    /// Every command, in the order of the codes.
    pub open spec fn spec_all() -> Seq<CommandTagDiscriminants> {
        seq![
            CommandTagDiscriminants::NoCommand,
            CommandTagDiscriminants::FlashEraseAll,
            CommandTagDiscriminants::FlashEraseRegion,
            CommandTagDiscriminants::ReadMemory,
            CommandTagDiscriminants::WriteMemory,
            CommandTagDiscriminants::FillMemory,
            CommandTagDiscriminants::FlashSecurityDisable,
            CommandTagDiscriminants::GetProperty,
            CommandTagDiscriminants::ReceiveSBFile,
            CommandTagDiscriminants::Execute,
            CommandTagDiscriminants::Call,
            CommandTagDiscriminants::Reset,
            CommandTagDiscriminants::SetProperty,
            CommandTagDiscriminants::FlashEraseAllUnsecure,
            CommandTagDiscriminants::FlashProgramOnce,
            CommandTagDiscriminants::FlashReadOnce,
            CommandTagDiscriminants::FlashReadResource,
            CommandTagDiscriminants::ConfigureMemory,
            CommandTagDiscriminants::ReliableUpdate,
            CommandTagDiscriminants::GenerateKeyBlob,
            CommandTagDiscriminants::FuseProgram,
            CommandTagDiscriminants::KeyProvisioning,
            CommandTagDiscriminants::TrustProvisioning,
            CommandTagDiscriminants::FuseRead,
            CommandTagDiscriminants::UpdateLifeCycle,
            CommandTagDiscriminants::EleMessage,
            CommandTagDiscriminants::EL2GO,
            CommandTagDiscriminants::ConfigureI2C,
            CommandTagDiscriminants::ConfigureSPI,
            CommandTagDiscriminants::ConfigureCAN,
        ]
    }

    /// Every command, in the order of the codes.
    pub fn all() -> (v: Vec<CommandTagDiscriminants>)
        ensures
            v@ == Self::spec_all(),
    {
        let v = vec![
            CommandTagDiscriminants::NoCommand,
            CommandTagDiscriminants::FlashEraseAll,
            CommandTagDiscriminants::FlashEraseRegion,
            CommandTagDiscriminants::ReadMemory,
            CommandTagDiscriminants::WriteMemory,
            CommandTagDiscriminants::FillMemory,
            CommandTagDiscriminants::FlashSecurityDisable,
            CommandTagDiscriminants::GetProperty,
            CommandTagDiscriminants::ReceiveSBFile,
            CommandTagDiscriminants::Execute,
            CommandTagDiscriminants::Call,
            CommandTagDiscriminants::Reset,
            CommandTagDiscriminants::SetProperty,
            CommandTagDiscriminants::FlashEraseAllUnsecure,
            CommandTagDiscriminants::FlashProgramOnce,
            CommandTagDiscriminants::FlashReadOnce,
            CommandTagDiscriminants::FlashReadResource,
            CommandTagDiscriminants::ConfigureMemory,
            CommandTagDiscriminants::ReliableUpdate,
            CommandTagDiscriminants::GenerateKeyBlob,
            CommandTagDiscriminants::FuseProgram,
            CommandTagDiscriminants::KeyProvisioning,
            CommandTagDiscriminants::TrustProvisioning,
            CommandTagDiscriminants::FuseRead,
            CommandTagDiscriminants::UpdateLifeCycle,
            CommandTagDiscriminants::EleMessage,
            CommandTagDiscriminants::EL2GO,
            CommandTagDiscriminants::ConfigureI2C,
            CommandTagDiscriminants::ConfigureSPI,
            CommandTagDiscriminants::ConfigureCAN,
        ];
        assert(v@ =~= Self::spec_all());
        v
    }

    /// The wire code of the command.
    pub fn code(self) -> (c: u8)
        ensures
            c == self.spec_code(),
    {
        match self {
            CommandTagDiscriminants::NoCommand => 0x00,
            CommandTagDiscriminants::FlashEraseAll => 0x01,
            CommandTagDiscriminants::FlashEraseRegion => 0x02,
            CommandTagDiscriminants::ReadMemory => 0x03,
            CommandTagDiscriminants::WriteMemory => 0x04,
            CommandTagDiscriminants::FillMemory => 0x05,
            CommandTagDiscriminants::FlashSecurityDisable => 0x06,
            CommandTagDiscriminants::GetProperty => 0x07,
            CommandTagDiscriminants::ReceiveSBFile => 0x08,
            CommandTagDiscriminants::Execute => 0x09,
            CommandTagDiscriminants::Call => 0x0A,
            CommandTagDiscriminants::Reset => 0x0B,
            CommandTagDiscriminants::SetProperty => 0x0C,
            CommandTagDiscriminants::FlashEraseAllUnsecure => 0x0D,
            CommandTagDiscriminants::FlashProgramOnce => 0x0E,
            CommandTagDiscriminants::FlashReadOnce => 0x0F,
            CommandTagDiscriminants::FlashReadResource => 0x10,
            CommandTagDiscriminants::ConfigureMemory => 0x11,
            CommandTagDiscriminants::ReliableUpdate => 0x12,
            CommandTagDiscriminants::GenerateKeyBlob => 0x13,
            CommandTagDiscriminants::FuseProgram => 0x14,
            CommandTagDiscriminants::KeyProvisioning => 0x15,
            CommandTagDiscriminants::TrustProvisioning => 0x16,
            CommandTagDiscriminants::FuseRead => 0x17,
            CommandTagDiscriminants::UpdateLifeCycle => 0x18,
            CommandTagDiscriminants::EleMessage => 0x19,
            CommandTagDiscriminants::EL2GO => 0x20,
            CommandTagDiscriminants::ConfigureI2C => 0xC1,
            CommandTagDiscriminants::ConfigureSPI => 0xC2,
            CommandTagDiscriminants::ConfigureCAN => 0xC3,
        }
    }
}

impl From<CommandTagDiscriminants> for u8 {
    fn from(value: CommandTagDiscriminants) -> (c: u8) {
        value.code()
    }
}

impl vstd::std_specs::convert::FromSpecImpl<CommandTagDiscriminants> for u8 {
    open spec fn obeys_from_spec() -> bool {
        true
    }

    open spec fn from_spec(v: CommandTagDiscriminants) -> u8 {
        v.spec_code()
    }
}

impl<'a> CommandTag<'a> {
    /// The command, without its arguments.
    pub open spec fn spec_discriminant(&self) -> CommandTagDiscriminants {
        match self {
            CommandTag::NoCommand { .. } => CommandTagDiscriminants::NoCommand,
            CommandTag::FlashEraseAll { .. } => CommandTagDiscriminants::FlashEraseAll,
            CommandTag::FlashEraseRegion { .. } => CommandTagDiscriminants::FlashEraseRegion,
            CommandTag::ReadMemory { .. } => CommandTagDiscriminants::ReadMemory,
            CommandTag::WriteMemory { .. } => CommandTagDiscriminants::WriteMemory,
            CommandTag::FillMemory { .. } => CommandTagDiscriminants::FillMemory,
            CommandTag::FlashSecurityDisable => CommandTagDiscriminants::FlashSecurityDisable,
            CommandTag::GetProperty { .. } => CommandTagDiscriminants::GetProperty,
            CommandTag::ReceiveSBFile { .. } => CommandTagDiscriminants::ReceiveSBFile,
            CommandTag::Execute { .. } => CommandTagDiscriminants::Execute,
            CommandTag::Call { .. } => CommandTagDiscriminants::Call,
            CommandTag::Reset => CommandTagDiscriminants::Reset,
            CommandTag::SetProperty { .. } => CommandTagDiscriminants::SetProperty,
            CommandTag::FlashEraseAllUnsecure => CommandTagDiscriminants::FlashEraseAllUnsecure,
            CommandTag::FlashProgramOnce { .. } => CommandTagDiscriminants::FlashProgramOnce,
            CommandTag::FlashReadOnce { .. } => CommandTagDiscriminants::FlashReadOnce,
            CommandTag::FlashReadResource => CommandTagDiscriminants::FlashReadResource,
            CommandTag::ConfigureMemory { .. } => CommandTagDiscriminants::ConfigureMemory,
            CommandTag::ReliableUpdate => CommandTagDiscriminants::ReliableUpdate,
            CommandTag::GenerateKeyBlob => CommandTagDiscriminants::GenerateKeyBlob,
            CommandTag::FuseProgram { .. } => CommandTagDiscriminants::FuseProgram,
            CommandTag::KeyProvisioning(_) => CommandTagDiscriminants::KeyProvisioning,
            CommandTag::TrustProvisioning(_) => CommandTagDiscriminants::TrustProvisioning,
            CommandTag::FuseRead { .. } => CommandTagDiscriminants::FuseRead,
            CommandTag::UpdateLifeCycle => CommandTagDiscriminants::UpdateLifeCycle,
            CommandTag::EleMessage => CommandTagDiscriminants::EleMessage,
            CommandTag::EL2GO => CommandTagDiscriminants::EL2GO,
            CommandTag::ConfigureI2C => CommandTagDiscriminants::ConfigureI2C,
            CommandTag::ConfigureSPI => CommandTagDiscriminants::ConfigureSPI,
            CommandTag::ConfigureCAN => CommandTagDiscriminants::ConfigureCAN,
        }
    }

    /// The command, without its arguments.
    pub fn discriminant(&self) -> (d: CommandTagDiscriminants)
        ensures
            d == self.spec_discriminant(),
    {
        match self {
            CommandTag::NoCommand { .. } => CommandTagDiscriminants::NoCommand,
            CommandTag::FlashEraseAll { .. } => CommandTagDiscriminants::FlashEraseAll,
            CommandTag::FlashEraseRegion { .. } => CommandTagDiscriminants::FlashEraseRegion,
            CommandTag::ReadMemory { .. } => CommandTagDiscriminants::ReadMemory,
            CommandTag::WriteMemory { .. } => CommandTagDiscriminants::WriteMemory,
            CommandTag::FillMemory { .. } => CommandTagDiscriminants::FillMemory,
            CommandTag::FlashSecurityDisable => CommandTagDiscriminants::FlashSecurityDisable,
            CommandTag::GetProperty { .. } => CommandTagDiscriminants::GetProperty,
            CommandTag::ReceiveSBFile { .. } => CommandTagDiscriminants::ReceiveSBFile,
            CommandTag::Execute { .. } => CommandTagDiscriminants::Execute,
            CommandTag::Call { .. } => CommandTagDiscriminants::Call,
            CommandTag::Reset => CommandTagDiscriminants::Reset,
            CommandTag::SetProperty { .. } => CommandTagDiscriminants::SetProperty,
            CommandTag::FlashEraseAllUnsecure => CommandTagDiscriminants::FlashEraseAllUnsecure,
            CommandTag::FlashProgramOnce { .. } => CommandTagDiscriminants::FlashProgramOnce,
            CommandTag::FlashReadOnce { .. } => CommandTagDiscriminants::FlashReadOnce,
            CommandTag::FlashReadResource => CommandTagDiscriminants::FlashReadResource,
            CommandTag::ConfigureMemory { .. } => CommandTagDiscriminants::ConfigureMemory,
            CommandTag::ReliableUpdate => CommandTagDiscriminants::ReliableUpdate,
            CommandTag::GenerateKeyBlob => CommandTagDiscriminants::GenerateKeyBlob,
            CommandTag::FuseProgram { .. } => CommandTagDiscriminants::FuseProgram,
            CommandTag::KeyProvisioning(_) => CommandTagDiscriminants::KeyProvisioning,
            CommandTag::TrustProvisioning(_) => CommandTagDiscriminants::TrustProvisioning,
            CommandTag::FuseRead { .. } => CommandTagDiscriminants::FuseRead,
            CommandTag::UpdateLifeCycle => CommandTagDiscriminants::UpdateLifeCycle,
            CommandTag::EleMessage => CommandTagDiscriminants::EleMessage,
            CommandTag::EL2GO => CommandTagDiscriminants::EL2GO,
            CommandTag::ConfigureI2C => CommandTagDiscriminants::ConfigureI2C,
            CommandTag::ConfigureSPI => CommandTagDiscriminants::ConfigureSPI,
            CommandTag::ConfigureCAN => CommandTagDiscriminants::ConfigureCAN,
        }
    }
}

impl ToAddress for CommandTag<'_> {
    open spec fn spec_code(&self) -> u8 {
        self.spec_discriminant().spec_code()
    }

    fn code(&self) -> (c: u8) {
        self.discriminant().code()
    }
}

/// A command, or a part of one, that knows its parameter words and the bytes of
/// its data phase.
pub trait CommandToParams {
    /// Whether the parameter layout is defined and the data phase, if there is
    /// one, has a length that fits a parameter word.
    spec fn has_layout(&self) -> bool;

    /// The parameter words, in wire order.
    spec fn spec_params(&self) -> Seq<u32>;

    /// The bytes of the data phase, if the command has one.
    spec fn spec_data_phase(&self) -> Option<Seq<u8>>;

    /// Tells whether the parameters can be had.
    fn is_encodable(&self) -> (b: bool)
        ensures
            b == self.has_layout(),
    ;

    /// The parameter words and the bytes of the data phase.
    fn to_params(&self) -> (r: (Vec<u32>, Option<&[u8]>))
        requires
            self.has_layout(),
        ensures
            r.0@ == self.spec_params(),
            r.1 matches Some(bytes) ==> self.spec_data_phase() == Some(bytes@),
            r.1 is None ==> self.spec_data_phase() is None,
    ;
}

impl CommandToParams for CommandTag<'_> {
    open spec fn has_layout(&self) -> bool {
        match self {
            CommandTag::FlashSecurityDisable
            | CommandTag::FlashReadResource
            | CommandTag::ReliableUpdate
            | CommandTag::GenerateKeyBlob
            | CommandTag::UpdateLifeCycle
            | CommandTag::EleMessage
            | CommandTag::EL2GO
            | CommandTag::ConfigureI2C
            | CommandTag::ConfigureSPI
            | CommandTag::ConfigureCAN => false,
            CommandTag::NoCommand { bytes }
            | CommandTag::ReceiveSBFile { bytes }
            | CommandTag::WriteMemory { bytes, .. }
            | CommandTag::FuseProgram { bytes, .. } => bytes@.len() <= u32::MAX,
            CommandTag::KeyProvisioning(operation) => operation.has_layout(),
            CommandTag::TrustProvisioning(operation) => operation.has_layout(),
            _ => true,
        }
    }

    open spec fn spec_params(&self) -> Seq<u32> {
        match self {
            CommandTag::FlashEraseAll { memory_id } => seq![*memory_id],
            CommandTag::ReadMemory { start_address, byte_count, memory_id }
            | CommandTag::FlashEraseRegion { start_address, byte_count, memory_id }
            | CommandTag::FuseRead { start_address, byte_count, memory_id } => seq![
                *start_address,
                *byte_count,
                *memory_id,
            ],
            CommandTag::WriteMemory { start_address, memory_id, bytes }
            | CommandTag::FuseProgram { start_address, memory_id, bytes } => seq![
                *start_address,
                bytes@.len() as u32,
                *memory_id,
            ],
            CommandTag::FillMemory { start_address, byte_count, pattern } => seq![
                *start_address,
                *byte_count,
                *pattern,
            ],
            CommandTag::GetProperty { tag, memory_index } => seq![
                tag.spec_code() as u32,
                *memory_index,
            ],
            CommandTag::SetProperty { tag, value } => seq![tag.spec_code() as u32, *value],
            CommandTag::ConfigureMemory { memory_id, address } => seq![*memory_id, *address],
            CommandTag::ReceiveSBFile { bytes } | CommandTag::NoCommand { bytes } => seq![
                bytes@.len() as u32,
            ],
            CommandTag::TrustProvisioning(operation) => operation.spec_params(),
            CommandTag::KeyProvisioning(operation) => operation.spec_params(),
            CommandTag::FlashReadOnce { index, count } => seq![*index, *count],
            CommandTag::FlashProgramOnce { index, count, data } => seq![*index, *count, *data],
            CommandTag::Execute { start_address, argument, stackpointer } => seq![
                *start_address,
                *argument,
                *stackpointer,
            ],
            CommandTag::Call { start_address, argument } => seq![*start_address, *argument],
            _ => seq![],
        }
    }

    open spec fn spec_data_phase(&self) -> Option<Seq<u8>> {
        match self {
            CommandTag::NoCommand { bytes }
            | CommandTag::ReceiveSBFile { bytes }
            | CommandTag::WriteMemory { bytes, .. }
            | CommandTag::FuseProgram { bytes, .. } => Some(bytes@),
            CommandTag::KeyProvisioning(operation) => operation.spec_data_phase(),
            CommandTag::TrustProvisioning(operation) => operation.spec_data_phase(),
            _ => None,
        }
    }

    fn is_encodable(&self) -> (b: bool) {
        match self {
            CommandTag::FlashSecurityDisable
            | CommandTag::FlashReadResource
            | CommandTag::ReliableUpdate
            | CommandTag::GenerateKeyBlob
            | CommandTag::UpdateLifeCycle
            | CommandTag::EleMessage
            | CommandTag::EL2GO
            | CommandTag::ConfigureI2C
            | CommandTag::ConfigureSPI
            | CommandTag::ConfigureCAN => false,
            CommandTag::NoCommand { bytes }
            | CommandTag::ReceiveSBFile { bytes }
            | CommandTag::WriteMemory { bytes, .. }
            | CommandTag::FuseProgram { bytes, .. } => bytes.len() <= 0xFFFF_FFFF,
            CommandTag::KeyProvisioning(operation) => operation.is_encodable(),
            CommandTag::TrustProvisioning(operation) => operation.is_encodable(),
            _ => true,
        }
    }

    fn to_params(&self) -> (r: (Vec<u32>, Option<&[u8]>)) {
        let r: (Vec<u32>, Option<&[u8]>) = match self {
            CommandTag::FlashEraseAll { memory_id } => (vec![*memory_id], None),
            CommandTag::ReadMemory { start_address, byte_count, memory_id }
            | CommandTag::FlashEraseRegion { start_address, byte_count, memory_id }
            | CommandTag::FuseRead { start_address, byte_count, memory_id } => (
                vec![*start_address, *byte_count, *memory_id],
                None,
            ),
            CommandTag::WriteMemory { start_address, memory_id, bytes }
            | CommandTag::FuseProgram { start_address, memory_id, bytes } => (
                vec![*start_address, bytes.len() as u32, *memory_id],
                Some(*bytes),
            ),
            CommandTag::FillMemory { start_address, byte_count, pattern } => (
                vec![*start_address, *byte_count, *pattern],
                None,
            ),
            CommandTag::GetProperty { tag, memory_index } => (
                vec![tag.code() as u32, *memory_index],
                None,
            ),
            CommandTag::Reset | CommandTag::FlashEraseAllUnsecure => (Vec::new(), None),
            CommandTag::SetProperty { tag, value } => (vec![tag.code() as u32, *value], None),
            CommandTag::ConfigureMemory { memory_id, address } => (
                vec![*memory_id, *address],
                None,
            ),
            CommandTag::ReceiveSBFile { bytes } | CommandTag::NoCommand { bytes } => (
                vec![bytes.len() as u32],
                Some(*bytes),
            ),
            CommandTag::TrustProvisioning(operation) => operation.to_params(),
            CommandTag::KeyProvisioning(operation) => operation.to_params(),
            CommandTag::FlashReadOnce { index, count } => (vec![*index, *count], None),
            CommandTag::FlashProgramOnce { index, count, data } => (
                vec![*index, *count, *data],
                None,
            ),
            CommandTag::Execute { start_address, argument, stackpointer } => (
                vec![*start_address, *argument, *stackpointer],
                None,
            ),
            CommandTag::Call { start_address, argument } => (
                vec![*start_address, *argument],
                None,
            ),
            _ => {
                proof {
                    assert(false);
                }
                (Vec::new(), None)
            },
        };
        assert(r.0@ =~= self.spec_params());
        r
    }
}

/// A trust-provisioning operation with its arguments. On the wire an operation
/// is its number, 0 to generate and 1 to set the master share, and then its
/// addresses and sizes in the order of the fields: seven words to generate,
/// four to set.
#[derive(Clone, Copy, Debug, PartialEq, Eq, Structural)]
pub enum TrustProvOperation {
    /// Has the device generate the OEM master share.
    OemGenMasterShare {
        /// Address of the buffer that holds the OEM share.
        oem_share_input_addr: u32,
        /// Size of the OEM share in bytes.
        oem_share_input_size: u32,
        /// Address of the buffer for the encrypted OEM share.
        oem_enc_share_output_addr: u32,
        /// Size of the buffer for the encrypted OEM share in bytes.
        oem_enc_share_output_size: u32,
        /// Address of the buffer for the encrypted OEM master share.
        oem_enc_master_share_output_addr: u32,
        /// Size of the buffer for the encrypted OEM master share in bytes.
        oem_enc_master_share_output_size: u32,
        /// Address of the buffer for the public key of the customer certificate.
        oem_cust_cert_puk_output_addr: u32,
        /// Size of the buffer for the public key of the customer certificate in
        /// bytes. It is for the host alone: the command has seven words behind
        /// its number, and this size is not among them.
        oem_cust_cert_puk_output_size: u32,
    },
    /// Hands the OEM master share to the device.
    OemSetMasterShare {
        /// Address of the buffer that holds the OEM share.
        oem_share_input_addr: u32,
        /// Size of the OEM share in bytes.
        oem_share_input_size: u32,
        /// Address of the buffer that holds the encrypted OEM master share.
        oem_enc_master_share_input_addr: u32,
        /// Size of the encrypted OEM master share in bytes.
        oem_enc_master_share_input_size: u32,
    },
}

impl CommandToParams for TrustProvOperation {
    open spec fn has_layout(&self) -> bool {
        true
    }

    open spec fn spec_params(&self) -> Seq<u32> {
        match *self {
            TrustProvOperation::OemGenMasterShare {
                oem_share_input_addr,
                oem_share_input_size,
                oem_enc_share_output_addr,
                oem_enc_share_output_size,
                oem_enc_master_share_output_addr,
                oem_enc_master_share_output_size,
                oem_cust_cert_puk_output_addr,
                ..
            } => seq![
                0,
                oem_share_input_addr,
                oem_share_input_size,
                oem_enc_share_output_addr,
                oem_enc_share_output_size,
                oem_enc_master_share_output_addr,
                oem_enc_master_share_output_size,
                oem_cust_cert_puk_output_addr,
            ],
            TrustProvOperation::OemSetMasterShare {
                oem_share_input_addr,
                oem_share_input_size,
                oem_enc_master_share_input_addr,
                oem_enc_master_share_input_size,
            } => seq![
                1,
                oem_share_input_addr,
                oem_share_input_size,
                oem_enc_master_share_input_addr,
                oem_enc_master_share_input_size,
            ],
        }
    }

    open spec fn spec_data_phase(&self) -> Option<Seq<u8>> {
        None
    }

    fn is_encodable(&self) -> (b: bool) {
        true
    }

    fn to_params(&self) -> (r: (Vec<u32>, Option<&[u8]>)) {
        let words: Vec<u32> = match *self {
            TrustProvOperation::OemGenMasterShare {
                oem_share_input_addr,
                oem_share_input_size,
                oem_enc_share_output_addr,
                oem_enc_share_output_size,
                oem_enc_master_share_output_addr,
                oem_enc_master_share_output_size,
                oem_cust_cert_puk_output_addr,
                ..
            } => vec![
                0,
                oem_share_input_addr,
                oem_share_input_size,
                oem_enc_share_output_addr,
                oem_enc_share_output_size,
                oem_enc_master_share_output_addr,
                oem_enc_master_share_output_size,
                oem_cust_cert_puk_output_addr,
            ],
            TrustProvOperation::OemSetMasterShare {
                oem_share_input_addr,
                oem_share_input_size,
                oem_enc_master_share_input_addr,
                oem_enc_master_share_input_size,
            } => vec![
                1,
                oem_share_input_addr,
                oem_share_input_size,
                oem_enc_master_share_input_addr,
                oem_enc_master_share_input_size,
            ],
        };
        assert(words@ =~= self.spec_params());
        (words, None)
    }
}

/// A key-provisioning operation with its arguments.
#[derive(Clone, Debug)]
pub enum KeyProvOperation {
    /// Enrolls the key-provisioning feature.
    Enroll,
    /// Hands a user key to the bootloader.
    SetUserKey {
        /// Kind of the key.
        key_type: KeyProvUserKeyType,
        /// Plain bytes of the key.
        key_data: Vec<u8>,
    },
    /// Has the device generate a key.
    SetKey {
        /// Kind of the key.
        key_type: KeyProvUserKeyType,
        /// Size of the key in bytes.
        key_size: u32,
    },
    /// Writes the key store to nonvolatile memory.
    WriteKeyNonvolatile {
        /// Memory to write to.
        memory_id: u32,
    },
    /// Loads the key store from nonvolatile memory.
    ReadKeyNonvolatile {
        /// Memory to read from.
        memory_id: u32,
    },
    /// Hands a key store to the bootloader.
    WriteKeyStore {
        /// Bytes of the key store.
        keystore_data: Vec<u8>,
    },
    /// Reads the key store from the bootloader.
    ReadKeyStore {
        /// File in which the caller wants the key store.
        file: String,
        /// Whether the caller wants a hex dump of it.
        use_hexdump: bool,
    },
}

impl CommandToParams for KeyProvOperation {
    open spec fn has_layout(&self) -> bool {
        match self {
            KeyProvOperation::SetUserKey { key_data, .. } => key_data@.len() <= u32::MAX,
            KeyProvOperation::WriteKeyStore { keystore_data } => keystore_data@.len() <= u32::MAX,
            _ => true,
        }
    }

    open spec fn spec_params(&self) -> Seq<u32> {
        match self {
            KeyProvOperation::Enroll => seq![0],
            KeyProvOperation::SetUserKey { key_type, key_data } => seq![
                1,
                key_type.spec_code(),
                key_data@.len() as u32,
            ],
            KeyProvOperation::SetKey { key_type, key_size } => seq![
                2,
                key_type.spec_code(),
                *key_size,
            ],
            KeyProvOperation::WriteKeyNonvolatile { memory_id } => seq![3, *memory_id],
            KeyProvOperation::ReadKeyNonvolatile { memory_id } => seq![4, *memory_id],
            KeyProvOperation::WriteKeyStore { keystore_data } => seq![
                5,
                0,
                keystore_data@.len() as u32,
            ],
            KeyProvOperation::ReadKeyStore { .. } => seq![6],
        }
    }

    open spec fn spec_data_phase(&self) -> Option<Seq<u8>> {
        match self {
            KeyProvOperation::SetUserKey { key_data, .. } => Some(key_data@),
            KeyProvOperation::WriteKeyStore { keystore_data } => Some(keystore_data@),
            _ => None,
        }
    }

    fn is_encodable(&self) -> (b: bool) {
        match self {
            KeyProvOperation::SetUserKey { key_data, .. } => key_data.len() <= 0xFFFF_FFFF,
            KeyProvOperation::WriteKeyStore { keystore_data } => keystore_data.len()
                <= 0xFFFF_FFFF,
            _ => true,
        }
    }

    fn to_params(&self) -> (r: (Vec<u32>, Option<&[u8]>)) {
        let r: (Vec<u32>, Option<&[u8]>) = match self {
            KeyProvOperation::Enroll => (vec![0], None),
            KeyProvOperation::SetUserKey { key_type, key_data } => (
                vec![1, key_type.code(), key_data.len() as u32],
                Some(key_data.as_slice()),
            ),
            KeyProvOperation::SetKey { key_type, key_size } => (
                vec![2, key_type.code(), *key_size],
                None,
            ),
            KeyProvOperation::WriteKeyNonvolatile { memory_id } => (vec![3, *memory_id], None),
            KeyProvOperation::ReadKeyNonvolatile { memory_id } => (vec![4, *memory_id], None),
            KeyProvOperation::WriteKeyStore { keystore_data } => (
                vec![5, 0, keystore_data.len() as u32],
                Some(keystore_data.as_slice()),
            ),
            KeyProvOperation::ReadKeyStore { .. } => (vec![6], None),
        };
        assert(r.0@ =~= self.spec_params());
        r
    }
}

/// Kind of a key that key provisioning handles.
#[derive(Clone, Copy, Debug, PartialEq, Eq, Structural)]
pub enum KeyProvUserKeyType {
    /// Key of the on-the-fly AES decryption.
    OtfadKek,
    /// Key that encrypts secure binary files.
    SbKek,
    /// Key of PRINCE region 0.
    PrinceRegion0,
    /// Key of PRINCE region 1.
    PrinceRegion1,
    /// Key of PRINCE region 2.
    PrinceRegion2,
    /// Key of PRINCE region 3.
    PrinceRegion3,
    /// Key that encrypts the boot image.
    UserKek,
    /// Unique device secret.
    Uds,
}

impl KeyProvUserKeyType {
    /// The number of the key kind on the wire.
    pub open spec fn spec_code(self) -> u32 {
        match self {
            KeyProvUserKeyType::OtfadKek => 2,
            KeyProvUserKeyType::SbKek => 3,
            KeyProvUserKeyType::PrinceRegion0 => 7,
            KeyProvUserKeyType::PrinceRegion1 => 8,
            KeyProvUserKeyType::PrinceRegion2 => 9,
            KeyProvUserKeyType::PrinceRegion3 => 10,
            KeyProvUserKeyType::UserKek => 11,
            KeyProvUserKeyType::Uds => 12,
        }
    }

    /// The key kind that a number stands for, if any.
    pub open spec fn from_code(n: u32) -> Option<KeyProvUserKeyType> {
        match n {
            2 => Some(KeyProvUserKeyType::OtfadKek),
            3 => Some(KeyProvUserKeyType::SbKek),
            7 => Some(KeyProvUserKeyType::PrinceRegion0),
            8 => Some(KeyProvUserKeyType::PrinceRegion1),
            9 => Some(KeyProvUserKeyType::PrinceRegion2),
            10 => Some(KeyProvUserKeyType::PrinceRegion3),
            11 => Some(KeyProvUserKeyType::UserKek),
            12 => Some(KeyProvUserKeyType::Uds),
            _ => None,
        }
    }

    /// The key kind of the given name, if any. Names are in upper case.
    pub open spec fn spec_from_name(s: Seq<char>) -> Option<KeyProvUserKeyType> {
        if s == "OTFADKEK"@ {
            Some(KeyProvUserKeyType::OtfadKek)
        } else if s == "SBKEK"@ {
            Some(KeyProvUserKeyType::SbKek)
        } else if s == "PRINCE0"@ {
            Some(KeyProvUserKeyType::PrinceRegion0)
        } else if s == "PRINCE1"@ {
            Some(KeyProvUserKeyType::PrinceRegion1)
        } else if s == "PRINCE2"@ {
            Some(KeyProvUserKeyType::PrinceRegion2)
        } else if s == "PRINCE3"@ {
            Some(KeyProvUserKeyType::PrinceRegion3)
        } else if s == "USERKEK"@ {
            Some(KeyProvUserKeyType::UserKek)
        } else if s == "UDS"@ {
            Some(KeyProvUserKeyType::Uds)
        } else {
            None
        }
    }

    /// Whether every character of the text is a number character. The empty
    /// text counts.
    pub open spec fn all_numeric(s: Seq<char>) -> bool {
        forall|i: int| 0 <= i < s.len() ==> char_is_numeric(#[trigger] s[i])
    }

    /// The key kind that a text names, read as a number where `numeric` is set
    /// and as a name where it is not.
    pub open spec fn spec_parse_with(s: Seq<char>, numeric: bool) -> Result<
        KeyProvUserKeyType,
        Seq<char>,
    > {
        if numeric {
            match spec_parse_number(s, u32::MAX as int) {
                Some(n) => match Self::from_code(n as u32) {
                    Some(k) => Ok(k),
                    None => Err("invalid ID"@),
                },
                None => Err(number_error(s)),
            }
        } else {
            match Self::spec_from_name(s) {
                Some(k) => Ok(k),
                None => Err("invalid name"@),
            }
        }
    }

    /// What [`KeyProvUserKeyType::parse`] answers: a text of number characters
    /// is read as a number and names the key kind by its code, any other text
    /// names it by its name.
    pub open spec fn spec_parse(s: Seq<char>) -> Result<KeyProvUserKeyType, Seq<char>> {
        Self::spec_parse_with(s, Self::all_numeric(s))
    }

    /// The text that describes the key kind.
    pub open spec fn spec_description(self) -> Seq<char> {
        match self {
            KeyProvUserKeyType::OtfadKek => "Key for OTFAD encryption"@,
            KeyProvUserKeyType::SbKek => "Key for SB file encryption"@,
            KeyProvUserKeyType::PrinceRegion0 => "Key for Prince region 0"@,
            KeyProvUserKeyType::PrinceRegion1 => "Key for Prince region 1"@,
            KeyProvUserKeyType::PrinceRegion2 => "Key for Prince region 2"@,
            KeyProvUserKeyType::PrinceRegion3 => "Key for Prince region 3"@,
            KeyProvUserKeyType::UserKek => "Encrypted boot image key"@,
            KeyProvUserKeyType::Uds => "Universal Device Secret for DICE"@,
        }
    }

    /// The text that describes the key kind.
    pub fn description(self) -> (text: &'static str)
        ensures
            text@ == self.spec_description(),
    {
        match self {
            KeyProvUserKeyType::OtfadKek => "Key for OTFAD encryption",
            KeyProvUserKeyType::SbKek => "Key for SB file encryption",
            KeyProvUserKeyType::PrinceRegion0 => "Key for Prince region 0",
            KeyProvUserKeyType::PrinceRegion1 => "Key for Prince region 1",
            KeyProvUserKeyType::PrinceRegion2 => "Key for Prince region 2",
            KeyProvUserKeyType::PrinceRegion3 => "Key for Prince region 3",
            KeyProvUserKeyType::UserKek => "Encrypted boot image key",
            KeyProvUserKeyType::Uds => "Universal Device Secret for DICE",
        }
    }

    /// The number of the key kind on the wire.
    pub fn code(self) -> (n: u32)
        ensures
            n == self.spec_code(),
    {
        match self {
            KeyProvUserKeyType::OtfadKek => 2,
            KeyProvUserKeyType::SbKek => 3,
            KeyProvUserKeyType::PrinceRegion0 => 7,
            KeyProvUserKeyType::PrinceRegion1 => 8,
            KeyProvUserKeyType::PrinceRegion2 => 9,
            KeyProvUserKeyType::PrinceRegion3 => 10,
            KeyProvUserKeyType::UserKek => 11,
            KeyProvUserKeyType::Uds => 12,
        }
    }

    /// Looks a key kind up by its name.
    pub fn from_name(s: &str) -> (r: Option<KeyProvUserKeyType>)
        ensures
            r == Self::spec_from_name(s@),
    {
        if str_equal(s, "OTFADKEK") {
            Some(KeyProvUserKeyType::OtfadKek)
        } else if str_equal(s, "SBKEK") {
            Some(KeyProvUserKeyType::SbKek)
        } else if str_equal(s, "PRINCE0") {
            Some(KeyProvUserKeyType::PrinceRegion0)
        } else if str_equal(s, "PRINCE1") {
            Some(KeyProvUserKeyType::PrinceRegion1)
        } else if str_equal(s, "PRINCE2") {
            Some(KeyProvUserKeyType::PrinceRegion2)
        } else if str_equal(s, "PRINCE3") {
            Some(KeyProvUserKeyType::PrinceRegion3)
        } else if str_equal(s, "USERKEK") {
            Some(KeyProvUserKeyType::UserKek)
        } else if str_equal(s, "UDS") {
            Some(KeyProvUserKeyType::Uds)
        } else {
            None
        }
    }

    /// Tells whether every character of the text is a number character.
    fn is_all_numeric(s: &str) -> (b: bool)
        ensures
            b == Self::all_numeric(s@),
    {
        let n = s.unicode_len();
        let mut i: usize = 0;
        while i < n
            invariant
                n == s@.len(),
                i <= n,
                forall|k: int| 0 <= k < i ==> char_is_numeric(#[trigger] s@[k]),
            decreases n - i,
        {
            if !is_numeric(s.get_char(i)) {
                return false;
            }
            i += 1;
        }
        true
    }

    /// Reads a key kind from a text that is known to be a number, or known to be
    /// none.
    pub fn parse_with(s: &str, numeric: bool) -> (r: Result<KeyProvUserKeyType, String>)
        ensures
            r matches Ok(k) ==> Self::spec_parse_with(s@, numeric) == Ok::<
                KeyProvUserKeyType,
                Seq<char>,
            >(k),
            r matches Err(e) ==> Self::spec_parse_with(s@, numeric) == Err::<
                KeyProvUserKeyType,
                Seq<char>,
            >(e@),
    {
        if numeric {
            match parse_number::<u32>(s) {
                Ok(n) => match KeyProvUserKeyType::try_from(n) {
                    Ok(k) => Ok(k),
                    Err(_) => Err(String::from_str("invalid ID")),
                },
                Err(e) => Err(e),
            }
        } else {
            match Self::from_name(s) {
                Some(k) => Ok(k),
                None => Err(String::from_str("invalid name")),
            }
        }
    }

    /// Reads a key kind from its code or from its name in upper case.
    pub fn parse(s: &str) -> (r: Result<KeyProvUserKeyType, String>)
        ensures
            r matches Ok(k) ==> Self::spec_parse(s@) == Ok::<KeyProvUserKeyType, Seq<char>>(k),
            r matches Err(e) ==> Self::spec_parse(s@) == Err::<KeyProvUserKeyType, Seq<char>>(e@),
    {
        Self::parse_with(s, Self::is_all_numeric(s))
    }
}

impl From<KeyProvUserKeyType> for u32 {
    fn from(value: KeyProvUserKeyType) -> (n: u32) {
        value.code()
    }
}

impl vstd::std_specs::convert::FromSpecImpl<KeyProvUserKeyType> for u32 {
    open spec fn obeys_from_spec() -> bool {
        true
    }

    open spec fn from_spec(v: KeyProvUserKeyType) -> u32 {
        v.spec_code()
    }
}

impl TryFrom<u32> for KeyProvUserKeyType {
    type Error = u32;

    /// Decodes a key kind; an unknown number is handed back as the error.
    fn try_from(value: u32) -> (r: Result<KeyProvUserKeyType, u32>) {
        match value {
            2 => Ok(KeyProvUserKeyType::OtfadKek),
            3 => Ok(KeyProvUserKeyType::SbKek),
            7 => Ok(KeyProvUserKeyType::PrinceRegion0),
            8 => Ok(KeyProvUserKeyType::PrinceRegion1),
            9 => Ok(KeyProvUserKeyType::PrinceRegion2),
            10 => Ok(KeyProvUserKeyType::PrinceRegion3),
            11 => Ok(KeyProvUserKeyType::UserKek),
            12 => Ok(KeyProvUserKeyType::Uds),
            _ => Err(value),
        }
    }
}

impl vstd::std_specs::convert::TryFromSpecImpl<u32> for KeyProvUserKeyType {
    open spec fn obeys_try_from_spec() -> bool {
        true
    }

    open spec fn try_from_spec(v: u32) -> Result<KeyProvUserKeyType, u32> {
        match KeyProvUserKeyType::from_code(v) {
            Some(k) => Ok(k),
            None => Err(v),
        }
    }
}

} // verus!

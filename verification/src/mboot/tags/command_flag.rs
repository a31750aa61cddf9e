//! The flag byte of a command header.
use vstd::prelude::*;

use super::ToAddress;

verus! {

/// Says whether a data phase follows the command or response that carries it.
#[derive(Clone, Copy, Debug, PartialEq, Eq, Structural)]
pub enum CommandFlag {
    /// Nothing follows the packet.
    NoData,
    /// A data phase follows the packet.
    HasDataPhase,
}

impl CommandFlag {
    /// The flag that a wire byte stands for, if any.
    pub open spec fn from_byte(b: u8) -> Option<CommandFlag> {
        if b == 0 {
            Some(CommandFlag::NoData)
        } else if b == 1 {
            Some(CommandFlag::HasDataPhase)
        } else {
            None
        }
    }

    /// Whether this is [`CommandFlag::NoData`].
    pub fn is_no_data(&self) -> (b: bool)
        ensures
            b == (*self == CommandFlag::NoData),
    {
        match self {
            CommandFlag::NoData => true,
            CommandFlag::HasDataPhase => false,
        }
    }

    /// Whether this is [`CommandFlag::HasDataPhase`].
    pub fn is_has_data_phase(&self) -> (b: bool)
        ensures
            b == (*self == CommandFlag::HasDataPhase),
    {
        match self {
            CommandFlag::NoData => false,
            CommandFlag::HasDataPhase => true,
        }
    }
}

impl ToAddress for CommandFlag {
    open spec fn spec_code(&self) -> u8 {
        match self {
            CommandFlag::NoData => 0,
            CommandFlag::HasDataPhase => 1,
        }
    }

    fn code(&self) -> (c: u8) {
        match self {
            CommandFlag::NoData => 0,
            CommandFlag::HasDataPhase => 1,
        }
    }
}

impl TryFrom<u8> for CommandFlag {
    type Error = u8;

    /// Decodes a flag byte; an unknown byte is handed back as the error.
    fn try_from(value: u8) -> (r: Result<CommandFlag, u8>) {
        if value == 0 {
            Ok(CommandFlag::NoData)
        } else if value == 1 {
            Ok(CommandFlag::HasDataPhase)
        } else {
            Err(value)
        }
    }
}

impl vstd::std_specs::convert::TryFromSpecImpl<u8> for CommandFlag {
    open spec fn obeys_try_from_spec() -> bool {
        true
    }

    open spec fn try_from_spec(v: u8) -> Result<CommandFlag, u8> {
        match CommandFlag::from_byte(v) {
            Some(f) => Ok(f),
            None => Err(v),
        }
    }
}

/// Decoding inverts encoding: every flag is recovered from its own code, and a
/// byte decodes to a flag only if it is that flag's code.
pub proof fn lemma_command_flag_code_roundtrip(f: CommandFlag, b: u8)
    ensures
        CommandFlag::from_byte(f.spec_code()) == Some(f),
        CommandFlag::from_byte(b) == Some(f) <==> b == f.spec_code(),
{
}

} // verus!

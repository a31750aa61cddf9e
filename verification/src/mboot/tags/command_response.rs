//! Kinds of responses, and what each carries besides the status.
use vstd::prelude::*;

use super::ToAddress;
use crate::mboot::words::{bytes_to_words, le_bytes_to_words};

verus! {

/// What a response carries besides its status.
#[derive(Clone, Debug)]
pub enum CmdResponseTag {
    /// The generic response: nothing but the status counts.
    Generic,
    /// Response to a memory or fuse read: the bytes of the data phase.
    ReadMemory(Vec<u8>),
    /// Response to a property query: the words of the value.
    GetProperty(Vec<u32>),
    /// Response to a read of one-time-programmable memory: the word read.
    FlashReadOnce(u32),
    /// Response to a key-provisioning operation: its words and, where a data
    /// phase followed, the bytes of it.
    KeyProvisioning(Vec<u32>, Option<Vec<u8>>),
    /// Response to a trust-provisioning operation: its words.
    TrustProvisioning(Vec<u32>),
}

/// The contents of a [`CmdResponseTag`].
pub ghost enum CmdResponseValue {
    /// See [`CmdResponseTag::Generic`].
    Generic,
    /// See [`CmdResponseTag::ReadMemory`].
    ReadMemory(Seq<u8>),
    /// See [`CmdResponseTag::GetProperty`].
    GetProperty(Seq<u32>),
    /// See [`CmdResponseTag::FlashReadOnce`].
    FlashReadOnce(u32),
    /// See [`CmdResponseTag::KeyProvisioning`].
    KeyProvisioning(Seq<u32>, Option<Seq<u8>>),
    /// See [`CmdResponseTag::TrustProvisioning`].
    TrustProvisioning(Seq<u32>),
}

impl View for CmdResponseTag {
    type V = CmdResponseValue;

    open spec fn view(&self) -> CmdResponseValue {
        match self {
            CmdResponseTag::Generic => CmdResponseValue::Generic,
            CmdResponseTag::ReadMemory(bytes) => CmdResponseValue::ReadMemory(bytes@),
            CmdResponseTag::GetProperty(words) => CmdResponseValue::GetProperty(words@),
            CmdResponseTag::FlashReadOnce(value) => CmdResponseValue::FlashReadOnce(*value),
            CmdResponseTag::KeyProvisioning(words, bytes) => CmdResponseValue::KeyProvisioning(
                words@,
                match bytes {
                    Some(b) => Some(b@),
                    None => None,
                },
            ),
            CmdResponseTag::TrustProvisioning(words) => CmdResponseValue::TrustProvisioning(words@),
        }
    }
}

impl CmdResponseTag {
    /// Code of the generic response.
    pub const GENERIC: u8 = 0xA0;

    /// Code of the response to a memory or fuse read.
    pub const READ_MEMORY: u8 = 0xA3;

    /// Code of the response to a property query.
    pub const GET_PROPERTY: u8 = 0xA7;

    /// Code of the response to a read of one-time-programmable memory.
    pub const FLASH_READ_ONCE: u8 = 0xAF;

    /// Code of the response to a key-provisioning operation.
    pub const KEY_PROVISIONING: u8 = 0xB5;

    /// Code of the response to a trust-provisioning operation.
    pub const TRUST_PROVISIONING: u8 = 0xB6;

    /// The response of the given code that carries the given words and data
    /// phase; `None` for an unknown code and for a read of one-time-programmable
    /// memory that carries no word. A read response without a data phase
    /// carries no bytes.
    pub open spec fn spec_from_code(
        code: u8,
        words: Seq<u32>,
        data_phase: Option<Seq<u8>>,
    ) -> Option<CmdResponseValue> {
        if code == Self::GENERIC {
            Some(CmdResponseValue::Generic)
        } else if code == Self::READ_MEMORY {
            Some(
                CmdResponseValue::ReadMemory(
                    match data_phase {
                        Some(bytes) => bytes,
                        None => Seq::empty(),
                    },
                ),
            )
        } else if code == Self::GET_PROPERTY {
            Some(CmdResponseValue::GetProperty(words))
        } else if code == Self::FLASH_READ_ONCE {
            if words.len() >= 1 {
                Some(CmdResponseValue::FlashReadOnce(words[0]))
            } else {
                None
            }
        } else if code == Self::KEY_PROVISIONING {
            Some(CmdResponseValue::KeyProvisioning(words, data_phase))
        } else if code == Self::TRUST_PROVISIONING {
            Some(CmdResponseValue::TrustProvisioning(words))
        } else {
            None
        }
    }

    /// The view of an optional byte string.
    pub open spec fn bytes_view(bytes: Option<&[u8]>) -> Option<Seq<u8>> {
        match bytes {
            Some(b) => Some(b@),
            None => None,
        }
    }

    /// Builds the response of the given code from the parameter bytes behind
    /// the status and from the bytes of the data phase, if there was one.
    pub fn from_code(code: u8, params: &[u8], data_phase: Option<&[u8]>) -> (r: Option<
        CmdResponseTag,
    >)
        ensures
            r matches Some(tag) ==> Self::spec_from_code(
                code,
                le_bytes_to_words(params@),
                Self::bytes_view(data_phase),
            ) == Some(tag@),
            r is None ==> Self::spec_from_code(
                code,
                le_bytes_to_words(params@),
                Self::bytes_view(data_phase),
            ) is None,
    {
        if code == Self::GENERIC {
            Some(CmdResponseTag::Generic)
        } else if code == Self::READ_MEMORY {
            let mut bytes: Vec<u8> = Vec::new();
            match data_phase {
                Some(data) => {
                    bytes.extend_from_slice(data);
                    assert(bytes@ =~= data@);
                },
                None => {},
            }
            Some(CmdResponseTag::ReadMemory(bytes))
        } else if code == Self::GET_PROPERTY {
            Some(CmdResponseTag::GetProperty(bytes_to_words(params)))
        } else if code == Self::FLASH_READ_ONCE {
            let words = bytes_to_words(params);
            if words.len() >= 1 {
                Some(CmdResponseTag::FlashReadOnce(words[0]))
            } else {
                None
            }
        } else if code == Self::KEY_PROVISIONING {
            let bytes = match data_phase {
                Some(data) => {
                    let mut v: Vec<u8> = Vec::new();
                    v.extend_from_slice(data);
                    assert(v@ =~= data@);
                    Some(v)
                },
                None => None,
            };
            Some(CmdResponseTag::KeyProvisioning(bytes_to_words(params), bytes))
        } else if code == Self::TRUST_PROVISIONING {
            Some(CmdResponseTag::TrustProvisioning(bytes_to_words(params)))
        } else {
            None
        }
    }
}

impl ToAddress for CmdResponseTag {
    open spec fn spec_code(&self) -> u8 {
        match self {
            CmdResponseTag::Generic => Self::GENERIC,
            CmdResponseTag::ReadMemory(_) => Self::READ_MEMORY,
            CmdResponseTag::GetProperty(_) => Self::GET_PROPERTY,
            CmdResponseTag::FlashReadOnce(_) => Self::FLASH_READ_ONCE,
            CmdResponseTag::KeyProvisioning(_, _) => Self::KEY_PROVISIONING,
            CmdResponseTag::TrustProvisioning(_) => Self::TRUST_PROVISIONING,
        }
    }

    fn code(&self) -> (c: u8) {
        match self {
            CmdResponseTag::Generic => Self::GENERIC,
            CmdResponseTag::ReadMemory(_) => Self::READ_MEMORY,
            CmdResponseTag::GetProperty(_) => Self::GET_PROPERTY,
            CmdResponseTag::FlashReadOnce(_) => Self::FLASH_READ_ONCE,
            CmdResponseTag::KeyProvisioning(_, _) => Self::KEY_PROVISIONING,
            CmdResponseTag::TrustProvisioning(_) => Self::TRUST_PROVISIONING,
        }
    }
}

} // verus!

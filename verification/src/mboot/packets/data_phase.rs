//! Packets of the data phase: the bulk bytes that follow a command or a
//! response.
use vstd::prelude::*;

use super::{construct_header, Packet, PacketConstruct, PacketParse, DATA};
use crate::mboot::protocols::ResultComm;

verus! {

/// One packet of a data phase.
#[derive(Debug)]
pub struct DataPhasePacket {
    /// Bytes that the packet carries.
    pub data: Vec<u8>,
}

impl View for DataPhasePacket {
    type V = Seq<u8>;

    open spec fn view(&self) -> Seq<u8> {
        self.data@
    }
}

impl Packet for DataPhasePacket {
    open spec fn spec_get_code() -> u8 {
        DATA
    }

    fn get_code() -> (code: u8) {
        DATA
    }
}

impl PacketConstruct for DataPhasePacket {
    open spec fn spec_payload(&self) -> Seq<u8> {
        self.data@
    }

    fn construct(&self) -> (bytes: Vec<u8>) {
        construct_header(DATA, self.data.clone())
    }
}

impl PacketParse for DataPhasePacket {
    /// Every payload is a data packet that carries just these bytes.
    open spec fn parses_to(bytes: Seq<u8>, r: ResultComm<DataPhasePacket>) -> bool {
        r matches Ok(packet) && packet@ == bytes
    }

    fn parse(bytes: &[u8]) -> (r: ResultComm<DataPhasePacket>) {
        let mut data: Vec<u8> = Vec::new();
        data.extend_from_slice(bytes);
        assert(data@ =~= bytes@);
        Ok(DataPhasePacket { data })
    }
}

} // verus!

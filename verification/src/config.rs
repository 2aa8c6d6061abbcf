//! What the caller configures: the controller to talk to and how to address it.

use crate::constant::Area;
use crate::transport::Connection;
use crate::wire::be16_value;
use std::time::Duration;
use vstd::prelude::*;

verus! {

/// The local TSAP of a connection that is addressed by rack and slot.
pub const DEFAULT_LOCAL_TSAP: u16 = 0x0100;

/// How the two ends of the ISO connection are named: by an explicit pair
/// of TSAPs, or by the rack and slot of the controller, from which the
/// remote TSAP is derived.
#[derive(Debug, Copy, Clone, PartialEq, Eq)]
pub enum CollectMode {
    Tsap { conn_type: Connection, local_tsap: u16, remote_tsap: u16 },
    RackSlot { conn_type: Connection, rack: u16, slot: u16 },
}

/// The two bytes of a TSAP, most significant first. Of a number beyond 16
/// bits, the low 16 bits.
pub open spec fn tsap_bytes(tsap: int) -> [u8; 2] {
    [(tsap / 0x100 % 0x100) as u8, (tsap % 0x100) as u8]
}

/// The remote TSAP of a controller in the given rack and slot: the
/// connection type in the high byte, plus 32 times the rack, plus the slot.
pub open spec fn rack_slot_tsap(conn_type: Connection, rack: u16, slot: u16) -> int {
    conn_type.spec_code() * 0x100 + rack * 0x20 + slot
}

impl CollectMode {
    pub open spec fn spec_conn_type(&self) -> Connection {
        match self {
            CollectMode::Tsap { conn_type, .. } => *conn_type,
            CollectMode::RackSlot { conn_type, .. } => *conn_type,
        }
    }

    /// The local TSAP as a number.
    pub open spec fn local(&self) -> int {
        match self {
            CollectMode::Tsap { local_tsap, .. } => *local_tsap as int,
            CollectMode::RackSlot { .. } => DEFAULT_LOCAL_TSAP as int,
        }
    }

    /// The remote TSAP as a number.
    pub open spec fn remote(&self) -> int {
        match self {
            CollectMode::Tsap { remote_tsap, .. } => *remote_tsap as int,
            CollectMode::RackSlot { conn_type, rack, slot } => rack_slot_tsap(
                *conn_type,
                *rack,
                *slot,
            ),
        }
    }

    /// A connection between two explicit TSAPs.
    pub fn init_tsap(conn_type: Connection, local_tsap: u16, remote_tsap: u16) -> (mode: Self)
        ensures
            mode == (CollectMode::Tsap { conn_type, local_tsap, remote_tsap }),
    {
        CollectMode::Tsap { conn_type, local_tsap, remote_tsap }
    }

    /// A connection to the controller in the given rack and slot.
    pub fn init_rack_slot(conn_type: Connection, rack: u16, slot: u16) -> (mode: Self)
        ensures
            mode == (CollectMode::RackSlot { conn_type, rack, slot }),
    {
        CollectMode::RackSlot { conn_type, rack, slot }
    }

    /// The connection type asked for.
    pub fn conn_type(&self) -> (conn_type: &Connection)
        ensures
            *conn_type == self.spec_conn_type(),
    {
        match self {
            CollectMode::Tsap { conn_type, .. } => conn_type,
            CollectMode::RackSlot { conn_type, .. } => conn_type,
        }
    }

    /// The two bytes of the local TSAP: the configured one, or 0x0100
    /// where the controller is addressed by rack and slot.
    pub fn local_tsap(&self) -> (bytes: [u8; 2])
        ensures
            bytes == tsap_bytes(self.local()),
    {
        let bytes = match self {
            CollectMode::Tsap { local_tsap, .. } => [
                (*local_tsap / 0x100) as u8,
                (*local_tsap % 0x100) as u8,
            ],
            CollectMode::RackSlot { .. } => [0x01, 0x00],
        };
        assert(bytes =~= tsap_bytes(self.local()));
        bytes
    }

    /// The two bytes of the remote TSAP: the configured one, or the one
    /// derived from connection type, rack and slot. A rack and slot whose
    /// sum does not fit 16 bits give the low 16 bits of it.
    pub fn remote_tsap(&self) -> (bytes: [u8; 2])
        ensures
            bytes == tsap_bytes(self.remote()),
    {
        let remote_tsap: u32 = match self {
            CollectMode::Tsap { remote_tsap, .. } => *remote_tsap as u32,
            CollectMode::RackSlot { rack, slot, conn_type } => conn_type.code() as u32 * 0x100
                + *rack as u32 * 0x20 + *slot as u32,
        };
        let bytes = [(remote_tsap / 0x100 % 0x100) as u8, (remote_tsap % 0x100) as u8];
        assert(bytes =~= tsap_bytes(self.remote()));
        bytes
    }
}

/// The bytes of a TSAP that fits 16 bits stand for that TSAP.
pub proof fn lemma_tsap_round_trip(tsap: int)
    requires
        0 <= tsap <= 0xFFFF,
    ensures
        be16_value(tsap_bytes(tsap)[0], tsap_bytes(tsap)[1]) == tsap,
{
}

/// What the caller asks for: the controller's IPv4 address as its four
/// octets, the port, how to address the controller, the timeout of every
/// read and write on the socket, and the areas of interest.
#[derive(Debug)]
pub struct CollectParam {
    pub address: [u8; 4],
    pub port: u16,
    pub collect_mode: CollectMode,
    pub timeout: Duration,
    pub areas: Vec<Area>,
}

impl Clone for CollectParam {
    fn clone(&self) -> (copy: Self)
        ensures
            copy.address == self.address,
            copy.port == self.port,
            copy.collect_mode == self.collect_mode,
            copy.timeout == self.timeout,
            copy.areas@ == self.areas@,
    {
        let mut areas: Vec<Area> = Vec::new();
        let mut i: usize = 0;
        while i < self.areas.len()
            invariant
                i <= self.areas@.len(),
                areas@ == self.areas@.subrange(0, i as int),
            decreases self.areas@.len() - i,
        {
            areas.push(self.areas[i]);
            assert(areas@ =~= self.areas@.subrange(0, i + 1));
            i += 1;
        }
        assert(areas@ =~= self.areas@);
        CollectParam {
            address: self.address,
            port: self.port,
            collect_mode: self.collect_mode,
            timeout: self.timeout,
            areas,
        }
    }
}

} // verus!

//! CAN identifiers and the ECU address table.
//!
//! A diagnostic request is sent to an ECU's request identifier, and the
//! ECU answers from a response identifier that sits a fixed offset of 8
//! above the request identifier.  The same offset is walked back down to
//! address flow-control frames at the sender of a multi-frame response.

use vstd::prelude::*;

verus! {

/// Largest raw value of a standard 11-bit identifier.
pub const STANDARD_ID_MAX: u16 = 0x7FF;

/// Largest raw value of an extended 29-bit identifier.
pub const EXTENDED_ID_MAX: u32 = 0x1FFF_FFFF;

/// Offset between a request identifier and the matching response identifier.
pub const RESPONSE_ID_OFFSET: u16 = 8;

/// A CAN identifier: standard 11-bit or extended 29-bit, held as its raw value.
#[derive(Clone, Copy, Debug, PartialEq, Eq, Structural)]
pub enum CanId {
    Standard(u16),
    Extended(u32),
}

impl CanId {
    /// The raw identifier value, whichever the kind.
    pub open spec fn raw(self) -> int {
        match self {
            CanId::Standard(raw) => raw as int,
            CanId::Extended(raw) => raw as int,
        }
    }

    /// The raw value stays inside the bit width of its kind.
    pub open spec fn valid(self) -> bool {
        match self {
            CanId::Standard(raw) => raw <= STANDARD_ID_MAX,
            CanId::Extended(raw) => raw <= EXTENDED_ID_MAX,
        }
    }

    pub open spec fn is_standard(self) -> bool {
        self matches CanId::Standard(_)
    }

    /// Largest raw value admitted for this identifier's kind.
    pub open spec fn kind_max(self) -> int {
        match self {
            CanId::Standard(_) => STANDARD_ID_MAX as int,
            CanId::Extended(_) => EXTENDED_ID_MAX as int,
        }
    }
}

/// Model of `address_offset`: the identifier moved by `delta`, if the
/// result still fits the identifier's kind.
pub open spec fn spec_address_offset(id: CanId, delta: int) -> Option<CanId> {
    if 0 <= id.raw() + delta <= id.kind_max() {
        match id {
            CanId::Standard(raw) => Some(CanId::Standard((raw + delta) as u16)),
            CanId::Extended(raw) => Some(CanId::Extended((raw + delta) as u32)),
        }
    } else {
        None
    }
}

/// Model of `rx_address`: response identifier of a request identifier.
pub open spec fn spec_rx_address(id: CanId) -> Option<CanId> {
    spec_address_offset(id, RESPONSE_ID_OFFSET as int)
}

/// Model of `tx_address`: request identifier of a response identifier.
pub open spec fn spec_tx_address(id: CanId) -> Option<CanId> {
    spec_address_offset(id, -(RESPONSE_ID_OFFSET as int))
}

/// Deriving a response identifier and walking back to the request
/// identifier are mutual inverses, for every identifier whose moved
/// value stays in range.
pub proof fn lemma_rx_tx_inverse(id: CanId)
    requires
        id.valid(),
    ensures
        spec_rx_address(id) matches Some(rx) ==> spec_tx_address(rx) == Some(id),
        spec_tx_address(id) matches Some(tx) ==> spec_rx_address(tx) == Some(id),
{
}

/// Request or response identifiers of the three polled ECUs.
pub struct ECUAddresses {
    /// Battery management system.
    pub bms: CanId,
    /// Tire pressure monitoring system.
    pub tpms: CanId,
    /// Climate control.
    pub hvac: CanId,
}

impl ECUAddresses {
    /// Every identifier of the table is valid for its kind.
    pub open spec fn valid(self) -> bool {
        self.bms.valid() && self.tpms.valid() && self.hvac.valid()
    }

    /// Moves an identifier by `delta`, keeping its kind.  Returns `None` when
    /// the moved value would leave the kind's raw range.
    pub fn address_offset(id: CanId, delta: i32) -> (r: Option<CanId>)
        ensures
            r == spec_address_offset(id, delta as int),
    {
        match id {
            CanId::Standard(raw) => {
                let moved: i64 = raw as i64 + delta as i64;
                if 0 <= moved && moved <= STANDARD_ID_MAX as i64 {
                    Some(CanId::Standard(moved as u16))
                } else {
                    None
                }
            },
            CanId::Extended(raw) => {
                let moved: i64 = raw as i64 + delta as i64;
                if 0 <= moved && moved <= EXTENDED_ID_MAX as i64 {
                    Some(CanId::Extended(moved as u32))
                } else {
                    None
                }
            },
        }
    }

    /// Response identifier that answers a request identifier: the raw value
    /// moved up by the fixed offset of 8.
    pub fn rx_address(id: CanId) -> (r: Option<CanId>)
        ensures
            r == spec_rx_address(id),
    {
        Self::address_offset(id, RESPONSE_ID_OFFSET as i32)
    }

    /// Request identifier behind a response identifier: the raw value moved
    /// down by the fixed offset of 8.  Flow-control frames of a reassembly
    /// are addressed here.
    pub fn tx_address(id: CanId) -> (r: Option<CanId>)
        ensures
            r == spec_tx_address(id),
    {
        Self::address_offset(id, -(RESPONSE_ID_OFFSET as i32))
    }

    /// The compiled-in address table: the request identifiers of the
    /// three ECUs, and the response identifiers derived from them.
    pub fn new() -> (r: (ECUAddresses, ECUAddresses))
        ensures
            r.0.bms == CanId::Standard(0x7E4u16),
            r.0.tpms == CanId::Standard(0x7A0u16),
            r.0.hvac == CanId::Standard(0x7B3u16),
            r.1.bms == spec_rx_address(r.0.bms)->Some_0,
            r.1.tpms == spec_rx_address(r.0.tpms)->Some_0,
            r.1.hvac == spec_rx_address(r.0.hvac)->Some_0,
            r.0.valid() && r.1.valid(),
    {
        let tx = ECUAddresses {
            bms: CanId::Standard(0x7E4),
            tpms: CanId::Standard(0x7A0),
            hvac: CanId::Standard(0x7B3),
        };
        let rx = ECUAddresses {
            bms: Self::rx_address(tx.bms).unwrap(),
            tpms: Self::rx_address(tx.tpms).unwrap(),
            hvac: Self::rx_address(tx.hvac).unwrap(),
        };
        (tx, rx)
    }
}

} // verus!

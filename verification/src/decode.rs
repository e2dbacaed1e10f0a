//! Telemetry records, their decoders, and the downstream encoding.
//!
//! A decoder is a pure function over a fixed-layout byte slice: the
//! offsets below are the protocol constants of the polled vehicle's
//! parameter layout.  A slice shorter than a decoder's layout is a
//! decode error, never an out-of-bounds fault.  Records carry raw
//! integer fields; the unit and scale of each is documented on the
//! field.  The encoding of a record is the deterministic payload of the
//! one downstream frame that carries it, tagged by its destination
//! identifier.

use vstd::prelude::*;

use crate::buffer::BUFFER_CAPACITY;
use crate::pipeline::ForwardItem;

verus! {

/// Downstream identifier carrying bus-error reports.
pub const DEST_ERROR: u16 = 0x700;

/// Downstream identifier carrying battery records.
pub const DEST_BATTERY: u16 = 0x701;

/// Downstream identifier carrying tire-pressure records.
pub const DEST_TIRES: u16 = 0x702;

/// Downstream identifier carrying cabin records.
pub const DEST_CABIN: u16 = 0x703;

/// Downstream identifier carrying environmental-sensor records.
pub const DEST_ENVIRONMENT: u16 = 0x720;

/// A payload shorter than the decoder's fixed layout.
#[derive(Clone, Copy, Debug, PartialEq, Eq, Structural)]
pub enum DecodeError {
    TooShort,
}

/// Battery management status.
#[derive(Clone, Copy, Debug, PartialEq, Eq, Structural)]
pub struct BatteryStatus {
    /// State of charge, in steps of half a percent.
    pub soc_half_percent: u8,
    /// Pack current, big-endian raw value in steps of a tenth of an
    /// ampere.
    pub current_deciamps: u16,
    /// Pack voltage, big-endian raw value in steps of a tenth of a volt.
    pub voltage_decivolts: u16,
}

/// Offset of the state-of-charge byte in a battery response.
pub const BATTERY_SOC_OFFSET: usize = 4;

/// Offset of the two current bytes in a battery response.
pub const BATTERY_CURRENT_OFFSET: usize = 9;

/// Offset of the two voltage bytes in a battery response.
pub const BATTERY_VOLTAGE_OFFSET: usize = 11;

/// Shortest battery response the layout reaches into.
pub const BATTERY_MIN_LEN: usize = 13;

/// Tire pressures and temperatures of the four wheels.
#[derive(Clone, Copy, Debug, PartialEq, Eq)]
pub struct TirePressures {
    /// Pressure per wheel, in steps of a quarter psi: front left, front
    /// right, rear left, rear right.
    pub pressure: [u8; 4],
    /// Temperature per wheel, in whole degrees Celsius offset by -50,
    /// same order.
    pub temperature: [u8; 4],
}

/// Offset of the first wheel's pressure byte; each next wheel sits five
/// bytes further, with its temperature right behind the pressure.
pub const TIRE_FIRST_OFFSET: usize = 4;

/// Distance between one wheel's bytes and the next wheel's.
pub const TIRE_STRIDE: usize = 5;

/// Shortest tire response the layout reaches into.
pub const TIRE_MIN_LEN: usize = 21;

/// Cabin climate readings.
#[derive(Clone, Copy, Debug, PartialEq, Eq, Structural)]
pub struct CabinEnvironment {
    /// Cabin temperature, in steps of half a degree Celsius offset by
    /// -40.
    pub cabin_temp_raw: u8,
    /// Ambient temperature, same scale and offset.
    pub ambient_temp_raw: u8,
}

/// Offset of the cabin temperature byte.
pub const CABIN_TEMP_OFFSET: usize = 2;

/// Offset of the ambient temperature byte.
pub const CABIN_AMBIENT_OFFSET: usize = 3;

/// Shortest cabin response the layout reaches into.
pub const CABIN_MIN_LEN: usize = 4;

/// One decoded telemetry record on its way downstream.
pub enum TelemetryRecord {
    Battery(BatteryStatus),
    Tires(TirePressures),
    Cabin(CabinEnvironment),
    /// A controller-reported bus error, as opaque diagnostic bytes.
    BusError { description: Vec<u8> },
}

/// Model of `decode_battery` on a long-enough payload.
pub open spec fn spec_decode_battery(d: Seq<u8>) -> BatteryStatus {
    BatteryStatus {
        soc_half_percent: d[BATTERY_SOC_OFFSET as int],
        current_deciamps: (d[BATTERY_CURRENT_OFFSET as int] * 256 + d[
            BATTERY_CURRENT_OFFSET as int + 1
        ]) as u16,
        voltage_decivolts: (d[BATTERY_VOLTAGE_OFFSET as int] * 256 + d[
            BATTERY_VOLTAGE_OFFSET as int + 1
        ]) as u16,
    }
}

/// Decodes a battery response body into a battery record; a body
/// shorter than the fixed layout is a decode error.
pub fn decode_battery(d: &[u8]) -> (r: Result<BatteryStatus, DecodeError>)
    ensures
        d@.len() >= BATTERY_MIN_LEN ==> r == Result::<BatteryStatus, DecodeError>::Ok(
            spec_decode_battery(d@),
        ),
        d@.len() < BATTERY_MIN_LEN ==> r == Result::<BatteryStatus, DecodeError>::Err(
            DecodeError::TooShort,
        ),
{
    if d.len() >= BATTERY_MIN_LEN {
        Ok(
            BatteryStatus {
                soc_half_percent: d[BATTERY_SOC_OFFSET],
                current_deciamps: (d[BATTERY_CURRENT_OFFSET] as u16) * 256 + (d[
                    BATTERY_CURRENT_OFFSET + 1
                ] as u16),
                voltage_decivolts: (d[BATTERY_VOLTAGE_OFFSET] as u16) * 256 + (d[
                    BATTERY_VOLTAGE_OFFSET + 1
                ] as u16),
            },
        )
    } else {
        Err(DecodeError::TooShort)
    }
}

/// Model of `decode_tires` on a long-enough payload.
pub open spec fn spec_decode_tires(d: Seq<u8>) -> TirePressures {
    TirePressures {
        pressure: [
            d[TIRE_FIRST_OFFSET as int],
            d[TIRE_FIRST_OFFSET as int + TIRE_STRIDE as int],
            d[TIRE_FIRST_OFFSET as int + 2 * TIRE_STRIDE as int],
            d[TIRE_FIRST_OFFSET as int + 3 * TIRE_STRIDE as int],
        ],
        temperature: [
            d[TIRE_FIRST_OFFSET as int + 1],
            d[TIRE_FIRST_OFFSET as int + TIRE_STRIDE as int + 1],
            d[TIRE_FIRST_OFFSET as int + 2 * TIRE_STRIDE as int + 1],
            d[TIRE_FIRST_OFFSET as int + 3 * TIRE_STRIDE as int + 1],
        ],
    }
}

/// Decodes a tire response body into a tire record; a body shorter than
/// the fixed layout is a decode error.
pub fn decode_tires(d: &[u8]) -> (r: Result<TirePressures, DecodeError>)
    ensures
        d@.len() >= TIRE_MIN_LEN ==> r == Result::<TirePressures, DecodeError>::Ok(
            spec_decode_tires(d@),
        ),
        d@.len() < TIRE_MIN_LEN ==> r == Result::<TirePressures, DecodeError>::Err(
            DecodeError::TooShort,
        ),
{
    if d.len() >= TIRE_MIN_LEN {
        Ok(
            TirePressures {
                pressure: [
                    d[TIRE_FIRST_OFFSET],
                    d[TIRE_FIRST_OFFSET + TIRE_STRIDE],
                    d[TIRE_FIRST_OFFSET + 2 * TIRE_STRIDE],
                    d[TIRE_FIRST_OFFSET + 3 * TIRE_STRIDE],
                ],
                temperature: [
                    d[TIRE_FIRST_OFFSET + 1],
                    d[TIRE_FIRST_OFFSET + TIRE_STRIDE + 1],
                    d[TIRE_FIRST_OFFSET + 2 * TIRE_STRIDE + 1],
                    d[TIRE_FIRST_OFFSET + 3 * TIRE_STRIDE + 1],
                ],
            },
        )
    } else {
        Err(DecodeError::TooShort)
    }
}

/// Model of `decode_cabin` on a long-enough payload.
pub open spec fn spec_decode_cabin(d: Seq<u8>) -> CabinEnvironment {
    CabinEnvironment {
        cabin_temp_raw: d[CABIN_TEMP_OFFSET as int],
        ambient_temp_raw: d[CABIN_AMBIENT_OFFSET as int],
    }
}

/// Decodes a cabin response body into a cabin record; a body shorter
/// than the fixed layout is a decode error.
pub fn decode_cabin(d: &[u8]) -> (r: Result<CabinEnvironment, DecodeError>)
    ensures
        d@.len() >= CABIN_MIN_LEN ==> r == Result::<CabinEnvironment, DecodeError>::Ok(
            spec_decode_cabin(d@),
        ),
        d@.len() < CABIN_MIN_LEN ==> r == Result::<CabinEnvironment, DecodeError>::Err(
            DecodeError::TooShort,
        ),
{
    if d.len() >= CABIN_MIN_LEN {
        Ok(
            CabinEnvironment {
                cabin_temp_raw: d[CABIN_TEMP_OFFSET],
                ambient_temp_raw: d[CABIN_AMBIENT_OFFSET],
            },
        )
    } else {
        Err(DecodeError::TooShort)
    }
}

/// Destination identifier a record goes out on: the tag of the
/// downstream encoding.
pub open spec fn spec_record_dest(rec: TelemetryRecord) -> u16 {
    match rec {
        TelemetryRecord::Battery(_) => DEST_BATTERY,
        TelemetryRecord::Tires(_) => DEST_TIRES,
        TelemetryRecord::Cabin(_) => DEST_CABIN,
        TelemetryRecord::BusError { .. } => DEST_ERROR,
    }
}

/// Deterministic payload of a record's downstream frame: multi-byte
/// fields big-endian, a bus-error description as its own bytes cut to
/// one frame.
pub open spec fn spec_record_bytes(rec: TelemetryRecord) -> Seq<u8> {
    match rec {
        TelemetryRecord::Battery(b) => seq![
            b.soc_half_percent,
            (b.current_deciamps / 256) as u8,
            (b.current_deciamps % 256) as u8,
            (b.voltage_decivolts / 256) as u8,
            (b.voltage_decivolts % 256) as u8,
        ],
        TelemetryRecord::Tires(t) => t.pressure@ + t.temperature@,
        TelemetryRecord::Cabin(c) => seq![c.cabin_temp_raw, c.ambient_temp_raw],
        TelemetryRecord::BusError { description } => if description@.len() <= BUFFER_CAPACITY {
            description@
        } else {
            description@.take(BUFFER_CAPACITY as int)
        },
    }
}

/// Serializes a record into the one forwarded item that carries it.
pub fn encode_record(rec: &TelemetryRecord) -> (item: ForwardItem)
    ensures
        item.dest == spec_record_dest(*rec),
        item.payload@ == spec_record_bytes(*rec),
        item.valid(),
{
    match rec {
        TelemetryRecord::Battery(b) => {
            let mut payload: Vec<u8> = Vec::new();
            payload.push(b.soc_half_percent);
            payload.push((b.current_deciamps / 256) as u8);
            payload.push((b.current_deciamps % 256) as u8);
            payload.push((b.voltage_decivolts / 256) as u8);
            payload.push((b.voltage_decivolts % 256) as u8);
            proof {
                assert(payload@ =~= spec_record_bytes(*rec));
            }
            ForwardItem { dest: DEST_BATTERY, payload }
        },
        TelemetryRecord::Tires(t) => {
            let mut payload: Vec<u8> = Vec::new();
            payload.extend_from_slice(&t.pressure[0..4]);
            payload.extend_from_slice(&t.temperature[0..4]);
            proof {
                assert(t.pressure@.subrange(0, 4) =~= t.pressure@);
                assert(t.temperature@.subrange(0, 4) =~= t.temperature@);
                assert(payload@ =~= spec_record_bytes(*rec));
            }
            ForwardItem { dest: DEST_TIRES, payload }
        },
        TelemetryRecord::Cabin(c) => {
            let mut payload: Vec<u8> = Vec::new();
            payload.push(c.cabin_temp_raw);
            payload.push(c.ambient_temp_raw);
            proof {
                assert(payload@ =~= spec_record_bytes(*rec));
            }
            ForwardItem { dest: DEST_CABIN, payload }
        },
        TelemetryRecord::BusError { description } => {
            let cut = if description.len() <= BUFFER_CAPACITY {
                description.len()
            } else {
                BUFFER_CAPACITY
            };
            let payload = vstd::slice::slice_to_vec(&description[0..cut]);
            proof {
                assert(payload@ =~= spec_record_bytes(*rec));
            }
            ForwardItem { dest: DEST_ERROR, payload }
        },
    }
}

/// The forwarded item of one environmental-sensor sample: the three
/// four-byte sensor fields, pressure then temperature then humidity,
/// sent on the environment identifier.
pub fn environment_item(pressure: [u8; 4], temperature: [u8; 4], humidity: [u8; 4]) -> (item:
    ForwardItem)
    ensures
        item.dest == DEST_ENVIRONMENT,
        item.payload@ == pressure@ + temperature@ + humidity@,
        item.valid(),
{
    let mut payload: Vec<u8> = Vec::new();
    payload.extend_from_slice(&pressure[0..4]);
    payload.extend_from_slice(&temperature[0..4]);
    payload.extend_from_slice(&humidity[0..4]);
    proof {
        assert(pressure@.subrange(0, 4) =~= pressure@);
        assert(temperature@.subrange(0, 4) =~= temperature@);
        assert(humidity@.subrange(0, 4) =~= humidity@);
        assert(payload@ =~= pressure@ + temperature@ + humidity@);
    }
    ForwardItem { dest: DEST_ENVIRONMENT, payload }
}

} // verus!

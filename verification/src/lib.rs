//! Verified core of a CAN diagnostic bridge.
//!
//! The library holds the protocol logic of a bridge that polls vehicle
//! ECUs with UDS read-data-by-identifier queries, reassembles the ISO-TP
//! responses, decodes them into telemetry records, and hands the records
//! to a bounded forwarding queue for a downstream transmitter.  All bus
//! and sensor I/O stays outside, in the unverified shell around the
//! library; the library works on plain bytes and identifiers.

pub mod buffer;
pub mod decode;
pub mod dispatch;
pub mod ids;
pub mod isotp;
pub mod pipeline;
pub mod sched;
pub mod uds;

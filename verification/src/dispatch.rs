//! The receive dispatcher: frames in, forwarded records out.
//!
//! Each received frame feeds the reassembly engine.  A completed payload
//! is matched against the ECU address table's response identifiers
//! first: a payload from an unrecognized identifier is dropped,
//! deliberately and without failing, whatever it holds.  A matched
//! payload is stripped of its response header, decoded by the matching
//! decoder, and serialized into a forwarded item.  A
//! controller-reported bus error aborts the session in progress and
//! becomes exactly one error record.

use vstd::prelude::*;

use crate::buffer::BUFFER_CAPACITY;
use crate::decode::BATTERY_MIN_LEN;
use crate::decode::CABIN_MIN_LEN;
use crate::decode::DEST_ERROR;
use crate::decode::TIRE_MIN_LEN;
use crate::decode::TelemetryRecord;
use crate::decode::decode_battery;
use crate::decode::decode_cabin;
use crate::decode::decode_tires;
use crate::decode::encode_record;
use crate::decode::spec_decode_battery;
use crate::decode::spec_decode_cabin;
use crate::decode::spec_decode_tires;
use crate::decode::spec_record_bytes;
use crate::decode::spec_record_dest;
use crate::ids::CanId;
use crate::ids::ECUAddresses;
use crate::isotp::FrameOutcome;
use crate::isotp::Reassembly;
use crate::isotp::SessionModel;
use crate::isotp::StepModel;
use crate::isotp::aborted;
use crate::isotp::fresh_model;
use crate::isotp::spec_step;
use crate::pipeline::ForwardItem;
use crate::uds::split_response;

verus! {

/// Code byte of the error record sent when a completed payload cannot
/// be decoded.
pub const ERROR_DECODE_FAILURE: u8 = 0x01;

/// Which ECU a response identifier belongs to.
#[derive(Clone, Copy, Debug, PartialEq, Eq, Structural)]
pub enum EcuKind {
    Battery,
    Tires,
    Cabin,
}

/// Model of `route`: the ECU whose response identifier is `src`, or
/// `None` for unrecognized traffic.
pub open spec fn spec_route(rx: ECUAddresses, src: CanId) -> Option<EcuKind> {
    if src == rx.bms {
        Some(EcuKind::Battery)
    } else if src == rx.tpms {
        Some(EcuKind::Tires)
    } else if src == rx.hvac {
        Some(EcuKind::Cabin)
    } else {
        None
    }
}

/// Matches a source identifier against the response identifiers of the
/// address table.
pub fn route(rx: &ECUAddresses, src: CanId) -> (r: Option<EcuKind>)
    ensures
        r == spec_route(*rx, src),
{
    if src == rx.bms {
        Some(EcuKind::Battery)
    } else if src == rx.tpms {
        Some(EcuKind::Tires)
    } else if src == rx.hvac {
        Some(EcuKind::Cabin)
    } else {
        None
    }
}

/// The record decoded from a stripped response body, or `None` when the
/// body is shorter than the matched ECU's layout.
pub open spec fn spec_decode_routed(kind: EcuKind, body: Seq<u8>) -> Option<TelemetryRecord> {
    match kind {
        EcuKind::Battery => if body.len() >= BATTERY_MIN_LEN {
            Some(TelemetryRecord::Battery(spec_decode_battery(body)))
        } else {
            None
        },
        EcuKind::Tires => if body.len() >= TIRE_MIN_LEN {
            Some(TelemetryRecord::Tires(spec_decode_tires(body)))
        } else {
            None
        },
        EcuKind::Cabin => if body.len() >= CABIN_MIN_LEN {
            Some(TelemetryRecord::Cabin(spec_decode_cabin(body)))
        } else {
            None
        },
    }
}

/// Payload of the error record reporting a decode failure.
pub open spec fn spec_decode_failure_bytes() -> Seq<u8> {
    seq![ERROR_DECODE_FAILURE]
}

/// What the dispatcher does with one received frame.
pub enum DispatchStep {
    /// Nothing to send or forward: the frame was absorbed, ignored, or
    /// deliberately dropped.
    Idle,
    /// Send this flow-control frame to `dest` on the vehicle bus.
    Transmit { dest: CanId, frame: [u8; 8] },
    /// Enqueue this item on the forwarding pipeline.
    Forward { item: ForwardItem },
}

/// What `on_frame` owes for a completed payload: a payload from an
/// unrecognized source is dropped, whatever it holds; a matched source's
/// payload that is too short to strip, or whose stripped body is shorter
/// than the matched layout, becomes a decode-failure error record; the
/// rest decode into their records.
pub open spec fn spec_completion_step(
    rx: ECUAddresses,
    src: CanId,
    payload: Seq<u8>,
    step: DispatchStep,
) -> bool {
    match spec_route(rx, src) {
        None => step is Idle,
        Some(kind) => if payload.len() < 3 {
            step matches DispatchStep::Forward { item } && item.dest == DEST_ERROR
                && item.payload@ == spec_decode_failure_bytes() && item.valid()
        } else {
            match spec_decode_routed(kind, payload.skip(3)) {
                Some(rec) => step matches DispatchStep::Forward { item } && item.dest
                    == spec_record_dest(rec) && item.payload@ == spec_record_bytes(rec)
                    && item.valid(),
                None => step matches DispatchStep::Forward { item } && item.dest == DEST_ERROR
                    && item.payload@ == spec_decode_failure_bytes() && item.valid(),
            }
        },
    }
}

/// What `on_frame` owes for each engine outcome.
pub open spec fn spec_frame_step(
    rx: ECUAddresses,
    s: SessionModel,
    fifo: u8,
    src: CanId,
    data: Seq<u8>,
    step: DispatchStep,
) -> bool {
    match spec_step(s, fifo, src, data).1 {
        StepModel::Complete { payload } => spec_completion_step(rx, src, payload, step),
        StepModel::FlowControl { dest, frame } => step matches DispatchStep::Transmit {
            dest: d,
            frame: f,
        } && d == dest && f@ == frame,
        StepModel::Accepted => step is Idle,
        StepModel::Ignored => step is Idle,
        StepModel::Rejected { .. } => step is Idle,
    }
}

/// The error record item for a payload that could not be decoded.
fn decode_failure_item() -> (item: ForwardItem)
    ensures
        item.dest == DEST_ERROR,
        item.payload@ == spec_decode_failure_bytes(),
        item.valid(),
{
    let mut payload: Vec<u8> = Vec::new();
    payload.push(ERROR_DECODE_FAILURE);
    proof {
        assert(payload@ =~= spec_decode_failure_bytes());
    }
    ForwardItem { dest: DEST_ERROR, payload }
}

/// The receive dispatcher: the reassembly engine plus the response
/// identifiers it routes by.
pub struct Dispatcher {
    engine: Reassembly,
    rx: ECUAddresses,
}

impl Dispatcher {
    /// Ghost state of the embedded reassembly engine.
    pub closed spec fn engine_model(&self) -> SessionModel {
        self.engine.model()
    }

    /// The response identifiers the dispatcher routes by.
    pub closed spec fn addresses(&self) -> ECUAddresses {
        self.rx
    }

    pub closed spec fn wf(&self) -> bool {
        self.engine.wf()
    }

    /// A dispatcher with a fresh engine, routing by the given response
    /// identifiers.
    pub fn new(rx: ECUAddresses) -> (r: Dispatcher)
        ensures
            r.wf(),
            r.engine_model() == fresh_model(),
            r.addresses() == rx,
    {
        Dispatcher { engine: Reassembly::new(), rx }
    }

    /// The FIFO pinned by an in-progress transfer, handed to the
    /// receive call so the transfer's frames keep arriving in order.
    pub fn pinned_fifo(&self) -> (r: Option<u8>)
        ensures
            r == self.engine_model().fifo,
    {
        self.engine.pinned_fifo()
    }

    /// The engine's count of consecutive frames with unexpected
    /// sequence numbers.
    pub fn out_of_order_count(&self) -> (r: u32)
        ensures
            r as int == self.engine_model().out_of_order,
    {
        self.engine.out_of_order_count()
    }

    /// Feeds one received frame through the engine and routes whatever
    /// comes out: a flow-control frame to transmit, an item to forward,
    /// or nothing.
    pub fn on_frame(&mut self, fifo: u8, src: CanId, data: &[u8]) -> (step: DispatchStep)
        ensures
            final(self).addresses() == old(self).addresses(),
            old(self).wf() ==> final(self).wf(),
            old(self).wf() ==> final(self).engine_model() == spec_step(
                old(self).engine_model(),
                fifo,
                src,
                data@,
            ).0,
            old(self).wf() ==> spec_frame_step(
                old(self).addresses(),
                old(self).engine_model(),
                fifo,
                src,
                data@,
                step,
            ),
    {
        let out = self.engine.handle_frame(fifo, src, data);
        match out {
            FrameOutcome::Complete { payload } => {
                match route(&self.rx, src) {
                    None => DispatchStep::Idle,
                    Some(kind) => match split_response(payload.as_slice()) {
                        None => DispatchStep::Forward { item: decode_failure_item() },
                        Some((_pid, body)) => match kind {
                            EcuKind::Battery => match decode_battery(body) {
                                Ok(rec) => DispatchStep::Forward {
                                    item: encode_record(&TelemetryRecord::Battery(rec)),
                                },
                                Err(_) => DispatchStep::Forward { item: decode_failure_item() },
                            },
                            EcuKind::Tires => match decode_tires(body) {
                                Ok(rec) => DispatchStep::Forward {
                                    item: encode_record(&TelemetryRecord::Tires(rec)),
                                },
                                Err(_) => DispatchStep::Forward { item: decode_failure_item() },
                            },
                            EcuKind::Cabin => match decode_cabin(body) {
                                Ok(rec) => DispatchStep::Forward {
                                    item: encode_record(&TelemetryRecord::Cabin(rec)),
                                },
                                Err(_) => DispatchStep::Forward { item: decode_failure_item() },
                            },
                        },
                    },
                }
            },
            FrameOutcome::FlowControl { dest, frame } => DispatchStep::Transmit { dest, frame },
            FrameOutcome::Accepted => DispatchStep::Idle,
            FrameOutcome::Ignored => DispatchStep::Idle,
            FrameOutcome::Rejected { .. } => DispatchStep::Idle,
        }
    }

    /// Absorbs a controller-reported bus error: the in-progress session
    /// is discarded, so the next transfer starts fresh, and exactly one
    /// error record carries the description downstream.
    pub fn on_bus_error(&mut self, description: &[u8]) -> (item: ForwardItem)
        ensures
            final(self).addresses() == old(self).addresses(),
            final(self).wf(),
            final(self).engine_model() == aborted(old(self).engine_model()),
            item.dest == DEST_ERROR,
            item.payload@ == (if description@.len() <= BUFFER_CAPACITY {
                description@
            } else {
                description@.take(BUFFER_CAPACITY as int)
            }),
            item.valid(),
    {
        self.engine.reset();
        let record = TelemetryRecord::BusError {
            description: vstd::slice::slice_to_vec(description),
        };
        encode_record(&record)
    }
}

} // verus!

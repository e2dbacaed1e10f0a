//! ISO-TP reassembly engine.
//!
//! Raw CAN frames are classified by the high nibble of their first byte:
//! a single frame carries a whole payload of up to seven bytes, a first
//! frame opens a multi-frame transfer and declares its total length, and
//! consecutive frames carry the rest seven bytes at a time.  The engine
//! accumulates one transfer at a time in a fixed 64-byte buffer, answers
//! a first frame with a flow-control frame addressed to the sender's
//! request identifier, and reports each completed payload.
//!
//! Departures from a bare reading of the wire protocol, chosen here as
//! explicit policy: a malformed frame or an oversized declared total
//! aborts the session instead of faulting; a first frame always starts a
//! fresh session, discarding any incomplete one; consecutive-frame
//! sequence numbers are counted when they mismatch but never gate
//! completion; a consecutive frame is only taken up to the declared
//! total, so a completed payload is exactly as long as declared.

use vstd::prelude::*;

use crate::buffer::BUFFER_CAPACITY;
use crate::buffer::buf_as_slice;
use crate::buffer::buf_bytes;
use crate::buffer::buf_clear;
use crate::buffer::buf_extend_from_slice;
use crate::buffer::buf_new;
use crate::ids::CanId;
use crate::ids::ECUAddresses;
use crate::ids::spec_tx_address;

verus! {

/// Why a frame aborted the current session.
#[derive(Clone, Copy, Debug, PartialEq, Eq, Structural)]
pub enum IsoTpError {
    /// The frame is too short for its kind, or a single frame declares
    /// more than seven payload bytes.
    MalformedFrame,
    /// A first frame declares a total beyond the 64-byte buffer.
    TotalTooLong,
    /// A first frame declares a total a single frame should have carried.
    TotalTooShort,
    /// A consecutive frame arrived with no transfer in progress.
    UnexpectedConsecutive,
    /// No flow-control address can be derived from the sender.
    BadSource,
}

/// Smallest total a first frame may declare: anything shorter fits a
/// single frame.
pub const MULTI_FRAME_MIN_TOTAL: u16 = 7;

/// Ghost state of the engine: the accumulated bytes, the declared total
/// of an in-progress multi-frame transfer, the pinned hardware FIFO, the
/// next expected sequence number, and the running mismatch count.
#[verifier::ext_equal]
pub struct SessionModel {
    pub buf: Seq<u8>,
    pub expected: Option<int>,
    pub fifo: Option<u8>,
    pub next_seq: int,
    pub out_of_order: int,
}

/// Ghost outcome of feeding one frame to the engine.
pub enum StepModel {
    /// A transfer finished; `payload` is the whole reassembled payload.
    Complete { payload: Seq<u8> },
    /// A first frame was accepted; a flow-control frame must go out.
    FlowControl { dest: CanId, frame: Seq<u8> },
    /// A consecutive frame was absorbed; the transfer goes on.
    Accepted,
    /// Not an ISO-TP frame; nothing changes.
    Ignored,
    /// The frame aborted the session.
    Rejected { error: IsoTpError },
}

/// The engine's state with no transfer in progress, keeping the running
/// mismatch count.
pub open spec fn aborted(s: SessionModel) -> SessionModel {
    SessionModel { buf: Seq::empty(), expected: None, fifo: None, next_seq: 0, ..s }
}

/// The engine's state at start.
pub open spec fn fresh_model() -> SessionModel {
    SessionModel { buf: Seq::empty(), expected: None, fifo: None, next_seq: 0, out_of_order: 0 }
}

/// The fixed flow-control payload: clear to send, no block limit, 10 ms
/// separation time, zero padding.
pub open spec fn spec_flow_control_payload() -> Seq<u8> {
    seq![0x30u8, 0x00u8, 0x0Au8, 0u8, 0u8, 0u8, 0u8, 0u8]
}

/// The saturating mismatch count after seeing sequence number `seq`
/// where `next` was expected.
pub open spec fn bumped_mismatches(count: int, seq: int, next: int) -> int {
    if seq != next && count < u32::MAX {
        count + 1
    } else {
        count
    }
}

/// One engine transition: the state and outcome after frame `data`
/// arrives on FIFO `fifo` from identifier `src`.
pub open spec fn spec_step(s: SessionModel, fifo: u8, src: CanId, data: Seq<u8>) -> (
    SessionModel,
    StepModel,
) {
    if data.len() == 0 {
        (s, StepModel::Ignored)
    } else {
        let pci = data[0] / 16;
        if pci == 0 {
            let len = (data[0] % 16) as int;
            if len <= 7 && len + 1 <= data.len() {
                (aborted(s), StepModel::Complete { payload: data.subrange(1, 1 + len) })
            } else {
                (aborted(s), StepModel::Rejected { error: IsoTpError::MalformedFrame })
            }
        } else if pci == 1 {
            if data.len() < 2 {
                (aborted(s), StepModel::Rejected { error: IsoTpError::MalformedFrame })
            } else {
                let total = (data[0] % 16) * 256 + data[1];
                if total > BUFFER_CAPACITY {
                    (aborted(s), StepModel::Rejected { error: IsoTpError::TotalTooLong })
                } else if total < MULTI_FRAME_MIN_TOTAL {
                    (aborted(s), StepModel::Rejected { error: IsoTpError::TotalTooShort })
                } else {
                    match spec_tx_address(src) {
                        None => (aborted(s), StepModel::Rejected { error: IsoTpError::BadSource }),
                        Some(dest) => {
                            let take = if data.len() - 2 < 6 {
                                data.len() - 2
                            } else {
                                6
                            };
                            (
                                SessionModel {
                                    buf: data.subrange(2, 2 + take),
                                    expected: Some(total as int),
                                    fifo: Some(fifo),
                                    next_seq: 1,
                                    out_of_order: s.out_of_order,
                                },
                                StepModel::FlowControl {
                                    dest,
                                    frame: spec_flow_control_payload(),
                                },
                            )
                        },
                    }
                }
            }
        } else if pci == 2 {
            match s.expected {
                None => (
                    aborted(s),
                    StepModel::Rejected { error: IsoTpError::UnexpectedConsecutive },
                ),
                Some(total) => {
                    if data.len() < 2 {
                        (aborted(s), StepModel::Rejected { error: IsoTpError::MalformedFrame })
                    } else {
                        let seq = (data[0] % 16) as int;
                        let mismatches = bumped_mismatches(s.out_of_order, seq, s.next_seq);
                        let need = total - s.buf.len();
                        let take = if data.len() - 1 < need {
                            data.len() - 1
                        } else {
                            need
                        };
                        let grown = s.buf + data.subrange(1, 1 + take);
                        if grown.len() == total {
                            (
                                SessionModel {
                                    buf: Seq::empty(),
                                    expected: None,
                                    fifo: None,
                                    next_seq: 0,
                                    out_of_order: mismatches,
                                },
                                StepModel::Complete { payload: grown },
                            )
                        } else {
                            (
                                SessionModel {
                                    buf: grown,
                                    expected: Some(total),
                                    fifo: s.fifo,
                                    next_seq: (s.next_seq + 1) % 16,
                                    out_of_order: mismatches,
                                },
                                StepModel::Accepted,
                            )
                        }
                    }
                },
            }
        } else {
            (s, StepModel::Ignored)
        }
    }
}

/// Outcome of feeding one frame to the engine.
pub enum FrameOutcome {
    /// A transfer finished; `payload` is the whole reassembled payload.
    Complete { payload: Vec<u8> },
    /// A first frame opened a transfer; send `frame` to `dest`.
    FlowControl { dest: CanId, frame: [u8; 8] },
    /// A consecutive frame was absorbed.
    Accepted,
    /// Not an ISO-TP frame.
    Ignored,
    /// The frame aborted the session.
    Rejected { error: IsoTpError },
}

/// The ghost outcome an executable outcome stands for.
pub open spec fn outcome_model(r: FrameOutcome) -> StepModel {
    match r {
        FrameOutcome::Complete { payload } => StepModel::Complete { payload: payload@ },
        FrameOutcome::FlowControl { dest, frame } => StepModel::FlowControl {
            dest,
            frame: frame@,
        },
        FrameOutcome::Accepted => StepModel::Accepted,
        FrameOutcome::Ignored => StepModel::Ignored,
        FrameOutcome::Rejected { error } => StepModel::Rejected { error },
    }
}

/// The reassembly engine: one transfer at a time.
pub struct Reassembly {
    data: heapless::Vec<u8, 64>,
    expected: Option<u16>,
    fifo: Option<u8>,
    next_seq: u8,
    out_of_order: u32,
}

impl Reassembly {
    /// The ghost state this engine stands for.
    pub closed spec fn model(&self) -> SessionModel {
        SessionModel {
            buf: buf_bytes(self.data),
            expected: match self.expected {
                Some(n) => Some(n as int),
                None => None,
            },
            fifo: self.fifo,
            next_seq: self.next_seq as int,
            out_of_order: self.out_of_order as int,
        }
    }

    /// Internal consistency: an in-progress transfer has a total inside
    /// the buffer bounds and is not yet complete; otherwise the buffer
    /// is empty.
    pub closed spec fn wf(&self) -> bool {
        &&& match self.expected {
            Some(n) => MULTI_FRAME_MIN_TOTAL <= n <= BUFFER_CAPACITY && buf_bytes(self.data).len()
                < n,
            None => buf_bytes(self.data).len() == 0,
        }
        &&& self.next_seq < 16
    }

    /// A fresh engine with no transfer in progress.
    pub fn new() -> (r: Reassembly)
        ensures
            r.wf(),
            r.model() == fresh_model(),
    {
        let r = Reassembly {
            data: buf_new(),
            expected: None,
            fifo: None,
            next_seq: 0,
            out_of_order: 0,
        };
        proof {
            assert(r.model() =~= fresh_model());
        }
        r
    }

    /// The hardware FIFO pinned by an in-progress transfer, if any; the
    /// receive loop keeps draining it so the transfer's frames stay in
    /// order.
    pub fn pinned_fifo(&self) -> (r: Option<u8>)
        ensures
            r == self.model().fifo,
    {
        self.fifo
    }

    /// How many consecutive frames arrived with an unexpected sequence
    /// number.  Mismatches are counted but never gate reassembly.
    pub fn out_of_order_count(&self) -> (r: u32)
        ensures
            r as int == self.model().out_of_order,
    {
        self.out_of_order
    }

    /// Drops any in-progress transfer, keeping the mismatch count.  A
    /// controller error mid-session lands here: the partial buffer is
    /// discarded and the next transfer starts fresh.
    pub fn reset(&mut self)
        ensures
            final(self).wf(),
            final(self).model() == aborted(old(self).model()),
    {
        buf_clear(&mut self.data);
        self.expected = None;
        self.fifo = None;
        self.next_seq = 0;
        proof {
            assert(self.model() =~= aborted(old(self).model()));
        }
    }

    /// Feeds one received frame to the engine.  The state moves exactly
    /// as `spec_step` says, and the outcome reports a completed payload,
    /// a flow-control frame to send, or why the frame was dropped.
    pub fn handle_frame(&mut self, fifo: u8, src: CanId, data: &[u8]) -> (r: FrameOutcome)
        ensures
            old(self).wf() ==> final(self).wf(),
            old(self).wf() ==> final(self).model() == spec_step(
                old(self).model(),
                fifo,
                src,
                data@,
            ).0,
            old(self).wf() ==> outcome_model(r) == spec_step(old(self).model(), fifo, src, data@).1,
    {
        if data.len() == 0 {
            return FrameOutcome::Ignored;
        }
        let pci = data[0] / 16;
        if pci == 0 {
            // Single frame: the low nibble declares the payload length.
            let len = (data[0] % 16) as usize;
            if len <= 7 && len < data.len() {
                let payload = vstd::slice::slice_to_vec(&data[1..1 + len]);
                self.reset();
                FrameOutcome::Complete { payload }
            } else {
                self.reset();
                FrameOutcome::Rejected { error: IsoTpError::MalformedFrame }
            }
        } else if pci == 1 {
            // First frame: low nibble and second byte declare the total.
            if data.len() < 2 {
                self.reset();
                FrameOutcome::Rejected { error: IsoTpError::MalformedFrame }
            } else {
                let total: u16 = ((data[0] % 16) as u16) * 256 + (data[1] as u16);
                if total as usize > BUFFER_CAPACITY {
                    self.reset();
                    FrameOutcome::Rejected { error: IsoTpError::TotalTooLong }
                } else if total < MULTI_FRAME_MIN_TOTAL {
                    self.reset();
                    FrameOutcome::Rejected { error: IsoTpError::TotalTooShort }
                } else {
                    match ECUAddresses::tx_address(src) {
                        None => {
                            self.reset();
                            FrameOutcome::Rejected { error: IsoTpError::BadSource }
                        },
                        Some(dest) => {
                            buf_clear(&mut self.data);
                            let avail = data.len() - 2;
                            let take = if avail < 6 {
                                avail
                            } else {
                                6usize
                            };
                            let _ = buf_extend_from_slice(&mut self.data, &data[2..2 + take]);
                            self.expected = Some(total);
                            self.fifo = Some(fifo);
                            self.next_seq = 1;
                            let frame: [u8; 8] = [0x30, 0x00, 0x0A, 0, 0, 0, 0, 0];
                            proof {
                                assert(frame@ =~= spec_flow_control_payload());
                                assert(old(self).wf() ==> self.model() =~= spec_step(
                                    old(self).model(),
                                    fifo,
                                    src,
                                    data@,
                                ).0);
                            }
                            FrameOutcome::FlowControl { dest, frame }
                        },
                    }
                }
            }
        } else if pci == 2 {
            // Consecutive frame: append towards the declared total.
            match self.expected {
                None => {
                    self.reset();
                    FrameOutcome::Rejected { error: IsoTpError::UnexpectedConsecutive }
                },
                Some(total) => {
                    if data.len() < 2 {
                        self.reset();
                        FrameOutcome::Rejected { error: IsoTpError::MalformedFrame }
                    } else {
                        let seq = data[0] % 16;
                        if seq != self.next_seq && self.out_of_order < u32::MAX {
                            self.out_of_order = self.out_of_order + 1;
                        }
                        let cur = buf_as_slice(&self.data).len();
                        if cur >= total as usize {
                            // Unreachable under `wf`; abort defensively.
                            self.reset();
                            return FrameOutcome::Rejected { error: IsoTpError::MalformedFrame };
                        }
                        let need = total as usize - cur;
                        let avail = data.len() - 1;
                        let take = if avail < need {
                            avail
                        } else {
                            need
                        };
                        let _ = buf_extend_from_slice(&mut self.data, &data[1..1 + take]);
                        let new_len = buf_as_slice(&self.data).len();
                        if new_len == total as usize {
                            let payload = vstd::slice::slice_to_vec(buf_as_slice(&self.data));
                            buf_clear(&mut self.data);
                            self.expected = None;
                            self.fifo = None;
                            self.next_seq = 0;
                            proof {
                                assert(old(self).wf() ==> self.model() =~= spec_step(
                                    old(self).model(),
                                    fifo,
                                    src,
                                    data@,
                                ).0);
                            }
                            FrameOutcome::Complete { payload }
                        } else {
                            self.next_seq = ((self.next_seq as u16 + 1) % 16) as u8;
                            proof {
                                assert(old(self).wf() ==> self.model() =~= spec_step(
                                    old(self).model(),
                                    fifo,
                                    src,
                                    data@,
                                ).0);
                            }
                            FrameOutcome::Accepted
                        }
                    }
                },
            }
        } else {
            FrameOutcome::Ignored
        }
    }
}

/// Ghost run of the engine over a whole frame sequence: the final state
/// and the outcome of every step, in order.
pub open spec fn run(s: SessionModel, fifo: u8, src: CanId, frames: Seq<Seq<u8>>) -> (
    SessionModel,
    Seq<StepModel>,
)
    decreases frames.len(),
{
    if frames.len() == 0 {
        (s, Seq::empty())
    } else {
        let first = spec_step(s, fifo, src, frames[0]);
        let rest = run(first.0, fifo, src, frames.skip(1));
        (rest.0, seq![first.1] + rest.1)
    }
}

/// Law: a single frame of declared length 0 to 7 completes immediately
/// with exactly the bytes behind the length nibble, transmits no
/// flow-control frame, and leaves no transfer in progress.
pub proof fn lemma_single_frame_complete(s: SessionModel, fifo: u8, src: CanId, data: Seq<u8>)
    requires
        data.len() >= 1,
        data[0] / 16 == 0,
        data[0] % 16 <= 7,
        data[0] % 16 < data.len(),
    ensures
        spec_step(s, fifo, src, data).1 == (StepModel::Complete {
            payload: data.subrange(1, 1 + (data[0] % 16) as int),
        }),
        !(spec_step(s, fifo, src, data).1 is FlowControl),
        spec_step(s, fifo, src, data).0 == aborted(s),
{
}

/// How many payload bytes a row of consecutive frames carries: each
/// frame's bytes behind its one-byte header.
pub open spec fn carried(cfs: Seq<Seq<u8>>) -> int
    decreases cfs.len(),
{
    if cfs.len() == 0 {
        0
    } else {
        cfs[0].len() - 1 + carried(cfs.skip(1))
    }
}

/// Splitting the first frame off a row splits its carried bytes.
proof fn lemma_carried_take_shift(cfs: Seq<Seq<u8>>, j: int)
    requires
        0 <= j,
        j + 1 <= cfs.len(),
    ensures
        carried(cfs.take(j + 1)) == cfs[0].len() - 1 + carried(cfs.skip(1).take(j)),
{
    assert(cfs.take(j + 1).skip(1) =~= cfs.skip(1).take(j));
    assert(carried(cfs.take(j + 1)) == cfs.take(j + 1)[0].len() - 1 + carried(
        cfs.take(j + 1).skip(1),
    ));
}

/// Helper for the multi-frame law: from an in-progress transfer, a row
/// of consecutive frames whose carried bytes first reach the declared
/// total at the last frame is absorbed step by step and ends in one
/// completion of exactly that length, with no flow control on the way.
pub proof fn lemma_consecutive_run(
    s: SessionModel,
    fifo: u8,
    src: CanId,
    cfs: Seq<Seq<u8>>,
    total: int,
)
    requires
        s.expected == Some(total),
        s.buf.len() < total <= BUFFER_CAPACITY,
        forall|i: int|
            0 <= i < cfs.len() ==> (#[trigger] cfs[i]).len() >= 2 && cfs[i][0] / 16 == 2,
        cfs.len() >= 1,
        s.buf.len() + carried(cfs) >= total,
        forall|j: int|
            1 <= j < cfs.len() ==> s.buf.len() + carried(#[trigger] cfs.take(j)) < total,
    ensures
        ({
            let r = run(s, fifo, src, cfs);
            &&& r.1.len() == cfs.len()
            &&& forall|i: int| 0 <= i < cfs.len() - 1 ==> #[trigger] r.1[i] is Accepted
            &&& r.1[cfs.len() - 1int] matches StepModel::Complete { payload } && payload.len()
                == total
            &&& forall|i: int| 0 <= i < cfs.len() ==> !(#[trigger] r.1[i] is FlowControl)
            &&& r.0.expected is None
        }),
    decreases cfs.len(),
{
    let step = spec_step(s, fifo, src, cfs[0]);
    if cfs.len() == 1 {
        assert(cfs.skip(1).len() == 0);
        assert(carried(cfs.skip(1)) == 0);
        assert(carried(cfs) == cfs[0].len() - 1 + carried(cfs.skip(1)));
        assert(run(step.0, fifo, src, cfs.skip(1)).1 =~= Seq::<StepModel>::empty());
        assert(run(s, fifo, src, cfs).1 =~= seq![step.1]);
    } else {
        // The first frame does not reach the total, so all its carried
        // bytes are taken and the transfer goes on.
        let head = cfs.take(1);
        assert(head.len() == 1 && head[0] == cfs[0]);
        assert(head.skip(1).len() == 0);
        assert(carried(head.skip(1)) == 0);
        assert(carried(head) == head[0].len() - 1 + carried(head.skip(1)));
        assert(s.buf.len() + (cfs[0].len() - 1) < total);
        assert(step.1 is Accepted);
        assert(step.0.buf.len() == s.buf.len() + cfs[0].len() - 1);
        // The rest of the row still reaches the total, and no earlier.
        assert(carried(cfs) == cfs[0].len() - 1 + carried(cfs.skip(1)));
        assert forall|j: int| 1 <= j < cfs.skip(1).len() implies step.0.buf.len() + carried(
            #[trigger] cfs.skip(1).take(j),
        ) < total by {
            lemma_carried_take_shift(cfs, j);
            assert(s.buf.len() + carried(cfs.take(j + 1)) < total);
        }
        lemma_consecutive_run(step.0, fifo, src, cfs.skip(1), total);
        let rest = run(step.0, fifo, src, cfs.skip(1));
        assert(run(s, fifo, src, cfs).1 =~= seq![step.1] + rest.1);
    }
}

/// Law: a first frame followed by a row of consecutive frames whose
/// accumulated bytes reach its declared total yields one flow-control
/// frame - addressed to the sender's identifier moved down by 8, with
/// the fixed clear-to-send payload - as the first outcome and nowhere
/// else, and ends with a completed payload of exactly the declared
/// total length.
pub proof fn lemma_multi_frame_reassembly(
    s: SessionModel,
    fifo: u8,
    src: CanId,
    first: Seq<u8>,
    cfs: Seq<Seq<u8>>,
)
    requires
        first.len() == 8,
        first[0] / 16 == 1,
        MULTI_FRAME_MIN_TOTAL <= (first[0] % 16) * 256 + first[1] <= BUFFER_CAPACITY,
        spec_tx_address(src) is Some,
        forall|i: int|
            0 <= i < cfs.len() ==> (#[trigger] cfs[i]).len() >= 2 && cfs[i][0] / 16 == 2,
        cfs.len() >= 1,
        6 + carried(cfs) >= (first[0] % 16) * 256 + first[1],
        forall|j: int|
            1 <= j < cfs.len() ==> 6 + carried(#[trigger] cfs.take(j)) < (first[0] % 16) * 256
                + first[1],
    ensures
        ({
            let total = (first[0] % 16) * 256 + first[1];
            let r = run(s, fifo, src, seq![first] + cfs);
            &&& r.1.len() == cfs.len() + 1
            &&& r.1[0] matches StepModel::FlowControl { dest, frame }
                && dest == spec_tx_address(src)->Some_0
                && dest.raw() == src.raw() - 8
                && frame == spec_flow_control_payload()
            &&& forall|i: int| 1 <= i < cfs.len() ==> #[trigger] r.1[i] is Accepted
            &&& r.1[cfs.len() as int] matches StepModel::Complete { payload } && payload.len() == total
            &&& forall|i: int| 1 <= i <= cfs.len() ==> !(#[trigger] r.1[i] is FlowControl)
        }),
{
    let total = (first[0] % 16) * 256 + first[1];
    let frames = seq![first] + cfs;
    let step = spec_step(s, fifo, src, first);
    assert(frames[0] == first);
    assert(frames.skip(1) =~= cfs);
    assert(step.0.buf =~= first.subrange(2, 8));
    lemma_consecutive_run(step.0, fifo, src, cfs, total);
    let rest = run(step.0, fifo, src, cfs);
    assert(run(s, fifo, src, frames).1 =~= seq![step.1] + rest.1);
}

} // verus!

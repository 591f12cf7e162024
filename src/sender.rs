//! The sender side's decisions: which received frames are fresh enough to
//! send, and the descriptor each one is sent as.

use vstd::prelude::*;
use crate::relay::Disconnected;
use crate::video::{Frame, FrameBuffer};

verus! {

/// The default latency budget: 100 ms, in nanoseconds.
pub const DEFAULT_MAX_AGE_NANOS: u64 = 100000000;

/// How old a frame may grow before it is dropped instead of sent.
#[derive(Debug, Clone, Copy, PartialEq, Eq, Structural)]
pub struct FreshnessPolicy {
    pub max_age_nanos: u64,
}

/// What the sender side does with the result of one receive.
#[derive(Debug)]
pub enum SenderAction {
    /// Hand this descriptor to the network sender.
    Send(Frame),
    /// The frame was older than the budget; it is discarded unsent.
    Stale,
    /// The capture side is gone: the loop ends, without error.
    Stop,
}

/// Time elapsed from `captured_at` to `now`; none if the clock reads earlier.
pub open spec fn age_spec(captured_at: u64, now: u64) -> int {
    if now >= captured_at { now - captured_at } else { 0 }
}

/// The descriptor a frame is sent as: its snapshot geometry, its layout
/// unchanged, its row length and its bytes.
pub open spec fn descriptor_of(frame: FrameBuffer) -> Frame {
    Frame {
        width: frame.geometry.width,
        height: frame.geometry.height,
        format: frame.geometry.format,
        data: frame.pixels,
        stride_in_bytes: frame.stride_bytes,
    }
}

impl FreshnessPolicy {
    pub open spec fn is_fresh_spec(self, captured_at: u64, now: u64) -> bool {
        age_spec(captured_at, now) <= self.max_age_nanos
    }

    /// What `decide` does with one receive result examined at time `now`.
    pub open spec fn decide_spec(self, received: Result<FrameBuffer, Disconnected>, now: u64) -> SenderAction {
        match received {
            Err(_) => SenderAction::Stop,
            Ok(frame) => if self.is_fresh_spec(frame.captured_at, now) {
                SenderAction::Send(descriptor_of(frame))
            } else {
                SenderAction::Stale
            },
        }
    }

    /// The policy with the 100 ms budget.
    pub fn default_policy() -> (r: FreshnessPolicy)
        ensures
            r.max_age_nanos == DEFAULT_MAX_AGE_NANOS,
    {
        FreshnessPolicy { max_age_nanos: DEFAULT_MAX_AGE_NANOS }
    }

    /// Nanoseconds from `captured_at` to `now`, zero if `now` is earlier.
    pub fn age_nanos(captured_at: u64, now: u64) -> (r: u64)
        ensures
            r == age_spec(captured_at, now),
    {
        if now >= captured_at { now - captured_at } else { 0 }
    }

    /// Whether a frame captured at `captured_at` may still be sent at `now`.
    pub fn is_fresh(&self, captured_at: u64, now: u64) -> (r: bool)
        ensures
            r == self.is_fresh_spec(captured_at, now),
    {
        Self::age_nanos(captured_at, now) <= self.max_age_nanos
    }

    /// Decides on one receive result at time `now`: stop on disconnection,
    /// drop a frame older than the budget, and otherwise send it as its
    /// descriptor, handing over its bytes.
    pub fn decide(&self, received: Result<FrameBuffer, Disconnected>, now: u64) -> (r: SenderAction)
        ensures
            r == self.decide_spec(received, now),
            received is Err ==> r is Stop,
            received matches Ok(f) ==> (r is Send <==> age_spec(f.captured_at, now) <= self.max_age_nanos),
            received is Ok && received.unwrap().wf() && r is Send ==> r->Send_0.wf(),
    {
        match received {
            Err(_) => SenderAction::Stop,
            Ok(frame) => {
                if self.is_fresh(frame.captured_at, now) {
                    SenderAction::Send(to_descriptor(frame))
                } else {
                    SenderAction::Stale
                }
            },
        }
    }
}

/// A well-formed frame is sent as a well-formed descriptor: `height` rows
/// of `stride_in_bytes` bytes, and exactly that many bytes of data.
pub proof fn lemma_descriptor_wf(frame: FrameBuffer)
    requires
        frame.wf(),
    ensures
        descriptor_of(frame).wf(),
{
    let w = frame.geometry.width as int;
    let h = frame.geometry.height as int;
    assert(w * h * 4 == (w * 4) * h) by (nonlinear_arith);
}

/// The descriptor for `frame`, which takes over its pixel bytes.
pub fn to_descriptor(frame: FrameBuffer) -> (r: Frame)
    ensures
        r == descriptor_of(frame),
        frame.wf() ==> r.wf(),
{
    proof {
        if frame.wf() {
            lemma_descriptor_wf(frame);
        }
    }
    Frame {
        width: frame.geometry.width,
        height: frame.geometry.height,
        format: frame.geometry.format,
        data: frame.pixels,
        stride_in_bytes: frame.stride_bytes,
    }
}

/// The descriptors sent, in order, when the sender side examines each frame
/// of `arrivals` at the time paired with it.
pub open spec fn forwarded(policy: FreshnessPolicy, arrivals: Seq<(FrameBuffer, u64)>) -> Seq<Frame>
    decreases arrivals.len(),
{
    if arrivals.len() == 0 {
        Seq::empty()
    } else {
        let earlier = forwarded(policy, arrivals.drop_last());
        let (frame, now) = arrivals.last();
        match policy.decide_spec(Ok(frame), now) {
            SenderAction::Send(d) => earlier.push(d),
            _ => earlier,
        }
    }
}

/// How many frames of `arrivals` are dropped as stale.
pub open spec fn dropped(policy: FreshnessPolicy, arrivals: Seq<(FrameBuffer, u64)>) -> nat
    decreases arrivals.len(),
{
    if arrivals.len() == 0 {
        0
    } else {
        let (frame, now) = arrivals.last();
        dropped(policy, arrivals.drop_last()) + if policy.decide_spec(Ok(frame), now) is Stale {
            1nat
        } else {
            0nat
        }
    }
}

/// A frame that is no older than the budget when examined is sent once, as a
/// descriptor with its own snapshot geometry; an older one is never sent.
pub proof fn lemma_fresh_sent_once_stale_never(policy: FreshnessPolicy, frame: FrameBuffer, now: u64)
    ensures
        age_spec(frame.captured_at, now) <= policy.max_age_nanos ==> forwarded(policy, seq![(frame, now)])
            == seq![descriptor_of(frame)],
        age_spec(frame.captured_at, now) > policy.max_age_nanos ==> forwarded(policy, seq![(frame, now)])
            == Seq::<Frame>::empty(),
        forwarded(policy, seq![(frame, now)]).len() == 1 ==> {
            let d = forwarded(policy, seq![(frame, now)])[0];
            d.width == frame.geometry.width && d.height == frame.geometry.height
                && d.format == frame.geometry.format && d.stride_in_bytes == frame.stride_bytes
                && d.data@ == frame.pixels@
        },
{
    let s = seq![(frame, now)];
    assert(s.drop_last() =~= Seq::<(FrameBuffer, u64)>::empty());
    assert(forwarded(policy, s.drop_last()) =~= Seq::<Frame>::empty());
    assert(Seq::<Frame>::empty().push(descriptor_of(frame)) =~= seq![descriptor_of(frame)]);
}

/// Frames are sent in the order they arrived: what a run of arrivals sends
/// is what its first part sends followed by what the rest sends.
pub proof fn lemma_order_kept(policy: FreshnessPolicy, first: Seq<(FrameBuffer, u64)>, rest: Seq<(FrameBuffer, u64)>)
    ensures
        forwarded(policy, first + rest) == forwarded(policy, first) + forwarded(policy, rest),
    decreases rest.len(),
{
    if rest.len() == 0 {
        assert(first + rest =~= first);
        assert(forwarded(policy, first) + forwarded(policy, rest) =~= forwarded(policy, first));
    } else {
        lemma_order_kept(policy, first, rest.drop_last());
        assert((first + rest).drop_last() =~= first + rest.drop_last());
        assert((first + rest).last() == rest.last());
        let (frame, now) = rest.last();
        match policy.decide_spec(Ok(frame), now) {
            SenderAction::Send(d) => {
                assert(forwarded(policy, first) + forwarded(policy, rest.drop_last()).push(d)
                    =~= (forwarded(policy, first) + forwarded(policy, rest.drop_last())).push(d));
            },
            _ => {},
        }
    }
}

/// Every frame is consumed exactly once: it is either sent or dropped, so
/// the sent and the dropped add up to the frames that arrived.
pub proof fn lemma_consumed_once(policy: FreshnessPolicy, arrivals: Seq<(FrameBuffer, u64)>)
    ensures
        forwarded(policy, arrivals).len() + dropped(policy, arrivals) == arrivals.len(),
    decreases arrivals.len(),
{
    if arrivals.len() > 0 {
        lemma_consumed_once(policy, arrivals.drop_last());
    }
}

} // verus!

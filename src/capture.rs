//! The capture side: tracks the negotiated geometry and turns each
//! delivered buffer into an owned frame for the relay channel.

use vstd::prelude::*;
use vstd::slice::slice_to_vec;
use crate::relay::RelaySender;
use vstd::slice::slice_subrange;
use crate::video::{packable, FrameBuffer, VideoFormat, VideoGeometry};

verus! {

/// The raw video parameters read from a format change: the layout, if it is
/// one of the four packed layouts, and the size and frame rate.
#[derive(Debug, Clone, Copy, PartialEq, Eq, Structural)]
pub struct RawVideoInfo {
    pub format: Option<VideoFormat>,
    pub width: u32,
    pub height: u32,
    pub frame_rate_num: u32,
    pub frame_rate_den: u32,
}

/// The payload of one format-change callback.
#[derive(Debug, Clone, Copy, PartialEq, Eq, Structural)]
pub enum FormatParam {
    /// Not a raw video format: ignored.
    Other,
    /// A raw video format, with its parameters, or `None` when they could
    /// not be read.
    VideoRaw(Option<RawVideoInfo>),
}

/// A failure that ends the capture session.
#[derive(Debug, Clone, Copy, PartialEq, Eq, Structural)]
pub enum CaptureError {
    /// A raw video format whose parameters cannot be used as a geometry.
    MalformedFormat,
}

/// Why a delivery produced no frame.
#[derive(Debug, Clone, Copy, PartialEq, Eq, Structural)]
pub enum SkipReason {
    /// The stream had no buffer to hand out.
    OutOfBuffers,
    /// The buffer has no data region, or its first region is not mapped.
    NoData,
    /// No video format has been negotiated yet.
    NoFormat,
    /// The first region holds fewer bytes than one frame of the current
    /// geometry.
    ShortBuffer,
}

/// The result of turning one delivery into a frame.
#[derive(Debug)]
pub enum ProcessOutcome {
    Skipped(SkipReason),
    Captured(FrameBuffer),
}

/// The result of one delivery, after the frame was handed on.
#[derive(Debug, Clone, Copy, PartialEq, Eq, Structural)]
pub enum DeliveryOutcome {
    Skipped(SkipReason),
    /// The frame was queued on the relay channel.
    Forwarded,
    /// The sender side is gone; the frame was lost.
    ConsumerGone,
}

/// The geometry that a raw video format describes, if it is a usable one.
pub open spec fn geometry_of(info: RawVideoInfo) -> Option<VideoGeometry> {
    match info.format {
        None => None,
        Some(format) => if packable(info.width, info.height) {
            Some(VideoGeometry {
                width: info.width,
                height: info.height,
                format,
                frame_rate_num: info.frame_rate_num,
                frame_rate_den: info.frame_rate_den,
            })
        } else {
            None
        },
    }
}

/// The current geometry after one format change, or the error it raises.
pub open spec fn format_step(current: Option<VideoGeometry>, param: FormatParam) -> Result<Option<VideoGeometry>, CaptureError> {
    match param {
        FormatParam::Other => Ok(current),
        FormatParam::VideoRaw(None) => Err(CaptureError::MalformedFormat),
        FormatParam::VideoRaw(Some(info)) => match geometry_of(info) {
            Some(g) => Ok(Some(g)),
            None => Err(CaptureError::MalformedFormat),
        },
    }
}

/// The current geometry after a run of format changes from `start`, or the
/// first error.
pub open spec fn geometry_after(start: Option<VideoGeometry>, changes: Seq<FormatParam>) -> Result<Option<VideoGeometry>, CaptureError>
    decreases changes.len(),
{
    if changes.len() == 0 {
        Ok(start)
    } else {
        match geometry_after(start, changes.drop_last()) {
            Ok(g) => format_step(g, changes.last()),
            Err(e) => Err(e),
        }
    }
}

/// The geometry of the last raw video format among `changes`, if any.
pub open spec fn last_negotiated(changes: Seq<FormatParam>) -> Option<VideoGeometry>
    decreases changes.len(),
{
    if changes.len() == 0 {
        None
    } else {
        match changes.last() {
            FormatParam::VideoRaw(Some(info)) => geometry_of(info),
            _ => last_negotiated(changes.drop_last()),
        }
    }
}

/// The bytes of a delivered buffer's first data region, if the buffer has
/// one and it is mapped.
pub open spec fn first_region(buffer: Option<&[Option<&[u8]>]>) -> Option<Seq<u8>> {
    match buffer {
        Some(regions) if regions@.len() > 0 && regions@[0] is Some => Some(regions@[0].unwrap()@),
        _ => None,
    }
}

/// State of the capture side: the geometry negotiated so far.
pub struct CaptureAdapter {
    pub geometry: Option<VideoGeometry>,
}

impl CaptureAdapter {
    pub open spec fn wf(&self) -> bool {
        self.geometry matches Some(g) ==> g.wf()
    }

    /// An adapter before any format has been negotiated.
    pub fn new() -> (r: CaptureAdapter)
        ensures
            r.wf(),
            r.geometry is None,
    {
        CaptureAdapter { geometry: None }
    }

    /// Handles a format change: a payload that is not raw video is ignored;
    /// a raw video format replaces the current geometry; one whose
    /// parameters are missing or unusable is fatal and changes nothing.
    pub fn on_format_changed(&mut self, param: FormatParam) -> (r: Result<(), CaptureError>)
        requires
            old(self).wf(),
        ensures
            final(self).wf(),
            r is Ok <==> format_step(old(self).geometry, param) is Ok,
            r is Err ==> r == Err::<(), CaptureError>(CaptureError::MalformedFormat)
                && final(self).geometry == old(self).geometry,
            format_step(old(self).geometry, param) matches Ok(g) ==> final(self).geometry == g,
    {
        match param {
            FormatParam::Other => Ok(()),
            FormatParam::VideoRaw(None) => Err(CaptureError::MalformedFormat),
            FormatParam::VideoRaw(Some(info)) => match info.format {
                None => Err(CaptureError::MalformedFormat),
                Some(format) => match VideoGeometry::new(
                    info.width,
                    info.height,
                    format,
                    info.frame_rate_num,
                    info.frame_rate_den,
                ) {
                    Some(g) => {
                        self.geometry = Some(g);
                        Ok(())
                    },
                    None => Err(CaptureError::MalformedFormat),
                },
            },
        }
    }

    /// Turns one delivery into an owned frame. `buffer` is `None` when the
    /// stream had no buffer, else the buffer's data regions, each `None`
    /// when it is not mapped. The first width x height x 4 bytes of the first
    /// region are copied, stamped with the current geometry and the time
    /// `now`; a region shorter than that gives no frame.
    pub fn on_process(&self, buffer: Option<&[Option<&[u8]>]>, now: u64) -> (r: ProcessOutcome)
        requires
            self.wf(),
        ensures
            buffer is None ==> r == ProcessOutcome::Skipped(SkipReason::OutOfBuffers),
            buffer is Some && first_region(buffer) is None ==> r == ProcessOutcome::Skipped(SkipReason::NoData),
            first_region(buffer) is Some && self.geometry is None ==> r == ProcessOutcome::Skipped(
                SkipReason::NoFormat,
            ),
            first_region(buffer) is Some && self.geometry is Some && first_region(buffer).unwrap().len()
                < self.geometry.unwrap().frame_len_spec() ==> r == ProcessOutcome::Skipped(SkipReason::ShortBuffer),
            first_region(buffer) is Some && self.geometry is Some && first_region(buffer).unwrap().len()
                >= self.geometry.unwrap().frame_len_spec() ==> (r matches ProcessOutcome::Captured(f) && f.wf()
                && Some(f.geometry) == self.geometry && f.captured_at == now
                && f.pixels@ == first_region(buffer).unwrap().subrange(0, f.geometry.frame_len_spec())),
    {
        match buffer {
            None => ProcessOutcome::Skipped(SkipReason::OutOfBuffers),
            Some(regions) => {
                if regions.len() == 0 {
                    return ProcessOutcome::Skipped(SkipReason::NoData);
                }
                match regions[0] {
                    None => ProcessOutcome::Skipped(SkipReason::NoData),
                    Some(data) => match self.geometry {
                        None => ProcessOutcome::Skipped(SkipReason::NoFormat),
                        Some(g) => {
                            let len = g.frame_len();
                            if data.len() < len {
                                ProcessOutcome::Skipped(SkipReason::ShortBuffer)
                            } else {
                                let pixels = slice_to_vec(slice_subrange(data, 0, len));
                                ProcessOutcome::Captured(FrameBuffer::new(g, now, pixels))
                            }
                        },
                    },
                }
            },
        }
    }

    /// Handles one delivery: captures as `on_process` does and queues the
    /// frame on `tx`, reporting whether the sender side took it.
    pub fn deliver(&self, tx: &RelaySender, buffer: Option<&[Option<&[u8]>]>, now: u64) -> (r: DeliveryOutcome)
        requires
            self.wf(),
        ensures
            buffer is None ==> r == DeliveryOutcome::Skipped(SkipReason::OutOfBuffers),
            buffer is Some && first_region(buffer) is None ==> r == DeliveryOutcome::Skipped(SkipReason::NoData),
            first_region(buffer) is Some && self.geometry is None ==> r == DeliveryOutcome::Skipped(
                SkipReason::NoFormat,
            ),
            first_region(buffer) is Some && self.geometry is Some && first_region(buffer).unwrap().len()
                < self.geometry.unwrap().frame_len_spec() ==> r == DeliveryOutcome::Skipped(SkipReason::ShortBuffer),
            first_region(buffer) is Some && self.geometry is Some && first_region(buffer).unwrap().len()
                >= self.geometry.unwrap().frame_len_spec() ==> (r is Forwarded || r is ConsumerGone),
    {
        match self.on_process(buffer, now) {
            ProcessOutcome::Skipped(reason) => DeliveryOutcome::Skipped(reason),
            ProcessOutcome::Captured(frame) => match tx.send(frame) {
                Ok(()) => DeliveryOutcome::Forwarded,
                Err(_) => DeliveryOutcome::ConsumerGone,
            },
        }
    }
}

/// A frame carries the geometry of the latest format change before its
/// capture: after a run of accepted format changes the adapter holds the
/// geometry of the last raw video format among them (or the one it started
/// with, if there was none), and each frame it captures is stamped with it.
/// The frame keeps that snapshot, whatever changes come after.
pub proof fn lemma_geometry_follows_latest_change(start: Option<VideoGeometry>, changes: Seq<FormatParam>)
    requires
        geometry_after(start, changes) is Ok,
    ensures
        geometry_after(start, changes) == Ok::<Option<VideoGeometry>, CaptureError>(
            match last_negotiated(changes) {
                Some(g) => Some(g),
                None => start,
            },
        ),
    decreases changes.len(),
{
    if changes.len() > 0 {
        lemma_geometry_follows_latest_change(start, changes.drop_last());
    }
}

} // verus!

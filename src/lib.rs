//! Frame relay pipeline: carries raw desktop video frames from a capture
//! stream, across a relay channel, to a push-style network video sender,
//! dropping frames that grow stale on the way.

pub mod capture;
pub mod relay;
pub mod sender;
pub mod video;

pub use capture::{CaptureAdapter, CaptureError, DeliveryOutcome, FormatParam, ProcessOutcome, RawVideoInfo, SkipReason};
pub use relay::{relay_channel, Disconnected, RelayReceiver, RelaySender};
pub use sender::{to_descriptor, FreshnessPolicy, SenderAction, DEFAULT_MAX_AGE_NANOS};
pub use video::{Frame, FrameBuffer, VideoFormat, VideoGeometry};

//! Pixel layouts, negotiated video geometry and the frame descriptor handed
//! to the network sender.

use vstd::prelude::*;

verus! {

/// Bytes per pixel of every packed layout the network sender accepts.
pub const BYTES_PER_PIXEL: u32 = 4;

/// The four 32-bit packed pixel layouts shared by the capture stream and
/// the network sender.
#[derive(Debug, Clone, Copy, PartialEq, Eq, Structural)]
pub enum VideoFormat {
    RGBA,
    RGBX,
    BGRA,
    BGRX,
}

/// A four-character code packed little-endian into a 32-bit word.
pub open spec fn fourcc(a: u8, b: u8, c: u8, d: u8) -> u32 {
    (a as u32 + 256 * (b as u32) + 65536 * (c as u32) + 16777216 * (d as u32)) as u32
}

impl VideoFormat {
    /// The four letters that name the layout, in memory order.
    pub open spec fn letters(self) -> (u8, u8, u8, u8) {
        match self {
            VideoFormat::RGBA => (0x52u8, 0x47u8, 0x42u8, 0x41u8),
            VideoFormat::RGBX => (0x52u8, 0x47u8, 0x42u8, 0x58u8),
            VideoFormat::BGRA => (0x42u8, 0x47u8, 0x52u8, 0x41u8),
            VideoFormat::BGRX => (0x42u8, 0x47u8, 0x52u8, 0x58u8),
        }
    }

    pub open spec fn fourcc_spec(self) -> u32 {
        let (a, b, c, d) = self.letters();
        fourcc(a, b, c, d)
    }

    /// The network sender's code for this layout.
    pub fn to_fourcc(self) -> (r: u32)
        ensures
            r == self.fourcc_spec(),
    {
        match self {
            VideoFormat::RGBA => 1094862674u32,
            VideoFormat::RGBX => 1480738642u32,
            VideoFormat::BGRA => 1095911234u32,
            VideoFormat::BGRX => 1481787202u32,
        }
    }
}

/// Geometry and timing of the video stream, as last negotiated.
#[derive(Debug, Clone, Copy, PartialEq, Eq, Structural)]
pub struct VideoGeometry {
    pub width: u32,
    pub height: u32,
    pub format: VideoFormat,
    pub frame_rate_num: u32,
    pub frame_rate_den: u32,
}

/// The largest width whose packed row length still fits in 32 bits.
pub const MAX_WIDTH: u32 = 1073741823;

/// Bytes in a packed frame of this size: four per pixel.
pub open spec fn frame_len_of(width: u32, height: u32) -> int {
    width * height * 4
}

/// A size that a packed frame can have: positive, with a row length that
/// fits in 32 bits and a whole frame that fits in memory.
pub open spec fn packable(width: u32, height: u32) -> bool {
    0 < width <= MAX_WIDTH && 0 < height && frame_len_of(width, height) <= usize::MAX
}

impl VideoGeometry {
    pub open spec fn wf(self) -> bool {
        packable(self.width, self.height)
    }

    /// Bytes in one frame of this geometry.
    pub open spec fn frame_len_spec(self) -> int {
        frame_len_of(self.width, self.height)
    }

    /// Bytes per packed row.
    pub open spec fn stride_spec(self) -> int {
        self.width * 4
    }

    /// The geometry with these values, or `None` when the size is not one
    /// that a packed frame can have.
    pub fn new(width: u32, height: u32, format: VideoFormat, frame_rate_num: u32, frame_rate_den: u32)
        -> (r: Option<VideoGeometry>)
        ensures
            r matches Some(g) ==> g.wf() && g.width == width && g.height == height
                && g.format == format && g.frame_rate_num == frame_rate_num
                && g.frame_rate_den == frame_rate_den,
            r is None <==> !packable(width, height),
    {
        if width == 0 || width > MAX_WIDTH || height == 0 {
            return None;
        }
        match (width as usize).checked_mul(height as usize) {
            None => None,
            Some(pixels) => match pixels.checked_mul(BYTES_PER_PIXEL as usize) {
                None => None,
                Some(_) => Some(VideoGeometry { width, height, format, frame_rate_num, frame_rate_den }),
            },
        }
    }

    /// Bytes in one frame: width times height times four.
    pub fn frame_len(&self) -> (r: usize)
        requires
            self.wf(),
        ensures
            r == self.frame_len_spec(),
    {
        self.width as usize * self.height as usize * BYTES_PER_PIXEL as usize
    }

    /// Bytes per packed row: four per pixel.
    pub fn stride_bytes(&self) -> (r: u32)
        requires
            self.wf(),
        ensures
            r == self.stride_spec(),
    {
        self.width * BYTES_PER_PIXEL
    }
}

/// One frame as the network sender takes it: size, layout, row length and
/// the pixel bytes, which the send consumes.
#[derive(Debug)]
pub struct Frame {
    pub width: u32,
    pub height: u32,
    pub format: VideoFormat,
    pub data: Vec<u8>,
    pub stride_in_bytes: u32,
}

impl Frame {
    /// Packed rows of `stride_in_bytes` bytes, `height` of them, and
    /// exactly that many bytes of data.
    pub open spec fn wf(&self) -> bool {
        packable(self.width, self.height)
            && self.stride_in_bytes == self.width * 4
            && self.data@.len() == self.stride_in_bytes * self.height
    }
}

/// An owned copy of one captured buffer, with the geometry that was current
/// when it was captured and its capture time in nanoseconds of a monotonic
/// clock.
#[derive(Debug)]
pub struct FrameBuffer {
    pub geometry: VideoGeometry,
    pub captured_at: u64,
    pub pixels: Vec<u8>,
    pub stride_bytes: u32,
}

impl FrameBuffer {
    pub open spec fn wf(&self) -> bool {
        self.geometry.wf() && self.stride_bytes == self.geometry.stride_spec()
            && self.pixels@.len() == self.geometry.frame_len_spec()
    }

    /// A frame of these pixels, which fill `geometry` exactly, with its
    /// packed row length.
    pub fn new(geometry: VideoGeometry, captured_at: u64, pixels: Vec<u8>) -> (r: FrameBuffer)
        requires
            geometry.wf(),
            pixels@.len() == geometry.frame_len_spec(),
        ensures
            r.wf(),
            r.geometry == geometry,
            r.captured_at == captured_at,
            r.pixels@ == pixels@,
    {
        let stride_bytes = geometry.stride_bytes();
        FrameBuffer { geometry, captured_at, pixels, stride_bytes }
    }
}

} // verus!

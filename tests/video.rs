use ndi_screenshare::{to_descriptor, FrameBuffer, VideoFormat, VideoGeometry};

#[test]
fn fourcc_codes_spell_the_layout() {
    assert_eq!(VideoFormat::RGBA.to_fourcc(), 1094862674);
    assert_eq!(VideoFormat::RGBX.to_fourcc(), 1480738642);
    assert_eq!(VideoFormat::BGRA.to_fourcc(), 1095911234);
    assert_eq!(VideoFormat::BGRX.to_fourcc(), 1481787202);
    assert_eq!(VideoFormat::RGBA.to_fourcc(), u32::from_le_bytes(*b"RGBA"));
    assert_eq!(VideoFormat::BGRX.to_fourcc(), u32::from_le_bytes(*b"BGRX"));
}

#[test]
fn geometry_needs_a_positive_size() {
    assert!(VideoGeometry::new(0, 1, VideoFormat::RGBA, 60, 1).is_none());
    assert!(VideoGeometry::new(1, 0, VideoFormat::RGBA, 60, 1).is_none());
    assert!(VideoGeometry::new(1 << 30, 1, VideoFormat::RGBA, 60, 1).is_none());
    let g = VideoGeometry::new(1920, 1080, VideoFormat::BGRX, 60, 1).unwrap();
    assert_eq!(g.stride_bytes(), 7680);
    assert_eq!(g.frame_rate_num, 60);
    let widest = VideoGeometry::new((1 << 30) - 1, 1, VideoFormat::RGBA, 0, 1).unwrap();
    assert_eq!(widest.stride_bytes(), u32::MAX - 3);
}

#[test]
fn descriptor_takes_the_frame_bytes() {
    let g = VideoGeometry::new(2, 1, VideoFormat::RGBX, 30, 1).unwrap();
    let frame = FrameBuffer::new(g, 42, vec![1, 2, 3, 4, 5, 6, 7, 8]);
    assert_eq!(frame.stride_bytes, 8);
    assert_eq!(frame.captured_at, 42);
    let d = to_descriptor(frame);
    assert_eq!((d.width, d.height, d.format, d.stride_in_bytes), (2, 1, VideoFormat::RGBX, 8));
    assert_eq!(d.data, vec![1, 2, 3, 4, 5, 6, 7, 8]);
}

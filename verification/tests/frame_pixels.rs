use openni2::Frame;
use openni2::FrameRc;
use openni2::PixelData;
use openni2::PixelFormat;
use openni2::Rgb888Pixel;
use openni2::VideoMode;
use openni2::Yuv422Pixel;
use openni2::bytes_per_pixel;

fn frame_with(format: PixelFormat, width: u16, height: u16, data: Vec<u8>) -> Frame {
    Frame {
        video_mode: VideoMode {
            pixel_format: format,
            resolution_x: width as i32,
            resolution_y: height as i32,
            fps: 30,
        },
        width,
        height,
        timestamp: 1234,
        frame_index: 7,
        cropped: false,
        origin_x: 0,
        origin_y: 0,
        stride: width.wrapping_mul(bytes_per_pixel(format) as u16),
        data,
    }
}

#[test]
fn metadata_accessors_report_the_stored_fields() {
    let f = frame_with(PixelFormat::GRAY8, 2, 2, vec![0; 4]);
    assert_eq!(f.timestamp(), 1234);
    assert_eq!(f.index(), 7);
    assert_eq!(f.width(), 2);
    assert_eq!(f.height(), 2);
    assert_eq!(f.dimensions(), (2, 2));
    assert!(!f.cropped());
    assert_eq!(f.origin_x(), 0);
    assert_eq!(f.origin_y(), 0);
    assert_eq!(f.stride(), 2);
    assert_eq!(f.byte_len(), 4);
    assert_eq!(f.video_mode().pixel_format, PixelFormat::GRAY8);
}

#[test]
fn depth_pixels_combine_little_endian_byte_pairs() {
    let f = frame_with(PixelFormat::DEPTH_1_MM, 2, 1, vec![0x01, 0x02, 0xFF, 0xFF]);
    match f.try_pixels(PixelFormat::DEPTH_1_MM) {
        Some(PixelData::Words(px)) => {
            assert_eq!(px, vec![0x0201, 0xFFFF]);
        }
        other => panic!("expected word pixels, got {:?}", other),
    }
}

#[test]
fn pixel_count_equals_width_times_height() {
    let f = frame_with(PixelFormat::GRAY16, 3, 2, vec![0; 12]);
    match f.try_pixels(PixelFormat::GRAY16) {
        Some(PixelData::Words(px)) => assert_eq!(px.len(), 6),
        other => panic!("expected word pixels, got {:?}", other),
    }
    assert_eq!(bytes_per_pixel(PixelFormat::GRAY16) * 3 * 2, f.byte_len());
}

#[test]
fn rgb_pixels_group_byte_triples() {
    let f = frame_with(PixelFormat::RGB888, 2, 1, vec![255, 173, 203, 1, 2, 3]);
    match f.try_pixels(PixelFormat::RGB888) {
        Some(PixelData::Rgb(px)) => {
            assert_eq!(px[0], Rgb888Pixel { r: 255, g: 173, b: 203 });
            assert_eq!(px[1], Rgb888Pixel { r: 1, g: 2, b: 3 });
        }
        other => panic!("expected rgb pixels, got {:?}", other),
    }
}

#[test]
fn yuv_pixels_group_byte_quadruples() {
    let f = frame_with(PixelFormat::YUYV, 1, 1, vec![10, 20, 30, 40]);
    match f.try_pixels(PixelFormat::YUYV) {
        Some(PixelData::Yuv(px)) => {
            assert_eq!(px[0], Yuv422Pixel { u: 10, y1: 20, v: 30, y2: 40 });
        }
        other => panic!("expected yuv pixels, got {:?}", other),
    }
}

#[test]
fn gray8_pixels_are_the_buffer_bytes() {
    let f = frame_with(PixelFormat::GRAY8, 2, 2, vec![9, 8, 7, 6]);
    match f.try_pixels(PixelFormat::GRAY8) {
        Some(PixelData::Bytes(px)) => assert_eq!(px, vec![9, 8, 7, 6]),
        other => panic!("expected byte pixels, got {:?}", other),
    }
}

#[test]
fn mismatched_declared_format_is_refused() {
    let f = frame_with(PixelFormat::RGB888, 2, 1, vec![0; 6]);
    assert_eq!(f.try_pixels(PixelFormat::DEPTH_1_MM), None);
}

#[test]
fn buffer_of_the_wrong_size_is_refused() {
    let f = frame_with(PixelFormat::DEPTH_1_MM, 2, 2, vec![0; 7]);
    assert!(!f.size_check());
    assert_eq!(f.try_pixels(PixelFormat::DEPTH_1_MM), None);
}

#[test]
fn refcount_survives_n_minus_one_releases() {
    let mut rc = FrameRc::new();
    assert_eq!(rc.refs(), 1);
    for _ in 0..3 {
        rc.retain();
    }
    assert_eq!(rc.refs(), 4);
    for _ in 0..3 {
        let freed_now = rc.release();
        assert!(!freed_now);
    }
    assert_eq!(rc.refs(), 1);
    assert!(!rc.is_freed());
}

#[test]
fn refcount_frees_exactly_on_the_last_release() {
    let mut rc = FrameRc::new();
    rc.retain();
    rc.retain();
    assert!(!rc.release());
    assert!(!rc.release());
    let freed_now = rc.release();
    assert!(freed_now);
    assert!(rc.is_freed());
    assert_eq!(rc.refs(), 0);
}

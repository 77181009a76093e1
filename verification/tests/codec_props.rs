use openni2::Cropping;
use openni2::PixelFormat;
use openni2::PropertyReply;
use openni2::RawStatus;
use openni2::Status;
use openni2::Version;
use openni2::VideoMode;
use openni2::decode_c_string;
use openni2::decode_cropping;
use openni2::decode_version;
use openni2::decode_video_mode;
use openni2::encode_c_string;
use openni2::encode_bool_property;
use openni2::encode_cropping;
use openni2::encode_i32_property;
use openni2::encode_image_registration;
use openni2::encode_video_mode;
use openni2::read_bool_property;
use openni2::read_i32_le;
use openni2::read_i32_property;
use openni2::read_u16_le;
use openni2::read_version_property;
use openni2::take_property_data;

fn ok_reply(data: Vec<u8>) -> PropertyReply {
    PropertyReply { raw: RawStatus { code: 0, message: String::new() }, data }
}

fn failed_reply(code: i32, message: &str) -> PropertyReply {
    PropertyReply { raw: RawStatus { code, message: message.to_string() }, data: Vec::new() }
}

#[test]
fn i32_codec_round_trips_concrete_values() {
    for x in [0i32, 1, -1, 47, -1000, i32::MAX, i32::MIN] {
        let bytes = encode_i32_property(x);
        assert_eq!(bytes.len(), 4);
        assert_eq!(bytes, x.to_le_bytes().to_vec());
        assert_eq!(read_i32_le(&bytes, 0), x);
    }
}

#[test]
fn u16_read_is_little_endian() {
    let bytes = vec![0x34, 0x12];
    assert_eq!(read_u16_le(&bytes, 0), 0x1234);
}

#[test]
fn bool_property_encodes_one_or_zero() {
    assert_eq!(encode_bool_property(true), vec![1, 0, 0, 0]);
    assert_eq!(encode_bool_property(false), vec![0, 0, 0, 0]);
}

#[test]
fn image_registration_encodes_the_mode_codes() {
    assert_eq!(encode_image_registration(true), vec![1, 0, 0, 0]);
    assert_eq!(encode_image_registration(false), vec![0, 0, 0, 0]);
}

#[test]
fn video_mode_set_then_get_round_trips() {
    let mode = VideoMode {
        pixel_format: PixelFormat::RGB888,
        resolution_x: 640,
        resolution_y: 480,
        fps: 30,
    };
    let bytes = encode_video_mode(&mode);
    assert_eq!(bytes.len(), 16);
    assert_eq!(decode_video_mode(&bytes), Some(mode));
}

#[test]
fn video_mode_with_unknown_format_code_is_refused() {
    let mut bytes = vec![99, 0, 0, 0];
    bytes.extend_from_slice(&[0; 12]);
    assert_eq!(decode_video_mode(&bytes), None);
    assert_eq!(decode_video_mode(&[0u8; 8]), None);
}

#[test]
fn cropping_set_then_get_round_trips() {
    let crop = Cropping { width: 100, height: 80, origin_x: 50, origin_y: 40 };
    let bytes = encode_cropping(Some(crop));
    assert_eq!(bytes.len(), 20);
    assert_eq!(decode_cropping(&bytes), Some(crop));
}

#[test]
fn absent_cropping_round_trips_as_disabled_record() {
    let bytes = encode_cropping(None);
    assert_eq!(bytes, vec![0u8; 20]);
    assert_eq!(decode_cropping(&bytes), None);
}

#[test]
fn version_decodes_its_four_components() {
    let mut bytes = Vec::new();
    for x in [5i32, 1, 4, 1] {
        bytes.extend_from_slice(&x.to_le_bytes());
    }
    assert_eq!(
        decode_version(&bytes),
        Version { major: 5, minor: 1, maintenance: 4, build: 1 }
    );
}

#[test]
fn property_read_rejects_wrong_byte_count() {
    let r = take_property_data(ok_reply(vec![1, 2, 3]), 4);
    match r {
        Err(Status::Error(m)) => assert_eq!(m, "native property reply has the wrong size"),
        other => panic!("expected a size error, got {:?}", other),
    }
}

#[test]
fn property_read_surfaces_the_native_failure() {
    let r = read_i32_property(failed_reply(3, ""));
    assert_eq!(r, Err(Status::NotSupported));
    let r = read_version_property(failed_reply(102, ""));
    assert_eq!(r, Err(Status::TimeOut));
}

#[test]
fn i32_property_reads_the_stored_value() {
    let r = read_i32_property(ok_reply((-12345i32).to_le_bytes().to_vec()));
    assert_eq!(r, Ok(-12345));
}

#[test]
fn bool_property_is_true_exactly_on_one() {
    assert_eq!(read_bool_property(ok_reply(1i32.to_le_bytes().to_vec())), Ok(true));
    assert_eq!(read_bool_property(ok_reply(0i32.to_le_bytes().to_vec())), Ok(false));
    assert_eq!(read_bool_property(ok_reply(2i32.to_le_bytes().to_vec())), Ok(false));
}

#[test]
fn c_string_decoding_stops_at_the_terminator() {
    let buf = vec![b'P', b'S', 0, b'x', b'y'];
    assert_eq!(decode_c_string(&buf), vec![b'P', b'S']);
}

#[test]
fn c_string_without_terminator_is_taken_whole() {
    let buf = vec![b'a', b'b', b'c'];
    assert_eq!(decode_c_string(&buf), vec![b'a', b'b', b'c']);
}

#[test]
fn c_string_encoding_appends_the_terminator() {
    let r = encode_c_string(b"uri");
    assert_eq!(r, Ok(vec![b'u', b'r', b'i', 0]));
}

#[test]
fn c_string_with_embedded_zero_is_rejected_before_any_call() {
    let r = encode_c_string(&[b'a', 0, b'b']);
    assert_eq!(r, Err(Status::BadParameter));
}

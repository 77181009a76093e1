use openni2::Device;
use openni2::PixelFormat;
use openni2::PropertyReply;
use openni2::RawStatus;
use openni2::SensorType;
use openni2::Status;
use openni2::StreamPhase;
use openni2::Version;
use openni2::VideoMode;
use openni2::decode_device_list;
use openni2::encode_cropping;
use openni2::encode_video_mode;
use openni2::Cropping;

fn ok() -> RawStatus {
    RawStatus { code: 0, message: String::new() }
}

fn failing(code: i32, message: &str) -> RawStatus {
    RawStatus { code, message: message.to_string() }
}

fn ok_reply(data: Vec<u8>) -> PropertyReply {
    PropertyReply { raw: ok(), data }
}

fn open_device() -> Device {
    Device::open(ok()).expect("open with a success outcome must yield a device")
}

fn descriptor_bytes(uri: &[u8], vendor: &[u8], name: &[u8], vid: u16, pid: u16) -> Vec<u8> {
    let mut buf = vec![0u8; 772];
    buf[..uri.len()].copy_from_slice(uri);
    buf[256..256 + vendor.len()].copy_from_slice(vendor);
    buf[512..512 + name.len()].copy_from_slice(name);
    buf[768..770].copy_from_slice(&vid.to_le_bytes());
    buf[770..772].copy_from_slice(&pid.to_le_bytes());
    buf
}

#[test]
fn open_failure_reports_no_device() {
    let r = Device::open(failing(6, ""));
    assert_eq!(r.err(), Some(Status::NoDevice));
}

#[test]
fn info_is_queryable_right_after_a_successful_open() {
    let device = open_device();
    let reply = ok_reply(descriptor_bytes(b"1d27/0601@20/2", b"PrimeSense", b"PS1080", 7463, 1537));
    let info = device.info(reply).expect("a complete native record must decode");
    assert_eq!(info.uri, b"1d27/0601@20/2".to_vec());
    assert_eq!(info.vendor, b"PrimeSense".to_vec());
    assert_eq!(info.name, b"PS1080".to_vec());
    assert_eq!(info.usb_vendor_id, 7463);
    assert_eq!(info.usb_product_id, 1537);
}

#[test]
fn info_refuses_a_truncated_record() {
    let device = open_device();
    let reply = ok_reply(vec![0u8; 100]);
    assert!(matches!(device.info(reply), Err(Status::Error(_))));
}

#[test]
fn close_is_idempotent_and_happens_once() {
    let mut device = open_device();
    assert!(device.is_open());
    device.close();
    assert!(!device.is_open());
    device.close();
    assert!(!device.is_open());
}

#[test]
fn firmware_version_decodes_its_string_field() {
    let device = open_device();
    let mut buf = vec![0u8; 256];
    buf[..6].copy_from_slice(b"5.8.22");
    assert_eq!(device.get_firmware_version(ok_reply(buf)), Ok(b"5.8.22".to_vec()));
}

#[test]
fn serial_number_decodes_its_string_field() {
    let device = open_device();
    let mut buf = vec![0u8; 256];
    buf[..10].copy_from_slice(b"1403180118");
    assert_eq!(device.get_serial_number(ok_reply(buf)), Ok(b"1403180118".to_vec()));
}

#[test]
fn driver_version_decodes_its_components() {
    let device = open_device();
    let mut buf = Vec::new();
    for x in [5i32, 1, 4, 1] {
        buf.extend_from_slice(&x.to_le_bytes());
    }
    assert_eq!(
        device.get_driver_version(ok_reply(buf)),
        Ok(Version { major: 5, minor: 1, maintenance: 4, build: 1 })
    );
}

#[test]
fn hardware_version_reads_the_stored_integer() {
    let device = open_device();
    assert_eq!(device.get_hardware_version(ok_reply(6i32.to_le_bytes().to_vec())), Ok(6));
}

#[test]
fn image_registration_is_on_exactly_for_the_aligning_mode() {
    let device = open_device();
    assert_eq!(device.get_image_registration(ok_reply(1i32.to_le_bytes().to_vec())), Ok(true));
    assert_eq!(device.get_image_registration(ok_reply(0i32.to_le_bytes().to_vec())), Ok(false));
}

#[test]
fn playback_repeat_reads_the_native_flag() {
    let device = open_device();
    assert_eq!(
        device.get_playback_repeat_enabled(ok_reply(1i32.to_le_bytes().to_vec())),
        Ok(true)
    );
}

#[test]
fn absent_sensor_is_a_valid_outcome_not_a_failure() {
    let device = open_device();
    let r = device.get_sensor_info(SensorType::IR, false, &[], 0);
    assert_eq!(r, Ok(None));
}

#[test]
fn sensor_info_lists_the_supported_modes() {
    let device = open_device();
    let modes = [
        VideoMode { pixel_format: PixelFormat::RGB888, resolution_x: 320, resolution_y: 240, fps: 30 },
        VideoMode { pixel_format: PixelFormat::RGB888, resolution_x: 640, resolution_y: 480, fps: 15 },
    ];
    let mut buf = Vec::new();
    for m in &modes {
        buf.extend_from_slice(&encode_video_mode(m));
    }
    let si = device
        .get_sensor_info(SensorType::COLOR, true, &buf, 2)
        .expect("well-formed mode records must decode")
        .expect("a present sensor must be reported");
    assert_eq!(si.sensor_type, SensorType::COLOR);
    assert_eq!(si.video_modes, modes.to_vec());
}

#[test]
fn device_list_decodes_every_descriptor() {
    let mut buf = descriptor_bytes(b"uri-a", b"vendor-a", b"name-a", 1, 2);
    buf.extend_from_slice(&descriptor_bytes(b"uri-b", b"vendor-b", b"name-b", 3, 4));
    let list = decode_device_list(&buf, 2);
    assert_eq!(list.len(), 2);
    assert_eq!(list[0].uri, b"uri-a".to_vec());
    assert_eq!(list[1].uri, b"uri-b".to_vec());
    assert_eq!(list[1].usb_product_id, 4);
}

#[test]
fn created_stream_starts_its_life_created() {
    let device = open_device();
    let stream = device.create_stream(SensorType::DEPTH, ok()).expect("creation succeeded");
    assert_eq!(stream.sensor_type(), SensorType::DEPTH);
    assert_eq!(stream.phase(), StreamPhase::Created);
    assert!(stream.is_alive());
}

#[test]
fn stream_creation_failure_surfaces_the_status() {
    let device = open_device();
    let r = device.create_stream(SensorType::DEPTH, failing(3, ""));
    assert_eq!(r.err(), Some(Status::NotSupported));
}

#[test]
fn stop_from_any_state_succeeds() {
    let device = open_device();
    let mut stream = device.create_stream(SensorType::COLOR, ok()).unwrap();
    stream.stop();
    assert_eq!(stream.phase(), StreamPhase::Stopped);
    stream.start(ok()).unwrap();
    assert_eq!(stream.phase(), StreamPhase::Started);
    stream.stop();
    assert_eq!(stream.phase(), StreamPhase::Stopped);
    stream.stop();
    assert_eq!(stream.phase(), StreamPhase::Stopped);
}

#[test]
fn failed_start_leaves_the_stream_where_it_was() {
    let device = open_device();
    let mut stream = device.create_stream(SensorType::COLOR, ok()).unwrap();
    let r = stream.start(failing(1, "device busy"));
    assert_eq!(r.err(), Some(Status::Error("device busy".to_string())));
    assert_eq!(stream.phase(), StreamPhase::Created);
}

#[test]
fn destroy_stops_the_stream_and_gives_up_the_handle() {
    let device = open_device();
    let mut stream = device.create_stream(SensorType::COLOR, ok()).unwrap();
    stream.start(ok()).unwrap();
    stream.destroy();
    assert!(!stream.is_alive());
    assert_eq!(stream.phase(), StreamPhase::Stopped);
}

#[test]
fn stream_video_mode_set_then_get_round_trips() {
    let device = open_device();
    let stream = device.create_stream(SensorType::DEPTH, ok()).unwrap();
    let mode = VideoMode {
        pixel_format: PixelFormat::DEPTH_1_MM,
        resolution_x: 320,
        resolution_y: 240,
        fps: 30,
    };
    let sent = encode_video_mode(&mode);
    let got = stream.get_video_mode(ok_reply(sent)).expect("the echoed record must decode");
    assert_eq!(got, mode);
}

#[test]
fn stream_cropping_set_then_get_round_trips() {
    let device = open_device();
    let stream = device.create_stream(SensorType::COLOR, ok()).unwrap();
    let crop = Cropping { width: 100, height: 100, origin_x: 50, origin_y: 50 };
    let sent = encode_cropping(Some(crop));
    let got = stream.get_cropping(ok_reply(sent)).expect("the echoed record must decode");
    assert_eq!(got, Some(crop));
    let sent_none = encode_cropping(None);
    assert_eq!(stream.get_cropping(ok_reply(sent_none)), Ok(None));
}

#[test]
fn stream_scalar_properties_read_their_values() {
    let device = open_device();
    let stream = device.create_stream(SensorType::DEPTH, ok()).unwrap();
    assert_eq!(stream.get_max_value(ok_reply(10000i32.to_le_bytes().to_vec())), Ok(10000));
    assert_eq!(stream.get_min_value(ok_reply(0i32.to_le_bytes().to_vec())), Ok(0));
    assert_eq!(stream.get_stride(ok_reply(640i32.to_le_bytes().to_vec())), Ok(640));
    assert_eq!(stream.get_number_of_frames(ok_reply(99i32.to_le_bytes().to_vec())), Ok(99));
    assert_eq!(stream.get_exposure(ok_reply(7i32.to_le_bytes().to_vec())), Ok(7));
    assert_eq!(stream.get_gain(ok_reply(3i32.to_le_bytes().to_vec())), Ok(3));
    assert_eq!(stream.get_mirroring(ok_reply(1i32.to_le_bytes().to_vec())), Ok(true));
    assert_eq!(stream.get_auto_exposure(ok_reply(0i32.to_le_bytes().to_vec())), Ok(false));
    assert_eq!(stream.get_auto_white_balance(ok_reply(1i32.to_le_bytes().to_vec())), Ok(true));
}

#[test]
fn stream_property_failure_is_surfaced_verbatim() {
    let device = open_device();
    let stream = device.create_stream(SensorType::DEPTH, ok()).unwrap();
    let reply = PropertyReply { raw: failing(5, ""), data: Vec::new() };
    assert_eq!(stream.get_exposure(reply), Err(Status::OutOfFlow));
}

#[test]
fn stream_sensor_info_is_out_of_flow_when_absent() {
    let device = open_device();
    let stream = device.create_stream(SensorType::COLOR, ok()).unwrap();
    let r = stream.sensor_info(false, &[], 0);
    assert_eq!(r.err(), Some(Status::OutOfFlow));
}

#[test]
fn stream_sensor_info_lists_modes_for_its_own_sensor() {
    let device = open_device();
    let stream = device.create_stream(SensorType::COLOR, ok()).unwrap();
    let mode = VideoMode { pixel_format: PixelFormat::YUYV, resolution_x: 640, resolution_y: 480, fps: 15 };
    let buf = encode_video_mode(&mode);
    let si = stream.sensor_info(true, &buf, 1).expect("well-formed records must decode");
    assert_eq!(si.sensor_type, SensorType::COLOR);
    assert_eq!(si.video_modes, vec![mode]);
}

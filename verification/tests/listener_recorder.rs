use openni2::Device;
use openni2::DeviceEvent;
use openni2::DeviceInfo;
use openni2::DeviceState;
use openni2::RawStatus;
use openni2::Recorder;
use openni2::SensorType;
use openni2::Status;
use openni2::register_device_callbacks;

fn ok() -> RawStatus {
    RawStatus { code: 0, message: String::new() }
}

fn failing(code: i32, message: &str) -> RawStatus {
    RawStatus { code, message: message.to_string() }
}

fn some_info(uri: &[u8]) -> DeviceInfo {
    DeviceInfo {
        uri: uri.to_vec(),
        vendor: b"vendor".to_vec(),
        name: b"name".to_vec(),
        usb_vendor_id: 1,
        usb_product_id: 2,
    }
}

#[test]
fn listener_counts_one_invocation_per_event() {
    let device = Device::open(ok()).unwrap();
    let stream = device.create_stream(SensorType::DEPTH, ok()).unwrap();
    let mut listener = stream.listener(ok()).expect("registration succeeded");
    assert!(listener.is_registered());
    assert_eq!(listener.invocations(), 0);
    listener.deliver(1);
    assert_eq!(listener.invocations(), 1);
    listener.deliver(2);
    listener.deliver(5);
    assert_eq!(listener.invocations(), 3);
    assert_eq!(listener.last_delivered(), Some(5));
}

#[test]
fn listener_registration_failure_surfaces_the_status() {
    let device = Device::open(ok()).unwrap();
    let stream = device.create_stream(SensorType::DEPTH, ok()).unwrap();
    let r = stream.listener(failing(1, "registration refused"));
    assert_eq!(r.err(), Some(Status::Error("registration refused".to_string())));
}

#[test]
fn listener_shutdown_ends_the_registration() {
    let device = Device::open(ok()).unwrap();
    let stream = device.create_stream(SensorType::DEPTH, ok()).unwrap();
    let mut listener = stream.listener(ok()).unwrap();
    listener.deliver(10);
    listener.shutdown();
    assert!(!listener.is_registered());
    assert_eq!(listener.invocations(), 1);
}

#[test]
fn device_events_reach_exactly_their_own_callback() {
    let mut handle = register_device_callbacks(ok()).expect("registration succeeded");
    assert!(handle.is_registered());
    handle.dispatch(&DeviceEvent::Connected(some_info(b"u1")));
    handle.dispatch(&DeviceEvent::Connected(some_info(b"u2")));
    handle.dispatch(&DeviceEvent::Disconnected(some_info(b"u1")));
    handle.dispatch(&DeviceEvent::StateChanged(some_info(b"u2"), DeviceState::NOT_READY));
    assert_eq!(handle.connected_calls(), 2);
    assert_eq!(handle.disconnected_calls(), 1);
    assert_eq!(handle.state_changed_calls(), 1);
}

#[test]
fn device_callback_unregister_ends_the_registration() {
    let mut handle = register_device_callbacks(ok()).unwrap();
    handle.dispatch(&DeviceEvent::Connected(some_info(b"u1")));
    handle.unregister();
    assert!(!handle.is_registered());
    assert_eq!(handle.connected_calls(), 1);
}

#[test]
fn device_callback_registration_failure_surfaces_the_status() {
    let r = register_device_callbacks(failing(1, "no more handles"));
    assert_eq!(r.err(), Some(Status::Error("no more handles".to_string())));
}

#[test]
fn recorder_create_failure_surfaces_the_status() {
    let r = Recorder::create(failing(1, "cannot write file"));
    assert_eq!(r.err(), Some(Status::Error("cannot write file".to_string())));
}

#[test]
fn recorder_attaches_streams_before_starting() {
    let device = Device::open(ok()).unwrap();
    let color = device.create_stream(SensorType::COLOR, ok()).unwrap();
    let depth = device.create_stream(SensorType::DEPTH, ok()).unwrap();
    let mut recorder = Recorder::create(ok()).expect("creation succeeded");
    assert_eq!(recorder.attached(), 0);
    recorder.attach_stream(&color, ok()).unwrap();
    recorder.attach_stream(&depth, ok()).unwrap();
    assert_eq!(recorder.attached(), 2);
    recorder.start(ok()).unwrap();
    assert!(recorder.is_running());
}

#[test]
fn attach_after_start_fails_without_corrupting_the_recorder() {
    let device = Device::open(ok()).unwrap();
    let color = device.create_stream(SensorType::COLOR, ok()).unwrap();
    let depth = device.create_stream(SensorType::DEPTH, ok()).unwrap();
    let mut recorder = Recorder::create(ok()).unwrap();
    recorder.attach_stream(&color, ok()).unwrap();
    recorder.start(ok()).unwrap();
    let r = recorder.attach_stream(&depth, failing(5, ""));
    assert_eq!(r, Err(Status::OutOfFlow));
    assert_eq!(recorder.attached(), 1);
    assert!(recorder.is_running());
    assert!(recorder.is_alive());
}

#[test]
fn recorder_stop_and_restart_keep_the_attachments() {
    let device = Device::open(ok()).unwrap();
    let color = device.create_stream(SensorType::COLOR, ok()).unwrap();
    let mut recorder = Recorder::create(ok()).unwrap();
    recorder.attach_stream(&color, ok()).unwrap();
    recorder.start(ok()).unwrap();
    recorder.stop();
    assert!(!recorder.is_running());
    assert_eq!(recorder.attached(), 1);
    recorder.start(ok()).unwrap();
    assert!(recorder.is_running());
}

#[test]
fn recorder_close_destroys_whatever_the_running_state() {
    let device = Device::open(ok()).unwrap();
    let color = device.create_stream(SensorType::COLOR, ok()).unwrap();
    let mut recorder = Recorder::create(ok()).unwrap();
    recorder.attach_stream(&color, ok()).unwrap();
    recorder.start(ok()).unwrap();
    recorder.close();
    assert!(!recorder.is_alive());
    assert!(!recorder.is_running());
}

#[test]
fn recorder_failed_start_leaves_it_stopped() {
    let mut recorder = Recorder::create(ok()).unwrap();
    let r = recorder.start(failing(1, "disk full"));
    assert_eq!(r.err(), Some(Status::Error("disk full".to_string())));
    assert!(!recorder.is_running());
}

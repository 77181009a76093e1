//! Verified core of a safe, typed access layer over a native depth-camera
//! streaming SDK.
//!
//! The native middleware is reached through a C ABI of opaque handles,
//! integer status codes, fixed-layout structs passed as byte buffers, and
//! function-pointer callbacks.  Everything the wrapper itself decides or
//! computes lives here and is verified:
//!
//! * mapping raw status codes (plus the diagnostic string fetched right
//!   after a failing call) into the structured [`Status`] outcome;
//! * the closed catalogues of sensor kinds, pixel formats, device states
//!   and their native integer codes;
//! * encoding and decoding the fixed-size property buffers (video modes,
//!   croppings, versions, device descriptors, C strings), including the
//!   byte-count check that guards every property read;
//! * the lifecycle state machines of devices, streams, recorders, frames
//!   and callback registrations: what each transition requires, what it
//!   changes, and that tear-down releases each native resource exactly
//!   once;
//! * typed pixel access to a frame's buffer, guarded by the
//!   width * height * bytes-per-pixel size invariant.
//!
//! The unverified shell around this crate owns the actual foreign calls:
//! it performs each native call, then hands the raw outcome (status code,
//! diagnostic string, bytes written) to the functions here, which decide
//! what it means and what happens next.

use vstd::prelude::*;

mod codec;
mod device;
mod frame;
mod listener;
mod recorder;
mod stream;
mod types;

pub use codec::PropertyReply;
pub use codec::decode_c_string;
pub use codec::decode_c_string_field;
pub use codec::decode_version;
pub use codec::decode_video_mode;
pub use codec::decode_video_modes;
pub use codec::encode_bool_property;
pub use codec::encode_c_string;
pub use codec::encode_i32_property;
pub use codec::encode_video_mode;
pub use codec::lemma_cstr_prefix_unique;
pub use codec::lemma_i32_le_round_trip;
pub use codec::lemma_video_mode_round_trip;
pub use codec::push_i32_le;
pub use codec::read_bool_property;
pub use codec::read_i32_le;
pub use codec::read_i32_property;
pub use codec::read_u16_le;
pub use codec::read_version_property;
pub use codec::read_video_mode_property;
pub use codec::take_property_data;
pub use device::DEVICE_INFO_LEN;
pub use device::Device;
pub use device::DeviceInfo;
pub use device::MAX_STR;
pub use device::decode_device_info;
pub use device::decode_device_list;
pub use device::encode_image_registration;
pub use device::lemma_device_close_exactly_once;
pub use frame::Frame;
pub use frame::FrameRc;
pub use frame::PixelData;
pub use frame::Rgb888Pixel;
pub use frame::Yuv422Pixel;
pub use frame::lemma_refcount_balance;
pub use listener::DeviceCallbackHandle;
pub use listener::DeviceEvent;
pub use listener::StreamListener;
pub use listener::lemma_delivered_indices_increase;
pub use listener::lemma_shutdown_exactly_once;
pub use listener::lemma_unregister_exactly_once;
pub use listener::register_device_callbacks;
pub use recorder::Recorder;
pub use recorder::lemma_recorder_close_exactly_once;
pub use stream::Cropping;
pub use stream::Stream;
pub use stream::StreamPhase;
pub use stream::decode_cropping;
pub use stream::encode_cropping;
pub use stream::lemma_cropping_round_trip;
pub use types::DeviceState;
pub use types::check_raw;
pub use types::lemma_pixel_format_code_round_trip;
pub use types::lemma_sensor_type_code_round_trip;
pub use types::ImageRegistrationMode;
pub use types::LogLevel;
pub use types::PixelFormat;
pub use types::RawStatus;
pub use types::SensorInfo;
pub use types::SensorType;
pub use types::Status;
pub use types::Timeout;
pub use types::Version;
pub use types::VideoMode;
pub use types::bytes_per_pixel;

verus! {

/// Packs a library API version for the native initialisation call, which
/// takes the major version in the thousands digits and the minor version
/// below them.
pub fn pack_api_version(major: i32, minor: i32) -> (v: i32)
    requires
        0 <= major <= 1000,
        0 <= minor < 1000,
    ensures
        v == major * 1000 + minor,
{
    major * 1000 + minor
}

} // verus!

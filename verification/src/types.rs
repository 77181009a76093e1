//! Status outcomes and the closed catalogues of codes the native layer
//! speaks: sensor kinds, pixel formats, device states, registration modes,
//! timeouts and log levels, together with the plain descriptive value
//! types built from them.

use vstd::prelude::*;

verus! {

/// Native status code of a call that succeeded.
pub const STATUS_OK: i32 = 0;

/// Native status code of a generic failure with an extended diagnostic.
pub const STATUS_ERROR: i32 = 1;

/// Native status code of an unimplemented entry point.
pub const STATUS_NOT_IMPLEMENTED: i32 = 2;

/// Native status code of an unsupported operation or property.
pub const STATUS_NOT_SUPPORTED: i32 = 3;

/// Native status code of a rejected argument.
pub const STATUS_BAD_PARAMETER: i32 = 4;

/// Native status code of an operation issued in the wrong stream state.
pub const STATUS_OUT_OF_FLOW: i32 = 5;

/// Native status code reporting that no device was found.
pub const STATUS_NO_DEVICE: i32 = 6;

/// Native status code of an expired timeout.
pub const STATUS_TIME_OUT: i32 = 102;

/// Raw outcome of one native call: the status code it returned, together
/// with the extended diagnostic string fetched immediately afterwards (the
/// native layer keeps that string only until the next call, so the caller
/// of the native function must capture it on the spot and pass it in).
#[derive(Debug, Clone)]
pub struct RawStatus {
    /// The integer status code the native call returned.
    pub code: i32,
    /// The extended diagnostic string captured right after the call.
    pub message: String,
}

impl RawStatus {
    /// True when the code reports success.
    pub open spec fn spec_is_ok(&self) -> bool {
        self.code == STATUS_OK
    }

    /// True when the code reports success.
    #[verifier::when_used_as_spec(spec_is_ok)]
    pub fn is_ok(&self) -> (r: bool)
        ensures
            r == self.spec_is_ok(),
    {
        self.code == STATUS_OK
    }
}

/// Structured outcome of a native call.  Every fallible operation of the
/// wrapper reports its failure through this type, never through a bare
/// integer code.
#[allow(non_camel_case_types)]
#[derive(Debug, Clone, PartialEq, Eq)]
pub enum Status {
    /// The call succeeded.
    OK,
    /// A generic failure, carrying the extended diagnostic string that was
    /// current at the moment of the failing call.
    Error(String),
    /// The entry point is not implemented by the native layer.
    NotImplemented,
    /// The operation or property is not supported.
    NotSupported,
    /// An argument was rejected.
    BadParameter,
    /// The operation was issued while the stream was in the wrong state.
    OutOfFlow,
    /// No device was found.
    NoDevice,
    /// A timeout expired before the operation succeeded.
    TimeOut,
}

impl Status {
    /// The structured outcome denoted by a raw status code and the
    /// diagnostic string captured with it.  Unknown codes fall back to the
    /// generic failure so that no error information is dropped.
    pub open spec fn spec_of_raw(raw: RawStatus) -> Status {
        if raw.code == STATUS_OK {
            Status::OK
        } else if raw.code == STATUS_NOT_IMPLEMENTED {
            Status::NotImplemented
        } else if raw.code == STATUS_NOT_SUPPORTED {
            Status::NotSupported
        } else if raw.code == STATUS_BAD_PARAMETER {
            Status::BadParameter
        } else if raw.code == STATUS_OUT_OF_FLOW {
            Status::OutOfFlow
        } else if raw.code == STATUS_NO_DEVICE {
            Status::NoDevice
        } else if raw.code == STATUS_TIME_OUT {
            Status::TimeOut
        } else {
            Status::Error(raw.message)
        }
    }

    /// Maps a raw native outcome to the structured one.
    pub fn from_raw(raw: RawStatus) -> (s: Status)
        ensures
            s == Status::spec_of_raw(raw),
    {
        if raw.code == STATUS_OK {
            Status::OK
        } else if raw.code == STATUS_NOT_IMPLEMENTED {
            Status::NotImplemented
        } else if raw.code == STATUS_NOT_SUPPORTED {
            Status::NotSupported
        } else if raw.code == STATUS_BAD_PARAMETER {
            Status::BadParameter
        } else if raw.code == STATUS_OUT_OF_FLOW {
            Status::OutOfFlow
        } else if raw.code == STATUS_NO_DEVICE {
            Status::NoDevice
        } else if raw.code == STATUS_TIME_OUT {
            Status::TimeOut
        } else {
            Status::Error(raw.message)
        }
    }
}

/// Turns a raw native outcome into the usual result shape: success carries
/// nothing, failure carries the structured status.
pub fn check_raw(raw: RawStatus) -> (r: Result<(), Status>)
    ensures
        r is Ok <==> raw.code == STATUS_OK,
        r matches Err(s) ==> s == Status::spec_of_raw(raw),
{
    if raw.code == STATUS_OK {
        Ok(())
    } else {
        Err(Status::from_raw(raw))
    }
}

/// Native code of the infrared sensor.
pub const SENSOR_IR: i32 = 1;

/// Native code of the color sensor.
pub const SENSOR_COLOR: i32 = 2;

/// Native code of the depth sensor.
pub const SENSOR_DEPTH: i32 = 3;

/// One of the sensor kinds a device can expose.
#[allow(non_camel_case_types)]
#[derive(Debug, Copy, Clone, PartialEq, Eq, Structural)]
pub enum SensorType {
    IR,
    COLOR,
    DEPTH,
}

impl SensorType {
    /// The native integer code of this sensor kind.
    pub open spec fn spec_code(self) -> i32 {
        match self {
            SensorType::IR => SENSOR_IR,
            SensorType::COLOR => SENSOR_COLOR,
            SensorType::DEPTH => SENSOR_DEPTH,
        }
    }

    /// The native integer code of this sensor kind.
    #[verifier::when_used_as_spec(spec_code)]
    pub fn code(self) -> (c: i32)
        ensures
            c == self.spec_code(),
    {
        match self {
            SensorType::IR => SENSOR_IR,
            SensorType::COLOR => SENSOR_COLOR,
            SensorType::DEPTH => SENSOR_DEPTH,
        }
    }

    /// The sensor kind a native code denotes, if any.
    pub open spec fn spec_from_code(code: i32) -> Option<SensorType> {
        if code == SENSOR_IR {
            Some(SensorType::IR)
        } else if code == SENSOR_COLOR {
            Some(SensorType::COLOR)
        } else if code == SENSOR_DEPTH {
            Some(SensorType::DEPTH)
        } else {
            None
        }
    }

    /// Reads a sensor kind back from its native code.
    pub fn from_code(code: i32) -> (r: Option<SensorType>)
        ensures
            r == SensorType::spec_from_code(code),
    {
        if code == SENSOR_IR {
            Some(SensorType::IR)
        } else if code == SENSOR_COLOR {
            Some(SensorType::COLOR)
        } else if code == SENSOR_DEPTH {
            Some(SensorType::DEPTH)
        } else {
            None
        }
    }
}

/// The two conversions between sensor kinds and native codes invert each
/// other: encoding a kind and reading it back yields the same kind.
pub proof fn lemma_sensor_type_code_round_trip(t: SensorType)
    ensures
        SensorType::spec_from_code(t.spec_code()) == Some(t),
{
}

/// Native code of the one-millimetre depth pixel format.
pub const PIXEL_FORMAT_DEPTH_1_MM: i32 = 100;

/// Native code of the hundred-micrometre depth pixel format.
pub const PIXEL_FORMAT_DEPTH_100_UM: i32 = 101;

/// Native code of the 9.2 shift depth pixel format.
pub const PIXEL_FORMAT_SHIFT_9_2: i32 = 102;

/// Native code of the 9.3 shift depth pixel format.
pub const PIXEL_FORMAT_SHIFT_9_3: i32 = 103;

/// Native code of the packed 24-bit RGB pixel format.
pub const PIXEL_FORMAT_RGB888: i32 = 200;

/// Native code of the YUV 4:2:2 pixel format.
pub const PIXEL_FORMAT_YUV422: i32 = 201;

/// Native code of the 8-bit grayscale pixel format.
pub const PIXEL_FORMAT_GRAY8: i32 = 202;

/// Native code of the 16-bit grayscale pixel format.
pub const PIXEL_FORMAT_GRAY16: i32 = 203;

/// Native code of the JPEG-compressed pixel format.
pub const PIXEL_FORMAT_JPEG: i32 = 204;

/// Native code of the YUYV pixel format.
pub const PIXEL_FORMAT_YUYV: i32 = 205;

/// The pixel layout of a stream's frames.  The format fixes how many
/// bytes each pixel occupies, which is what the frame size invariant and
/// all typed pixel access are checked against.
#[allow(non_camel_case_types)]
#[derive(Debug, Copy, Clone, PartialEq, Eq, Structural)]
pub enum PixelFormat {
    DEPTH_1_MM,
    DEPTH_100_UM,
    SHIFT_9_2,
    SHIFT_9_3,
    RGB888,
    YUV422,
    GRAY8,
    GRAY16,
    JPEG,
    YUYV,
}

impl PixelFormat {
    /// The native integer code of this pixel format.
    pub open spec fn spec_code(self) -> i32 {
        match self {
            PixelFormat::DEPTH_1_MM => PIXEL_FORMAT_DEPTH_1_MM,
            PixelFormat::DEPTH_100_UM => PIXEL_FORMAT_DEPTH_100_UM,
            PixelFormat::SHIFT_9_2 => PIXEL_FORMAT_SHIFT_9_2,
            PixelFormat::SHIFT_9_3 => PIXEL_FORMAT_SHIFT_9_3,
            PixelFormat::RGB888 => PIXEL_FORMAT_RGB888,
            PixelFormat::YUV422 => PIXEL_FORMAT_YUV422,
            PixelFormat::GRAY8 => PIXEL_FORMAT_GRAY8,
            PixelFormat::GRAY16 => PIXEL_FORMAT_GRAY16,
            PixelFormat::JPEG => PIXEL_FORMAT_JPEG,
            PixelFormat::YUYV => PIXEL_FORMAT_YUYV,
        }
    }

    /// The native integer code of this pixel format.
    #[verifier::when_used_as_spec(spec_code)]
    pub fn code(self) -> (c: i32)
        ensures
            c == self.spec_code(),
    {
        match self {
            PixelFormat::DEPTH_1_MM => PIXEL_FORMAT_DEPTH_1_MM,
            PixelFormat::DEPTH_100_UM => PIXEL_FORMAT_DEPTH_100_UM,
            PixelFormat::SHIFT_9_2 => PIXEL_FORMAT_SHIFT_9_2,
            PixelFormat::SHIFT_9_3 => PIXEL_FORMAT_SHIFT_9_3,
            PixelFormat::RGB888 => PIXEL_FORMAT_RGB888,
            PixelFormat::YUV422 => PIXEL_FORMAT_YUV422,
            PixelFormat::GRAY8 => PIXEL_FORMAT_GRAY8,
            PixelFormat::GRAY16 => PIXEL_FORMAT_GRAY16,
            PixelFormat::JPEG => PIXEL_FORMAT_JPEG,
            PixelFormat::YUYV => PIXEL_FORMAT_YUYV,
        }
    }

    /// The pixel format a native code denotes, if any.
    pub open spec fn spec_from_code(code: i32) -> Option<PixelFormat> {
        if code == PIXEL_FORMAT_DEPTH_1_MM {
            Some(PixelFormat::DEPTH_1_MM)
        } else if code == PIXEL_FORMAT_DEPTH_100_UM {
            Some(PixelFormat::DEPTH_100_UM)
        } else if code == PIXEL_FORMAT_SHIFT_9_2 {
            Some(PixelFormat::SHIFT_9_2)
        } else if code == PIXEL_FORMAT_SHIFT_9_3 {
            Some(PixelFormat::SHIFT_9_3)
        } else if code == PIXEL_FORMAT_RGB888 {
            Some(PixelFormat::RGB888)
        } else if code == PIXEL_FORMAT_YUV422 {
            Some(PixelFormat::YUV422)
        } else if code == PIXEL_FORMAT_GRAY8 {
            Some(PixelFormat::GRAY8)
        } else if code == PIXEL_FORMAT_GRAY16 {
            Some(PixelFormat::GRAY16)
        } else if code == PIXEL_FORMAT_JPEG {
            Some(PixelFormat::JPEG)
        } else if code == PIXEL_FORMAT_YUYV {
            Some(PixelFormat::YUYV)
        } else {
            None
        }
    }

    /// Reads a pixel format back from its native code.
    pub fn from_code(code: i32) -> (r: Option<PixelFormat>)
        ensures
            r == PixelFormat::spec_from_code(code),
    {
        if code == PIXEL_FORMAT_DEPTH_1_MM {
            Some(PixelFormat::DEPTH_1_MM)
        } else if code == PIXEL_FORMAT_DEPTH_100_UM {
            Some(PixelFormat::DEPTH_100_UM)
        } else if code == PIXEL_FORMAT_SHIFT_9_2 {
            Some(PixelFormat::SHIFT_9_2)
        } else if code == PIXEL_FORMAT_SHIFT_9_3 {
            Some(PixelFormat::SHIFT_9_3)
        } else if code == PIXEL_FORMAT_RGB888 {
            Some(PixelFormat::RGB888)
        } else if code == PIXEL_FORMAT_YUV422 {
            Some(PixelFormat::YUV422)
        } else if code == PIXEL_FORMAT_GRAY8 {
            Some(PixelFormat::GRAY8)
        } else if code == PIXEL_FORMAT_GRAY16 {
            Some(PixelFormat::GRAY16)
        } else if code == PIXEL_FORMAT_JPEG {
            Some(PixelFormat::JPEG)
        } else if code == PIXEL_FORMAT_YUYV {
            Some(PixelFormat::YUYV)
        } else {
            None
        }
    }

    /// How many bytes one pixel of this format occupies.
    pub open spec fn spec_bytes_per_pixel(self) -> usize {
        match self {
            PixelFormat::DEPTH_1_MM => 2,
            PixelFormat::DEPTH_100_UM => 2,
            PixelFormat::SHIFT_9_2 => 2,
            PixelFormat::SHIFT_9_3 => 2,
            PixelFormat::RGB888 => 3,
            PixelFormat::YUV422 => 4,
            PixelFormat::GRAY8 => 1,
            PixelFormat::GRAY16 => 2,
            PixelFormat::JPEG => 1,
            PixelFormat::YUYV => 4,
        }
    }
}

/// The two conversions between pixel formats and native codes invert each
/// other: encoding a format and reading it back yields the same format.
pub proof fn lemma_pixel_format_code_round_trip(f: PixelFormat)
    ensures
        PixelFormat::spec_from_code(f.spec_code()) == Some(f),
{
}

/// How many bytes one pixel of the given format occupies.
pub fn bytes_per_pixel(format: PixelFormat) -> (n: usize)
    ensures
        n == format.spec_bytes_per_pixel(),
        1 <= n <= 4,
{
    match format {
        PixelFormat::DEPTH_1_MM => 2,
        PixelFormat::DEPTH_100_UM => 2,
        PixelFormat::SHIFT_9_2 => 2,
        PixelFormat::SHIFT_9_3 => 2,
        PixelFormat::RGB888 => 3,
        PixelFormat::YUV422 => 4,
        PixelFormat::GRAY8 => 1,
        PixelFormat::GRAY16 => 2,
        PixelFormat::JPEG => 1,
        PixelFormat::YUYV => 4,
    }
}

/// Native code of a device in working order.
pub const DEVICE_STATE_OK: i32 = 0;

/// Native code of a device in an error state.
pub const DEVICE_STATE_ERROR: i32 = 1;

/// Native code of a device that is not ready yet.
pub const DEVICE_STATE_NOT_READY: i32 = 2;

/// Native code of a playback device that reached the end of its file.
pub const DEVICE_STATE_EOF: i32 = 3;

/// Current state of a device, as reported by state-change notifications.
#[allow(non_camel_case_types)]
#[derive(Debug, Copy, Clone, PartialEq, Eq, Structural)]
pub enum DeviceState {
    OK,
    ERROR,
    NOT_READY,
    EOF,
}

impl DeviceState {
    /// The native integer code of this device state.
    pub open spec fn spec_code(self) -> i32 {
        match self {
            DeviceState::OK => DEVICE_STATE_OK,
            DeviceState::ERROR => DEVICE_STATE_ERROR,
            DeviceState::NOT_READY => DEVICE_STATE_NOT_READY,
            DeviceState::EOF => DEVICE_STATE_EOF,
        }
    }

    /// The native integer code of this device state.
    #[verifier::when_used_as_spec(spec_code)]
    pub fn code(self) -> (c: i32)
        ensures
            c == self.spec_code(),
    {
        match self {
            DeviceState::OK => DEVICE_STATE_OK,
            DeviceState::ERROR => DEVICE_STATE_ERROR,
            DeviceState::NOT_READY => DEVICE_STATE_NOT_READY,
            DeviceState::EOF => DEVICE_STATE_EOF,
        }
    }

    /// The device state a native code denotes, if any.
    pub open spec fn spec_from_code(code: i32) -> Option<DeviceState> {
        if code == DEVICE_STATE_OK {
            Some(DeviceState::OK)
        } else if code == DEVICE_STATE_ERROR {
            Some(DeviceState::ERROR)
        } else if code == DEVICE_STATE_NOT_READY {
            Some(DeviceState::NOT_READY)
        } else if code == DEVICE_STATE_EOF {
            Some(DeviceState::EOF)
        } else {
            None
        }
    }

    /// Reads a device state back from its native code.
    pub fn from_code(code: i32) -> (r: Option<DeviceState>)
        ensures
            r == DeviceState::spec_from_code(code),
    {
        if code == DEVICE_STATE_OK {
            Some(DeviceState::OK)
        } else if code == DEVICE_STATE_ERROR {
            Some(DeviceState::ERROR)
        } else if code == DEVICE_STATE_NOT_READY {
            Some(DeviceState::NOT_READY)
        } else if code == DEVICE_STATE_EOF {
            Some(DeviceState::EOF)
        } else {
            None
        }
    }
}

/// Native code for image registration turned off.
pub const IMAGE_REGISTRATION_OFF: i32 = 0;

/// Native code for aligning the depth stream onto the color stream.
pub const IMAGE_REGISTRATION_DEPTH_TO_COLOR: i32 = 1;

/// Mode for automatically scaling and translating one stream onto
/// another.
#[allow(non_camel_case_types)]
#[derive(Debug, Copy, Clone, PartialEq, Eq, Structural)]
pub enum ImageRegistrationMode {
    /// Leave the streams as they are.
    OFF,
    /// Scale and reposition the depth stream to match the color stream.
    DEPTH_TO_COLOR,
}

impl ImageRegistrationMode {
    /// The native integer code of this registration mode.
    pub open spec fn spec_code(self) -> i32 {
        match self {
            ImageRegistrationMode::OFF => IMAGE_REGISTRATION_OFF,
            ImageRegistrationMode::DEPTH_TO_COLOR => IMAGE_REGISTRATION_DEPTH_TO_COLOR,
        }
    }

    /// The native integer code of this registration mode.
    #[verifier::when_used_as_spec(spec_code)]
    pub fn code(self) -> (c: i32)
        ensures
            c == self.spec_code(),
    {
        match self {
            ImageRegistrationMode::OFF => IMAGE_REGISTRATION_OFF,
            ImageRegistrationMode::DEPTH_TO_COLOR => IMAGE_REGISTRATION_DEPTH_TO_COLOR,
        }
    }

    /// The registration mode a native code denotes, if any.
    pub open spec fn spec_from_code(code: i32) -> Option<ImageRegistrationMode> {
        if code == IMAGE_REGISTRATION_OFF {
            Some(ImageRegistrationMode::OFF)
        } else if code == IMAGE_REGISTRATION_DEPTH_TO_COLOR {
            Some(ImageRegistrationMode::DEPTH_TO_COLOR)
        } else {
            None
        }
    }

    /// Reads a registration mode back from its native code.
    pub fn from_code(code: i32) -> (r: Option<ImageRegistrationMode>)
        ensures
            r == ImageRegistrationMode::spec_from_code(code),
    {
        if code == IMAGE_REGISTRATION_OFF {
            Some(ImageRegistrationMode::OFF)
        } else if code == IMAGE_REGISTRATION_DEPTH_TO_COLOR {
            Some(ImageRegistrationMode::DEPTH_TO_COLOR)
        } else {
            None
        }
    }
}

/// Native code for not waiting at all.
pub const TIMEOUT_NONE: i32 = 0;

/// Native code for waiting without bound.
pub const TIMEOUT_FOREVER: i32 = -1;

/// How long a waiting native call may block.
#[allow(non_camel_case_types)]
#[derive(Debug, Copy, Clone, PartialEq, Eq, Structural)]
pub enum Timeout {
    NONE,
    FOREVER,
}

impl Timeout {
    /// The native integer code of this timeout.
    pub open spec fn spec_code(self) -> i32 {
        match self {
            Timeout::NONE => TIMEOUT_NONE,
            Timeout::FOREVER => TIMEOUT_FOREVER,
        }
    }

    /// The native integer code of this timeout.
    #[verifier::when_used_as_spec(spec_code)]
    pub fn code(self) -> (c: i32)
        ensures
            c == self.spec_code(),
    {
        match self {
            Timeout::NONE => TIMEOUT_NONE,
            Timeout::FOREVER => TIMEOUT_FOREVER,
        }
    }

    /// The timeout a native code denotes, if any.
    pub open spec fn spec_from_code(code: i32) -> Option<Timeout> {
        if code == TIMEOUT_NONE {
            Some(Timeout::NONE)
        } else if code == TIMEOUT_FOREVER {
            Some(Timeout::FOREVER)
        } else {
            None
        }
    }

    /// Reads a timeout back from its native code.
    pub fn from_code(code: i32) -> (r: Option<Timeout>)
        ensures
            r == Timeout::spec_from_code(code),
    {
        if code == TIMEOUT_NONE {
            Some(Timeout::NONE)
        } else if code == TIMEOUT_FOREVER {
            Some(Timeout::FOREVER)
        } else {
            None
        }
    }
}

/// Native code of the most verbose log level.
pub const LOG_LEVEL_VERBOSE: i32 = 0;

/// Native code of the informational log level.
pub const LOG_LEVEL_INFO: i32 = 1;

/// Native code of the warning log level.
pub const LOG_LEVEL_WARNING: i32 = 2;

/// Native code of the error log level.
pub const LOG_LEVEL_ERROR: i32 = 3;

/// Native code that silences logging altogether.
pub const LOG_LEVEL_OFF: i32 = 10;

/// Verbosity threshold of the native layer's own logging.
#[allow(non_camel_case_types)]
#[derive(Debug, Copy, Clone, PartialEq, Eq, Structural)]
pub enum LogLevel {
    Verbose,
    Info,
    Warning,
    Error,
    /// No logging at all.
    Off,
}

impl LogLevel {
    /// The native integer code of this log level.
    pub open spec fn spec_code(self) -> i32 {
        match self {
            LogLevel::Verbose => LOG_LEVEL_VERBOSE,
            LogLevel::Info => LOG_LEVEL_INFO,
            LogLevel::Warning => LOG_LEVEL_WARNING,
            LogLevel::Error => LOG_LEVEL_ERROR,
            LogLevel::Off => LOG_LEVEL_OFF,
        }
    }

    /// The native integer code of this log level.
    #[verifier::when_used_as_spec(spec_code)]
    pub fn code(self) -> (c: i32)
        ensures
            c == self.spec_code(),
    {
        match self {
            LogLevel::Verbose => LOG_LEVEL_VERBOSE,
            LogLevel::Info => LOG_LEVEL_INFO,
            LogLevel::Warning => LOG_LEVEL_WARNING,
            LogLevel::Error => LOG_LEVEL_ERROR,
            LogLevel::Off => LOG_LEVEL_OFF,
        }
    }
}

/// Dimensions, frame rate and pixel layout of a stream's output.
#[derive(Debug, Copy, Clone, PartialEq, Eq, Structural)]
pub struct VideoMode {
    /// The pixel layout of each frame.
    pub pixel_format: PixelFormat,
    /// Horizontal resolution in pixels.
    pub resolution_x: i32,
    /// Vertical resolution in pixels.
    pub resolution_y: i32,
    /// Frames per second.
    pub fps: i32,
}

/// A four-component version number, as the native layer reports driver
/// and library versions.
#[derive(Debug, Copy, Clone, PartialEq, Eq, Structural)]
pub struct Version {
    pub major: i32,
    pub minor: i32,
    pub maintenance: i32,
    pub build: i32,
}

/// What one sensor of a device offers: its kind and the video modes it
/// supports.
#[derive(Debug, Clone, PartialEq, Eq)]
pub struct SensorInfo {
    /// The sensor this information describes.
    pub sensor_type: SensorType,
    /// Every video mode the sensor can be configured to.
    pub video_modes: Vec<VideoMode>,
}

} // verus!

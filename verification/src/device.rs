//! An open device: its descriptor as the native layer lays it out, the
//! close-exactly-once lifecycle of its handle, and the typed
//! interpreters for the device properties served as fixed-size byte
//! buffers.

use vstd::prelude::*;
use crate::codec::PropertyReply;
use crate::codec::decode_c_string_field;
use crate::codec::decode_video_modes;
use crate::codec::i32_at;
use crate::codec::i32_le_bytes;
use crate::codec::is_cstr_prefix;
use crate::codec::encode_i32_property;
use crate::codec::read_bool_property;
use crate::codec::read_i32_property;
use crate::codec::read_u16_le;
use crate::codec::read_version_property;
use crate::codec::take_property_data;
use crate::codec::u16_le_at;
use crate::codec::version_of_bytes;
use crate::codec::video_mode_at;
use crate::stream::Stream;
use crate::types::IMAGE_REGISTRATION_DEPTH_TO_COLOR;
use crate::types::IMAGE_REGISTRATION_OFF;
use crate::types::RawStatus;
use crate::types::STATUS_OK;
use crate::types::SensorInfo;
use crate::types::SensorType;
use crate::types::Status;
use crate::types::Version;

verus! {

/// The length of one fixed-size native string field.
pub const MAX_STR: usize = 256;

/// The byte length of the native device-descriptor record: three
/// fixed-size string fields followed by the two 16-bit USB identifiers.
pub const DEVICE_INFO_LEN: usize = 772;

/// Descriptive information for one device.  The three text fields hold
/// the bytes of the native zero-terminated strings, without the
/// terminator.
#[derive(Debug, Clone, PartialEq, Eq)]
pub struct DeviceInfo {
    /// The identifier under which this exact device can be opened.
    pub uri: Vec<u8>,
    /// The device vendor.
    pub vendor: Vec<u8>,
    /// The product name.
    pub name: Vec<u8>,
    /// The USB vendor identifier.
    pub usb_vendor_id: u16,
    /// The USB product identifier.
    pub usb_product_id: u16,
}

/// What it means for `info` to be the descriptor stored at byte offset
/// `off` of a buffer: each text field is the decoded form of its
/// 256-byte zero-terminated region, and the USB identifiers are the two
/// little-endian 16-bit values after them.
pub open spec fn is_device_info_at(b: Seq<u8>, off: int, info: DeviceInfo) -> bool {
    &&& is_cstr_prefix(b.subrange(off, off + 256), info.uri@)
    &&& is_cstr_prefix(b.subrange(off + 256, off + 512), info.vendor@)
    &&& is_cstr_prefix(b.subrange(off + 512, off + 768), info.name@)
    &&& info.usb_vendor_id == u16_le_at(b, off + 768)
    &&& info.usb_product_id == u16_le_at(b, off + 770)
}

/// Decodes the device descriptor stored at a byte offset of a buffer.
pub fn decode_device_info(b: &[u8], off: usize) -> (r: DeviceInfo)
    requires
        off + DEVICE_INFO_LEN <= b@.len(),
    ensures
        is_device_info_at(b@, off as int, r),
{
    let n = b.len();
    DeviceInfo {
        uri: decode_c_string_field(b, off, MAX_STR),
        vendor: decode_c_string_field(b, off + 256, MAX_STR),
        name: decode_c_string_field(b, off + 512, MAX_STR),
        usb_vendor_id: read_u16_le(b, off + 768),
        usb_product_id: read_u16_le(b, off + 770),
    }
}

/// Decodes the packed array of device descriptors that a device
/// enumeration hands back.
pub fn decode_device_list(b: &[u8], count: usize) -> (r: Vec<DeviceInfo>)
    requires
        b@.len() == DEVICE_INFO_LEN * count,
    ensures
        r@.len() == count,
        forall|i: int| 0 <= i < count ==> #[trigger] is_device_info_at(b@, 772 * i, r@[i]),
{
    let n = b.len();
    let mut out: Vec<DeviceInfo> = Vec::new();
    let mut i: usize = 0;
    while i < count
        invariant
            0 <= i <= count,
            b@.len() == 772 * count,
            772 * count == n <= usize::MAX,
            out@.len() == i,
            forall|j: int| 0 <= j < i ==> #[trigger] is_device_info_at(b@, 772 * j, out@[j]),
        decreases count - i,
    {
        let info = decode_device_info(b, 772 * i);
        out.push(info);
        i = i + 1;
    }
    out
}

/// One open device.
///
/// The native device handle lives outside this crate; this type tracks
/// whether it is still open and how often it was closed.  Closing is
/// idempotent and happens exactly once over the device's life — the
/// drop path closes, and a second close changes nothing.
#[derive(Debug, Clone, PartialEq, Eq)]
pub struct Device {
    open: bool,
    closes: u64,
}

impl Device {
    /// Whether the native handle is still open.
    pub closed spec fn spec_open(self) -> bool {
        self.open
    }

    /// How often the native close call was issued.
    pub closed spec fn spec_closes(self) -> int {
        self.closes as int
    }

    /// The device's invariant: the handle is closed at most once, and
    /// not before the device's life ends.
    pub open spec fn wf(self) -> bool {
        &&& 0 <= self.spec_closes() <= 1
        &&& (self.spec_open() ==> self.spec_closes() == 0)
    }

    /// Interprets the outcome of the native open call — by default
    /// identifier or by a specific one: an open device on success, the
    /// structured status (no device found, and the rest) on failure.
    pub fn open(raw: RawStatus) -> (r: Result<Device, Status>)
        ensures
            r is Ok <==> raw.code == STATUS_OK,
            r matches Ok(d) ==> d.wf() && d.spec_open() && d.spec_closes() == 0,
            r matches Err(s) ==> s == Status::spec_of_raw(raw),
    {
        if raw.code == STATUS_OK {
            Ok(Device { open: true, closes: 0 })
        } else {
            Err(Status::from_raw(raw))
        }
    }

    /// Whether the native handle is still open.
    pub fn is_open(&self) -> (r: bool)
        ensures
            r == self.spec_open(),
    {
        self.open
    }

    /// The close transition: the device ends closed, and the native
    /// close call ran once more exactly when the device was still open.
    pub open spec fn close_transition(pre: Device, post: Device) -> bool {
        &&& !post.spec_open()
        &&& post.spec_closes() == pre.spec_closes() + (if pre.spec_open() {
            1int
        } else {
            0int
        })
    }

    /// Closes the device — the drop path.  Idempotent: closing an
    /// already-closed device issues no further native call.
    pub fn close(&mut self)
        requires
            old(self).wf(),
        ensures
            final(self).wf(),
            Device::close_transition(*old(self), *final(self)),
    {
        if self.open {
            self.open = false;
            self.closes = self.closes + 1;
        }
    }

    /// Reads the device descriptor from the reply to the native
    /// info query.  Succeeds exactly when the native call did and
    /// handed back a complete record — so a device whose open
    /// succeeded answers its info query without error whenever the
    /// native layer serves the well-formed record it owes.
    pub fn info(&self, reply: PropertyReply) -> (r: Result<DeviceInfo, Status>)
        requires
            self.spec_open(),
        ensures
            r is Ok <==> reply.raw.code == STATUS_OK && reply.data@.len() == DEVICE_INFO_LEN,
            r matches Ok(info) ==> is_device_info_at(reply.data@, 0, info),
            r matches Err(s) ==> (if reply.raw.code != STATUS_OK {
                s == Status::spec_of_raw(reply.raw)
            } else {
                s is Error
            }),
    {
        let data = take_property_data(reply, DEVICE_INFO_LEN)?;
        Ok(decode_device_info(data.as_slice(), 0))
    }

    /// Reads the firmware version string property: the bytes of the
    /// zero-terminated string in its fixed-size field.
    pub fn get_firmware_version(&self, reply: PropertyReply) -> (r: Result<Vec<u8>, Status>)
        requires
            self.spec_open(),
        ensures
            r is Ok <==> reply.raw.code == STATUS_OK && reply.data@.len() == MAX_STR,
            r matches Ok(v) ==> is_cstr_prefix(reply.data@, v@),
            r matches Err(s) ==> (if reply.raw.code != STATUS_OK {
                s == Status::spec_of_raw(reply.raw)
            } else {
                s is Error
            }),
    {
        let data = take_property_data(reply, MAX_STR)?;
        let decoded = decode_c_string_field(data.as_slice(), 0, MAX_STR);
        proof {
            assert(data@.subrange(0, 256) =~= data@);
        }
        Ok(decoded)
    }

    /// Reads the serial-number string property.
    pub fn get_serial_number(&self, reply: PropertyReply) -> (r: Result<Vec<u8>, Status>)
        requires
            self.spec_open(),
        ensures
            r is Ok <==> reply.raw.code == STATUS_OK && reply.data@.len() == MAX_STR,
            r matches Ok(v) ==> is_cstr_prefix(reply.data@, v@),
            r matches Err(s) ==> (if reply.raw.code != STATUS_OK {
                s == Status::spec_of_raw(reply.raw)
            } else {
                s is Error
            }),
    {
        let data = take_property_data(reply, MAX_STR)?;
        let decoded = decode_c_string_field(data.as_slice(), 0, MAX_STR);
        proof {
            assert(data@.subrange(0, 256) =~= data@);
        }
        Ok(decoded)
    }

    /// Reads the driver-version property.
    pub fn get_driver_version(&self, reply: PropertyReply) -> (r: Result<Version, Status>)
        requires
            self.spec_open(),
        ensures
            r is Ok <==> reply.raw.code == STATUS_OK && reply.data@.len() == 16,
            r matches Ok(v) ==> v == version_of_bytes(reply.data@),
            r matches Err(s) ==> (if reply.raw.code != STATUS_OK {
                s == Status::spec_of_raw(reply.raw)
            } else {
                s is Error
            }),
    {
        read_version_property(reply)
    }

    /// Reads the hardware-version property.
    pub fn get_hardware_version(&self, reply: PropertyReply) -> (r: Result<i32, Status>)
        requires
            self.spec_open(),
        ensures
            r is Ok <==> reply.raw.code == STATUS_OK && reply.data@.len() == 4,
            r matches Ok(v) ==> v == i32_at(reply.data@, 0),
            r matches Err(s) ==> (if reply.raw.code != STATUS_OK {
                s == Status::spec_of_raw(reply.raw)
            } else {
                s is Error
            }),
    {
        read_i32_property(reply)
    }

    /// Reads whether depth-to-color image registration is on: the
    /// registration-mode property holds the aligning mode's code.
    pub fn get_image_registration(&self, reply: PropertyReply) -> (r: Result<bool, Status>)
        requires
            self.spec_open(),
        ensures
            r is Ok <==> reply.raw.code == STATUS_OK && reply.data@.len() == 4,
            r matches Ok(v) ==> (v <==> i32_at(reply.data@, 0)
                == IMAGE_REGISTRATION_DEPTH_TO_COLOR),
            r matches Err(s) ==> (if reply.raw.code != STATUS_OK {
                s == Status::spec_of_raw(reply.raw)
            } else {
                s is Error
            }),
    {
        let v = read_i32_property(reply)?;
        Ok(v == IMAGE_REGISTRATION_DEPTH_TO_COLOR)
    }

    /// Reads whether a recorded source repeats its playback.
    pub fn get_playback_repeat_enabled(&self, reply: PropertyReply) -> (r: Result<bool, Status>)
        requires
            self.spec_open(),
        ensures
            r is Ok <==> reply.raw.code == STATUS_OK && reply.data@.len() == 4,
            r matches Ok(v) ==> (v <==> i32_at(reply.data@, 0) == 1),
            r matches Err(s) ==> (if reply.raw.code != STATUS_OK {
                s == Status::spec_of_raw(reply.raw)
            } else {
                s is Error
            }),
    {
        read_bool_property(reply)
    }

    /// Assembles what one sensor of the device offers: absent when the
    /// device lacks the sensor — a valid outcome, not a failure —
    /// otherwise the packed array of supported video modes, which must
    /// decode completely.
    pub fn get_sensor_info(
        &self,
        sensor_type: SensorType,
        present: bool,
        modes: &[u8],
        count: usize,
    ) -> (r: Result<Option<SensorInfo>, Status>)
        requires
            self.spec_open(),
            modes@.len() == 16 * count,
        ensures
            r is Ok <==> (!present || (forall|i: int|
                0 <= i < count ==> (#[trigger] video_mode_at(modes@, 16 * i)) is Some)),
            !present ==> r == Ok::<Option<SensorInfo>, Status>(None),
            r matches Ok(Some(si)) ==> {
                &&& present
                &&& si.sensor_type == sensor_type
                &&& si.video_modes@.len() == count
                &&& forall|i: int|
                    0 <= i < count ==> Some(si.video_modes@[i]) == #[trigger] video_mode_at(
                        modes@,
                        16 * i,
                    )
            },
            present && r is Ok ==> r matches Ok(Some(_)),
            r matches Err(s) ==> s is Error,
    {
        if !present {
            return Ok(None);
        }
        let video_modes = decode_video_modes(modes, count)?;
        Ok(Some(SensorInfo { sensor_type, video_modes }))
    }

    /// Interprets the outcome of creating a stream on one of the
    /// device's sensors.
    pub fn create_stream(&self, sensor_type: SensorType, raw: RawStatus) -> (r: Result<
        Stream,
        Status,
    >)
        requires
            self.spec_open(),
        ensures
            r is Ok <==> raw.code == STATUS_OK,
            r matches Ok(s) ==> {
                &&& s.spec_sensor_type() == sensor_type
                &&& s.spec_phase() == crate::stream::StreamPhase::Created
                &&& s.spec_alive()
            },
            r matches Err(s) ==> s == Status::spec_of_raw(raw),
    {
        Stream::create(self, sensor_type, raw)
    }
}

/// Closing a device that is open closes the native handle exactly once:
/// the close that ends its life issues one native call, and any close
/// after that issues none.
pub proof fn lemma_device_close_exactly_once(d0: Device, d1: Device, d2: Device)
    requires
        d0.wf(),
        d0.spec_open(),
        Device::close_transition(d0, d1),
        Device::close_transition(d1, d2),
    ensures
        d1.spec_closes() == 1,
        d2.spec_closes() == 1,
        !d2.spec_open(),
{
}

/// Encodes the image-registration property for a set call: the aligning
/// mode's code to turn registration on, the off code to turn it off.
pub fn encode_image_registration(on: bool) -> (r: Vec<u8>)
    ensures
        r@ == i32_le_bytes(
            if on {
                IMAGE_REGISTRATION_DEPTH_TO_COLOR
            } else {
                IMAGE_REGISTRATION_OFF
            },
        ),
        r@.len() == 4,
{
    if on {
        encode_i32_property(IMAGE_REGISTRATION_DEPTH_TO_COLOR)
    } else {
        encode_i32_property(IMAGE_REGISTRATION_OFF)
    }
}

} // verus!

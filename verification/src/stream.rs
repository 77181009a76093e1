//! A video stream bound to one sensor of a device: its lifecycle state
//! machine, its cropping rectangle and the codec for it, and the typed
//! interpreters for every stream property the native layer serves as a
//! fixed-size byte buffer.
//!
//! The native calls themselves happen outside this crate.  Each
//! state-changing method takes the raw outcome of the corresponding
//! native call and decides what it means: whether the transition
//! happened, what the caller is told, and that a failure leaves the
//! stream exactly as it was.

use vstd::prelude::*;
use crate::codec::PropertyReply;
use crate::codec::i32_at;
use crate::codec::i32_le_bytes;
use crate::codec::push_i32_le;
use crate::codec::read_bool_property;
use crate::codec::read_i32_le;
use crate::codec::read_i32_property;
use crate::codec::read_video_mode_property;
use crate::codec::take_property_data;
use crate::codec::video_mode_at;
use crate::codec::decode_video_modes;
use crate::codec::lemma_u16_widen_round_trip;
use crate::device::Device;
use crate::listener::StreamListener;
use crate::types::RawStatus;
use crate::types::STATUS_OK;
use crate::types::SensorInfo;
use crate::types::SensorType;
use crate::types::Status;
use crate::types::VideoMode;

verus! {

/// The sub-rectangle of the full sensor image that a stream is
/// configured to output.
#[derive(Debug, Copy, Clone, PartialEq, Eq, Structural)]
pub struct Cropping {
    /// Width of the crop in pixels.
    pub width: u16,
    /// Height of the crop in pixels.
    pub height: u16,
    /// Left offset of the crop.
    pub origin_x: u16,
    /// Top offset of the crop.
    pub origin_y: u16,
}

/// The byte layout of the native cropping record: enabled flag, left
/// offset, top offset, width and height, each a little-endian 32-bit
/// integer.  An absent cropping is the record with every field zero.
pub open spec fn cropping_bytes(c: Option<Cropping>) -> Seq<u8> {
    match c {
        Some(cr) => i32_le_bytes(1) + i32_le_bytes(cr.origin_x as i32) + i32_le_bytes(
            cr.origin_y as i32,
        ) + i32_le_bytes(cr.width as i32) + i32_le_bytes(cr.height as i32),
        None => i32_le_bytes(0) + i32_le_bytes(0) + i32_le_bytes(0) + i32_le_bytes(0)
            + i32_le_bytes(0),
    }
}

/// The cropping stored in a 20-byte native record: present when the
/// enabled flag is positive, with each dimension truncated to its
/// 16-bit range.
pub open spec fn cropping_of_bytes(b: Seq<u8>) -> Option<Cropping> {
    if i32_at(b, 0) > 0 {
        Some(
            Cropping {
                origin_x: i32_at(b, 4) as u16,
                origin_y: i32_at(b, 8) as u16,
                width: i32_at(b, 12) as u16,
                height: i32_at(b, 16) as u16,
            },
        )
    } else {
        None
    }
}

/// Encodes a cropping — or its absence — into the 20-byte native
/// record.
pub fn encode_cropping(c: Option<Cropping>) -> (r: Vec<u8>)
    ensures
        r@ == cropping_bytes(c),
        r@.len() == 20,
{
    let mut out: Vec<u8> = Vec::new();
    match c {
        Some(cr) => {
            push_i32_le(&mut out, 1);
            push_i32_le(&mut out, cr.origin_x as i32);
            push_i32_le(&mut out, cr.origin_y as i32);
            push_i32_le(&mut out, cr.width as i32);
            push_i32_le(&mut out, cr.height as i32);
        },
        None => {
            push_i32_le(&mut out, 0);
            push_i32_le(&mut out, 0);
            push_i32_le(&mut out, 0);
            push_i32_le(&mut out, 0);
            push_i32_le(&mut out, 0);
        },
    }
    assert(out@ =~= cropping_bytes(c));
    out
}

/// Decodes the native cropping record.
pub fn decode_cropping(b: &[u8]) -> (r: Option<Cropping>)
    requires
        b@.len() == 20,
    ensures
        r == cropping_of_bytes(b@),
{
    let enabled = read_i32_le(b, 0);
    if enabled > 0 {
        Some(
            Cropping {
                origin_x: #[verifier::truncate] (read_i32_le(b, 4) as u16),
                origin_y: #[verifier::truncate] (read_i32_le(b, 8) as u16),
                width: #[verifier::truncate] (read_i32_le(b, 12) as u16),
                height: #[verifier::truncate] (read_i32_le(b, 16) as u16),
            },
        )
    } else {
        None
    }
}

/// Round trip of the cropping codec: decoding an encoded cropping —
/// present or absent — yields it back.  Together with the video-mode
/// round trip this is what makes a set-then-get pair faithful whenever
/// the native layer accepted the set.
pub proof fn lemma_cropping_round_trip(c: Option<Cropping>)
    ensures
        cropping_bytes(c).len() == 20,
        cropping_of_bytes(cropping_bytes(c)) == c,
{
    let b = cropping_bytes(c);
    match c {
        Some(cr) => {
            crate::codec::lemma_i32_le_round_trip(1);
            crate::codec::lemma_i32_le_round_trip(cr.origin_x as i32);
            crate::codec::lemma_i32_le_round_trip(cr.origin_y as i32);
            crate::codec::lemma_i32_le_round_trip(cr.width as i32);
            crate::codec::lemma_i32_le_round_trip(cr.height as i32);
            lemma_u16_widen_round_trip(cr.origin_x);
            lemma_u16_widen_round_trip(cr.origin_y);
            lemma_u16_widen_round_trip(cr.width);
            lemma_u16_widen_round_trip(cr.height);
            assert(i32_at(b, 0) == i32_at(i32_le_bytes(1), 0));
            assert(i32_at(b, 4) == i32_at(i32_le_bytes(cr.origin_x as i32), 0));
            assert(i32_at(b, 8) == i32_at(i32_le_bytes(cr.origin_y as i32), 0));
            assert(i32_at(b, 12) == i32_at(i32_le_bytes(cr.width as i32), 0));
            assert(i32_at(b, 16) == i32_at(i32_le_bytes(cr.height as i32), 0));
        },
        None => {
            crate::codec::lemma_i32_le_round_trip(0);
            assert(i32_at(b, 0) == i32_at(i32_le_bytes(0), 0));
        },
    }
}

/// Where a live stream stands in its start/stop cycle.
#[derive(Debug, Copy, Clone, PartialEq, Eq, Structural)]
pub enum StreamPhase {
    /// Freshly created; never started.
    Created,
    /// Flowing: frames can be read.
    Started,
    /// Explicitly stopped; can be started again.
    Stopped,
}

/// One video stream bound to a sensor of an open device.
///
/// The stream's native handle lives outside this crate; this type
/// tracks what is true of it: which sensor it reads, where it stands in
/// the start/stop cycle, and whether the handle still exists.  Every
/// transition takes the raw outcome of the corresponding native call,
/// and a failed call never moves the state.
#[derive(Debug, Clone, PartialEq, Eq)]
pub struct Stream {
    sensor_type: SensorType,
    phase: StreamPhase,
    alive: bool,
}

impl Stream {
    /// Which sensor the stream reads.
    pub closed spec fn spec_sensor_type(self) -> SensorType {
        self.sensor_type
    }

    /// Where the stream stands in its start/stop cycle.
    pub closed spec fn spec_phase(self) -> StreamPhase {
        self.phase
    }

    /// Whether the native stream handle still exists.  Destroying the
    /// stream — the drop path — clears this, and every operation
    /// demands it.
    pub closed spec fn spec_alive(self) -> bool {
        self.alive
    }

    /// Interprets the outcome of creating a native stream on a sensor
    /// of an open device.  On success the stream starts its life in the
    /// created phase; on failure the caller gets the structured status.
    pub fn create(device: &Device, sensor_type: SensorType, raw: RawStatus) -> (r: Result<
        Stream,
        Status,
    >)
        requires
            device.spec_open(),
        ensures
            r is Ok <==> raw.code == STATUS_OK,
            r matches Ok(s) ==> {
                &&& s.spec_sensor_type() == sensor_type
                &&& s.spec_phase() == StreamPhase::Created
                &&& s.spec_alive()
            },
            r matches Err(s) ==> s == Status::spec_of_raw(raw),
    {
        if raw.code == STATUS_OK {
            Ok(Stream { sensor_type, phase: StreamPhase::Created, alive: true })
        } else {
            Err(Status::from_raw(raw))
        }
    }

    /// Which sensor the stream reads.
    pub fn sensor_type(&self) -> (r: SensorType)
        ensures
            r == self.spec_sensor_type(),
    {
        self.sensor_type
    }

    /// Where the stream stands in its start/stop cycle.
    pub fn phase(&self) -> (r: StreamPhase)
        ensures
            r == self.spec_phase(),
    {
        self.phase
    }

    /// Whether the native stream handle still exists.
    pub fn is_alive(&self) -> (r: bool)
        ensures
            r == self.spec_alive(),
    {
        self.alive
    }

    /// Interprets the outcome of the native start call: on success the
    /// stream is flowing; on failure — a busy device, an unsupported
    /// mode — it stays exactly where it was and the caller gets the
    /// structured status.
    pub fn start(&mut self, raw: RawStatus) -> (r: Result<(), Status>)
        requires
            old(self).spec_alive(),
        ensures
            r is Ok <==> raw.code == STATUS_OK,
            final(self).spec_alive(),
            final(self).spec_sensor_type() == old(self).spec_sensor_type(),
            r is Ok ==> final(self).spec_phase() == StreamPhase::Started,
            r matches Err(s) ==> final(self).spec_phase() == old(self).spec_phase() && s
                == Status::spec_of_raw(raw),
    {
        if raw.code == STATUS_OK {
            self.phase = StreamPhase::Started;
            Ok(())
        } else {
            Err(Status::from_raw(raw))
        }
    }

    /// Stops the stream.  Safe from every phase — never started,
    /// already stopped, or flowing — it always succeeds, never panics,
    /// and leaves the stream stopped; the native stop call it mirrors
    /// returns nothing and is idempotent.
    pub fn stop(&mut self)
        requires
            old(self).spec_alive(),
        ensures
            final(self).spec_alive(),
            final(self).spec_phase() == StreamPhase::Stopped,
            final(self).spec_sensor_type() == old(self).spec_sensor_type(),
    {
        self.phase = StreamPhase::Stopped;
    }

    /// The drop path: stops the stream, then gives up the native
    /// handle.  After this no operation accepts the stream, so the
    /// handle is destroyed exactly once.
    pub fn destroy(&mut self)
        requires
            old(self).spec_alive(),
        ensures
            !final(self).spec_alive(),
            final(self).spec_phase() == StreamPhase::Stopped,
            final(self).spec_sensor_type() == old(self).spec_sensor_type(),
    {
        self.stop();
        self.alive = false;
    }

    /// Reads the stream's configured video mode from the property
    /// reply.
    pub fn get_video_mode(&self, reply: PropertyReply) -> (r: Result<VideoMode, Status>)
        requires
            self.spec_alive(),
        ensures
            r is Ok <==> reply.raw.code == STATUS_OK && reply.data@.len() == 16 && video_mode_at(
                reply.data@,
                0,
            ) is Some,
            r matches Ok(m) ==> Some(m) == video_mode_at(reply.data@, 0),
            r matches Err(s) ==> (if reply.raw.code != STATUS_OK {
                s == Status::spec_of_raw(reply.raw)
            } else {
                s is Error
            }),
    {
        read_video_mode_property(reply)
    }

    /// Reads the stream's cropping from the property reply: the
    /// rectangle when cropping is enabled, absent when it is not.
    pub fn get_cropping(&self, reply: PropertyReply) -> (r: Result<Option<Cropping>, Status>)
        requires
            self.spec_alive(),
        ensures
            r is Ok <==> reply.raw.code == STATUS_OK && reply.data@.len() == 20,
            r matches Ok(c) ==> c == cropping_of_bytes(reply.data@),
            r matches Err(s) ==> (if reply.raw.code != STATUS_OK {
                s == Status::spec_of_raw(reply.raw)
            } else {
                s is Error
            }),
    {
        let data = take_property_data(reply, 20)?;
        Ok(decode_cropping(data.as_slice()))
    }

    /// Reads whether the stream mirrors its image.
    pub fn get_mirroring(&self, reply: PropertyReply) -> (r: Result<bool, Status>)
        requires
            self.spec_alive(),
        ensures
            r is Ok <==> reply.raw.code == STATUS_OK && reply.data@.len() == 4,
            r matches Ok(v) ==> (v <==> i32_at(reply.data@, 0) == 1),
            r matches Err(s) ==> (if reply.raw.code != STATUS_OK {
                s == Status::spec_of_raw(reply.raw)
            } else {
                s is Error
            }),
    {
        read_bool_property(reply)
    }

    /// Reads the largest value a pixel of a depth stream can take.
    pub fn get_max_value(&self, reply: PropertyReply) -> (r: Result<i32, Status>)
        requires
            self.spec_alive(),
        ensures
            r is Ok <==> reply.raw.code == STATUS_OK && reply.data@.len() == 4,
            r matches Ok(v) ==> v == i32_at(reply.data@, 0),
            r matches Err(s) ==> (if reply.raw.code != STATUS_OK {
                s == Status::spec_of_raw(reply.raw)
            } else {
                s is Error
            }),
    {
        read_i32_property(reply)
    }

    /// Reads the smallest value a pixel of a depth stream can take.
    pub fn get_min_value(&self, reply: PropertyReply) -> (r: Result<i32, Status>)
        requires
            self.spec_alive(),
        ensures
            r is Ok <==> reply.raw.code == STATUS_OK && reply.data@.len() == 4,
            r matches Ok(v) ==> v == i32_at(reply.data@, 0),
            r matches Err(s) ==> (if reply.raw.code != STATUS_OK {
                s == Status::spec_of_raw(reply.raw)
            } else {
                s is Error
            }),
    {
        read_i32_property(reply)
    }

    /// Reads the stream's row stride in bytes.
    pub fn get_stride(&self, reply: PropertyReply) -> (r: Result<i32, Status>)
        requires
            self.spec_alive(),
        ensures
            r is Ok <==> reply.raw.code == STATUS_OK && reply.data@.len() == 4,
            r matches Ok(v) ==> v == i32_at(reply.data@, 0),
            r matches Err(s) ==> (if reply.raw.code != STATUS_OK {
                s == Status::spec_of_raw(reply.raw)
            } else {
                s is Error
            }),
    {
        read_i32_property(reply)
    }

    /// Reads how many frames a recorded stream holds.
    pub fn get_number_of_frames(&self, reply: PropertyReply) -> (r: Result<i32, Status>)
        requires
            self.spec_alive(),
        ensures
            r is Ok <==> reply.raw.code == STATUS_OK && reply.data@.len() == 4,
            r matches Ok(v) ==> v == i32_at(reply.data@, 0),
            r matches Err(s) ==> (if reply.raw.code != STATUS_OK {
                s == Status::spec_of_raw(reply.raw)
            } else {
                s is Error
            }),
    {
        read_i32_property(reply)
    }

    /// Reads whether automatic white balance is on.
    pub fn get_auto_white_balance(&self, reply: PropertyReply) -> (r: Result<bool, Status>)
        requires
            self.spec_alive(),
        ensures
            r is Ok <==> reply.raw.code == STATUS_OK && reply.data@.len() == 4,
            r matches Ok(v) ==> (v <==> i32_at(reply.data@, 0) == 1),
            r matches Err(s) ==> (if reply.raw.code != STATUS_OK {
                s == Status::spec_of_raw(reply.raw)
            } else {
                s is Error
            }),
    {
        read_bool_property(reply)
    }

    /// Reads whether automatic exposure is on.
    pub fn get_auto_exposure(&self, reply: PropertyReply) -> (r: Result<bool, Status>)
        requires
            self.spec_alive(),
        ensures
            r is Ok <==> reply.raw.code == STATUS_OK && reply.data@.len() == 4,
            r matches Ok(v) ==> (v <==> i32_at(reply.data@, 0) == 1),
            r matches Err(s) ==> (if reply.raw.code != STATUS_OK {
                s == Status::spec_of_raw(reply.raw)
            } else {
                s is Error
            }),
    {
        read_bool_property(reply)
    }

    /// Reads the stream's exposure setting.
    pub fn get_exposure(&self, reply: PropertyReply) -> (r: Result<i32, Status>)
        requires
            self.spec_alive(),
        ensures
            r is Ok <==> reply.raw.code == STATUS_OK && reply.data@.len() == 4,
            r matches Ok(v) ==> v == i32_at(reply.data@, 0),
            r matches Err(s) ==> (if reply.raw.code != STATUS_OK {
                s == Status::spec_of_raw(reply.raw)
            } else {
                s is Error
            }),
    {
        read_i32_property(reply)
    }

    /// Reads the stream's gain setting.
    pub fn get_gain(&self, reply: PropertyReply) -> (r: Result<i32, Status>)
        requires
            self.spec_alive(),
        ensures
            r is Ok <==> reply.raw.code == STATUS_OK && reply.data@.len() == 4,
            r matches Ok(v) ==> v == i32_at(reply.data@, 0),
            r matches Err(s) ==> (if reply.raw.code != STATUS_OK {
                s == Status::spec_of_raw(reply.raw)
            } else {
                s is Error
            }),
    {
        read_i32_property(reply)
    }

    /// Assembles what the stream's sensor offers from the native
    /// sensor-info record: absent when the native layer returned
    /// nothing (the stream is then out of flow), otherwise the packed
    /// array of supported video modes.
    pub fn sensor_info(&self, present: bool, modes: &[u8], count: usize) -> (r: Result<
        SensorInfo,
        Status,
    >)
        requires
            self.spec_alive(),
            modes@.len() == 16 * count,
        ensures
            r is Ok <==> present && (forall|i: int|
                0 <= i < count ==> (#[trigger] video_mode_at(modes@, 16 * i)) is Some),
            r matches Ok(si) ==> {
                &&& si.sensor_type == self.spec_sensor_type()
                &&& si.video_modes@.len() == count
                &&& forall|i: int|
                    0 <= i < count ==> Some(si.video_modes@[i]) == #[trigger] video_mode_at(
                        modes@,
                        16 * i,
                    )
            },
            r matches Err(s) ==> (if present {
                s is Error
            } else {
                s is OutOfFlow
            }),
    {
        if !present {
            return Err(Status::OutOfFlow);
        }
        let video_modes = decode_video_modes(modes, count)?;
        Ok(SensorInfo { sensor_type: self.sensor_type, video_modes })
    }

    /// Interprets the outcome of registering a frame-ready callback on
    /// this stream: a live listener bound to the registration on
    /// success, the structured status on failure.
    pub fn listener(&self, raw: RawStatus) -> (r: Result<StreamListener, Status>)
        requires
            self.spec_alive(),
        ensures
            r is Ok <==> raw.code == STATUS_OK,
            r matches Ok(l) ==> {
                &&& l.wf()
                &&& l.spec_registered()
                &&& l.spec_invocations() == 0
                &&& l.spec_history() == Seq::<usize>::empty()
            },
            r matches Err(s) ==> s == Status::spec_of_raw(raw),
    {
        StreamListener::register(raw)
    }
}

} // verus!

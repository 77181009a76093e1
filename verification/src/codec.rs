//! Byte-level codecs for the fixed-layout values that cross the native
//! property boundary, and the status-and-size check that every
//! fixed-width property read goes through.
//!
//! The native layer reads and writes properties through untyped pointers
//! plus a byte count.  On this side of the boundary a property is a plain
//! byte buffer; the functions here are the only place where such a buffer
//! is interpreted, and each one states exactly which bytes mean what.

use vstd::prelude::*;
use crate::types::PixelFormat;
use crate::types::RawStatus;
use crate::types::STATUS_OK;
use crate::types::Status;
use crate::types::Version;
use crate::types::VideoMode;

verus! {

/// The four little-endian bytes of a 32-bit integer.
pub open spec fn i32_le_bytes(x: i32) -> Seq<u8> {
    seq![x as u8, (x >> 8) as u8, (x >> 16) as u8, (x >> 24) as u8]
}

/// The 32-bit integer denoted by four little-endian bytes.
pub open spec fn i32_from_le(b0: u8, b1: u8, b2: u8, b3: u8) -> i32 {
    ((b0 as u32) | ((b1 as u32) << 8) | ((b2 as u32) << 16) | ((b3 as u32) << 24)) as i32
}

/// The 32-bit integer stored little-endian at a byte offset of a buffer.
pub open spec fn i32_at(b: Seq<u8>, off: int) -> i32 {
    i32_from_le(b[off], b[off + 1], b[off + 2], b[off + 3])
}

/// Reading four little-endian bytes back yields the integer they encode.
pub proof fn lemma_i32_le_round_trip(x: i32)
    ensures
        i32_at(i32_le_bytes(x), 0) == x,
{
    assert(((x as u8 as u32) | (((x >> 8) as u8 as u32) << 8) | (((x >> 16) as u8 as u32) << 16)
        | (((x >> 24) as u8 as u32) << 24)) as i32 == x) by (bit_vector);
}

/// A 16-bit value survives widening to 32 bits and truncating back.
pub proof fn lemma_u16_widen_round_trip(x: u16)
    ensures
        (x as i32) as u16 == x,
        0 <= x as i32 <= 65535,
{
    assert((x as i32) as u16 == x) by (bit_vector);
    assert(0 <= x as i32 <= 65535) by (bit_vector);
}

/// Appends the four little-endian bytes of an integer to a buffer.
pub fn push_i32_le(out: &mut Vec<u8>, x: i32)
    ensures
        final(out)@ == old(out)@ + i32_le_bytes(x),
{
    out.push(#[verifier::truncate] (x as u8));
    out.push(#[verifier::truncate] ((x >> 8) as u8));
    out.push(#[verifier::truncate] ((x >> 16) as u8));
    out.push(#[verifier::truncate] ((x >> 24) as u8));
    assert(out@ =~= old(out)@ + i32_le_bytes(x));
}

/// Reads the little-endian integer stored at a byte offset of a buffer.
pub fn read_i32_le(b: &[u8], off: usize) -> (r: i32)
    requires
        off + 4 <= b@.len(),
    ensures
        r == i32_at(b@, off as int),
{
    let b0 = b[off];
    let b1 = b[off + 1];
    let b2 = b[off + 2];
    let b3 = b[off + 3];
    #[verifier::truncate] (((b0 as u32) | ((b1 as u32) << 8) | ((b2 as u32) << 16) | ((b3
        as u32) << 24)) as i32)
}

/// Reply to one native property read: the raw outcome of the call and the
/// bytes the native layer wrote back (exactly as many as it reported
/// having written).
#[derive(Debug, Clone)]
pub struct PropertyReply {
    /// The status code and diagnostic captured right after the call.
    pub raw: RawStatus,
    /// The bytes the native layer handed back.
    pub data: Vec<u8>,
}

/// The status-and-size check behind every fixed-width property read: the
/// data bytes are handed on only when the native call succeeded and wrote
/// exactly the expected number of bytes.  A wrong byte count is reported
/// as an error, never interpreted.
pub fn take_property_data(reply: PropertyReply, expected_len: usize) -> (r: Result<
    Vec<u8>,
    Status,
>)
    ensures
        r is Ok <==> reply.raw.code == STATUS_OK && reply.data@.len() == expected_len,
        r matches Ok(d) ==> d == reply.data,
        r matches Err(s) ==> (if reply.raw.code != STATUS_OK {
            s == Status::spec_of_raw(reply.raw)
        } else {
            s matches Status::Error(m) && m@ == "native property reply has the wrong size"@
        }),
{
    if reply.raw.code != STATUS_OK {
        Err(Status::from_raw(reply.raw))
    } else if reply.data.len() != expected_len {
        Err(Status::Error("native property reply has the wrong size".to_owned()))
    } else {
        Ok(reply.data)
    }
}

/// Reads a property that holds one native 32-bit integer.
pub fn read_i32_property(reply: PropertyReply) -> (r: Result<i32, Status>)
    ensures
        r is Ok <==> reply.raw.code == STATUS_OK && reply.data@.len() == 4,
        r matches Ok(v) ==> v == i32_at(reply.data@, 0),
        r matches Err(s) ==> (if reply.raw.code != STATUS_OK {
            s == Status::spec_of_raw(reply.raw)
        } else {
            s is Error
        }),
{
    let data = take_property_data(reply, 4)?;
    Ok(read_i32_le(data.as_slice(), 0))
}

/// Reads a property that holds a native boolean: one 32-bit integer that
/// is one when the flag is set.
pub fn read_bool_property(reply: PropertyReply) -> (r: Result<bool, Status>)
    ensures
        r is Ok <==> reply.raw.code == STATUS_OK && reply.data@.len() == 4,
        r matches Ok(v) ==> (v <==> i32_at(reply.data@, 0) == 1),
        r matches Err(s) ==> (if reply.raw.code != STATUS_OK {
            s == Status::spec_of_raw(reply.raw)
        } else {
            s is Error
        }),
{
    let v = read_i32_property(reply)?;
    Ok(v == 1)
}

/// The byte layout of a four-component version record: four little-endian
/// 32-bit integers.
pub open spec fn version_bytes(v: Version) -> Seq<u8> {
    i32_le_bytes(v.major) + i32_le_bytes(v.minor) + i32_le_bytes(v.maintenance) + i32_le_bytes(
        v.build,
    )
}

/// The version record stored in a 16-byte buffer.
pub open spec fn version_of_bytes(b: Seq<u8>) -> Version {
    Version {
        major: i32_at(b, 0),
        minor: i32_at(b, 4),
        maintenance: i32_at(b, 8),
        build: i32_at(b, 12),
    }
}

/// Decodes a version record from its 16-byte native layout.
pub fn decode_version(b: &[u8]) -> (r: Version)
    requires
        b@.len() == 16,
    ensures
        r == version_of_bytes(b@),
{
    Version {
        major: read_i32_le(b, 0),
        minor: read_i32_le(b, 4),
        maintenance: read_i32_le(b, 8),
        build: read_i32_le(b, 12),
    }
}

/// Reads a property that holds a four-component version record.
pub fn read_version_property(reply: PropertyReply) -> (r: Result<Version, Status>)
    ensures
        r is Ok <==> reply.raw.code == STATUS_OK && reply.data@.len() == 16,
        r matches Ok(v) ==> v == version_of_bytes(reply.data@),
        r matches Err(s) ==> (if reply.raw.code != STATUS_OK {
            s == Status::spec_of_raw(reply.raw)
        } else {
            s is Error
        }),
{
    let data = take_property_data(reply, 16)?;
    Ok(decode_version(data.as_slice()))
}

/// The 16-bit value stored little-endian at a byte offset of a buffer,
/// as the integer it denotes.
pub open spec fn u16_le_at(b: Seq<u8>, off: int) -> int {
    b[off] + 256 * b[off + 1]
}

/// Reads the little-endian 16-bit value stored at a byte offset.
pub fn read_u16_le(b: &[u8], off: usize) -> (r: u16)
    requires
        off + 2 <= b@.len(),
    ensures
        r == u16_le_at(b@, off as int),
{
    let lo = b[off];
    let hi = b[off + 1];
    (lo as u16) + (hi as u16) * 256
}

/// Encodes a property that holds one native 32-bit integer.
pub fn encode_i32_property(x: i32) -> (r: Vec<u8>)
    ensures
        r@ == i32_le_bytes(x),
        r@.len() == 4,
{
    let mut out: Vec<u8> = Vec::new();
    push_i32_le(&mut out, x);
    out
}

/// Encodes a property that holds a native boolean: a 32-bit integer that
/// is one for a set flag and zero for a cleared one.
pub fn encode_bool_property(v: bool) -> (r: Vec<u8>)
    ensures
        r@ == i32_le_bytes(if v { 1i32 } else { 0i32 }),
        r@.len() == 4,
{
    encode_i32_property(if v { 1 } else { 0 })
}

/// The byte layout of a video mode: pixel-format code, horizontal and
/// vertical resolution, and frame rate, each a little-endian 32-bit
/// integer.
pub open spec fn video_mode_bytes(m: VideoMode) -> Seq<u8> {
    i32_le_bytes(m.pixel_format.spec_code()) + i32_le_bytes(m.resolution_x) + i32_le_bytes(
        m.resolution_y,
    ) + i32_le_bytes(m.fps)
}

/// Encodes a video mode into its 16-byte native layout.
pub fn encode_video_mode(m: &VideoMode) -> (r: Vec<u8>)
    ensures
        r@ == video_mode_bytes(*m),
        r@.len() == 16,
{
    let mut out: Vec<u8> = Vec::new();
    push_i32_le(&mut out, m.pixel_format.code());
    push_i32_le(&mut out, m.resolution_x);
    push_i32_le(&mut out, m.resolution_y);
    push_i32_le(&mut out, m.fps);
    assert(out@ =~= video_mode_bytes(*m));
    out
}

/// The video mode stored at a byte offset of a buffer, when the
/// pixel-format code there is a known one.
pub open spec fn video_mode_at(b: Seq<u8>, off: int) -> Option<VideoMode> {
    match PixelFormat::spec_from_code(i32_at(b, off)) {
        Some(pixel_format) => Some(
            VideoMode {
                pixel_format,
                resolution_x: i32_at(b, off + 4),
                resolution_y: i32_at(b, off + 8),
                fps: i32_at(b, off + 12),
            },
        ),
        None => None,
    }
}

/// Decodes the video mode stored at a byte offset of a buffer.  Fails
/// exactly when the stored pixel-format code is not a known format.
pub fn decode_video_mode_at(b: &[u8], off: usize) -> (r: Option<VideoMode>)
    requires
        off + 16 <= b@.len(),
    ensures
        r == video_mode_at(b@, off as int),
{
    let n = b.len();
    let format_code = read_i32_le(b, off);
    match PixelFormat::from_code(format_code) {
        Some(pixel_format) => Some(
            VideoMode {
                pixel_format,
                resolution_x: read_i32_le(b, off + 4),
                resolution_y: read_i32_le(b, off + 8),
                fps: read_i32_le(b, off + 12),
            },
        ),
        None => None,
    }
}

/// Decodes a video mode from its 16-byte native layout.  Fails exactly
/// when the buffer has the wrong size or the stored pixel-format code is
/// not one of the known formats.
pub fn decode_video_mode(b: &[u8]) -> (r: Option<VideoMode>)
    ensures
        r == if b@.len() == 16 {
            video_mode_at(b@, 0)
        } else {
            None::<VideoMode>
        },
{
    if b.len() != 16 {
        return None;
    }
    decode_video_mode_at(b, 0)
}

/// Round trip of the video-mode codec: decoding an encoded video mode
/// yields the same video mode.  This is what makes a set-then-get pair
/// faithful whenever the native layer accepted the set: the bytes handed
/// to the native layer and the bytes read back denote the same mode.
pub proof fn lemma_video_mode_round_trip(m: VideoMode)
    ensures
        video_mode_bytes(m).len() == 16,
        video_mode_at(video_mode_bytes(m), 0) == Some(m),
{
    let b = video_mode_bytes(m);
    lemma_i32_le_round_trip(m.pixel_format.spec_code());
    lemma_i32_le_round_trip(m.resolution_x);
    lemma_i32_le_round_trip(m.resolution_y);
    lemma_i32_le_round_trip(m.fps);
    crate::types::lemma_pixel_format_code_round_trip(m.pixel_format);
    assert(i32_at(b, 0) == i32_at(i32_le_bytes(m.pixel_format.spec_code()), 0));
    assert(i32_at(b, 4) == i32_at(i32_le_bytes(m.resolution_x), 0));
    assert(i32_at(b, 8) == i32_at(i32_le_bytes(m.resolution_y), 0));
    assert(i32_at(b, 12) == i32_at(i32_le_bytes(m.fps), 0));
}

/// Reads a property that holds one video mode.  Beyond the size check,
/// the read fails when the stored pixel-format code is unknown.
pub fn read_video_mode_property(reply: PropertyReply) -> (r: Result<VideoMode, Status>)
    ensures
        r is Ok <==> reply.raw.code == STATUS_OK && reply.data@.len() == 16 && video_mode_at(
            reply.data@,
            0,
        ) is Some,
        r matches Ok(m) ==> Some(m) == video_mode_at(reply.data@, 0),
        r matches Err(s) ==> (if reply.raw.code != STATUS_OK {
            s == Status::spec_of_raw(reply.raw)
        } else {
            s is Error
        }),
{
    let data = take_property_data(reply, 16)?;
    match decode_video_mode_at(data.as_slice(), 0) {
        Some(m) => Ok(m),
        None => Err(Status::Error("native video mode has an unknown pixel format".to_owned())),
    }
}

/// Decodes a packed array of 16-byte video-mode records, as the native
/// layer lays out a sensor's supported modes.  Fails exactly when some
/// record holds an unknown pixel-format code.
pub fn decode_video_modes(b: &[u8], count: usize) -> (r: Result<Vec<VideoMode>, Status>)
    requires
        b@.len() == 16 * count,
    ensures
        r is Ok <==> (forall|i: int| 0 <= i < count ==> (#[trigger] video_mode_at(b@, 16 * i)) is Some),
        r matches Ok(v) ==> v@.len() == count && (forall|i: int|
            0 <= i < count ==> Some(v@[i]) == #[trigger] video_mode_at(b@, 16 * i)),
        r matches Err(s) ==> s is Error,
{
    let n = b.len();
    let mut out: Vec<VideoMode> = Vec::new();
    let mut i: usize = 0;
    while i < count
        invariant
            0 <= i <= count,
            b@.len() == 16 * count,
            16 * count == n <= usize::MAX,
            out@.len() == i,
            forall|j: int| 0 <= j < i ==> Some(out@[j]) == #[trigger] video_mode_at(b@, 16 * j),
        decreases count - i,
    {
        match decode_video_mode_at(b, 16 * i) {
            Some(m) => { out.push(m) },
            None => {
                return Err(
                    Status::Error("native video mode has an unknown pixel format".to_owned()),
                );
            },
        }
        i = i + 1;
    }
    Ok(out)
}

/// What it means for `p` to be the decoded form of the C string stored in
/// `b`: the longest zero-free prefix, cut at the first zero byte when
/// there is one.  Decoding never reads past the terminator.
pub open spec fn is_cstr_prefix(b: Seq<u8>, p: Seq<u8>) -> bool {
    &&& p.len() <= b.len()
    &&& p == b.subrange(0, p.len() as int)
    &&& forall|i: int| 0 <= i < p.len() ==> p[i] != 0
    &&& p.len() == b.len() || b[p.len() as int] == 0
}

/// Decodes a fixed-size, zero-terminated native string buffer: the bytes
/// before the first zero, and the whole buffer when no zero occurs.
pub fn decode_c_string(b: &[u8]) -> (r: Vec<u8>)
    ensures
        is_cstr_prefix(b@, r@),
{
    let mut out: Vec<u8> = Vec::new();
    let mut i: usize = 0;
    while i < b.len() && b[i] != 0
        invariant
            0 <= i <= b@.len(),
            out@ == b@.subrange(0, i as int),
            forall|j: int| 0 <= j < i ==> b@[j] != 0,
        decreases b@.len() - i,
    {
        out.push(b[i]);
        i = i + 1;
        assert(out@ =~= b@.subrange(0, i as int));
    }
    out
}

/// Decodes the zero-terminated string stored in a fixed-size field that
/// spans `len` bytes starting at `off`.
pub fn decode_c_string_field(b: &[u8], off: usize, len: usize) -> (r: Vec<u8>)
    requires
        off + len <= b@.len(),
    ensures
        is_cstr_prefix(b@.subrange(off as int, off + len), r@),
{
    let n = b.len();
    let mut out: Vec<u8> = Vec::new();
    let mut i: usize = 0;
    while i < len && b[off + i] != 0
        invariant
            0 <= i <= len,
            off + len <= b@.len() == n,
            out@ == b@.subrange(off as int, off + i),
            forall|j: int| 0 <= j < i ==> #[trigger] b@[off + j] != 0,
        decreases len - i,
    {
        out.push(b[off + i]);
        i = i + 1;
        assert(out@ =~= b@.subrange(off as int, off + i));
    }
    proof {
        let field = b@.subrange(off as int, off + len);
        assert(out@ =~= field.subrange(0, out@.len() as int));
        assert(forall|j: int| 0 <= j < out@.len() ==> out@[j] == b@[off + j]);
    }
    out
}

/// Encodes caller-supplied bytes for a native call that takes a
/// zero-terminated string: rejected, before any native call could be
/// made, exactly when the bytes contain an embedded zero; otherwise the
/// bytes with the terminator appended.
pub fn encode_c_string(b: &[u8]) -> (r: Result<Vec<u8>, Status>)
    ensures
        r is Ok <==> (forall|i: int| 0 <= i < b@.len() ==> b@[i] != 0),
        r matches Ok(v) ==> v@ == b@ + seq![0u8],
        r matches Err(s) ==> s is BadParameter,
{
    let mut out: Vec<u8> = Vec::new();
    let mut i: usize = 0;
    while i < b.len()
        invariant
            0 <= i <= b@.len(),
            out@ == b@.subrange(0, i as int),
            forall|j: int| 0 <= j < i ==> b@[j] != 0,
        decreases b@.len() - i,
    {
        if b[i] == 0 {
            return Err(Status::BadParameter);
        }
        out.push(b[i]);
        i = i + 1;
        assert(out@ =~= b@.subrange(0, i as int));
    }
    assert(out@ =~= b@);
    out.push(0);
    assert(out@ =~= b@ + seq![0u8]);
    Ok(out)
}

/// The decoded form of a C string buffer is unique: two prefixes that
/// both satisfy the decoding relation are equal.
pub proof fn lemma_cstr_prefix_unique(b: Seq<u8>, p1: Seq<u8>, p2: Seq<u8>)
    requires
        is_cstr_prefix(b, p1),
        is_cstr_prefix(b, p2),
    ensures
        p1 == p2,
{
    if p1.len() < p2.len() {
        assert(p2[p1.len() as int] != 0);
        assert(b[p1.len() as int] == p2[p1.len() as int]);
    } else if p2.len() < p1.len() {
        assert(p1[p2.len() as int] != 0);
        assert(b[p2.len() as int] == p1[p2.len() as int]);
    }
    assert(p1 =~= p2);
}

} // verus!

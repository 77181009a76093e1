//! One frame of video data: its metadata, its pixel buffer, the size
//! invariant that guards every typed view of that buffer, and the
//! reference-counting discipline of the natively owned buffer behind it.

use vstd::prelude::*;
use crate::types::PixelFormat;
use crate::types::VideoMode;
use crate::types::bytes_per_pixel;

verus! {

/// One pixel of the packed 24-bit RGB format, in buffer order.
#[derive(Debug, Copy, Clone, PartialEq, Eq, Structural)]
pub struct Rgb888Pixel {
    pub r: u8,
    pub g: u8,
    pub b: u8,
}

/// One four-byte cell of the YUV 4:2:2 family: shared chroma around two
/// luma samples, in buffer order.
#[derive(Debug, Copy, Clone, PartialEq, Eq, Structural)]
pub struct Yuv422Pixel {
    pub u: u8,
    pub y1: u8,
    pub v: u8,
    pub y2: u8,
}

/// The pixel contents of a frame, typed by the width of one pixel.
#[derive(Debug, Clone, PartialEq, Eq)]
pub enum PixelData {
    /// One byte per pixel (8-bit grayscale, compressed byte streams).
    Bytes(Vec<u8>),
    /// Two bytes per pixel, little-endian (depth and 16-bit grayscale).
    Words(Vec<u16>),
    /// Three bytes per pixel (packed 24-bit RGB).
    Rgb(Vec<Rgb888Pixel>),
    /// Four bytes per two pixels sharing chroma (YUV 4:2:2 layouts).
    Yuv(Vec<Yuv422Pixel>),
}

/// One frame read from a stream: the metadata the native layer reported
/// for it and a copy of its pixel buffer.
///
/// Nothing is assumed about the relation between the fields when a frame
/// is built: that the buffer's byte length equals
/// width * height * bytes-per-pixel is a reported native fact which could
/// only be violated by a native-layer fault, so every typed access checks
/// it (or demands it) instead of trusting it.
#[derive(Debug, Clone, PartialEq, Eq)]
pub struct Frame {
    /// The video mode the producing stream was configured to.
    pub video_mode: VideoMode,
    /// Width of this frame in pixels (the cropped width, if cropped).
    pub width: u16,
    /// Height of this frame in pixels (the cropped height, if cropped).
    pub height: u16,
    /// Device timestamp of the frame.
    pub timestamp: u64,
    /// Sequential index of the frame within its stream.
    pub frame_index: usize,
    /// Whether the frame is a cropped sub-rectangle of the sensor image.
    pub cropped: bool,
    /// Left offset of the crop; zero when uncropped.
    pub origin_x: u16,
    /// Top offset of the crop; zero when uncropped.
    pub origin_y: u16,
    /// Bytes per row of the buffer.
    pub stride: u16,
    /// The pixel buffer.
    pub data: Vec<u8>,
}

impl Frame {
    /// How many pixels the frame holds.
    pub open spec fn spec_pixel_count(self) -> int {
        self.width * self.height
    }

    /// The byte length the buffer must have for the frame's dimensions
    /// and pixel format.
    pub open spec fn spec_expected_byte_len(self) -> int {
        self.width * self.height * self.video_mode.pixel_format.spec_bytes_per_pixel()
    }

    /// The core size invariant: the buffer holds exactly
    /// width * height * bytes-per-pixel bytes.
    pub open spec fn well_formed(self) -> bool {
        self.data@.len() == self.spec_expected_byte_len()
    }

    /// What it means for `p` to be the typed view of this frame's buffer:
    /// one entry per pixel, in buffer order, with every byte accounted
    /// for.  Which variant carries the pixels is fixed by the byte width
    /// of the frame's pixel format.
    pub open spec fn is_pixel_view(self, p: PixelData) -> bool {
        let n = self.spec_pixel_count();
        let b = self.data@;
        match p {
            PixelData::Bytes(v) => {
                &&& self.video_mode.pixel_format.spec_bytes_per_pixel() == 1
                &&& v@.len() == n
                &&& forall|i: int| 0 <= i < n ==> v@[i] == b[i]
            },
            PixelData::Words(v) => {
                &&& self.video_mode.pixel_format.spec_bytes_per_pixel() == 2
                &&& v@.len() == n
                &&& forall|i: int| 0 <= i < n ==> v@[i] == b[2 * i] + 256 * b[2 * i + 1]
            },
            PixelData::Rgb(v) => {
                &&& self.video_mode.pixel_format.spec_bytes_per_pixel() == 3
                &&& v@.len() == n
                &&& forall|i: int| 0 <= i < n ==> v@[i] == (Rgb888Pixel {
                    r: b[3 * i],
                    g: b[3 * i + 1],
                    b: b[3 * i + 2],
                })
            },
            PixelData::Yuv(v) => {
                &&& self.video_mode.pixel_format.spec_bytes_per_pixel() == 4
                &&& v@.len() == n
                &&& forall|i: int| 0 <= i < n ==> v@[i] == (Yuv422Pixel {
                    u: b[4 * i],
                    y1: b[4 * i + 1],
                    v: b[4 * i + 2],
                    y2: b[4 * i + 3],
                })
            },
        }
    }

    /// Device timestamp of the frame.
    pub fn timestamp(&self) -> (r: u64)
        ensures
            r == self.timestamp,
    {
        self.timestamp
    }

    /// Sequential index of the frame within its stream.
    pub fn index(&self) -> (r: usize)
        ensures
            r == self.frame_index,
    {
        self.frame_index
    }

    /// Width of the frame in pixels.
    pub fn width(&self) -> (r: u16)
        ensures
            r == self.width,
    {
        self.width
    }

    /// Height of the frame in pixels.
    pub fn height(&self) -> (r: u16)
        ensures
            r == self.height,
    {
        self.height
    }

    /// The video mode of the stream that produced the frame.
    pub fn video_mode(&self) -> (r: VideoMode)
        ensures
            r == self.video_mode,
    {
        self.video_mode
    }

    /// Whether the frame is a cropped sub-rectangle; if so, width and
    /// height are the cropped dimensions.
    pub fn cropped(&self) -> (r: bool)
        ensures
            r == self.cropped,
    {
        self.cropped
    }

    /// Left offset of the crop; an uncropped frame reports zero.
    pub fn origin_x(&self) -> (r: u16)
        ensures
            r == self.origin_x,
    {
        self.origin_x
    }

    /// Top offset of the crop; an uncropped frame reports zero.
    pub fn origin_y(&self) -> (r: u16)
        ensures
            r == self.origin_y,
    {
        self.origin_y
    }

    /// Bytes per row of the buffer.
    pub fn stride(&self) -> (r: u16)
        ensures
            r == self.stride,
    {
        self.stride
    }

    /// Width and height in one pair.
    pub fn dimensions(&self) -> (r: (u16, u16))
        ensures
            r == (self.width, self.height),
    {
        (self.width, self.height)
    }

    /// The byte length of the pixel buffer.
    pub fn byte_len(&self) -> (r: usize)
        ensures
            r == self.data@.len(),
    {
        self.data.len()
    }

    /// Whether the buffer's byte length matches the frame's dimensions
    /// and pixel format — the check that guards every typed view.
    pub fn size_check(&self) -> (r: bool)
        ensures
            r == self.well_formed(),
    {
        let bpp = bytes_per_pixel(self.video_mode.pixel_format);
        proof {
            assert((self.width as int) * (self.height as int) <= 0xFFFF * 0xFFFF
                && (self.width as int) * (self.height as int) * (bpp as int) <= 0xFFFF * 0xFFFF
                * 4) by (nonlinear_arith)
                requires
                    self.width <= 0xFFFF,
                    self.height <= 0xFFFF,
                    1 <= bpp <= 4,
            ;
        }
        let expected: u64 = (self.width as u64) * (self.height as u64) * (bpp as u64);
        let n = self.data.len();
        n as u64 == expected
    }

    /// The typed pixels of the frame, one entry per pixel in buffer
    /// order.  Demands the size invariant: a caller that cannot
    /// guarantee it must go through `try_pixels`, which refuses the
    /// mismatched buffer instead of reinterpreting it.
    pub fn pixels(&self) -> (r: PixelData)
        requires
            self.well_formed(),
        ensures
            self.is_pixel_view(r),
    {
        let n = self.data.len();
        let bpp: usize = bytes_per_pixel(self.video_mode.pixel_format);
        proof {
            assert((self.width as int) * (self.height as int) <= (self.width as int)
                * (self.height as int) * (bpp as int)) by (nonlinear_arith)
                requires
                    bpp >= 1,
                    self.width >= 0,
                    self.height >= 0,
            ;
        }
        let count: usize = (self.width as usize) * (self.height as usize);
        match self.video_mode.pixel_format {
            PixelFormat::GRAY8 => PixelData::Bytes(decode_bytes(self.data.as_slice(), count)),
            PixelFormat::JPEG => PixelData::Bytes(decode_bytes(self.data.as_slice(), count)),
            PixelFormat::DEPTH_1_MM => PixelData::Words(decode_words(self.data.as_slice(), count)),
            PixelFormat::DEPTH_100_UM => PixelData::Words(
                decode_words(self.data.as_slice(), count),
            ),
            PixelFormat::SHIFT_9_2 => PixelData::Words(decode_words(self.data.as_slice(), count)),
            PixelFormat::SHIFT_9_3 => PixelData::Words(decode_words(self.data.as_slice(), count)),
            PixelFormat::GRAY16 => PixelData::Words(decode_words(self.data.as_slice(), count)),
            PixelFormat::RGB888 => PixelData::Rgb(decode_rgb(self.data.as_slice(), count)),
            PixelFormat::YUV422 => PixelData::Yuv(decode_yuv(self.data.as_slice(), count)),
            PixelFormat::YUYV => PixelData::Yuv(decode_yuv(self.data.as_slice(), count)),
        }
    }

    /// Typed pixel access with the defensive check in front: yields the
    /// pixels only when the caller's expected format is the frame's
    /// actual format and the buffer has exactly the matching byte
    /// length.  A mismatched pair is refused, never reinterpreted.
    pub fn try_pixels(&self, expected: PixelFormat) -> (r: Option<PixelData>)
        ensures
            r is Some <==> expected == self.video_mode.pixel_format && self.well_formed(),
            r matches Some(p) ==> self.is_pixel_view(p),
    {
        if expected == self.video_mode.pixel_format && self.size_check() {
            Some(self.pixels())
        } else {
            None
        }
    }
}

/// Copies a one-byte-per-pixel buffer into its typed form.
fn decode_bytes(data: &[u8], count: usize) -> (r: Vec<u8>)
    requires
        data@.len() == count,
    ensures
        r@.len() == count,
        forall|i: int| 0 <= i < count ==> r@[i] == data@[i],
{
    let mut out: Vec<u8> = Vec::new();
    let mut i: usize = 0;
    while i < count
        invariant
            0 <= i <= count,
            data@.len() == count,
            out@.len() == i,
            forall|j: int| 0 <= j < i ==> out@[j] == data@[j],
        decreases count - i,
    {
        out.push(data[i]);
        i = i + 1;
    }
    out
}

/// Combines little-endian byte pairs into 16-bit pixels.
fn decode_words(data: &[u8], count: usize) -> (r: Vec<u16>)
    requires
        data@.len() == 2 * count,
    ensures
        r@.len() == count,
        forall|i: int| 0 <= i < count ==> r@[i] == data@[2 * i] + 256 * data@[2 * i + 1],
{
    let n = data.len();
    let mut out: Vec<u16> = Vec::new();
    let mut i: usize = 0;
    while i < count
        invariant
            0 <= i <= count,
            data@.len() == 2 * count,
            2 * count == n <= usize::MAX,
            out@.len() == i,
            forall|j: int| 0 <= j < i ==> out@[j] == data@[2 * j] + 256 * data@[2 * j + 1],
        decreases count - i,
    {
        let lo = data[2 * i];
        let hi = data[2 * i + 1];
        out.push((lo as u16) + (hi as u16) * 256);
        i = i + 1;
    }
    out
}

/// Groups byte triples into packed RGB pixels.
fn decode_rgb(data: &[u8], count: usize) -> (r: Vec<Rgb888Pixel>)
    requires
        data@.len() == 3 * count,
    ensures
        r@.len() == count,
        forall|i: int| 0 <= i < count ==> r@[i] == (Rgb888Pixel {
            r: data@[3 * i],
            g: data@[3 * i + 1],
            b: data@[3 * i + 2],
        }),
{
    let n = data.len();
    let mut out: Vec<Rgb888Pixel> = Vec::new();
    let mut i: usize = 0;
    while i < count
        invariant
            0 <= i <= count,
            data@.len() == 3 * count,
            3 * count == n <= usize::MAX,
            out@.len() == i,
            forall|j: int| 0 <= j < i ==> out@[j] == (Rgb888Pixel {
                r: data@[3 * j],
                g: data@[3 * j + 1],
                b: data@[3 * j + 2],
            }),
        decreases count - i,
    {
        let px = Rgb888Pixel { r: data[3 * i], g: data[3 * i + 1], b: data[3 * i + 2] };
        out.push(px);
        i = i + 1;
    }
    out
}

/// Groups byte quadruples into doubled YUV cells.
fn decode_yuv(data: &[u8], count: usize) -> (r: Vec<Yuv422Pixel>)
    requires
        data@.len() == 4 * count,
    ensures
        r@.len() == count,
        forall|i: int| 0 <= i < count ==> r@[i] == (Yuv422Pixel {
            u: data@[4 * i],
            y1: data@[4 * i + 1],
            v: data@[4 * i + 2],
            y2: data@[4 * i + 3],
        }),
{
    let n = data.len();
    let mut out: Vec<Yuv422Pixel> = Vec::new();
    let mut i: usize = 0;
    while i < count
        invariant
            0 <= i <= count,
            data@.len() == 4 * count,
            4 * count == n <= usize::MAX,
            out@.len() == i,
            forall|j: int| 0 <= j < i ==> out@[j] == (Yuv422Pixel {
                u: data@[4 * j],
                y1: data@[4 * j + 1],
                v: data@[4 * j + 2],
                y2: data@[4 * j + 3],
            }),
        decreases count - i,
    {
        let px = Yuv422Pixel {
            u: data[4 * i],
            y1: data[4 * i + 1],
            v: data[4 * i + 2],
            y2: data[4 * i + 3],
        };
        out.push(px);
        i = i + 1;
    }
    out
}

/// The reference count of one natively owned frame buffer.
///
/// A frame handle shares its buffer with every clone of itself; the
/// native layer frees the buffer when the count reaches zero.  This type
/// is the verified model of that protocol — the discipline a frame
/// handle's clone and drop must follow — and doubles as the probe a test
/// can watch: one count per buffer, one retain per clone, one release
/// per drop, and the buffer is freed by exactly the release that takes
/// the count to zero.
#[derive(Debug, Copy, Clone, PartialEq, Eq, Structural)]
pub struct FrameRc {
    count: u64,
    freed: bool,
}

impl FrameRc {
    /// How many references the buffer currently has.
    pub closed spec fn spec_refs(self) -> int {
        self.count as int
    }

    /// Whether the buffer has been handed back to the native layer.
    pub closed spec fn spec_freed(self) -> bool {
        self.freed
    }

    /// The counter is coherent: freed exactly when no reference is left.
    pub open spec fn wf(self) -> bool {
        self.spec_freed() <==> self.spec_refs() == 0
    }

    /// A freshly read frame starts with one reference to its buffer.
    pub fn new() -> (r: FrameRc)
        ensures
            r.wf(),
            r.spec_refs() == 1,
            !r.spec_freed(),
    {
        FrameRc { count: 1, freed: false }
    }

    /// How many references the buffer currently has.
    pub fn refs(&self) -> (r: u64)
        ensures
            r == self.spec_refs(),
    {
        self.count
    }

    /// Whether the buffer has been handed back to the native layer.
    pub fn is_freed(&self) -> (r: bool)
        ensures
            r == self.spec_freed(),
    {
        self.freed
    }

    /// Cloning a frame handle retains its buffer once.
    pub fn retain(&mut self)
        requires
            old(self).wf(),
            !old(self).spec_freed(),
            old(self).spec_refs() < u64::MAX,
        ensures
            final(self).wf(),
            final(self).spec_refs() == old(self).spec_refs() + 1,
            !final(self).spec_freed(),
    {
        self.count = self.count + 1;
    }

    /// Dropping a frame handle releases its buffer once; the release
    /// that takes the count to zero — and only that one — frees the
    /// buffer.  A buffer already freed cannot be released again, so no
    /// path through verified code releases twice.
    pub fn release(&mut self) -> (freed_now: bool)
        requires
            old(self).wf(),
            !old(self).spec_freed(),
        ensures
            final(self).wf(),
            final(self).spec_refs() == old(self).spec_refs() - 1,
            freed_now <==> final(self).spec_refs() == 0,
            final(self).spec_freed() <==> freed_now,
    {
        self.count = self.count - 1;
        if self.count == 0 {
            self.freed = true;
            true
        } else {
            false
        }
    }
}

/// The number of references left after some retains and releases of a
/// buffer that started with one reference.
pub open spec fn refs_after(retains: nat, releases: nat) -> int {
    1 + retains - releases
}

/// Reference-count balance of a frame buffer: after a frame is cloned
/// `n` times, releasing any `n` of the `n + 1` handles leaves the buffer
/// alive with one reference; the buffer is freed by exactly one release,
/// namely the last of all `n + 1`.
pub proof fn lemma_refcount_balance(n: nat)
    ensures
        refs_after(n, n) == 1,
        refs_after(n, n + 1) == 0,
        forall|k: nat| k <= n + 1 ==> (refs_after(n, k) == 0 <==> k == n + 1),
{
}

} // verus!

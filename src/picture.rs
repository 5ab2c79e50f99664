use vstd::prelude::*;

use core::marker::PhantomData;

use crate::error::{errno_of, FFIError};

use self::error::PictureError;
use self::resolution::Resolution;

pub mod error;
pub mod resolution;

verus! {

/// The chroma layout of a native picture.
#[derive(Debug, Clone, Copy, PartialEq, Eq, Structural)]
pub enum PixelFormat {
    Unknown,
    Yuv420p,
    Yuv422p,
    Yuv444p,
}

/// The pixel format tag of a decoded frame, as the decoder reports it.
#[derive(Debug, Clone, Copy, PartialEq, Eq, Structural)]
pub enum FrameFormat {
    Yuv420p,
    Yuv420p10le,
    Yuv420p12le,
    Yuv420p16le,
    Yuv422p,
    Yuv422p10le,
    Yuv422p12le,
    Yuv422p16le,
    Yuv444p,
    Yuv444p10le,
    Yuv444p12le,
    Yuv444p16le,
    /// Any format with no planar YUV mapping.
    Other,
}

/// The chroma layout and bit depth that a decoded format maps to, if any.
pub open spec fn spec_frame_layout(f: FrameFormat) -> Option<(PixelFormat, u32)> {
    match f {
        FrameFormat::Yuv420p => Some((PixelFormat::Yuv420p, 8)),
        FrameFormat::Yuv420p10le => Some((PixelFormat::Yuv420p, 10)),
        FrameFormat::Yuv420p12le => Some((PixelFormat::Yuv420p, 12)),
        FrameFormat::Yuv420p16le => Some((PixelFormat::Yuv420p, 16)),
        FrameFormat::Yuv422p => Some((PixelFormat::Yuv422p, 8)),
        FrameFormat::Yuv422p10le => Some((PixelFormat::Yuv422p, 10)),
        FrameFormat::Yuv422p12le => Some((PixelFormat::Yuv422p, 12)),
        FrameFormat::Yuv422p16le => Some((PixelFormat::Yuv422p, 16)),
        FrameFormat::Yuv444p => Some((PixelFormat::Yuv444p, 8)),
        FrameFormat::Yuv444p10le => Some((PixelFormat::Yuv444p, 10)),
        FrameFormat::Yuv444p12le => Some((PixelFormat::Yuv444p, 12)),
        FrameFormat::Yuv444p16le => Some((PixelFormat::Yuv444p, 16)),
        FrameFormat::Other => None,
    }
}

/// Derives the native chroma layout and the bit depth from a decoded frame's
/// format tag.
pub fn frame_layout(f: FrameFormat) -> (r: Result<(PixelFormat, u32), PictureError>)
    ensures
        spec_frame_layout(f) matches Some(l) ==> r == Ok::<(PixelFormat, u32), PictureError>(l),
        spec_frame_layout(f) is None ==> r == Err::<(PixelFormat, u32), PictureError>(
            PictureError::UnsupportedFormat,
        ),
{
    let chroma = match f {
        FrameFormat::Yuv420p | FrameFormat::Yuv420p10le | FrameFormat::Yuv420p12le
        | FrameFormat::Yuv420p16le => PixelFormat::Yuv420p,
        FrameFormat::Yuv422p | FrameFormat::Yuv422p10le | FrameFormat::Yuv422p12le
        | FrameFormat::Yuv422p16le => PixelFormat::Yuv422p,
        FrameFormat::Yuv444p | FrameFormat::Yuv444p10le | FrameFormat::Yuv444p12le
        | FrameFormat::Yuv444p16le => PixelFormat::Yuv444p,
        FrameFormat::Other => PixelFormat::Unknown,
    };
    let bits: u32 = match f {
        FrameFormat::Yuv420p | FrameFormat::Yuv422p | FrameFormat::Yuv444p => 8,
        FrameFormat::Yuv420p10le | FrameFormat::Yuv422p10le | FrameFormat::Yuv444p10le => 10,
        FrameFormat::Yuv420p12le | FrameFormat::Yuv422p12le | FrameFormat::Yuv444p12le => 12,
        FrameFormat::Yuv420p16le | FrameFormat::Yuv422p16le | FrameFormat::Yuv444p16le => 16,
        FrameFormat::Other => {
            return Err(PictureError::UnsupportedFormat);
        },
    };
    Ok((chroma, bits))
}

/// Bytes that one sample takes at a given bit depth.
pub open spec fn spec_bytes_per_value(bits_per_channel: u32) -> usize {
    if bits_per_channel <= 8 {
        1
    } else {
        2
    }
}

/// Bytes that one sample takes: one up to eight bits, two above.
pub fn bytes_per_value(bits_per_channel: u32) -> (r: usize)
    ensures
        r == spec_bytes_per_value(bits_per_channel),
{
    if bits_per_channel <= 8 {
        1
    } else {
        2
    }
}

/// Converts a native row pitch to a byte distance; a negative pitch cannot be
/// copied from.
pub fn plane_stride(linesize: i32) -> (r: Result<usize, PictureError>)
    ensures
        linesize >= 0 <==> r is Ok,
        r matches Ok(n) ==> n == linesize as int,
        r matches Err(e) ==> e == PictureError::Decode,
{
    match usize::try_from(linesize) {
        Ok(n) => Ok(n),
        Err(_) => Err(PictureError::Decode),
    }
}

/// Converts a native picture's row pitch to a byte distance; a negative pitch
/// cannot be copied to.
pub fn picture_stride(stride: isize) -> (r: Result<usize, PictureError>)
    ensures
        stride >= 0 <==> r is Ok,
        r matches Ok(n) ==> n == stride as int,
        r matches Err(e) ==> e == PictureError::Decode,
{
    match usize::try_from(stride) {
        Ok(n) => Ok(n),
        Err(_) => Err(PictureError::Decode),
    }
}

/// A plane of `rows` rows of `row_bytes` bytes each, `stride` bytes apart,
/// fits in a buffer of `len` bytes.
pub open spec fn plane_fits(len: int, stride: int, row_bytes: int, rows: int) -> bool {
    &&& row_bytes <= stride
    &&& (rows == 0 || (rows - 1) * stride + row_bytes <= len)
}

/// Where row `r` of a plane starts.
pub open spec fn row_start(r: int, stride: int) -> int {
    r * stride
}

/// Byte `i` of a plane lies within one of its first `rows` rows.
pub open spec fn in_plane_row(i: int, stride: int, row_bytes: int, rows: int) -> bool {
    exists|r: int| 0 <= r < rows && #[trigger] row_start(r, stride) <= i < row_start(r, stride) + row_bytes
}

/// Copies a plane row by row, honouring each side's stride: row `r` of the
/// destination receives the `row_bytes` bytes that start row `r` of the source;
/// the padding between rows is left as it was.
pub fn copy_plane(
    dst: &mut [u8],
    dst_stride: usize,
    src: &[u8],
    src_stride: usize,
    row_bytes: usize,
    rows: usize,
)
    requires
        plane_fits(old(dst)@.len() as int, dst_stride as int, row_bytes as int, rows as int),
        plane_fits(src@.len() as int, src_stride as int, row_bytes as int, rows as int),
    ensures
        final(dst)@.len() == old(dst)@.len(),
        forall|r: int, c: int|
            0 <= r < rows && 0 <= c < row_bytes ==> #[trigger] final(dst)@[r * dst_stride + c]
                == src@[r * src_stride + c],
        forall|i: int|
            0 <= i < old(dst)@.len() && !in_plane_row(i, dst_stride as int, row_bytes as int, rows as int)
                ==> final(dst)@[i] == old(dst)@[i],
{
    let ghost initial = dst@;
    let dst_len = dst.len();
    let src_len = src.len();
    let mut row: usize = 0;
    let mut dst_base: usize = 0;
    let mut src_base: usize = 0;
    while row < rows
        invariant
            plane_fits(initial.len() as int, dst_stride as int, row_bytes as int, rows as int),
            plane_fits(src@.len() as int, src_stride as int, row_bytes as int, rows as int),
            dst@.len() == initial.len(),
            dst_len == dst@.len(),
            src_len == src@.len(),
            row <= rows,
            row < rows ==> dst_base == row * dst_stride,
            row < rows ==> src_base == row * src_stride,
            forall|r: int, c: int|
                0 <= r < row && 0 <= c < row_bytes ==> #[trigger] dst@[r * dst_stride + c]
                    == src@[r * src_stride + c],
            forall|i: int|
                0 <= i < initial.len() && !in_plane_row(i, dst_stride as int, row_bytes as int, row as int)
                    ==> dst@[i] == initial[i],
        decreases rows - row,
    {
        proof {
            assert((row as int) * (dst_stride as int) <= (rows as int - 1) * (dst_stride as int))
                by (nonlinear_arith)
                requires
                    row < rows,
            ;
            assert((row as int) * (src_stride as int) <= (rows as int - 1) * (src_stride as int))
                by (nonlinear_arith)
                requires
                    row < rows,
            ;
        }
        let ghost before = dst@;
        let mut col: usize = 0;
        while col < row_bytes
            invariant
                dst_base + row_bytes <= dst@.len(),
                src_base + row_bytes <= src@.len(),
                dst@.len() == before.len(),
                dst_len == dst@.len(),
                src_len == src@.len(),
                col <= row_bytes,
                forall|c: int| 0 <= c < col ==> #[trigger] dst@[dst_base + c] == src@[src_base + c],
                forall|i: int|
                    0 <= i < before.len() && !(dst_base <= i < dst_base + col) ==> dst@[i] == before[i],
            decreases row_bytes - col,
        {
            dst[dst_base + col] = src[src_base + col];
            col = col + 1;
        }
        proof {
            assert forall|r: int, c: int|
                0 <= r < row + 1 && 0 <= c < row_bytes implies #[trigger] dst@[r * dst_stride + c]
                == src@[r * src_stride + c] by {
                if r < row {
                    assert(r * dst_stride + row_bytes <= row * dst_stride) by (nonlinear_arith)
                        requires
                            r < row,
                            row_bytes <= dst_stride,
                    ;
                    assert(before[r * dst_stride + c] == src@[r * src_stride + c]);
                } else {
                    assert(r == row);
                    assert(dst@[dst_base + c] == src@[src_base + c]);
                }
            }
            assert forall|i: int|
                0 <= i < initial.len() && !in_plane_row(i, dst_stride as int, row_bytes as int, row + 1)
                    implies dst@[i] == initial[i] by {
                if dst_base <= i < dst_base + row_bytes {
                    assert(row_start(row as int, dst_stride as int) == dst_base);
                    assert(in_plane_row(i, dst_stride as int, row_bytes as int, row + 1));
                }
                if in_plane_row(i, dst_stride as int, row_bytes as int, row as int) {
                    let r = choose|r: int|
                        0 <= r < row && #[trigger] row_start(r, dst_stride as int) <= i < row_start(r, dst_stride as int) + row_bytes;
                    assert(in_plane_row(i, dst_stride as int, row_bytes as int, row + 1));
                }
            }
        }
        row = row + 1;
        if row < rows {
            proof {
                assert((row as int) * (dst_stride as int) <= (rows as int - 1) * (dst_stride as int))
                    by (nonlinear_arith)
                    requires
                        row < rows,
                ;
                assert((row as int) * (src_stride as int) <= (rows as int - 1) * (src_stride as int))
                    by (nonlinear_arith)
                    requires
                        row < rows,
                ;
                assert((row as int) * (dst_stride as int) == (row as int - 1) * (dst_stride as int)
                    + dst_stride) by (nonlinear_arith);
                assert((row as int) * (src_stride as int) == (row as int - 1) * (src_stride as int)
                    + src_stride) by (nonlinear_arith);
            }
            dst_base = dst_base + dst_stride;
            src_base = src_base + src_stride;
        }
    }
}

/// How many bytes a plane of `rows` rows of `row_bytes` bytes, `stride`
/// bytes apart, spans from the start of its first row to the end of its last.
pub open spec fn plane_span(stride: int, row_bytes: int, rows: int) -> int {
    if rows == 0 {
        0
    } else {
        (rows - 1) * stride + row_bytes
    }
}

/// The sizes of copying one plane: bytes per row, each side's stride, and how
/// many bytes of each buffer the copy reads or writes.
#[derive(Debug, Clone, Copy, PartialEq, Eq, Structural)]
pub struct PlaneLayout {
    pub row_bytes: usize,
    pub src_stride: usize,
    pub dst_stride: usize,
    pub src_len: usize,
    pub dst_len: usize,
}

/// `a * b + c` as a machine size, if it fits.
fn mul_add(a: usize, b: usize, c: usize) -> (r: Option<usize>)
    ensures
        a * b + c <= usize::MAX <==> r is Some,
        r matches Some(n) ==> n == a * b + c,
{
    match a.checked_mul(b) {
        Some(m) => m.checked_add(c),
        None => {
            assert(a * b + c > usize::MAX) by (nonlinear_arith)
                requires
                    a * b > usize::MAX,
            ;
            None
        },
    }
}

/// Lays out the copy of one plane of `rows` rows, each `width` samples of
/// `sample` bytes, from a source with row pitch `src_linesize` to a native
/// picture with row pitch `dst_stride`. A negative pitch, a row longer than a
/// pitch, or a plane too large to address is `Decode`.
pub fn plane_layout(sample: usize, width: u32, rows: usize, src_linesize: i32, dst_stride: isize) -> (r:
    Result<PlaneLayout, PictureError>)
    ensures
        r is Ok <==> {
            &&& src_linesize >= 0
            &&& dst_stride >= 0
            &&& sample * width <= src_linesize
            &&& sample * width <= dst_stride
            &&& plane_span(src_linesize as int, sample * width, rows as int) <= usize::MAX
            &&& plane_span(dst_stride as int, sample * width, rows as int) <= usize::MAX
        },
        r matches Ok(l) ==> {
            &&& l.row_bytes == sample * width
            &&& l.src_stride == src_linesize
            &&& l.dst_stride == dst_stride
            &&& l.src_len == plane_span(src_linesize as int, sample * width, rows as int)
            &&& l.dst_len == plane_span(dst_stride as int, sample * width, rows as int)
            &&& plane_fits(l.src_len as int, l.src_stride as int, l.row_bytes as int, rows as int)
            &&& plane_fits(l.dst_len as int, l.dst_stride as int, l.row_bytes as int, rows as int)
        },
        r matches Err(e) ==> e == PictureError::Decode,
{
    let src_stride = plane_stride(src_linesize)?;
    let dst_stride = picture_stride(dst_stride)?;
    let row_bytes = match mul_add(sample, width as usize, 0) {
        Some(n) => n,
        None => {
            return Err(PictureError::Decode);
        },
    };
    if row_bytes > src_stride || row_bytes > dst_stride {
        return Err(PictureError::Decode);
    }
    if rows == 0 {
        return Ok(PlaneLayout { row_bytes, src_stride, dst_stride, src_len: 0, dst_len: 0 });
    }
    let src_len = match mul_add(rows - 1, src_stride, row_bytes) {
        Some(n) => n,
        None => {
            return Err(PictureError::Decode);
        },
    };
    let dst_len = match mul_add(rows - 1, dst_stride, row_bytes) {
        Some(n) => n,
        None => {
            return Err(PictureError::Decode);
        },
    };
    Ok(PlaneLayout { row_bytes, src_stride, dst_stride, src_len, dst_len })
}

/// Marks a picture that still owns its native buffer.
pub struct ValidRef;

/// Marks a picture whose native buffer has passed to the engine.
pub struct Consumed;

/// The ownership state of a picture's native buffer.
pub trait Consumable {
    /// The buffer has passed to the engine, so the picture must not release it.
    spec fn spec_consumed() -> bool;

    fn is_consumed() -> (r: bool)
        ensures
            r == Self::spec_consumed(),
    ;
}

impl Consumable for ValidRef {
    open spec fn spec_consumed() -> bool {
        false
    }

    fn is_consumed() -> (r: bool) {
        false
    }
}

impl Consumable for Consumed {
    open spec fn spec_consumed() -> bool {
        true
    }

    fn is_consumed() -> (r: bool) {
        true
    }
}

/// One native frame buffer, named by its handle, with its layout. The state
/// parameter records whether the buffer is still owned here (`ValidRef`) or
/// has been handed to the engine (`Consumed`); only an owning picture has a
/// buffer to release.
pub struct Picture<State: Consumable = ValidRef> {
    buffer: u64,
    pix_fmt: PixelFormat,
    bits_per_channel: u32,
    resolution: Resolution,
    consumed: PhantomData<State>,
}

impl<State: Consumable> Picture<State> {
    /// The native buffer this picture describes.
    pub closed spec fn buffer(&self) -> u64 {
        self.buffer
    }

    pub closed spec fn spec_pix_fmt(&self) -> PixelFormat {
        self.pix_fmt
    }

    pub closed spec fn spec_bits_per_channel(&self) -> u32 {
        self.bits_per_channel
    }

    pub closed spec fn spec_resolution(&self) -> Resolution {
        self.resolution
    }

    /// The buffer that dropping this picture must release: its own while it
    /// owns it, none once it has been consumed.
    pub open spec fn spec_release_target(&self) -> Option<u64> {
        if State::spec_consumed() {
            None
        } else {
            Some(self.buffer())
        }
    }

    /// How many native releases dropping this picture makes.
    pub open spec fn drop_releases(&self) -> nat {
        if self.spec_release_target() is Some {
            1
        } else {
            0
        }
    }

    /// The buffer to release when this picture is dropped, if any.
    pub fn release_target(&self) -> (r: Option<u64>)
        ensures
            r == self.spec_release_target(),
    {
        if State::is_consumed() {
            None
        } else {
            Some(self.buffer)
        }
    }

    pub fn pix_fmt(&self) -> (r: PixelFormat)
        ensures
            r == self.spec_pix_fmt(),
    {
        self.pix_fmt
    }

    pub fn bits_per_channel(&self) -> (r: u32)
        ensures
            r == self.spec_bits_per_channel(),
    {
        self.bits_per_channel
    }

    pub fn resolution(&self) -> (r: Resolution)
        ensures
            r == self.spec_resolution(),
    {
        self.resolution
    }

    /// Two pictures can be compared as a frame pair when their sizes agree.
    pub open spec fn same_size<Other: Consumable>(&self, other: &Picture<Other>) -> bool {
        self.spec_resolution() == other.spec_resolution()
    }
}

impl Picture<ValidRef> {
    /// Takes charge of a native buffer that the allocator filled in, given the
    /// allocator's status: a failure status yields `Construct` with its error.
    pub fn new(
        pix_fmt: PixelFormat,
        bits_per_channel: u32,
        resolution: Resolution,
        status: i32,
        buffer: u64,
    ) -> (r: Result<Picture, PictureError>)
        ensures
            status == 0 <==> r is Ok,
            r matches Ok(p) ==> {
                &&& p.buffer() == buffer
                &&& p.spec_pix_fmt() == pix_fmt
                &&& p.spec_bits_per_channel() == bits_per_channel
                &&& p.spec_resolution() == resolution
            },
            r matches Err(e) ==> e matches PictureError::Construct(f) && f.spec_errno() == errno_of(
                status,
            ),
    {
        match FFIError::check_err(status) {
            Ok(()) => Ok(Picture {
                buffer,
                pix_fmt,
                bits_per_channel,
                resolution,
                consumed: PhantomData,
            }),
            Err(e) => Err(PictureError::Construct(e)),
        }
    }

    /// The native buffer, to hand to a native call.
    pub fn as_handle(&self) -> (r: u64)
        ensures
            r == self.buffer(),
    {
        self.buffer
    }

    /// Records that the buffer has passed to the engine: the result describes
    /// the same buffer and has nothing to release.
    pub fn consume(self) -> (r: Picture<Consumed>)
        ensures
            r.buffer() == self.buffer(),
            r.spec_pix_fmt() == self.spec_pix_fmt(),
            r.spec_bits_per_channel() == self.spec_bits_per_channel(),
            r.spec_resolution() == self.spec_resolution(),
            r.spec_release_target() is None,
    {
        Picture {
            buffer: self.buffer,
            pix_fmt: self.pix_fmt,
            bits_per_channel: self.bits_per_channel,
            resolution: self.resolution,
            consumed: PhantomData,
        }
    }
}

} // verus!

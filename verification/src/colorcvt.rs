//! Layouts of raw video buffers and the planning of colour conversions
//! between them.
//!
//! Each `cvt_*` function takes the description of a source buffer and a
//! requested destination layout. It either refuses the pair with an
//! `InvalidRequest`, or returns a [`ConversionPlan`]: which pixel routine
//! converts the pair, where each source plane lies in the source bytes, how
//! many bytes the destination needs and where each destination plane lies.
use vstd::prelude::*;
use vstd::string::StringExecFns;

use crate::error::{fails_with, FfiError};
use crate::proto::{ComponentInfo, VideoBufferInfo, VideoBufferType};

verus! {

// ---------------------------------------------------------------------------
// Arithmetic of layouts
// ---------------------------------------------------------------------------

/// `n` halved, rounded up: the extent of a plane subsampled by two.
pub open spec fn half_up(n: int) -> int {
    (n + 1) / 2
}

/// Size in bytes of an I420 image of `w` by `h` pixels.
pub open spec fn i420_len(w: int, h: int) -> int {
    w * h + 2 * (half_up(w) * half_up(h))
}

/// Width or height of a chroma plane for a luma extent of `n` (rounded up).
pub fn chroma_extent(n: u32) -> (r: u32)
    requires
        n < u32::MAX,
    ensures
        r == half_up(n as int),
{
    (n + 1) / 2
}

proof fn lemma_mul_nonneg(a: int, b: int)
    requires
        0 <= a,
        0 <= b,
    ensures
        0 <= a * b,
{
    assert(0 <= a * b) by (nonlinear_arith)
        requires
            0 <= a,
            0 <= b,
    ;
}

proof fn lemma_mul_u32_fits_u64(a: u32, b: u32)
    ensures
        0 <= a * b <= u64::MAX,
{
    assert(0 <= a * b <= 0xffff_fffe_0000_0001) by (nonlinear_arith)
        requires
            0 <= a <= 0xffff_ffff,
            0 <= b <= 0xffff_ffff,
    ;
}

proof fn lemma_mul_le(a: int, b: int, c: int)
    requires
        0 <= a,
        0 <= b,
        b <= c,
    ensures
        a * b <= a * c,
{
    assert(a * b <= a * c) by (nonlinear_arith)
        requires
            0 <= a,
            0 <= b,
            b <= c,
    ;
}

// ---------------------------------------------------------------------------
// Planes
// ---------------------------------------------------------------------------

/// A plane inside a byte buffer: its first byte, its row stride and its length.
#[derive(Clone, Copy, Debug, PartialEq, Eq, Structural)]
pub struct Plane {
    pub offset: u32,
    pub stride: u32,
    pub len: u32,
}

/// `p` starts at `d.0`, has stride `d.1` and length `d.2`.
pub open spec fn plane_is(p: Plane, d: (int, int, int)) -> bool {
    p.offset == d.0 && p.stride == d.1 && p.len == d.2
}

/// The planes `ps` are, in order, the planes described by `ds`.
pub open spec fn planes_are(ps: Seq<Plane>, ds: Seq<(int, int, int)>) -> bool {
    &&& ps.len() == ds.len()
    &&& forall|i: int| 0 <= i < ps.len() ==> plane_is(#[trigger] ps[i], ds[i])
}

/// The integers of a sequence of `u32`.
pub open spec fn ints(s: Seq<u32>) -> Seq<int> {
    s.map_values(|x: u32| x as int)
}

/// Offset of plane `k` when planes of the given strides and row counts are
/// laid out one after the other from offset 0.
pub open spec fn stacked_offset(strides: Seq<int>, rows: Seq<int>, k: int) -> int
    decreases k,
{
    if k <= 0 {
        0
    } else {
        stacked_offset(strides, rows, k - 1) + strides[k - 1] * rows[k - 1]
    }
}

/// The planes of the given strides and row counts laid out back to back.
pub open spec fn stacked_planes(strides: Seq<int>, rows: Seq<int>) -> Seq<(int, int, int)> {
    Seq::new(
        strides.len(),
        |k: int| (stacked_offset(strides, rows, k), strides[k], strides[k] * rows[k]),
    )
}

/// Total length of the back-to-back planes.
pub open spec fn stacked_len(strides: Seq<int>, rows: Seq<int>) -> int {
    stacked_offset(strides, rows, strides.len() as int)
}

proof fn lemma_stacked_monotone(strides: Seq<int>, rows: Seq<int>, j: int, k: int)
    requires
        0 <= j <= k <= strides.len(),
        strides.len() == rows.len(),
        forall|i: int| 0 <= i < strides.len() ==> strides[i] >= 0 && rows[i] >= 0,
    ensures
        0 <= stacked_offset(strides, rows, j) <= stacked_offset(strides, rows, k),
    decreases k,
{
    if k > 0 {
        lemma_mul_nonneg(strides[k - 1], rows[k - 1]);
        if j < k {
            lemma_stacked_monotone(strides, rows, j, k - 1);
        } else {
            lemma_stacked_monotone(strides, rows, j - 1, k - 1);
        }
    }
}

/// Lays out planes of the given strides and row counts back to back.
pub fn split_planes(strides: &Vec<u32>, rows: &Vec<u32>) -> (planes: Vec<Plane>)
    requires
        strides.len() == rows.len(),
        stacked_len(ints(strides@), ints(rows@)) <= u32::MAX,
    ensures
        planes_are(planes@, stacked_planes(ints(strides@), ints(rows@))),
{
    let ghost s = ints(strides@);
    let ghost r = ints(rows@);
    let n = strides.len();
    let mut planes: Vec<Plane> = Vec::new();
    let mut offset: u32 = 0;
    let mut k: usize = 0;
    while k < n
        invariant
            n == strides.len(),
            n == rows.len(),
            s == ints(strides@),
            r == ints(rows@),
            stacked_len(s, r) <= u32::MAX,
            k <= n,
            offset == stacked_offset(s, r, k as int),
            planes@.len() == k,
            forall|i: int| 0 <= i < k ==> plane_is(#[trigger] planes@[i], stacked_planes(s, r)[i]),
        decreases n - k,
    {
        proof {
            lemma_stacked_monotone(s, r, (k + 1) as int, n as int);
            lemma_mul_u32_fits_u64(strides@[k as int], rows@[k as int]);
        }
        let len64: u64 = strides[k] as u64 * rows[k] as u64;
        assert(offset + len64 == stacked_offset(s, r, (k + 1) as int));
        let len: u32 = len64 as u32;
        planes.push(Plane { offset, stride: strides[k], len });
        offset = offset + len;
        k = k + 1;
    }
    planes
}

// ---------------------------------------------------------------------------
// Buffer descriptions
// ---------------------------------------------------------------------------

/// Plane `c` starts at `ptr`, has stride `stride` and size `size`.
pub open spec fn component_is(c: ComponentInfo, ptr: int, stride: int, size: int) -> bool {
    c.data_ptr == ptr && c.stride == stride && c.size == size
}

/// `info` describes an I420 image of `w` by `h` pixels stored at `ptr` in
/// `len` bytes, its three planes back to back.
pub open spec fn i420_info_is(info: VideoBufferInfo, ptr: int, len: int, w: int, h: int) -> bool {
    let cw = half_up(w);
    let ch = half_up(h);
    &&& info.buffer_type == VideoBufferType::I420
    &&& info.width == w
    &&& info.height == h
    &&& info.data_ptr == ptr
    &&& info.data_len == len
    &&& info.stride == 0
    &&& info.components@.len() == 3
    &&& component_is(info.components@[0], ptr, w, w * h)
    &&& component_is(info.components@[1], ptr + w * h, cw, cw * ch)
    &&& component_is(info.components@[2], ptr + w * h + cw * ch, cw, cw * ch)
}

/// `info` describes a packed image of type `ty`, `w` by `h` pixels of `bpp`
/// bytes each, stored at `ptr` in `len` bytes.
pub open spec fn packed_info_is(
    info: VideoBufferInfo,
    ptr: int,
    len: int,
    ty: VideoBufferType,
    bpp: int,
    w: int,
    h: int,
) -> bool {
    &&& info.buffer_type == ty
    &&& info.width == w
    &&& info.height == h
    &&& info.data_ptr == ptr
    &&& info.data_len == len
    &&& info.stride == w * bpp
    &&& info.components@.len() == 0
}

/// The I420 size of a `w` by `h` image, and each part of it, fits in a `u32`.
pub open spec fn i420_fits(w: int, h: int) -> bool {
    &&& w < u32::MAX
    &&& h < u32::MAX
    &&& i420_len(w, h) <= u32::MAX
}

proof fn lemma_i420_parts(w: int, h: int)
    requires
        0 <= w,
        0 <= h,
    ensures
        0 <= w * h,
        0 <= half_up(w) * half_up(h),
        half_up(w) <= w + 1,
{
    lemma_mul_nonneg(w, h);
    lemma_mul_nonneg(half_up(w), half_up(h));
}

/// Describes the I420 image of `width` by `height` pixels stored at
/// `data_ptr` in `data_len` bytes.
pub fn i420_info(data_ptr: u64, data_len: u32, width: u32, height: u32) -> (info: VideoBufferInfo)
    requires
        i420_fits(width as int, height as int),
        i420_len(width as int, height as int) <= data_len,
        data_ptr + data_len <= u64::MAX,
    ensures
        i420_info_is(info, data_ptr as int, data_len as int, width as int, height as int),
{
    proof {
        lemma_i420_parts(width as int, height as int);
    }
    let chroma_w = chroma_extent(width);
    let chroma_h = chroma_extent(height);
    let y_size = width * height;
    let c_size = chroma_w * chroma_h;
    let c0 = ComponentInfo { data_ptr, stride: width, size: y_size };
    let c1 = ComponentInfo { data_ptr: data_ptr + y_size as u64, stride: chroma_w, size: c_size };
    let c2 = ComponentInfo {
        data_ptr: data_ptr + y_size as u64 + c_size as u64,
        stride: chroma_w,
        size: c_size,
    };
    let mut components: Vec<ComponentInfo> = Vec::new();
    components.push(c0);
    components.push(c1);
    components.push(c2);
    VideoBufferInfo {
        buffer_type: VideoBufferType::I420,
        width,
        height,
        data_ptr,
        data_len,
        stride: 0,
        components,
    }
}

/// Describes the 4-bytes-per-pixel image of type `ty` and `width` by
/// `height` pixels stored at `data_ptr` in `data_len` bytes.
pub fn rgba_info(
    data_ptr: u64,
    data_len: u32,
    ty: VideoBufferType,
    width: u32,
    height: u32,
) -> (info: VideoBufferInfo)
    requires
        width * 4 <= u32::MAX,
    ensures
        packed_info_is(info, data_ptr as int, data_len as int, ty, 4, width as int, height as int),
{
    VideoBufferInfo {
        buffer_type: ty,
        width,
        height,
        data_ptr,
        data_len,
        stride: width * 4,
        components: Vec::new(),
    }
}

/// Describes the 3-bytes-per-pixel image of type `ty` and `width` by
/// `height` pixels stored at `data_ptr` in `data_len` bytes.
pub fn rgb_info(
    data_ptr: u64,
    data_len: u32,
    ty: VideoBufferType,
    width: u32,
    height: u32,
) -> (info: VideoBufferInfo)
    requires
        width * 3 <= u32::MAX,
    ensures
        packed_info_is(info, data_ptr as int, data_len as int, ty, 3, width as int, height as int),
{
    VideoBufferInfo {
        buffer_type: ty,
        width,
        height,
        data_ptr,
        data_len,
        stride: width * 3,
        components: Vec::new(),
    }
}

// ---------------------------------------------------------------------------
// Names and errors
// ---------------------------------------------------------------------------

/// The name of a buffer type as the protocol spells it.
pub open spec fn buffer_type_label(t: VideoBufferType) -> Seq<char> {
    match t {
        VideoBufferType::Rgba => "Rgba"@,
        VideoBufferType::Abgr => "Abgr"@,
        VideoBufferType::Argb => "Argb"@,
        VideoBufferType::Bgra => "Bgra"@,
        VideoBufferType::Rgb24 => "Rgb24"@,
        VideoBufferType::I420 => "I420"@,
        VideoBufferType::I420a => "I420a"@,
        VideoBufferType::I422 => "I422"@,
        VideoBufferType::I444 => "I444"@,
        VideoBufferType::I010 => "I010"@,
        VideoBufferType::Nv12 => "Nv12"@,
    }
}

/// The name of a buffer type as the protocol spells it.
pub fn buffer_type_name(t: VideoBufferType) -> (s: &'static str)
    ensures
        s@ == buffer_type_label(t),
{
    match t {
        VideoBufferType::Rgba => "Rgba",
        VideoBufferType::Abgr => "Abgr",
        VideoBufferType::Argb => "Argb",
        VideoBufferType::Bgra => "Bgra",
        VideoBufferType::Rgb24 => "Rgb24",
        VideoBufferType::I420 => "I420",
        VideoBufferType::I420a => "I420a",
        VideoBufferType::I422 => "I422",
        VideoBufferType::I444 => "I444",
        VideoBufferType::I010 => "I010",
        VideoBufferType::Nv12 => "Nv12",
    }
}

/// The message of the error that refuses converting `from` into `to`.
pub open spec fn unsupported_message(from: Seq<char>, to: VideoBufferType) -> Seq<char> {
    from + " to "@ + buffer_type_label(to) + " is not supported"@
}

fn unsupported(from: &str, to: VideoBufferType) -> (e: FfiError)
    ensures
        e matches FfiError::InvalidRequest(m) && m@ == unsupported_message(from@, to),
{
    let msg = String::from_str(from).concat(" to ").concat(buffer_type_name(to)).concat(
        " is not supported",
    );
    FfiError::InvalidRequest(msg)
}


// ---------------------------------------------------------------------------
// Conversion plans
// ---------------------------------------------------------------------------

/// The pixel routines that convert one layout into another. The names follow
/// the routines of the image library that performs them.
#[derive(Clone, Copy, Debug, PartialEq, Eq, Structural)]
pub enum ColorRoutine {
    AbgrToI420,
    RgbaToI420,
    BgraToI420,
    ArgbToI420,
    RawToI420,
    I420ToAbgr,
    I420ToRgba,
    I420ToBgra,
    I420ToArgb,
    I420ToRaw,
    I420Copy,
    I422ToAbgr,
    I422ToRgba,
    I422ToBgra,
    I422ToI420,
    I444ToAbgr,
    I444ToArgb,
    I444ToI420,
    I010ToAbgr,
    I010ToArgb,
    I010ToI420,
    Nv12ToAbgr,
    Nv12ToArgb,
    Nv12ToI420,
}

/// How to convert a source buffer into a newly allocated destination buffer.
#[derive(Debug)]
pub struct ConversionPlan {
    /// The pixel routine to run.
    pub routine: ColorRoutine,
    /// Whether the routine mirrors the image vertically.
    pub flip_y: bool,
    /// Width of both images in pixels.
    pub width: u32,
    /// Height of both images in pixels.
    pub height: u32,
    /// The planes of the source, as offsets into the source bytes.
    pub src_planes: Vec<Plane>,
    /// Layout of the destination.
    pub dst_type: VideoBufferType,
    /// Number of bytes to allocate for the destination.
    pub dst_len: u32,
    /// The planes of the destination, as offsets into the destination bytes.
    pub dst_planes: Vec<Plane>,
}

/// Size in bytes of a `w` by `h` destination image of type `dst`.
pub open spec fn dst_len_of(dst: VideoBufferType, w: int, h: int) -> int {
    match dst {
        VideoBufferType::I420 => i420_len(w, h),
        VideoBufferType::Rgb24 => w * h * 3,
        _ => w * h * 4,
    }
}

/// Row stride in bytes of a packed destination of type `dst` and width `w`.
pub open spec fn dst_packed_stride(dst: VideoBufferType, w: int) -> int {
    if dst == VideoBufferType::Rgb24 {
        w * 3
    } else {
        w * 4
    }
}

/// The planes of a `w` by `h` destination image of type `dst`.
pub open spec fn dst_planes_of(dst: VideoBufferType, w: int, h: int) -> Seq<(int, int, int)> {
    if dst == VideoBufferType::I420 {
        let cw = half_up(w);
        let ch = half_up(h);
        seq![(0, w, w * h), (w * h, cw, cw * ch), (w * h + cw * ch, cw, cw * ch)]
    } else {
        seq![(0, dst_packed_stride(dst, w), dst_len_of(dst, w, h))]
    }
}

/// The sizes computed for a `w` by `h` destination of type `dst` fit in a `u32`.
pub open spec fn dst_fits(dst: VideoBufferType, w: int, h: int) -> bool {
    if dst == VideoBufferType::I420 {
        i420_fits(w, h)
    } else {
        &&& dst_len_of(dst, w, h) <= u32::MAX
        &&& dst_packed_stride(dst, w) <= u32::MAX
    }
}

/// A packed source is one plane: `height` rows at the buffer's stride.
pub open spec fn packed_source(b: VideoBufferInfo) -> Seq<(int, int, int)> {
    seq![(0, b.stride as int, b.stride * b.height)]
}

/// Bytes per pixel of a packed layout.
pub open spec fn packed_bpp(t: VideoBufferType) -> int {
    if t == VideoBufferType::Rgb24 {
        3
    } else {
        4
    }
}

/// A packed source's rows each hold a row of pixels, and its bytes hold all
/// of its rows: what the pixel routines check before they read it.
pub open spec fn packed_rows_fit(b: VideoBufferInfo) -> bool {
    &&& b.stride >= b.width * packed_bpp(b.buffer_type)
    &&& b.stride * b.height <= b.data_len
}

/// Fewest bytes a row of each plane of a planar source of type `t` and
/// width `w` takes (samples of I010 take two bytes; the chroma plane of NV12
/// interleaves two samples).
pub open spec fn planar_row_bytes(t: VideoBufferType, w: int) -> Seq<int> {
    let cw = half_up(w);
    match t {
        VideoBufferType::I420a => seq![w, cw, cw, w],
        VideoBufferType::I444 => seq![w, w, w],
        VideoBufferType::I010 => seq![2 * w, 2 * cw, 2 * cw],
        VideoBufferType::Nv12 => seq![w, 2 * cw],
        _ => seq![w, cw, cw],
    }
}

/// Each declared stride of a planar source holds a row of its plane: what
/// the pixel routines check before they read it.
pub open spec fn planar_rows_fit(b: VideoBufferInfo) -> bool {
    let row_bytes = planar_row_bytes(b.buffer_type, b.width as int);
    &&& b.components@.len() >= row_bytes.len()
    &&& forall|i: int|
        0 <= i < row_bytes.len() ==> #[trigger] b.components@[i].stride >= row_bytes[i]
}

/// Row counts of the planes of a planar source of type `t` and height `h`.
pub open spec fn source_rows(t: VideoBufferType, h: int) -> Seq<int> {
    match t {
        VideoBufferType::I420a => seq![h, half_up(h), half_up(h), h],
        VideoBufferType::I422 => seq![h, h, h],
        VideoBufferType::I444 => seq![h, h, h],
        VideoBufferType::Nv12 => seq![h, half_up(h)],
        _ => seq![h, half_up(h), half_up(h)],
    }
}

/// The strides of the first `n` planes that `b` declares.
pub open spec fn component_strides(b: VideoBufferInfo, n: int) -> Seq<int> {
    Seq::new(n as nat, |i: int| b.components@[i].stride as int)
}

/// The planes of a planar source: back to back, at the declared strides.
pub open spec fn planar_source(b: VideoBufferInfo) -> Seq<(int, int, int)> {
    let rows = source_rows(b.buffer_type, b.height as int);
    stacked_planes(component_strides(b, rows.len() as int), rows)
}

/// A planar source declares a stride for each of its planes, and its bytes
/// hold all of them.
pub open spec fn planar_source_ok(b: VideoBufferInfo) -> bool {
    let rows = source_rows(b.buffer_type, b.height as int);
    &&& b.height < u32::MAX
    &&& b.components@.len() >= rows.len()
    &&& stacked_len(component_strides(b, rows.len() as int), rows) <= b.data_len
}

/// `plan` runs `routine` over the planes `src` of `b` into a fresh
/// destination of type `dst` and the same dimensions.
pub open spec fn plan_is(
    plan: ConversionPlan,
    routine: ColorRoutine,
    b: VideoBufferInfo,
    src: Seq<(int, int, int)>,
    dst: VideoBufferType,
    flip_y: bool,
) -> bool {
    &&& plan.routine == routine
    &&& plan.flip_y == flip_y
    &&& plan.width == b.width
    &&& plan.height == b.height
    &&& planes_are(plan.src_planes@, src)
    &&& plan.dst_type == dst
    &&& plan.dst_len == dst_len_of(dst, b.width as int, b.height as int)
    &&& planes_are(plan.dst_planes@, dst_planes_of(dst, b.width as int, b.height as int))
}

/// What converting `b` into `dst` gives, where `route` is the routine for the
/// pair (if any) and `from` names the source layout in error messages.
pub open spec fn conversion_result(
    res: Result<ConversionPlan, FfiError>,
    route: Option<ColorRoutine>,
    from: Seq<char>,
    b: VideoBufferInfo,
    src: Seq<(int, int, int)>,
    dst: VideoBufferType,
    flip_y: bool,
) -> bool {
    match route {
        Some(r) => res matches Ok(plan) && plan_is(plan, r, b, src, dst, flip_y),
        None => fails_with(res, unsupported_message(from, dst)),
    }
}

fn destination_planes(dst: VideoBufferType, w: u32, h: u32) -> (res: (Vec<Plane>, u32))
    requires
        dst_fits(dst, w as int, h as int),
    ensures
        planes_are(res.0@, dst_planes_of(dst, w as int, h as int)),
        res.1 == dst_len_of(dst, w as int, h as int),
{
    let mut planes: Vec<Plane> = Vec::new();
    if dst == VideoBufferType::I420 {
        proof {
            lemma_i420_parts(w as int, h as int);
        }
        let cw = chroma_extent(w);
        let ch = chroma_extent(h);
        let y_len = w * h;
        let c_len = cw * ch;
        planes.push(Plane { offset: 0, stride: w, len: y_len });
        planes.push(Plane { offset: y_len, stride: cw, len: c_len });
        planes.push(Plane { offset: y_len + c_len, stride: cw, len: c_len });
        (planes, y_len + c_len * 2)
    } else {
        let bpp: u32 = if dst == VideoBufferType::Rgb24 {
            3
        } else {
            4
        };
        proof {
            lemma_mul_nonneg(w as int, h as int);
            assert(w * h * bpp == w * h * 4 || w * h * bpp == w * h * 3);
            lemma_mul_le(w * h, 1, bpp as int);
        }
        let len = w * h * bpp;
        planes.push(Plane { offset: 0, stride: w * bpp, len });
        (planes, len)
    }
}

fn finish_plan(
    routine: ColorRoutine,
    b: &VideoBufferInfo,
    src_planes: Vec<Plane>,
    dst: VideoBufferType,
    flip_y: bool,
) -> (plan: ConversionPlan)
    requires
        dst_fits(dst, b.width as int, b.height as int),
    ensures
        plan.routine == routine,
        plan.flip_y == flip_y,
        plan.width == b.width,
        plan.height == b.height,
        plan.src_planes@ == src_planes@,
        plan.dst_type == dst,
        plan.dst_len == dst_len_of(dst, b.width as int, b.height as int),
        planes_are(plan.dst_planes@, dst_planes_of(dst, b.width as int, b.height as int)),
{
    let (dst_planes, dst_len) = destination_planes(dst, b.width, b.height);
    ConversionPlan {
        routine,
        flip_y,
        width: b.width,
        height: b.height,
        src_planes,
        dst_type: dst,
        dst_len,
        dst_planes,
    }
}

/// The one plane of a packed source: all of its bytes, at its stride.
fn packed_planes(b: &VideoBufferInfo) -> (ps: Vec<Plane>)
    requires
        packed_rows_fit(*b),
    ensures
        planes_are(ps@, packed_source(*b)),
{
    let mut ps: Vec<Plane> = Vec::new();
    ps.push(Plane { offset: 0, stride: b.stride, len: b.stride * b.height });
    ps
}

/// The planes of a planar source, back to back at its declared strides.
fn planar_planes(b: &VideoBufferInfo) -> (ps: Vec<Plane>)
    requires
        planar_source_ok(*b),
    ensures
        planes_are(ps@, planar_source(*b)),
{
    let h = b.height;
    let mut rows: Vec<u32> = Vec::new();
    match b.buffer_type {
        VideoBufferType::I420a => {
            let ch = chroma_extent(h);
            rows.push(h);
            rows.push(ch);
            rows.push(ch);
            rows.push(h);
        },
        VideoBufferType::I422 | VideoBufferType::I444 => {
            rows.push(h);
            rows.push(h);
            rows.push(h);
        },
        VideoBufferType::Nv12 => {
            let ch = chroma_extent(h);
            rows.push(h);
            rows.push(ch);
        },
        _ => {
            let ch = chroma_extent(h);
            rows.push(h);
            rows.push(ch);
            rows.push(ch);
        },
    }
    let ghost want_rows = source_rows(b.buffer_type, h as int);
    assert(ints(rows@) =~= want_rows);
    let n = rows.len();
    let mut strides: Vec<u32> = Vec::new();
    let mut i: usize = 0;
    while i < n
        invariant
            n == rows.len(),
            n == want_rows.len(),
            n <= b.components@.len(),
            i <= n,
            strides@.len() == i,
            forall|j: int| 0 <= j < i ==> strides@[j] == b.components@[j].stride,
        decreases n - i,
    {
        strides.push(b.components[i].stride);
        i = i + 1;
    }
    assert(ints(strides@) =~= component_strides(*b, n as int));
    split_planes(&strides, &rows)
}

/// Routine that converts an RGBA source into `dst`, if any.
pub open spec fn rgba_route(dst: VideoBufferType) -> Option<ColorRoutine> {
    if dst == VideoBufferType::I420 { Some(ColorRoutine::AbgrToI420) } else { None }
}

/// Routine that converts an ABGR source into `dst`, if any.
pub open spec fn abgr_route(dst: VideoBufferType) -> Option<ColorRoutine> {
    if dst == VideoBufferType::I420 { Some(ColorRoutine::RgbaToI420) } else { None }
}

/// Routine that converts an ARGB source into `dst`, if any.
pub open spec fn argb_route(dst: VideoBufferType) -> Option<ColorRoutine> {
    if dst == VideoBufferType::I420 { Some(ColorRoutine::BgraToI420) } else { None }
}

/// Routine that converts a BGRA source into `dst`, if any.
pub open spec fn bgra_route(dst: VideoBufferType) -> Option<ColorRoutine> {
    if dst == VideoBufferType::I420 { Some(ColorRoutine::ArgbToI420) } else { None }
}

/// Routine that converts an RGB24 source into `dst`, if any.
pub open spec fn rgb24_route(dst: VideoBufferType) -> Option<ColorRoutine> {
    if dst == VideoBufferType::I420 { Some(ColorRoutine::RawToI420) } else { None }
}

/// Routine that converts an I420 source into `dst`, if any.
pub open spec fn i420_route(dst: VideoBufferType) -> Option<ColorRoutine> {
    match dst {
        VideoBufferType::Rgba => Some(ColorRoutine::I420ToAbgr),
        VideoBufferType::Abgr => Some(ColorRoutine::I420ToRgba),
        VideoBufferType::Argb => Some(ColorRoutine::I420ToBgra),
        VideoBufferType::Bgra => Some(ColorRoutine::I420ToArgb),
        VideoBufferType::Rgb24 => Some(ColorRoutine::I420ToRaw),
        VideoBufferType::I420 => Some(ColorRoutine::I420Copy),
        _ => None,
    }
}

/// Routine that converts an I420A source into `dst`, if any.
pub open spec fn i420a_route(dst: VideoBufferType) -> Option<ColorRoutine> {
    if dst == VideoBufferType::I420 { Some(ColorRoutine::I420Copy) } else { None }
}

/// Routine that converts an I422 source into `dst`, if any.
pub open spec fn i422_route(dst: VideoBufferType) -> Option<ColorRoutine> {
    match dst {
        VideoBufferType::Rgba => Some(ColorRoutine::I422ToAbgr),
        VideoBufferType::Abgr => Some(ColorRoutine::I422ToRgba),
        VideoBufferType::Argb => Some(ColorRoutine::I422ToBgra),
        VideoBufferType::I420 => Some(ColorRoutine::I422ToI420),
        _ => None,
    }
}

/// Routine that converts an I444 source into `dst`, if any.
pub open spec fn i444_route(dst: VideoBufferType) -> Option<ColorRoutine> {
    match dst {
        VideoBufferType::Rgba => Some(ColorRoutine::I444ToAbgr),
        VideoBufferType::Bgra => Some(ColorRoutine::I444ToArgb),
        VideoBufferType::I420 => Some(ColorRoutine::I444ToI420),
        _ => None,
    }
}

/// Routine that converts an I010 source into `dst`, if any.
pub open spec fn i010_route(dst: VideoBufferType) -> Option<ColorRoutine> {
    match dst {
        VideoBufferType::Rgba => Some(ColorRoutine::I010ToAbgr),
        VideoBufferType::Bgra => Some(ColorRoutine::I010ToArgb),
        VideoBufferType::I420 => Some(ColorRoutine::I010ToI420),
        _ => None,
    }
}

/// Routine that converts an NV12 source into `dst`, if any.
pub open spec fn nv12_route(dst: VideoBufferType) -> Option<ColorRoutine> {
    match dst {
        VideoBufferType::Rgba => Some(ColorRoutine::Nv12ToAbgr),
        VideoBufferType::Bgra => Some(ColorRoutine::Nv12ToArgb),
        VideoBufferType::I420 => Some(ColorRoutine::Nv12ToI420),
        _ => None,
    }
}

/// Plans the conversion of an RGBA buffer into `dst` (only I420 is supported).
pub fn cvt_rgba(buffer: VideoBufferInfo, dst: VideoBufferType, flip_y: bool) -> (res: Result<
    ConversionPlan,
    FfiError,
>)
    requires
        buffer.buffer_type == VideoBufferType::Rgba,
        rgba_route(dst) is Some ==> dst_fits(dst, buffer.width as int, buffer.height as int),
        rgba_route(dst) is Some ==> packed_rows_fit(buffer),
    ensures
        conversion_result(res, rgba_route(dst), "rgba"@, buffer, packed_source(buffer), dst, flip_y),
{
    match dst {
        VideoBufferType::I420 => {
            let src = packed_planes(&buffer);
            Ok(finish_plan(ColorRoutine::AbgrToI420, &buffer, src, dst, flip_y))
        },
        _ => Err(unsupported("rgba", dst)),
    }
}

/// Plans the conversion of an ABGR buffer into `dst` (only I420 is
/// supported). The buffer's declared type must be `Rgba`.
pub fn cvt_abgr(buffer: VideoBufferInfo, dst_type: VideoBufferType, flip_y: bool) -> (res: Result<
    ConversionPlan,
    FfiError,
>)
    requires
        buffer.buffer_type == VideoBufferType::Rgba,
        abgr_route(dst_type) is Some ==> dst_fits(
            dst_type,
            buffer.width as int,
            buffer.height as int,
        ),
        abgr_route(dst_type) is Some ==> packed_rows_fit(buffer),
    ensures
        conversion_result(
            res,
            abgr_route(dst_type),
            "abgr"@,
            buffer,
            packed_source(buffer),
            dst_type,
            flip_y,
        ),
{
    match dst_type {
        VideoBufferType::I420 => {
            let src = packed_planes(&buffer);
            Ok(finish_plan(ColorRoutine::RgbaToI420, &buffer, src, dst_type, flip_y))
        },
        _ => Err(unsupported("abgr", dst_type)),
    }
}

/// Plans the conversion of an ARGB buffer into `dst` (only I420 is supported).
pub fn cvt_argb(buffer: VideoBufferInfo, dst: VideoBufferType, flip_y: bool) -> (res: Result<
    ConversionPlan,
    FfiError,
>)
    requires
        buffer.buffer_type == VideoBufferType::Argb,
        argb_route(dst) is Some ==> dst_fits(dst, buffer.width as int, buffer.height as int),
        argb_route(dst) is Some ==> packed_rows_fit(buffer),
    ensures
        conversion_result(res, argb_route(dst), "argb"@, buffer, packed_source(buffer), dst, flip_y),
{
    match dst {
        VideoBufferType::I420 => {
            let src = packed_planes(&buffer);
            Ok(finish_plan(ColorRoutine::BgraToI420, &buffer, src, dst, flip_y))
        },
        _ => Err(unsupported("argb", dst)),
    }
}

/// Plans the conversion of a BGRA buffer into `dst` (only I420 is supported).
pub fn cvt_bgra(buffer: VideoBufferInfo, dst: VideoBufferType, flip_y: bool) -> (res: Result<
    ConversionPlan,
    FfiError,
>)
    requires
        buffer.buffer_type == VideoBufferType::Bgra,
        bgra_route(dst) is Some ==> dst_fits(dst, buffer.width as int, buffer.height as int),
        bgra_route(dst) is Some ==> packed_rows_fit(buffer),
    ensures
        conversion_result(res, bgra_route(dst), "bgra"@, buffer, packed_source(buffer), dst, flip_y),
{
    match dst {
        VideoBufferType::I420 => {
            let src = packed_planes(&buffer);
            Ok(finish_plan(ColorRoutine::ArgbToI420, &buffer, src, dst, flip_y))
        },
        _ => Err(unsupported("bgra", dst)),
    }
}

/// Plans the conversion of an RGB24 buffer into `dst` (only I420 is supported).
pub fn cvt_rgb24(buffer: VideoBufferInfo, dst_type: VideoBufferType, flip_y: bool) -> (res: Result<
    ConversionPlan,
    FfiError,
>)
    requires
        buffer.buffer_type == VideoBufferType::Rgb24,
        rgb24_route(dst_type) is Some ==> dst_fits(
            dst_type,
            buffer.width as int,
            buffer.height as int,
        ),
        rgb24_route(dst_type) is Some ==> packed_rows_fit(buffer),
    ensures
        conversion_result(
            res,
            rgb24_route(dst_type),
            "rgb24"@,
            buffer,
            packed_source(buffer),
            dst_type,
            flip_y,
        ),
{
    match dst_type {
        VideoBufferType::I420 => {
            let src = packed_planes(&buffer);
            Ok(finish_plan(ColorRoutine::RawToI420, &buffer, src, dst_type, flip_y))
        },
        _ => Err(unsupported("rgb24", dst_type)),
    }
}

/// Plans the conversion of an I420 buffer into `dst_type`: any of the four
/// 32-bit RGB layouts, RGB24, or I420 itself.
pub fn cvt_i420(buffer: VideoBufferInfo, dst_type: VideoBufferType, flip_y: bool) -> (res: Result<
    ConversionPlan,
    FfiError,
>)
    requires
        buffer.buffer_type == VideoBufferType::I420,
        planar_source_ok(buffer),
        i420_route(dst_type) is Some ==> dst_fits(
            dst_type,
            buffer.width as int,
            buffer.height as int,
        ),
        i420_route(dst_type) is Some ==> planar_rows_fit(buffer),
    ensures
        conversion_result(
            res,
            i420_route(dst_type),
            "i420"@,
            buffer,
            planar_source(buffer),
            dst_type,
            flip_y,
        ),
{
    let src = planar_planes(&buffer);
    let routine = match dst_type {
        VideoBufferType::Rgba => ColorRoutine::I420ToAbgr,
        VideoBufferType::Abgr => ColorRoutine::I420ToRgba,
        VideoBufferType::Argb => ColorRoutine::I420ToBgra,
        VideoBufferType::Bgra => ColorRoutine::I420ToArgb,
        VideoBufferType::Rgb24 => ColorRoutine::I420ToRaw,
        VideoBufferType::I420 => ColorRoutine::I420Copy,
        _ => {
            return Err(unsupported("i420", dst_type));
        },
    };
    Ok(finish_plan(routine, &buffer, src, dst_type, flip_y))
}

/// Plans the conversion of an I420A buffer into `dst_type` (only I420 is
/// supported; the alpha plane is dropped).
pub fn cvt_i420a(buffer: VideoBufferInfo, dst_type: VideoBufferType, flip_y: bool) -> (res: Result<
    ConversionPlan,
    FfiError,
>)
    requires
        buffer.buffer_type == VideoBufferType::I420a,
        planar_source_ok(buffer),
        i420a_route(dst_type) is Some ==> dst_fits(
            dst_type,
            buffer.width as int,
            buffer.height as int,
        ),
        i420a_route(dst_type) is Some ==> planar_rows_fit(buffer),
    ensures
        conversion_result(
            res,
            i420a_route(dst_type),
            "i420a"@,
            buffer,
            planar_source(buffer),
            dst_type,
            flip_y,
        ),
{
    let src = planar_planes(&buffer);
    match dst_type {
        VideoBufferType::I420 => Ok(
            finish_plan(ColorRoutine::I420Copy, &buffer, src, dst_type, flip_y),
        ),
        _ => Err(unsupported("i420a", dst_type)),
    }
}

/// Plans the conversion of an I422 buffer into `dst_type`: RGBA, ABGR, ARGB
/// or I420.
pub fn cvt_i422(buffer: VideoBufferInfo, dst_type: VideoBufferType, flip_y: bool) -> (res: Result<
    ConversionPlan,
    FfiError,
>)
    requires
        buffer.buffer_type == VideoBufferType::I422,
        planar_source_ok(buffer),
        i422_route(dst_type) is Some ==> dst_fits(
            dst_type,
            buffer.width as int,
            buffer.height as int,
        ),
        i422_route(dst_type) is Some ==> planar_rows_fit(buffer),
    ensures
        conversion_result(
            res,
            i422_route(dst_type),
            "i422"@,
            buffer,
            planar_source(buffer),
            dst_type,
            flip_y,
        ),
{
    let src = planar_planes(&buffer);
    let routine = match dst_type {
        VideoBufferType::Rgba => ColorRoutine::I422ToAbgr,
        VideoBufferType::Abgr => ColorRoutine::I422ToRgba,
        VideoBufferType::Argb => ColorRoutine::I422ToBgra,
        VideoBufferType::I420 => ColorRoutine::I422ToI420,
        _ => {
            return Err(unsupported("i422", dst_type));
        },
    };
    Ok(finish_plan(routine, &buffer, src, dst_type, flip_y))
}

/// Plans the conversion of an I444 buffer into `dst_type`: RGBA, BGRA or I420.
pub fn cvt_i444(buffer: VideoBufferInfo, dst_type: VideoBufferType, flip_y: bool) -> (res: Result<
    ConversionPlan,
    FfiError,
>)
    requires
        buffer.buffer_type == VideoBufferType::I444,
        planar_source_ok(buffer),
        i444_route(dst_type) is Some ==> dst_fits(
            dst_type,
            buffer.width as int,
            buffer.height as int,
        ),
        i444_route(dst_type) is Some ==> planar_rows_fit(buffer),
    ensures
        conversion_result(
            res,
            i444_route(dst_type),
            "i444"@,
            buffer,
            planar_source(buffer),
            dst_type,
            flip_y,
        ),
{
    let src = planar_planes(&buffer);
    let routine = match dst_type {
        VideoBufferType::Rgba => ColorRoutine::I444ToAbgr,
        VideoBufferType::Bgra => ColorRoutine::I444ToArgb,
        VideoBufferType::I420 => ColorRoutine::I444ToI420,
        _ => {
            return Err(unsupported("i444", dst_type));
        },
    };
    Ok(finish_plan(routine, &buffer, src, dst_type, flip_y))
}

/// Plans the conversion of an I010 buffer into `dst_type`: RGBA, BGRA or I420.
pub fn cvt_i010(buffer: VideoBufferInfo, dst_type: VideoBufferType, flip_y: bool) -> (res: Result<
    ConversionPlan,
    FfiError,
>)
    requires
        buffer.buffer_type == VideoBufferType::I010,
        planar_source_ok(buffer),
        i010_route(dst_type) is Some ==> dst_fits(
            dst_type,
            buffer.width as int,
            buffer.height as int,
        ),
        i010_route(dst_type) is Some ==> planar_rows_fit(buffer),
    ensures
        conversion_result(
            res,
            i010_route(dst_type),
            "i010"@,
            buffer,
            planar_source(buffer),
            dst_type,
            flip_y,
        ),
{
    let src = planar_planes(&buffer);
    let routine = match dst_type {
        VideoBufferType::Rgba => ColorRoutine::I010ToAbgr,
        VideoBufferType::Bgra => ColorRoutine::I010ToArgb,
        VideoBufferType::I420 => ColorRoutine::I010ToI420,
        _ => {
            return Err(unsupported("i010", dst_type));
        },
    };
    Ok(finish_plan(routine, &buffer, src, dst_type, flip_y))
}

/// Plans the conversion of an NV12 buffer into `dst_type`: RGBA, BGRA or I420.
pub fn cvt_nv12(buffer: VideoBufferInfo, dst_type: VideoBufferType, flip_y: bool) -> (res: Result<
    ConversionPlan,
    FfiError,
>)
    requires
        buffer.buffer_type == VideoBufferType::Nv12,
        planar_source_ok(buffer),
        nv12_route(dst_type) is Some ==> dst_fits(
            dst_type,
            buffer.width as int,
            buffer.height as int,
        ),
        nv12_route(dst_type) is Some ==> planar_rows_fit(buffer),
    ensures
        conversion_result(
            res,
            nv12_route(dst_type),
            "nv12"@,
            buffer,
            planar_source(buffer),
            dst_type,
            flip_y,
        ),
{
    let src = planar_planes(&buffer);
    let routine = match dst_type {
        VideoBufferType::Rgba => ColorRoutine::Nv12ToAbgr,
        VideoBufferType::Bgra => ColorRoutine::Nv12ToArgb,
        VideoBufferType::I420 => ColorRoutine::Nv12ToI420,
        _ => {
            return Err(unsupported("nv12", dst_type));
        },
    };
    Ok(finish_plan(routine, &buffer, src, dst_type, flip_y))
}

/// `info` describes a `w` by `h` image of type `dst` stored at `ptr` in `len`
/// bytes, laid out as the conversions lay out their destinations.
pub open spec fn output_info_is(info: VideoBufferInfo, ptr: int, len: int, dst: VideoBufferType, w: int, h: int) -> bool {
    if dst == VideoBufferType::I420 {
        i420_info_is(info, ptr, len, w, h)
    } else if dst == VideoBufferType::Rgb24 {
        packed_info_is(info, ptr, len, dst, 3, w, h)
    } else {
        packed_info_is(info, ptr, len, dst, 4, w, h)
    }
}

impl ConversionPlan {
    /// The plan's destination sizes are those of its type and dimensions,
    /// and they fit in a `u32`.
    pub open spec fn well_formed(&self) -> bool {
        &&& dst_fits(self.dst_type, self.width as int, self.height as int)
        &&& self.dst_len == dst_len_of(self.dst_type, self.width as int, self.height as int)
    }

    /// Describes the destination of the plan once its bytes are allocated at
    /// `data_ptr`.
    pub fn output_info(&self, data_ptr: u64) -> (info: VideoBufferInfo)
        requires
            self.well_formed(),
            data_ptr + self.dst_len <= u64::MAX,
        ensures
            output_info_is(
                info,
                data_ptr as int,
                self.dst_len as int,
                self.dst_type,
                self.width as int,
                self.height as int,
            ),
    {
        if self.dst_type == VideoBufferType::I420 {
            i420_info(data_ptr, self.dst_len, self.width, self.height)
        } else if self.dst_type == VideoBufferType::Rgb24 {
            rgb_info(data_ptr, self.dst_len, self.dst_type, self.width, self.height)
        } else {
            rgba_info(data_ptr, self.dst_len, self.dst_type, self.width, self.height)
        }
    }
}

/// Each plane of `ps` ends within `len` bytes.
pub open spec fn planes_within(ps: Seq<Plane>, len: int) -> bool {
    forall|i: int| 0 <= i < ps.len() ==> #[trigger] ps[i].offset + ps[i].len <= len
}

/// Each plane of `ps` starts where the previous one ends, the first at 0.
pub open spec fn planes_back_to_back(ps: Seq<Plane>) -> bool {
    &&& ps.len() > 0
    &&& ps[0].offset == 0
    &&& forall|i: int|
        0 <= i < ps.len() - 1 ==> #[trigger] ps[i + 1].offset == ps[i].offset + ps[i].len
}

proof fn lemma_stacked_within(strides: Seq<int>, rows: Seq<int>, ps: Seq<Plane>, len: int)
    requires
        strides.len() == rows.len(),
        strides.len() > 0,
        forall|i: int| 0 <= i < strides.len() ==> strides[i] >= 0 && rows[i] >= 0,
        planes_are(ps, stacked_planes(strides, rows)),
        stacked_len(strides, rows) <= len,
    ensures
        planes_within(ps, len),
        planes_back_to_back(ps),
{
    assert forall|i: int| 0 <= i < ps.len() implies #[trigger] ps[i].offset + ps[i].len <= len by {
        assert(plane_is(ps[i], stacked_planes(strides, rows)[i]));
        lemma_stacked_monotone(strides, rows, i + 1, strides.len() as int);
    }
    assert forall|i: int| 0 <= i < ps.len() - 1 implies #[trigger] ps[i + 1].offset == ps[i].offset
        + ps[i].len by {
        assert(plane_is(ps[i], stacked_planes(strides, rows)[i]));
        assert(plane_is(ps[i + 1], stacked_planes(strides, rows)[i + 1]));
    }
    assert(plane_is(ps[0], stacked_planes(strides, rows)[0]));
}

/// Fewest bytes a row of each source plane of `b` takes.
pub open spec fn source_row_bytes(b: VideoBufferInfo) -> Seq<int> {
    if is_packed(b.buffer_type) {
        seq![b.width * packed_bpp(b.buffer_type)]
    } else {
        planar_row_bytes(b.buffer_type, b.width as int)
    }
}

/// Law: a conversion plan stays inside its buffers. Every source plane lies
/// within the source bytes and its stride holds a row of the plane; the
/// destination planes follow one another from offset 0 and end within the
/// bytes the plan allocates.
pub proof fn plan_stays_within_buffers(
    plan: ConversionPlan,
    routine: ColorRoutine,
    b: VideoBufferInfo,
    src: Seq<(int, int, int)>,
    dst: VideoBufferType,
    flip_y: bool,
)
    requires
        (is_packed(b.buffer_type) && src == packed_source(b) && packed_rows_fit(b)) || (!is_packed(
            b.buffer_type,
        ) && src == planar_source(b) && planar_source_ok(b) && planar_rows_fit(b)),
        dst_fits(dst, b.width as int, b.height as int),
        plan_is(plan, routine, b, src, dst, flip_y),
    ensures
        planes_within(plan.src_planes@, b.data_len as int),
        plan.src_planes@.len() == source_row_bytes(b).len(),
        forall|i: int|
            0 <= i < plan.src_planes@.len() ==> #[trigger] plan.src_planes@[i].stride
                >= source_row_bytes(b)[i],
        planes_within(plan.dst_planes@, plan.dst_len as int),
        planes_back_to_back(plan.dst_planes@),
{
    let w = b.width as int;
    let h = b.height as int;
    if is_packed(b.buffer_type) {
        assert(plane_is(plan.src_planes@[0], src[0]));
    } else {
        let rows = source_rows(b.buffer_type, h);
        let strides = component_strides(b, rows.len() as int);
        lemma_stacked_within(strides, rows, plan.src_planes@, b.data_len as int);
        assert forall|i: int| 0 <= i < plan.src_planes@.len() implies #[trigger] plan.src_planes@[i].stride
            >= source_row_bytes(b)[i] by {
            assert(plane_is(plan.src_planes@[i], src[i]));
            assert(b.components@[i].stride >= planar_row_bytes(b.buffer_type, w)[i]);
        }
    }
    let ds = dst_planes_of(dst, w, h);
    if dst == VideoBufferType::I420 {
        lemma_i420_parts(w, h);
        assert(plane_is(plan.dst_planes@[0], ds[0]));
        assert(plane_is(plan.dst_planes@[1], ds[1]));
        assert(plane_is(plan.dst_planes@[2], ds[2]));
    } else {
        assert(plane_is(plan.dst_planes@[0], ds[0]));
    }
}

/// Law: the description of a plan's output names exactly the planes the
/// plan writes. For an I420 output each component starts at the buffer's
/// address plus its plane's offset, with the plane's stride and length; a
/// packed output has the plane's stride and the plan's length.
pub proof fn output_info_matches_plan(
    plan: ConversionPlan,
    routine: ColorRoutine,
    b: VideoBufferInfo,
    src: Seq<(int, int, int)>,
    dst: VideoBufferType,
    flip_y: bool,
    info: VideoBufferInfo,
    ptr: u64,
)
    requires
        dst_fits(dst, b.width as int, b.height as int),
        plan_is(plan, routine, b, src, dst, flip_y),
        output_info_is(info, ptr as int, plan.dst_len as int, plan.dst_type, plan.width as int, plan.height as int),
    ensures
        info.data_len == plan.dst_len,
        dst == VideoBufferType::I420 ==> {
            &&& info.components@.len() == plan.dst_planes@.len()
            &&& forall|i: int|
                0 <= i < plan.dst_planes@.len() ==> {
                    &&& #[trigger] info.components@[i].data_ptr == ptr + plan.dst_planes@[i].offset
                    &&& info.components@[i].stride == plan.dst_planes@[i].stride
                    &&& info.components@[i].size == plan.dst_planes@[i].len
                }
        },
        dst != VideoBufferType::I420 ==> info.stride == plan.dst_planes@[0].stride,
{
    let ds = dst_planes_of(dst, b.width as int, b.height as int);
    if dst == VideoBufferType::I420 {
        assert(plane_is(plan.dst_planes@[0], ds[0]));
        assert(plane_is(plan.dst_planes@[1], ds[1]));
        assert(plane_is(plan.dst_planes@[2], ds[2]));
    } else {
        assert(plane_is(plan.dst_planes@[0], ds[0]));
    }
}

/// Routine for converting a buffer declared as type `t` into `dst`: the
/// table of the `cvt_*` function for that layout.
pub open spec fn route_for(t: VideoBufferType, dst: VideoBufferType) -> Option<ColorRoutine> {
    match t {
        VideoBufferType::Rgba => rgba_route(dst),
        VideoBufferType::Abgr => abgr_route(dst),
        VideoBufferType::Argb => argb_route(dst),
        VideoBufferType::Bgra => bgra_route(dst),
        VideoBufferType::Rgb24 => rgb24_route(dst),
        VideoBufferType::I420 => i420_route(dst),
        VideoBufferType::I420a => i420a_route(dst),
        VideoBufferType::I422 => i422_route(dst),
        VideoBufferType::I444 => i444_route(dst),
        VideoBufferType::I010 => i010_route(dst),
        VideoBufferType::Nv12 => nv12_route(dst),
    }
}

/// The layout a pixel routine reads and the layout it writes, named as this
/// library's buffer types name them: by the order of the bytes in memory. The
/// image library names its 32-bit layouts by the order of the channels in a
/// little-endian word, the reverse of their order in memory, so its "ABGR"
/// is RGBA in memory, its "BGRA" is ARGB, and its "RAW" is RGB24.
pub open spec fn routine_layouts(r: ColorRoutine) -> (VideoBufferType, VideoBufferType) {
    match r {
        ColorRoutine::AbgrToI420 => (VideoBufferType::Rgba, VideoBufferType::I420),
        ColorRoutine::RgbaToI420 => (VideoBufferType::Abgr, VideoBufferType::I420),
        ColorRoutine::BgraToI420 => (VideoBufferType::Argb, VideoBufferType::I420),
        ColorRoutine::ArgbToI420 => (VideoBufferType::Bgra, VideoBufferType::I420),
        ColorRoutine::RawToI420 => (VideoBufferType::Rgb24, VideoBufferType::I420),
        ColorRoutine::I420ToAbgr => (VideoBufferType::I420, VideoBufferType::Rgba),
        ColorRoutine::I420ToRgba => (VideoBufferType::I420, VideoBufferType::Abgr),
        ColorRoutine::I420ToBgra => (VideoBufferType::I420, VideoBufferType::Argb),
        ColorRoutine::I420ToArgb => (VideoBufferType::I420, VideoBufferType::Bgra),
        ColorRoutine::I420ToRaw => (VideoBufferType::I420, VideoBufferType::Rgb24),
        ColorRoutine::I420Copy => (VideoBufferType::I420, VideoBufferType::I420),
        ColorRoutine::I422ToAbgr => (VideoBufferType::I422, VideoBufferType::Rgba),
        ColorRoutine::I422ToRgba => (VideoBufferType::I422, VideoBufferType::Abgr),
        ColorRoutine::I422ToBgra => (VideoBufferType::I422, VideoBufferType::Argb),
        ColorRoutine::I422ToI420 => (VideoBufferType::I422, VideoBufferType::I420),
        ColorRoutine::I444ToAbgr => (VideoBufferType::I444, VideoBufferType::Rgba),
        ColorRoutine::I444ToArgb => (VideoBufferType::I444, VideoBufferType::Bgra),
        ColorRoutine::I444ToI420 => (VideoBufferType::I444, VideoBufferType::I420),
        ColorRoutine::I010ToAbgr => (VideoBufferType::I010, VideoBufferType::Rgba),
        ColorRoutine::I010ToArgb => (VideoBufferType::I010, VideoBufferType::Bgra),
        ColorRoutine::I010ToI420 => (VideoBufferType::I010, VideoBufferType::I420),
        ColorRoutine::Nv12ToAbgr => (VideoBufferType::Nv12, VideoBufferType::Rgba),
        ColorRoutine::Nv12ToArgb => (VideoBufferType::Nv12, VideoBufferType::Bgra),
        ColorRoutine::Nv12ToI420 => (VideoBufferType::Nv12, VideoBufferType::I420),
    }
}

/// Law: every conversion runs a routine that writes exactly the requested
/// destination layout, channels in the requested byte order, and reads the
/// source's own layout (an I420A source is read through its I420 planes,
/// its alpha plane being dropped).
pub proof fn routines_write_the_requested_layout(t: VideoBufferType, dst: VideoBufferType)
    ensures
        route_for(t, dst) matches Some(r) ==> {
            &&& routine_layouts(r).1 == dst
            &&& (routine_layouts(r).0 == t || (t == VideoBufferType::I420a
                && routine_layouts(r).0 == VideoBufferType::I420))
        },
{
}

/// Law: a planar source converts into each 32-bit layout with the routine of
/// the same byte order whatever its chroma layout: wherever both an I420 and
/// an I422 (or I444, I010, NV12) source convert into `dst`, their routines
/// write the same layout, the one asked for.
pub proof fn planar_sources_agree_on_byte_order(dst: VideoBufferType, t: VideoBufferType)
    requires
        t == VideoBufferType::I422 || t == VideoBufferType::I444 || t == VideoBufferType::I010
            || t == VideoBufferType::Nv12,
        route_for(t, dst) is Some,
    ensures
        i420_route(dst) is Some,
        routine_layouts(route_for(t, dst)->0).1 == routine_layouts(i420_route(dst)->0).1,
        routine_layouts(route_for(t, dst)->0).1 == dst,
{
}

/// Law: the destination of a `w` by `h` conversion takes four bytes a pixel
/// in the 32-bit layouts and three in RGB24, one row after another; I420
/// takes a byte of luma a pixel and one byte of each chroma plane for each
/// 2x2 block (rounded up at odd edges), the three planes back to back.
pub proof fn destination_sizes(dst: VideoBufferType, w: nat, h: nat)
    ensures
        dst == VideoBufferType::Rgba || dst == VideoBufferType::Abgr || dst == VideoBufferType::Argb
            || dst == VideoBufferType::Bgra ==> dst_len_of(dst, w as int, h as int) == 4 * w * h
            && dst_planes_of(dst, w as int, h as int) == seq![(0int, 4 * w as int, 4 * w * h as int)],
        dst == VideoBufferType::Rgb24 ==> dst_len_of(dst, w as int, h as int) == 3 * w * h
            && dst_planes_of(dst, w as int, h as int) == seq![(0int, 3 * w as int, 3 * w * h as int)],
        dst == VideoBufferType::I420 ==> {
            let cw = (w + 1) / 2;
            let ch = (h + 1) / 2;
            &&& dst_len_of(dst, w as int, h as int) == w * h + 2 * (cw * ch)
            &&& dst_planes_of(dst, w as int, h as int) == seq![
                (0int, w as int, w * h as int),
                (w * h as int, cw as int, cw * ch as int),
                (w * h + cw * ch as int, cw as int, cw * ch as int),
            ]
        },
{
    assert(w * h * 4 == 4 * w * h) by (nonlinear_arith);
    assert(w * h * 3 == 3 * w * h) by (nonlinear_arith);
}

/// Law: the planes of a planar source, by layout. Chroma is subsampled
/// 2x2 in I420, I420A, I010 and NV12 (rounded up at odd edges), only
/// horizontally in I422, and not at all in I444; NV12 interleaves its two
/// chroma planes into one, I420A adds a full-size alpha plane, and I010
/// stores each sample in two bytes.
pub proof fn planar_layouts(w: nat, h: nat)
    ensures
        ({
            let cw = (w + 1) / 2;
            let ch = (h + 1) / 2;
            &&& source_rows(VideoBufferType::I420, h as int) == seq![h as int, ch as int, ch as int]
            &&& planar_row_bytes(VideoBufferType::I420, w as int) == seq![w as int, cw as int, cw as int]
            &&& source_rows(VideoBufferType::I420a, h as int) == seq![h as int, ch as int, ch as int, h as int]
            &&& planar_row_bytes(VideoBufferType::I420a, w as int) == seq![w as int, cw as int, cw as int, w as int]
            &&& source_rows(VideoBufferType::I422, h as int) == seq![h as int, h as int, h as int]
            &&& planar_row_bytes(VideoBufferType::I422, w as int) == seq![w as int, cw as int, cw as int]
            &&& source_rows(VideoBufferType::I444, h as int) == seq![h as int, h as int, h as int]
            &&& planar_row_bytes(VideoBufferType::I444, w as int) == seq![w as int, w as int, w as int]
            &&& source_rows(VideoBufferType::I010, h as int) == seq![h as int, ch as int, ch as int]
            &&& planar_row_bytes(VideoBufferType::I010, w as int) == seq![2 * w as int, 2 * cw as int, 2 * cw as int]
            &&& source_rows(VideoBufferType::Nv12, h as int) == seq![h as int, ch as int]
            &&& planar_row_bytes(VideoBufferType::Nv12, w as int) == seq![w as int, 2 * cw as int]
        }),
{
}

/// Layouts whose bytes form one plane.
pub open spec fn is_packed(t: VideoBufferType) -> bool {
    ||| t == VideoBufferType::Rgba
    ||| t == VideoBufferType::Abgr
    ||| t == VideoBufferType::Argb
    ||| t == VideoBufferType::Bgra
    ||| t == VideoBufferType::Rgb24
}

/// Converting `b` into `dst` neither reads past the source's bytes nor
/// overflows a size: the inputs on which the `cvt_*` functions are defined.
/// A buffer tagged ABGR is never among them: the conversion for that layout
/// (`cvt_abgr`) accepts only buffers tagged RGBA.
pub open spec fn conversion_admissible(b: VideoBufferInfo, dst: VideoBufferType) -> bool {
    &&& b.buffer_type != VideoBufferType::Abgr
    &&& !is_packed(b.buffer_type) ==> planar_source_ok(b)
    &&& route_for(b.buffer_type, dst) is Some ==> dst_fits(dst, b.width as int, b.height as int)
    &&& route_for(b.buffer_type, dst) is Some ==> source_rows_fit(b)
}

/// The source's rows fit its strides and bytes, by its layout.
pub open spec fn source_rows_fit(b: VideoBufferInfo) -> bool {
    if is_packed(b.buffer_type) {
        packed_rows_fit(b)
    } else {
        planar_rows_fit(b)
    }
}

fn packed_rows_fit_exec(b: &VideoBufferInfo) -> (ok: bool)
    requires
        is_packed(b.buffer_type),
    ensures
        ok == packed_rows_fit(*b),
{
    let bpp: u64 = if b.buffer_type == VideoBufferType::Rgb24 {
        3
    } else {
        4
    };
    proof {
        lemma_mul_u32_fits_u64(b.stride, b.height);
        lemma_mul_le(b.width as int, bpp as int, 4);
    }
    (b.stride as u64) >= (b.width as u64) * bpp && (b.stride as u64) * (b.height as u64)
        <= b.data_len as u64
}

fn planar_rows_fit_exec(b: &VideoBufferInfo) -> (ok: bool)
    requires
        !is_packed(b.buffer_type),
    ensures
        ok == planar_rows_fit(*b),
{
    let w = b.width as u64;
    let cw = w / 2 + w % 2;
    let mut need: Vec<u64> = Vec::new();
    match b.buffer_type {
        VideoBufferType::I420a => {
            need.push(w);
            need.push(cw);
            need.push(cw);
            need.push(w);
        },
        VideoBufferType::I444 => {
            need.push(w);
            need.push(w);
            need.push(w);
        },
        VideoBufferType::I010 => {
            need.push(2 * w);
            need.push(2 * cw);
            need.push(2 * cw);
        },
        VideoBufferType::Nv12 => {
            need.push(w);
            need.push(2 * cw);
        },
        _ => {
            need.push(w);
            need.push(cw);
            need.push(cw);
        },
    }
    let ghost want = planar_row_bytes(b.buffer_type, b.width as int);
    assert(need@.map_values(|x: u64| x as int) =~= want);
    let n = need.len();
    if b.components.len() < n {
        return false;
    }
    let mut i: usize = 0;
    while i < n
        invariant
            n == need.len(),
            n == want.len(),
            n <= b.components@.len(),
            need@.map_values(|x: u64| x as int) == want,
            want == planar_row_bytes(b.buffer_type, b.width as int),
            i <= n,
            forall|j: int| 0 <= j < i ==> #[trigger] b.components@[j].stride >= want[j],
        decreases n - i,
    {
        assert(need@.map_values(|x: u64| x as int)[i as int] == need@[i as int]);
        if (b.components[i].stride as u64) < need[i] {
            assert(b.components@[i as int].stride < want[i as int]);
            return false;
        }
        i = i + 1;
    }
    true
}

fn dst_fits_exec(dst: VideoBufferType, w: u32, h: u32) -> (ok: bool)
    ensures
        ok == dst_fits(dst, w as int, h as int),
{
    proof {
        lemma_mul_u32_fits_u64(w, h);
        lemma_mul_nonneg(w as int, h as int);
    }
    let wh: u64 = w as u64 * h as u64;
    if dst == VideoBufferType::I420 {
        if w == u32::MAX || h == u32::MAX {
            return false;
        }
        let cw = chroma_extent(w) as u64;
        let ch = chroma_extent(h) as u64;
        proof {
            lemma_mul_le(cw as int, ch as int, 0x8000_0000);
            lemma_mul_le(0x8000_0000, cw as int, 0x8000_0000);
            lemma_mul_nonneg(cw as int, ch as int);
        }
        let c: u64 = cw * ch;
        (wh as u128 + 2 * c as u128) <= u32::MAX as u128
    } else {
        let bpp: u64 = if dst == VideoBufferType::Rgb24 {
            3
        } else {
            4
        };
        proof {
            lemma_mul_le(wh as int, bpp as int, 4);
            lemma_mul_nonneg(wh as int, bpp as int);
        }
        (wh as u128 * bpp as u128) <= u32::MAX as u128 && (w as u64 * bpp) <= u32::MAX as u64
    }
}

fn planar_source_ok_exec(b: &VideoBufferInfo) -> (ok: bool)
    requires
        !is_packed(b.buffer_type),
    ensures
        ok == planar_source_ok(*b),
{
    if b.height == u32::MAX {
        return false;
    }
    let h = b.height;
    let ch = chroma_extent(h);
    let mut rows: Vec<u32> = Vec::new();
    match b.buffer_type {
        VideoBufferType::I420a => {
            rows.push(h);
            rows.push(ch);
            rows.push(ch);
            rows.push(h);
        },
        VideoBufferType::I422 | VideoBufferType::I444 => {
            rows.push(h);
            rows.push(h);
            rows.push(h);
        },
        VideoBufferType::Nv12 => {
            rows.push(h);
            rows.push(ch);
        },
        _ => {
            rows.push(h);
            rows.push(ch);
            rows.push(ch);
        },
    }
    let ghost want_rows = source_rows(b.buffer_type, h as int);
    assert(ints(rows@) =~= want_rows);
    let n = rows.len();
    if b.components.len() < n {
        return false;
    }
    let ghost strides = component_strides(*b, n as int);
    let mut total: u128 = 0;
    let mut k: usize = 0;
    while k < n
        invariant
            n == rows.len(),
            n == want_rows.len(),
            n <= 4,
            n <= b.components@.len(),
            ints(rows@) == want_rows,
            strides == component_strides(*b, n as int),
            k <= n,
            total == stacked_offset(strides, want_rows, k as int),
            total <= k * 0xffff_fffe_0000_0001,
        decreases n - k,
    {
        let stride = b.components[k].stride;
        proof {
            lemma_mul_u32_fits_u64(stride, rows@[k as int]);
            assert(0 <= stride * rows@[k as int] <= 0xffff_fffe_0000_0001) by (nonlinear_arith)
                requires
                    0 <= stride <= 0xffff_ffff,
                    0 <= rows@[k as int] <= 0xffff_ffff,
            ;
        }
        let size: u64 = stride as u64 * rows[k] as u64;
        total = total + size as u128;
        k = k + 1;
    }
    total <= b.data_len as u128
}

/// Whether converting `b` into `dst` stays within the inputs the `cvt_*`
/// functions are defined on (their sizes fit and the source holds its
/// planes).
pub fn check_conversion(b: &VideoBufferInfo, dst: VideoBufferType) -> (ok: bool)
    ensures
        ok == conversion_admissible(*b, dst),
{
    if b.buffer_type == VideoBufferType::Abgr {
        return false;
    }
    let packed = match b.buffer_type {
        VideoBufferType::Rgba | VideoBufferType::Abgr | VideoBufferType::Argb
        | VideoBufferType::Bgra | VideoBufferType::Rgb24 => true,
        _ => false,
    };
    if !packed && !planar_source_ok_exec(b) {
        return false;
    }
    let routed = match b.buffer_type {
        VideoBufferType::Rgba | VideoBufferType::Abgr | VideoBufferType::Argb
        | VideoBufferType::Bgra | VideoBufferType::Rgb24 | VideoBufferType::I420a => dst
            == VideoBufferType::I420,
        VideoBufferType::I420 => match dst {
            VideoBufferType::Rgba | VideoBufferType::Abgr | VideoBufferType::Argb
            | VideoBufferType::Bgra | VideoBufferType::Rgb24 | VideoBufferType::I420 => true,
            _ => false,
        },
        VideoBufferType::I422 => match dst {
            VideoBufferType::Rgba | VideoBufferType::Abgr | VideoBufferType::Argb
            | VideoBufferType::I420 => true,
            _ => false,
        },
        VideoBufferType::I444 | VideoBufferType::I010 | VideoBufferType::Nv12 => match dst {
            VideoBufferType::Rgba | VideoBufferType::Bgra | VideoBufferType::I420 => true,
            _ => false,
        },
    };
    if !routed {
        return true;
    }
    let rows_fit = if packed {
        packed_rows_fit_exec(b)
    } else {
        planar_rows_fit_exec(b)
    };
    rows_fit && dst_fits_exec(dst, b.width, b.height)
}

proof fn lemma_stacked_prefix(s1: Seq<int>, r1: Seq<int>, s2: Seq<int>, r2: Seq<int>, k: int)
    requires
        0 <= k <= s1.len(),
        k <= s2.len(),
        k <= r1.len(),
        k <= r2.len(),
        forall|i: int| 0 <= i < k ==> s1[i] == s2[i] && r1[i] == r2[i],
    ensures
        stacked_offset(s1, r1, k) == stacked_offset(s2, r2, k),
    decreases k,
{
    if k > 0 {
        lemma_stacked_prefix(s1, r1, s2, r2, k - 1);
    }
}

/// Law: converting an I420A buffer into I420 plans the same work as
/// converting the I420 buffer made of its first three planes: the same copy
/// routine over the same luma and chroma planes into the same destination;
/// the alpha plane is dropped.
pub proof fn i420a_converts_as_its_i420_planes(
    b: VideoBufferInfo,
    b3: VideoBufferInfo,
    flip_y: bool,
    ra: Result<ConversionPlan, FfiError>,
    r3: Result<ConversionPlan, FfiError>,
)
    requires
        b.buffer_type == VideoBufferType::I420a,
        planar_source_ok(b),
        dst_fits(VideoBufferType::I420, b.width as int, b.height as int),
        b3.buffer_type == VideoBufferType::I420,
        b3.width == b.width,
        b3.height == b.height,
        b3.data_len == b.data_len,
        b3.components@.len() >= 3,
        forall|i: int| 0 <= i < 3 ==> #[trigger] b3.components@[i].stride == b.components@[i].stride,
        conversion_result(ra, i420a_route(VideoBufferType::I420), "i420a"@, b, planar_source(b), VideoBufferType::I420, flip_y),
    ensures
        planar_source_ok(b3),
        conversion_result(r3, i420_route(VideoBufferType::I420), "i420"@, b3, planar_source(b3), VideoBufferType::I420, flip_y) ==> {
            &&& ra matches Ok(pa)
            &&& r3 matches Ok(p3)
            &&& pa.routine == p3.routine
            &&& pa.flip_y == p3.flip_y
            &&& pa.width == p3.width && pa.height == p3.height
            &&& pa.src_planes@.len() == 4
            &&& pa.src_planes@.take(3) == p3.src_planes@
            &&& pa.dst_type == p3.dst_type
            &&& pa.dst_len == p3.dst_len
            &&& pa.dst_planes@ == p3.dst_planes@
        },
{
    let h = b.height as int;
    let rows_a = source_rows(VideoBufferType::I420a, h);
    let rows_3 = source_rows(VideoBufferType::I420, h);
    let sa = component_strides(b, 4);
    let s3 = component_strides(b3, 3);
    assert forall|i: int| 0 <= i < 3 implies sa[i] == s3[i] && rows_a[i] == rows_3[i] by {}
    assert forall|i: int| 0 <= i < 4 implies sa[i] >= 0 && rows_a[i] >= 0 by {}
    lemma_stacked_prefix(sa, rows_a, s3, rows_3, 3);
    lemma_stacked_monotone(sa, rows_a, 3, 4);
    assert(planar_source_ok(b3));
    if conversion_result(r3, i420_route(VideoBufferType::I420), "i420"@, b3, planar_source(b3), VideoBufferType::I420, flip_y) {
        let pa = ra->Ok_0;
        let p3 = r3->Ok_0;
        let qa = stacked_planes(sa, rows_a);
        let q3 = stacked_planes(s3, rows_3);
        assert forall|k: int| 0 <= k < 3 implies qa[k] == q3[k] by {
            lemma_stacked_prefix(sa, rows_a, s3, rows_3, k);
        }
        assert forall|k: int| 0 <= k < 3 implies pa.src_planes@.take(3)[k] == p3.src_planes@[k] by {
            assert(plane_is(pa.src_planes@[k], qa[k]));
            assert(plane_is(p3.src_planes@[k], q3[k]));
        }
        assert(pa.src_planes@.take(3) =~= p3.src_planes@);
        let ds = dst_planes_of(VideoBufferType::I420, b.width as int, b.height as int);
        assert forall|k: int| 0 <= k < 3 implies pa.dst_planes@[k] == p3.dst_planes@[k] by {
            assert(plane_is(pa.dst_planes@[k], ds[k]));
            assert(plane_is(p3.dst_planes@[k], ds[k]));
        }
        assert(pa.dst_planes@ =~= p3.dst_planes@);
    }
}

/// Law: whether a conversion mirrors the image changes nothing in its plan
/// but the mirroring flag: routine, planes and sizes are the same.
pub proof fn mirroring_changes_only_the_flag(
    route: Option<ColorRoutine>,
    from: Seq<char>,
    b: VideoBufferInfo,
    src: Seq<(int, int, int)>,
    dst: VideoBufferType,
    r0: Result<ConversionPlan, FfiError>,
    r1: Result<ConversionPlan, FfiError>,
)
    requires
        route is Some,
        conversion_result(r0, route, from, b, src, dst, false),
        conversion_result(r1, route, from, b, src, dst, true),
    ensures
        r0 matches Ok(p0),
        r1 matches Ok(p1),
        !r0->Ok_0.flip_y && r1->Ok_0.flip_y,
        r0->Ok_0.routine == r1->Ok_0.routine,
        r0->Ok_0.src_planes@ == r1->Ok_0.src_planes@,
        r0->Ok_0.dst_len == r1->Ok_0.dst_len,
        r0->Ok_0.dst_planes@ == r1->Ok_0.dst_planes@,
{
    let p0 = r0->Ok_0;
    let p1 = r1->Ok_0;
    assert forall|k: int| 0 <= k < p0.src_planes@.len() implies p0.src_planes@[k] == p1.src_planes@[k] by {
        assert(plane_is(p0.src_planes@[k], src[k]));
        assert(plane_is(p1.src_planes@[k], src[k]));
    }
    assert(p0.src_planes@ =~= p1.src_planes@);
    let ds = dst_planes_of(dst, b.width as int, b.height as int);
    assert forall|k: int| 0 <= k < p0.dst_planes@.len() implies p0.dst_planes@[k] == p1.dst_planes@[k] by {
        assert(plane_is(p0.dst_planes@[k], ds[k]));
        assert(plane_is(p1.dst_planes@[k], ds[k]));
    }
    assert(p0.dst_planes@ =~= p1.dst_planes@);
}

/// Name of a buffer layout as the conversion errors spell it.
pub open spec fn source_label(t: VideoBufferType) -> Seq<char> {
    match t {
        VideoBufferType::Rgba => "rgba"@,
        VideoBufferType::Abgr => "abgr"@,
        VideoBufferType::Argb => "argb"@,
        VideoBufferType::Bgra => "bgra"@,
        VideoBufferType::Rgb24 => "rgb24"@,
        VideoBufferType::I420 => "i420"@,
        VideoBufferType::I420a => "i420a"@,
        VideoBufferType::I422 => "i422"@,
        VideoBufferType::I444 => "i444"@,
        VideoBufferType::I010 => "i010"@,
        VideoBufferType::Nv12 => "nv12"@,
    }
}

/// The planes of a source, by its layout.
pub open spec fn source_planes(b: VideoBufferInfo) -> Seq<(int, int, int)> {
    if is_packed(b.buffer_type) {
        packed_source(b)
    } else {
        planar_source(b)
    }
}

/// Plans converting `buffer` into `dst` with the `cvt_*` function for the
/// layout the buffer is tagged with.
pub fn plan_conversion(buffer: VideoBufferInfo, dst: VideoBufferType, flip_y: bool) -> (res: Result<
    ConversionPlan,
    FfiError,
>)
    requires
        conversion_admissible(buffer, dst),
    ensures
        conversion_result(
            res,
            route_for(buffer.buffer_type, dst),
            source_label(buffer.buffer_type),
            buffer,
            source_planes(buffer),
            dst,
            flip_y,
        ),
{
    match buffer.buffer_type {
        VideoBufferType::Rgba => cvt_rgba(buffer, dst, flip_y),
        VideoBufferType::Abgr => {
            proof {
                assert(false);
            }
            Err(unsupported("abgr", dst))
        },
        VideoBufferType::Argb => cvt_argb(buffer, dst, flip_y),
        VideoBufferType::Bgra => cvt_bgra(buffer, dst, flip_y),
        VideoBufferType::Rgb24 => cvt_rgb24(buffer, dst, flip_y),
        VideoBufferType::I420 => cvt_i420(buffer, dst, flip_y),
        VideoBufferType::I420a => cvt_i420a(buffer, dst, flip_y),
        VideoBufferType::I422 => cvt_i422(buffer, dst, flip_y),
        VideoBufferType::I444 => cvt_i444(buffer, dst, flip_y),
        VideoBufferType::I010 => cvt_i010(buffer, dst, flip_y),
        VideoBufferType::Nv12 => cvt_nv12(buffer, dst, flip_y),
    }
}

} // verus!

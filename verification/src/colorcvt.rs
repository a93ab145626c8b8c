pub mod planes;

use crate::colorcvt::planes::{accepts_full_chroma, plane_fits, plane_fits_in};
use vstd::prelude::*;

verus! {

/// The buffers of an I420-to-packed conversion are accepted: the three
/// source planes hold `height` rows each and the packed destination holds
/// `height` rows.
pub open spec fn x420_to_rgba_accepts(
    y_len: int,
    stride_y: u32,
    u_len: int,
    stride_u: u32,
    v_len: int,
    stride_v: u32,
    dst_len: int,
    dst_stride: u32,
    height: u32,
) -> bool {
    &&& accepts_full_chroma(y_len, stride_y, u_len, stride_u, v_len, stride_v, height)
    &&& plane_fits(dst_len, dst_stride, height as int)
}

/// The buffers of a packed-to-packed conversion are accepted: source and
/// destination hold `height` rows each.
pub open spec fn rgba_to_rgba_accepts(
    src_len: int,
    src_stride: u32,
    dst_len: int,
    dst_stride: u32,
    height: u32,
) -> bool {
    &&& plane_fits(src_len, src_stride, height as int)
    &&& plane_fits(dst_len, dst_stride, height as int)
}

/// The buffers of a packed-to-I420 conversion are accepted: the packed
/// source and the three destination planes hold `height` rows each.
pub open spec fn rgba_to_420_accepts(
    src_len: int,
    src_stride: u32,
    y_len: int,
    stride_y: u32,
    u_len: int,
    stride_u: u32,
    v_len: int,
    stride_v: u32,
    height: u32,
) -> bool {
    &&& plane_fits(src_len, src_stride, height as int)
    &&& accepts_full_chroma(y_len, stride_y, u_len, stride_u, v_len, stride_v, height)
}

/// Checks the three planes of a 4:2:0 frame before a conversion; every plane,
/// chroma included, must hold `height` rows.
fn assert_valid_420(
    src_y: &[u8],
    src_stride_y: u32,
    src_u: &[u8],
    src_stride_u: u32,
    src_v: &[u8],
    src_stride_v: u32,
    _width: u32,
    height: u32,
)
    requires
        accepts_full_chroma(
            src_y@.len() as int,
            src_stride_y,
            src_u@.len() as int,
            src_stride_u,
            src_v@.len() as int,
            src_stride_v,
            height,
        ),
{
    assert(src_y@.len() >= (src_stride_y * height) as usize);
    assert(src_u@.len() >= (src_stride_u * height) as usize);
    assert(src_v@.len() >= (src_stride_v * height) as usize);
}

/// Checks a packed four-byte-per-pixel buffer before a conversion.
fn assert_valid_argb(src_argb: &[u8], src_stride_argb: u32, _width: u32, height: u32)
    requires
        plane_fits(src_argb@.len() as int, src_stride_argb, height as int),
{
    assert(src_argb@.len() >= (src_stride_argb * height) as usize);
}

/// Strides and size of an I420-to-packed conversion, as the C converter
/// takes them.
pub struct X420ToRgbaArgs {
    pub stride_y: i32,
    pub stride_u: i32,
    pub stride_v: i32,
    pub dst_stride_rgba: i32,
    pub width: i32,
    pub height: i32,
}

/// Strides and size of a packed-to-packed conversion, as the C converter
/// takes them.
pub struct RgbaToRgbaArgs {
    pub src_stride: i32,
    pub dst_stride: i32,
    pub width: i32,
    pub height: i32,
}

/// Strides and size of a packed-to-I420 conversion, as the C converter
/// takes them.
pub struct RgbaTo420Args {
    pub src_stride_rgba: i32,
    pub dst_stride_y: i32,
    pub dst_stride_u: i32,
    pub dst_stride_v: i32,
    pub width: i32,
    pub height: i32,
}

/// Validates the buffers of an I420-to-packed conversion (`i420_to_rgba`
/// and its siblings) and gives the arguments for the C converter: `None`
/// exactly when a buffer is too small or a size overflows, which the
/// conversion refuses.
pub fn x420_to_rgba_args(
    src_y: &[u8],
    stride_y: u32,
    src_u: &[u8],
    stride_u: u32,
    src_v: &[u8],
    stride_v: u32,
    dst_rgba: &[u8],
    dst_stride_rgba: u32,
    width: u32,
    height: u32,
) -> (args: Option<X420ToRgbaArgs>)
    ensures
        args is Some <==> {
            &&& stride_y * height <= u32::MAX
            &&& stride_y * height <= src_y@.len()
            &&& stride_u * height <= u32::MAX
            &&& stride_u * height <= src_u@.len()
            &&& stride_v * height <= u32::MAX
            &&& stride_v * height <= src_v@.len()
            &&& dst_stride_rgba * height <= u32::MAX
            &&& dst_stride_rgba * height <= dst_rgba@.len()
        },
        args is Some <==> x420_to_rgba_accepts(
            src_y@.len() as int,
            stride_y,
            src_u@.len() as int,
            stride_u,
            src_v@.len() as int,
            stride_v,
            dst_rgba@.len() as int,
            dst_stride_rgba,
            height,
        ),
        args matches Some(a) ==> {
            &&& a.stride_y == stride_y as i32
            &&& a.stride_u == stride_u as i32
            &&& a.stride_v == stride_v as i32
            &&& a.dst_stride_rgba == dst_stride_rgba as i32
            &&& a.width == width as i32
            &&& a.height == height as i32
        },
{
    if plane_fits_in(src_y.len(), stride_y, height) && plane_fits_in(src_u.len(), stride_u, height)
        && plane_fits_in(src_v.len(), stride_v, height) && plane_fits_in(
        dst_rgba.len(),
        dst_stride_rgba,
        height,
    ) {
        assert_valid_420(src_y, stride_y, src_u, stride_u, src_v, stride_v, width, height);
        assert_valid_argb(dst_rgba, dst_stride_rgba, width, height);
        Some(
            X420ToRgbaArgs {
                stride_y: stride_y as i32,
                stride_u: stride_u as i32,
                stride_v: stride_v as i32,
                dst_stride_rgba: dst_stride_rgba as i32,
                width: width as i32,
                height: height as i32,
            },
        )
    } else {
        None
    }
}

/// Validates the buffers of a packed-to-packed conversion (`abgr_to_argb`
/// and its siblings) and gives the arguments for the C converter: `None`
/// exactly when a buffer is too small or a size overflows.
pub fn rgba_to_rgba_args(
    src: &[u8],
    src_stride: u32,
    dst: &[u8],
    dst_stride: u32,
    width: u32,
    height: u32,
) -> (args: Option<RgbaToRgbaArgs>)
    ensures
        args is Some <==> {
            &&& src_stride * height <= u32::MAX
            &&& src_stride * height <= src@.len()
            &&& dst_stride * height <= u32::MAX
            &&& dst_stride * height <= dst@.len()
        },
        args is Some <==> rgba_to_rgba_accepts(
            src@.len() as int,
            src_stride,
            dst@.len() as int,
            dst_stride,
            height,
        ),
        args matches Some(a) ==> {
            &&& a.src_stride == src_stride as i32
            &&& a.dst_stride == dst_stride as i32
            &&& a.width == width as i32
            &&& a.height == height as i32
        },
{
    if plane_fits_in(src.len(), src_stride, height) && plane_fits_in(dst.len(), dst_stride, height) {
        assert_valid_argb(src, src_stride, width, height);
        assert_valid_argb(dst, dst_stride, width, height);
        Some(
            RgbaToRgbaArgs {
                src_stride: src_stride as i32,
                dst_stride: dst_stride as i32,
                width: width as i32,
                height: height as i32,
            },
        )
    } else {
        None
    }
}

/// Validates the buffers of a packed-to-I420 conversion (`rgba_to_i420`
/// and its siblings) and gives the arguments for the C converter: `None`
/// exactly when a buffer is too small or a size overflows.
pub fn rgba_to_420_args(
    src_rgba: &[u8],
    src_stride_rgba: u32,
    dst_y: &[u8],
    dst_stride_y: u32,
    dst_u: &[u8],
    dst_stride_u: u32,
    dst_v: &[u8],
    dst_stride_v: u32,
    width: u32,
    height: u32,
) -> (args: Option<RgbaTo420Args>)
    ensures
        args is Some <==> {
            &&& src_stride_rgba * height <= u32::MAX
            &&& src_stride_rgba * height <= src_rgba@.len()
            &&& dst_stride_y * height <= u32::MAX
            &&& dst_stride_y * height <= dst_y@.len()
            &&& dst_stride_u * height <= u32::MAX
            &&& dst_stride_u * height <= dst_u@.len()
            &&& dst_stride_v * height <= u32::MAX
            &&& dst_stride_v * height <= dst_v@.len()
        },
        args is Some <==> rgba_to_420_accepts(
            src_rgba@.len() as int,
            src_stride_rgba,
            dst_y@.len() as int,
            dst_stride_y,
            dst_u@.len() as int,
            dst_stride_u,
            dst_v@.len() as int,
            dst_stride_v,
            height,
        ),
        args matches Some(a) ==> {
            &&& a.src_stride_rgba == src_stride_rgba as i32
            &&& a.dst_stride_y == dst_stride_y as i32
            &&& a.dst_stride_u == dst_stride_u as i32
            &&& a.dst_stride_v == dst_stride_v as i32
            &&& a.width == width as i32
            &&& a.height == height as i32
        },
{
    if plane_fits_in(src_rgba.len(), src_stride_rgba, height) && plane_fits_in(
        dst_y.len(),
        dst_stride_y,
        height,
    ) && plane_fits_in(dst_u.len(), dst_stride_u, height) && plane_fits_in(
        dst_v.len(),
        dst_stride_v,
        height,
    ) {
        assert_valid_argb(src_rgba, src_stride_rgba, width, height);
        assert_valid_420(
            dst_y,
            dst_stride_y,
            dst_u,
            dst_stride_u,
            dst_v,
            dst_stride_v,
            width,
            height,
        );
        Some(
            RgbaTo420Args {
                src_stride_rgba: src_stride_rgba as i32,
                dst_stride_y: dst_stride_y as i32,
                dst_stride_u: dst_stride_u as i32,
                dst_stride_v: dst_stride_v as i32,
                width: width as i32,
                height: height as i32,
            },
        )
    } else {
        None
    }
}

/// A C converter reports success with the status 0.
pub fn conversion_succeeded(status: i32) -> (ok: bool)
    ensures
        ok == (status == 0),
{
    status == 0
}

/// Conversion from packed 24-bit RGB to ARGB; not implemented yet, it does nothing.
pub fn raw_to_argb() {
}

/// Conversion from ARGB to packed 24-bit RGB; not implemented yet, it does nothing.
pub fn argb_to_rgb24() {
}

/// What an I420-to-packed conversion asks of its buffers: each of the
/// three source planes and the destination holds `height` rows of its own
/// stride, every size counted in `u32` without overflow. A conversion with
/// any buffer short is refused before the C converter could read or write
/// past it.
pub proof fn lemma_x420_to_rgba_check_covers_each_buffer(
    y_len: int,
    stride_y: u32,
    u_len: int,
    stride_u: u32,
    v_len: int,
    stride_v: u32,
    dst_len: int,
    dst_stride: u32,
    height: u32,
)
    ensures
        x420_to_rgba_accepts(
            y_len,
            stride_y,
            u_len,
            stride_u,
            v_len,
            stride_v,
            dst_len,
            dst_stride,
            height,
        ) <==> {
            &&& stride_y * height <= u32::MAX
            &&& stride_y * height <= y_len
            &&& stride_u * height <= u32::MAX
            &&& stride_u * height <= u_len
            &&& stride_v * height <= u32::MAX
            &&& stride_v * height <= v_len
            &&& dst_stride * height <= u32::MAX
            &&& dst_stride * height <= dst_len
        },
{
}

/// What a packed-to-packed conversion asks: source and destination each hold
/// `height` rows of their own stride, counted in `u32` without overflow.
pub proof fn lemma_rgba_to_rgba_check_covers_each_buffer(
    src_len: int,
    src_stride: u32,
    dst_len: int,
    dst_stride: u32,
    height: u32,
)
    ensures
        rgba_to_rgba_accepts(src_len, src_stride, dst_len, dst_stride, height) <==> {
            &&& src_stride * height <= u32::MAX
            &&& src_stride * height <= src_len
            &&& dst_stride * height <= u32::MAX
            &&& dst_stride * height <= dst_len
        },
{
}

/// What a packed-to-I420 conversion asks: the packed source and each of the
/// three destination planes hold `height` rows of their own stride, counted
/// in `u32` without overflow.
pub proof fn lemma_rgba_to_420_check_covers_each_buffer(
    src_len: int,
    src_stride: u32,
    y_len: int,
    stride_y: u32,
    u_len: int,
    stride_u: u32,
    v_len: int,
    stride_v: u32,
    height: u32,
)
    ensures
        rgba_to_420_accepts(
            src_len,
            src_stride,
            y_len,
            stride_y,
            u_len,
            stride_u,
            v_len,
            stride_v,
            height,
        ) <==> {
            &&& src_stride * height <= u32::MAX
            &&& src_stride * height <= src_len
            &&& stride_y * height <= u32::MAX
            &&& stride_y * height <= y_len
            &&& stride_u * height <= u32::MAX
            &&& stride_u * height <= u_len
            &&& stride_v * height <= u32::MAX
            &&& stride_v * height <= v_len
        },
{
}

/// The two directions between I420 and packed pixels ask the same of the
/// same buffers: converting packed to I420 accepts exactly the buffers that
/// converting those I420 planes back to that packed buffer accepts.
pub proof fn lemma_conversion_checks_agree_both_ways(
    packed_len: int,
    packed_stride: u32,
    y_len: int,
    stride_y: u32,
    u_len: int,
    stride_u: u32,
    v_len: int,
    stride_v: u32,
    height: u32,
)
    ensures
        rgba_to_420_accepts(
            packed_len,
            packed_stride,
            y_len,
            stride_y,
            u_len,
            stride_u,
            v_len,
            stride_v,
            height,
        ) <==> x420_to_rgba_accepts(
            y_len,
            stride_y,
            u_len,
            stride_u,
            v_len,
            stride_v,
            packed_len,
            packed_stride,
            height,
        ),
{
}

} // verus!

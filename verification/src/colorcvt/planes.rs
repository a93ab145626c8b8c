use vstd::prelude::*;

verus! {

/// A plane of `rows` rows, `stride` elements apart, fits in a buffer of `len`
/// elements: the element count `stride * rows` is computed in `u32` without
/// overflowing and the buffer holds at least that many elements.
pub open spec fn plane_fits(len: int, stride: u32, rows: int) -> bool {
    &&& stride * rows <= u32::MAX
    &&& stride * rows <= len
}

/// Rows of a vertically subsampled chroma plane: half the luma rows, rounded up.
pub open spec fn chroma_rows(height: u32) -> int {
    (height + 1) / 2
}

/// The inputs `valid_420` (and `valid_010`) accept: `height + 1` does not
/// overflow, the luma plane holds `height` rows and both chroma planes hold
/// `chroma_rows(height)` rows.
pub open spec fn accepts_420(
    y_len: int,
    stride_y: u32,
    u_len: int,
    stride_u: u32,
    v_len: int,
    stride_v: u32,
    height: u32,
) -> bool {
    &&& height < u32::MAX
    &&& plane_fits(y_len, stride_y, height as int)
    &&& plane_fits(u_len, stride_u, chroma_rows(height))
    &&& plane_fits(v_len, stride_v, chroma_rows(height))
}

/// The inputs `valid_422` and `valid_444` accept: all three planes hold
/// `height` rows.
pub open spec fn accepts_full_chroma(
    y_len: int,
    stride_y: u32,
    u_len: int,
    stride_u: u32,
    v_len: int,
    stride_v: u32,
    height: u32,
) -> bool {
    &&& plane_fits(y_len, stride_y, height as int)
    &&& plane_fits(u_len, stride_u, height as int)
    &&& plane_fits(v_len, stride_v, height as int)
}

/// The inputs `valid_nv12` accepts: a luma plane of `height` rows and an
/// interleaved chroma plane of `chroma_rows(height)` rows.
pub open spec fn accepts_nv12(
    y_len: int,
    stride_y: u32,
    uv_len: int,
    stride_uv: u32,
    height: u32,
) -> bool {
    &&& height < u32::MAX
    &&& plane_fits(y_len, stride_y, height as int)
    &&& plane_fits(uv_len, stride_uv, chroma_rows(height))
}

/// Tests whether a plane of `rows` rows, `stride` elements apart, fits in a
/// buffer of `len` elements, without overflowing.
pub fn plane_fits_in(len: usize, stride: u32, rows: u32) -> (fits: bool)
    ensures
        fits == plane_fits(len as int, stride, rows as int),
{
    match stride.checked_mul(rows) {
        Some(needed) => needed as usize <= len,
        None => false,
    }
}

/// Rows of a chroma plane subsampled by two vertically.
pub fn chroma_height(height: u32) -> (rows: u32)
    requires
        height < u32::MAX,
    ensures
        rows == chroma_rows(height),
{
    (height + 1) / 2
}

/// Checks that the three planes of an I420 frame are large enough for
/// `height` rows (chroma planes at half height, rounded up).
/// Callers must meet `accepts_420`, which the precondition asks; the
/// check then holds by proof and does no work at run time. `is_valid_420`
/// tests the same condition at run time.
pub fn valid_420(
    src_y: &[u8],
    src_stride_y: u32,
    src_u: &[u8],
    src_stride_u: u32,
    src_v: &[u8],
    src_stride_v: u32,
    _width: u32,
    height: u32,
)
    requires
        accepts_420(
            src_y@.len() as int,
            src_stride_y,
            src_u@.len() as int,
            src_stride_u,
            src_v@.len() as int,
            src_stride_v,
            height,
        ),
{
    let chroma_height = chroma_height(height);
    let need_y = src_stride_y * height;
    let need_u = src_stride_u * chroma_height;
    let need_v = src_stride_v * chroma_height;
    assert(src_y@.len() >= need_y as usize);
    assert(src_u@.len() >= need_u as usize);
    assert(src_v@.len() >= need_v as usize);
}

/// Checks that the three planes of an I422 frame are large enough for
/// `height` rows (chroma planes at full height).
/// Callers must meet `accepts_full_chroma`, which the precondition asks; the
/// check then holds by proof and does no work at run time. `is_valid_422`
/// tests the same condition at run time.
pub fn valid_422(
    src_y: &[u8],
    src_stride_y: u32,
    src_u: &[u8],
    src_stride_u: u32,
    src_v: &[u8],
    src_stride_v: u32,
    _width: u32,
    height: u32,
)
    requires
        accepts_full_chroma(
            src_y@.len() as int,
            src_stride_y,
            src_u@.len() as int,
            src_stride_u,
            src_v@.len() as int,
            src_stride_v,
            height,
        ),
{
    let need_y = src_stride_y * height;
    let need_u = src_stride_u * height;
    let need_v = src_stride_v * height;
    assert(src_y@.len() >= need_y as usize);
    assert(src_u@.len() >= need_u as usize);
    assert(src_v@.len() >= need_v as usize);
}

/// Checks that the three planes of an I444 frame are large enough for
/// `height` rows (chroma planes at full height).
/// Callers must meet `accepts_full_chroma`, which the precondition asks; the
/// check then holds by proof and does no work at run time. `is_valid_444`
/// tests the same condition at run time.
pub fn valid_444(
    src_y: &[u8],
    src_stride_y: u32,
    src_u: &[u8],
    src_stride_u: u32,
    src_v: &[u8],
    src_stride_v: u32,
    _width: u32,
    height: u32,
)
    requires
        accepts_full_chroma(
            src_y@.len() as int,
            src_stride_y,
            src_u@.len() as int,
            src_stride_u,
            src_v@.len() as int,
            src_stride_v,
            height,
        ),
{
    let need_y = src_stride_y * height;
    let need_u = src_stride_u * height;
    let need_v = src_stride_v * height;
    assert(src_y@.len() >= need_y as usize);
    assert(src_u@.len() >= need_u as usize);
    assert(src_v@.len() >= need_v as usize);
}

/// Checks that the three 16-bit planes of a 10-bit 4:2:0 frame are large
/// enough for `height` rows (chroma planes at half height, rounded up);
/// lengths and strides count `u16` samples.
/// Callers must meet `accepts_420`, which the precondition asks; the
/// check then holds by proof and does no work at run time. `is_valid_010`
/// tests the same condition at run time.
pub fn valid_010(
    src_y: &[u16],
    src_stride_y: u32,
    src_u: &[u16],
    src_stride_u: u32,
    src_v: &[u16],
    src_stride_v: u32,
    _width: u32,
    height: u32,
)
    requires
        accepts_420(
            src_y@.len() as int,
            src_stride_y,
            src_u@.len() as int,
            src_stride_u,
            src_v@.len() as int,
            src_stride_v,
            height,
        ),
{
    let chroma_height = chroma_height(height);
    let need_y = src_stride_y * height;
    let need_u = src_stride_u * chroma_height;
    let need_v = src_stride_v * chroma_height;
    assert(src_y@.len() >= need_y as usize);
    assert(src_u@.len() >= need_u as usize);
    assert(src_v@.len() >= need_v as usize);
}

/// Checks that the luma plane and the interleaved chroma plane of an NV12
/// frame are large enough for `height` rows.
/// Callers must meet `accepts_nv12`, which the precondition asks; the
/// check then holds by proof and does no work at run time. `is_valid_nv12`
/// tests the same condition at run time.
pub fn valid_nv12(
    src_y: &[u8],
    src_stride_y: u32,
    src_uv: &[u8],
    src_stride_uv: u32,
    _width: u32,
    height: u32,
)
    requires
        accepts_nv12(
            src_y@.len() as int,
            src_stride_y,
            src_uv@.len() as int,
            src_stride_uv,
            height,
        ),
{
    let chroma_height = chroma_height(height);
    let need_y = src_stride_y * height;
    let need_uv = src_stride_uv * chroma_height;
    assert(src_y@.len() >= need_y as usize);
    assert(src_uv@.len() >= need_uv as usize);
}

/// Checks that a packed four-byte-per-pixel buffer holds `height` rows.
/// Callers must meet `plane_fits`, which the precondition asks; the
/// check then holds by proof and does no work at run time. `is_valid_rgba`
/// tests the same condition at run time.
pub fn valid_rgba(src_argb: &[u8], src_stride_argb: u32, _width: u32, height: u32)
    requires
        plane_fits(src_argb@.len() as int, src_stride_argb, height as int),
{
    let need = src_stride_argb * height;
    assert(src_argb@.len() >= need as usize);
}

/// Checks that a packed three-byte-per-pixel buffer holds `height` rows.
/// Callers must meet `plane_fits`, which the precondition asks; the
/// check then holds by proof and does no work at run time. `is_valid_rgb`
/// tests the same condition at run time.
pub fn valid_rgb(src_rgb: &[u8], src_stride_rgb: u32, _width: u32, height: u32)
    requires
        plane_fits(src_rgb@.len() as int, src_stride_rgb, height as int),
{
    let need = src_stride_rgb * height;
    assert(src_rgb@.len() >= need as usize);
}

/// Whether `valid_420` accepts these buffers, tested at run time.
pub fn is_valid_420(
    src_y: &[u8],
    src_stride_y: u32,
    src_u: &[u8],
    src_stride_u: u32,
    src_v: &[u8],
    src_stride_v: u32,
    _width: u32,
    height: u32,
) -> (ok: bool)
    ensures
        ok <==> {
            &&& height < u32::MAX
            &&& src_stride_y * height <= u32::MAX
            &&& src_stride_y * height <= src_y@.len()
            &&& src_stride_u * ((height + 1) / 2) <= u32::MAX
            &&& src_stride_u * ((height + 1) / 2) <= src_u@.len()
            &&& src_stride_v * ((height + 1) / 2) <= u32::MAX
            &&& src_stride_v * ((height + 1) / 2) <= src_v@.len()
        },
        ok == accepts_420(
            src_y@.len() as int,
            src_stride_y,
            src_u@.len() as int,
            src_stride_u,
            src_v@.len() as int,
            src_stride_v,
            height,
        ),
{
    if height == u32::MAX {
        return false;
    }
    let chroma_height = chroma_height(height);
    plane_fits_in(src_y.len(), src_stride_y, height) && plane_fits_in(
        src_u.len(),
        src_stride_u,
        chroma_height,
    ) && plane_fits_in(src_v.len(), src_stride_v, chroma_height)
}

/// Whether `valid_422` accepts these buffers, tested at run time.
pub fn is_valid_422(
    src_y: &[u8],
    src_stride_y: u32,
    src_u: &[u8],
    src_stride_u: u32,
    src_v: &[u8],
    src_stride_v: u32,
    _width: u32,
    height: u32,
) -> (ok: bool)
    ensures
        ok <==> {
            &&& src_stride_y * height <= u32::MAX
            &&& src_stride_y * height <= src_y@.len()
            &&& src_stride_u * height <= u32::MAX
            &&& src_stride_u * height <= src_u@.len()
            &&& src_stride_v * height <= u32::MAX
            &&& src_stride_v * height <= src_v@.len()
        },
        ok == accepts_full_chroma(
            src_y@.len() as int,
            src_stride_y,
            src_u@.len() as int,
            src_stride_u,
            src_v@.len() as int,
            src_stride_v,
            height,
        ),
{
    plane_fits_in(src_y.len(), src_stride_y, height) && plane_fits_in(
        src_u.len(),
        src_stride_u,
        height,
    ) && plane_fits_in(src_v.len(), src_stride_v, height)
}

/// Whether `valid_444` accepts these buffers, tested at run time.
pub fn is_valid_444(
    src_y: &[u8],
    src_stride_y: u32,
    src_u: &[u8],
    src_stride_u: u32,
    src_v: &[u8],
    src_stride_v: u32,
    _width: u32,
    height: u32,
) -> (ok: bool)
    ensures
        ok <==> {
            &&& src_stride_y * height <= u32::MAX
            &&& src_stride_y * height <= src_y@.len()
            &&& src_stride_u * height <= u32::MAX
            &&& src_stride_u * height <= src_u@.len()
            &&& src_stride_v * height <= u32::MAX
            &&& src_stride_v * height <= src_v@.len()
        },
        ok == accepts_full_chroma(
            src_y@.len() as int,
            src_stride_y,
            src_u@.len() as int,
            src_stride_u,
            src_v@.len() as int,
            src_stride_v,
            height,
        ),
{
    plane_fits_in(src_y.len(), src_stride_y, height) && plane_fits_in(
        src_u.len(),
        src_stride_u,
        height,
    ) && plane_fits_in(src_v.len(), src_stride_v, height)
}

/// Whether `valid_010` accepts these buffers, tested at run time.
pub fn is_valid_010(
    src_y: &[u16],
    src_stride_y: u32,
    src_u: &[u16],
    src_stride_u: u32,
    src_v: &[u16],
    src_stride_v: u32,
    _width: u32,
    height: u32,
) -> (ok: bool)
    ensures
        ok <==> {
            &&& height < u32::MAX
            &&& src_stride_y * height <= u32::MAX
            &&& src_stride_y * height <= src_y@.len()
            &&& src_stride_u * ((height + 1) / 2) <= u32::MAX
            &&& src_stride_u * ((height + 1) / 2) <= src_u@.len()
            &&& src_stride_v * ((height + 1) / 2) <= u32::MAX
            &&& src_stride_v * ((height + 1) / 2) <= src_v@.len()
        },
        ok == accepts_420(
            src_y@.len() as int,
            src_stride_y,
            src_u@.len() as int,
            src_stride_u,
            src_v@.len() as int,
            src_stride_v,
            height,
        ),
{
    if height == u32::MAX {
        return false;
    }
    let chroma_height = chroma_height(height);
    plane_fits_in(src_y.len(), src_stride_y, height) && plane_fits_in(
        src_u.len(),
        src_stride_u,
        chroma_height,
    ) && plane_fits_in(src_v.len(), src_stride_v, chroma_height)
}

/// Whether `valid_nv12` accepts these buffers, tested at run time.
pub fn is_valid_nv12(
    src_y: &[u8],
    src_stride_y: u32,
    src_uv: &[u8],
    src_stride_uv: u32,
    _width: u32,
    height: u32,
) -> (ok: bool)
    ensures
        ok <==> {
            &&& height < u32::MAX
            &&& src_stride_y * height <= u32::MAX
            &&& src_stride_y * height <= src_y@.len()
            &&& src_stride_uv * ((height + 1) / 2) <= u32::MAX
            &&& src_stride_uv * ((height + 1) / 2) <= src_uv@.len()
        },
        ok == accepts_nv12(
            src_y@.len() as int,
            src_stride_y,
            src_uv@.len() as int,
            src_stride_uv,
            height,
        ),
{
    if height == u32::MAX {
        return false;
    }
    plane_fits_in(src_y.len(), src_stride_y, height) && plane_fits_in(
        src_uv.len(),
        src_stride_uv,
        chroma_height(height),
    )
}

/// Whether `valid_rgba` accepts this buffer, tested at run time.
pub fn is_valid_rgba(src_argb: &[u8], src_stride_argb: u32, _width: u32, height: u32) -> (ok:
    bool)
    ensures
        ok <==> {
            &&& src_stride_argb * height <= u32::MAX
            &&& src_stride_argb * height <= src_argb@.len()
        },
        ok == plane_fits(src_argb@.len() as int, src_stride_argb, height as int),
{
    plane_fits_in(src_argb.len(), src_stride_argb, height)
}

/// Whether `valid_rgb` accepts this buffer, tested at run time.
pub fn is_valid_rgb(src_rgb: &[u8], src_stride_rgb: u32, _width: u32, height: u32) -> (ok: bool)
    ensures
        ok <==> {
            &&& src_stride_rgb * height <= u32::MAX
            &&& src_stride_rgb * height <= src_rgb@.len()
        },
        ok == plane_fits(src_rgb@.len() as int, src_stride_rgb, height as int),
{
    plane_fits_in(src_rgb.len(), src_stride_rgb, height)
}

/// A plane that fits with `rows` rows also fits with any smaller number of rows.
pub proof fn lemma_fewer_rows_fit(len: int, stride: u32, rows: int, fewer: int)
    requires
        plane_fits(len, stride, rows),
        0 <= fewer <= rows,
    ensures
        plane_fits(len, stride, fewer),
{
    assert(stride * fewer <= stride * rows) by (nonlinear_arith)
        requires
            0 <= fewer <= rows,
            0 <= stride,
    ;
}

/// A plane that fits in a buffer also fits in any longer buffer.
pub proof fn lemma_longer_buffer_fits(len: int, longer: int, stride: u32, rows: int)
    requires
        plane_fits(len, stride, rows),
        len <= longer,
    ensures
        plane_fits(longer, stride, rows),
{
}

/// Chroma planes sized for the full height (as the conversions check them)
/// are large enough for a 4:2:0 frame: whatever the conversion check accepts,
/// `valid_420` accepts too, for any height below `u32::MAX`.
pub proof fn lemma_full_chroma_covers_420(
    y_len: int,
    stride_y: u32,
    u_len: int,
    stride_u: u32,
    v_len: int,
    stride_v: u32,
    height: u32,
)
    requires
        accepts_full_chroma(y_len, stride_y, u_len, stride_u, v_len, stride_v, height),
        height < u32::MAX,
    ensures
        accepts_420(y_len, stride_y, u_len, stride_u, v_len, stride_v, height),
{
    lemma_fewer_rows_fit(u_len, stride_u, height as int, chroma_rows(height));
    lemma_fewer_rows_fit(v_len, stride_v, height as int, chroma_rows(height));
}

/// What the 4:2:0 check asks, buffer by buffer: `height + 1` does not
/// overflow, the luma buffer holds `height` rows of its stride, and each
/// chroma buffer holds half the rows, rounded up, of its own stride, every
/// size counted in `u32` without overflow. A frame missing any of these is
/// refused.
pub proof fn lemma_420_check_covers_each_plane(
    y_len: int,
    stride_y: u32,
    u_len: int,
    stride_u: u32,
    v_len: int,
    stride_v: u32,
    height: u32,
)
    ensures
        accepts_420(y_len, stride_y, u_len, stride_u, v_len, stride_v, height) <==> {
            &&& height < u32::MAX
            &&& stride_y * height <= u32::MAX
            &&& stride_y * height <= y_len
            &&& stride_u * ((height + 1) / 2) <= u32::MAX
            &&& stride_u * ((height + 1) / 2) <= u_len
            &&& stride_v * ((height + 1) / 2) <= u32::MAX
            &&& stride_v * ((height + 1) / 2) <= v_len
        },
{
}

/// The two chroma planes of a 4:2:0 frame are checked alike: exchanging the
/// U and V buffers (with their strides) never changes the verdict.
pub proof fn lemma_420_chroma_planes_interchangeable(
    y_len: int,
    stride_y: u32,
    u_len: int,
    stride_u: u32,
    v_len: int,
    stride_v: u32,
    height: u32,
)
    ensures
        accepts_420(y_len, stride_y, u_len, stride_u, v_len, stride_v, height) <==> accepts_420(
            y_len,
            stride_y,
            v_len,
            stride_v,
            u_len,
            stride_u,
            height,
        ),
{
}

/// An NV12 frame is checked as a 4:2:0 frame whose two chroma planes are the
/// one interleaved plane: its luma buffer holds `height` rows and its chroma
/// buffer half the rows, rounded up.
pub proof fn lemma_nv12_check_is_420_with_shared_chroma(
    y_len: int,
    stride_y: u32,
    uv_len: int,
    stride_uv: u32,
    height: u32,
)
    ensures
        accepts_nv12(y_len, stride_y, uv_len, stride_uv, height) <==> accepts_420(
            y_len,
            stride_y,
            uv_len,
            stride_uv,
            uv_len,
            stride_uv,
            height,
        ),
        accepts_nv12(y_len, stride_y, uv_len, stride_uv, height) <==> {
            &&& height < u32::MAX
            &&& stride_y * height <= u32::MAX
            &&& stride_y * height <= y_len
            &&& stride_uv * ((height + 1) / 2) <= u32::MAX
            &&& stride_uv * ((height + 1) / 2) <= uv_len
        },
{
}

/// What the full-chroma check (4:2:2, 4:4:4) asks, buffer by buffer: each of
/// the three buffers holds `height` rows of its own stride, counted in `u32`
/// without overflow.
pub proof fn lemma_full_chroma_check_covers_each_plane(
    y_len: int,
    stride_y: u32,
    u_len: int,
    stride_u: u32,
    v_len: int,
    stride_v: u32,
    height: u32,
)
    ensures
        accepts_full_chroma(y_len, stride_y, u_len, stride_u, v_len, stride_v, height) <==> {
            &&& stride_y * height <= u32::MAX
            &&& stride_y * height <= y_len
            &&& stride_u * height <= u32::MAX
            &&& stride_u * height <= u_len
            &&& stride_v * height <= u32::MAX
            &&& stride_v * height <= v_len
        },
{
}

} // verus!

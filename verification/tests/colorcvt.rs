use mikado::colorcvt::planes::{
    chroma_height, is_valid_010, is_valid_420, is_valid_422, is_valid_444, is_valid_nv12,
    is_valid_rgb, is_valid_rgba, plane_fits_in, valid_010, valid_420, valid_422, valid_444, valid_nv12,
    valid_rgb, valid_rgba,
};
use mikado::colorcvt::{
    argb_to_rgb24, conversion_succeeded, raw_to_argb, rgba_to_420_args, rgba_to_rgba_args,
    x420_to_rgba_args,
};

#[test]
fn plane_fits_exact_and_short() {
    assert!(plane_fits_in(40, 8, 5));
    assert!(plane_fits_in(41, 8, 5));
    assert!(!plane_fits_in(39, 8, 5));
    assert!(plane_fits_in(0, 8, 0));
    assert!(plane_fits_in(0, 0, 1000));
}

#[test]
fn plane_fits_refuses_overflowing_size() {
    // 0x1_0000 * 0x1_0000 does not fit in u32.
    assert!(!plane_fits_in(usize::MAX, 0x1_0000, 0x1_0000));
    assert!(plane_fits_in(usize::MAX, 0xFFFF, 0x1_0001));
}

#[test]
fn chroma_height_rounds_up() {
    assert_eq!(chroma_height(0), 0);
    assert_eq!(chroma_height(1), 1);
    assert_eq!(chroma_height(4), 2);
    assert_eq!(chroma_height(5), 3);
    assert_eq!(chroma_height(u32::MAX - 1), 0x7FFF_FFFF);
}

#[test]
fn plane_checks_accept_sufficient_buffers() {
    let y = vec![0u8; 4 * 5];
    let u = vec![0u8; 2 * 3];
    let v = vec![0u8; 2 * 3];
    valid_420(&y, 4, &u, 2, &v, 2, 4, 5);
    valid_nv12(&y, 4, &u, 2, 4, 5);
    let full = vec![0u8; 4 * 5];
    valid_422(&y, 4, &full, 4, &full, 4, 4, 5);
    valid_444(&y, 4, &full, 4, &full, 4, 4, 5);
    let y16 = vec![0u16; 4 * 5];
    let c16 = vec![0u16; 2 * 3];
    valid_010(&y16, 4, &c16, 2, &c16, 2, 4, 5);
    valid_rgba(&vec![0u8; 16 * 5], 16, 4, 5);
    valid_rgb(&vec![0u8; 12 * 5], 12, 4, 5);
}

#[test]
fn x420_args_for_valid_buffers() {
    let y = vec![0u8; 4 * 2];
    let u = vec![0u8; 2 * 2];
    let v = vec![0u8; 2 * 2];
    let dst = vec![0u8; 16 * 2];
    let a = x420_to_rgba_args(&y, 4, &u, 2, &v, 2, &dst, 16, 4, 2).unwrap();
    assert_eq!(a.stride_y, 4);
    assert_eq!(a.stride_u, 2);
    assert_eq!(a.stride_v, 2);
    assert_eq!(a.dst_stride_rgba, 16);
    assert_eq!(a.width, 4);
    assert_eq!(a.height, 2);
}

#[test]
fn x420_args_checks_chroma_at_full_height() {
    // Chroma planes sized for half height pass `valid_420` but not the conversion check.
    let y = vec![0u8; 4 * 2];
    let u = vec![0u8; 2];
    let v = vec![0u8; 2];
    let dst = vec![0u8; 16 * 2];
    valid_420(&y, 4, &u, 2, &v, 2, 4, 2);
    assert!(x420_to_rgba_args(&y, 4, &u, 2, &v, 2, &dst, 16, 4, 2).is_none());
}

#[test]
fn x420_args_refuses_short_destination() {
    let y = vec![0u8; 4 * 2];
    let u = vec![0u8; 2 * 2];
    let v = vec![0u8; 2 * 2];
    let dst = vec![0u8; 16 * 2 - 1];
    assert!(x420_to_rgba_args(&y, 4, &u, 2, &v, 2, &dst, 16, 4, 2).is_none());
}

#[test]
fn strides_are_passed_as_wrapping_c_ints() {
    // With no rows any stride fits; a stride above i32::MAX reaches C as a negative int.
    let a = rgba_to_rgba_args(&[], 0x8000_0000, &[], 0xFFFF_FFFF, 0x8000_0001, 0).unwrap();
    assert_eq!(a.src_stride, i32::MIN);
    assert_eq!(a.dst_stride, -1);
    assert_eq!(a.width, -0x7FFF_FFFF);
    assert_eq!(a.height, 0);
}

#[test]
fn rgba_to_rgba_args_checks_both_buffers() {
    let src = vec![0u8; 8 * 3];
    let dst = vec![0u8; 8 * 3];
    let a = rgba_to_rgba_args(&src, 8, &dst, 8, 2, 3).unwrap();
    assert_eq!((a.src_stride, a.dst_stride, a.width, a.height), (8, 8, 2, 3));
    assert!(rgba_to_rgba_args(&src[..23], 8, &dst, 8, 2, 3).is_none());
    assert!(rgba_to_rgba_args(&src, 8, &dst[..23], 8, 2, 3).is_none());
}

#[test]
fn rgba_to_420_args_checks_all_planes() {
    let src = vec![0u8; 8 * 2];
    let y = vec![0u8; 2 * 2];
    let u = vec![0u8; 1 * 2];
    let v = vec![0u8; 1 * 2];
    let a = rgba_to_420_args(&src, 8, &y, 2, &u, 1, &v, 1, 2, 2).unwrap();
    assert_eq!(
        (a.src_stride_rgba, a.dst_stride_y, a.dst_stride_u, a.dst_stride_v, a.width, a.height),
        (8, 2, 1, 1, 2, 2)
    );
    assert!(rgba_to_420_args(&src, 8, &y, 2, &u, 1, &v[..1], 1, 2, 2).is_none());
    assert!(rgba_to_420_args(&src, 9, &y, 2, &u, 1, &v, 1, 2, 2).is_none());
}

#[test]
fn conversion_status_zero_is_success() {
    assert!(conversion_succeeded(0));
    assert!(!conversion_succeeded(-1));
    assert!(!conversion_succeeded(1));
}

#[test]
fn unimplemented_conversions_do_nothing() {
    raw_to_argb();
    argb_to_rgb24();
}

#[test]
fn run_time_plane_checks() {
    let y = vec![0u8; 4 * 5];
    let c = vec![0u8; 2 * 3];
    assert!(is_valid_420(&y, 4, &c, 2, &c, 2, 4, 5));
    assert!(!is_valid_420(&y, 4, &c[..5], 2, &c, 2, 4, 5));
    assert!(!is_valid_420(&[], 0, &[], 0, &[], 0, 0, u32::MAX));
    assert!(is_valid_nv12(&y, 4, &c, 2, 4, 5));
    assert!(!is_valid_nv12(&y[..19], 4, &c, 2, 4, 5));
    assert!(!is_valid_nv12(&[], 0, &[], 0, 0, u32::MAX));
    assert!(is_valid_422(&y, 4, &y, 4, &y, 4, 4, 5));
    assert!(!is_valid_422(&y, 4, &c, 2, &y, 4, 4, 5));
    assert!(is_valid_444(&y, 4, &y, 4, &y, 4, 4, 5));
    assert!(!is_valid_444(&y, 4, &y, 4, &y, 5, 4, 5));
    let y16 = vec![0u16; 4 * 5];
    let c16 = vec![0u16; 2 * 3];
    assert!(is_valid_010(&y16, 4, &c16, 2, &c16, 2, 4, 5));
    assert!(!is_valid_010(&y16, 4, &c16, 3, &c16, 2, 4, 5));
    assert!(is_valid_rgba(&vec![0u8; 16 * 5], 16, 4, 5));
    assert!(!is_valid_rgba(&vec![0u8; 16 * 5 - 1], 16, 4, 5));
    assert!(is_valid_rgb(&vec![0u8; 12 * 5], 12, 4, 5));
    assert!(!is_valid_rgb(&[], 0x1_0000, 4, 0x1_0000));
}

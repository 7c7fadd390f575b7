use livekit_ffi::colorcvt::{
    chroma_extent, cvt_abgr, cvt_argb, cvt_bgra, cvt_i010, cvt_i420, cvt_i420a, cvt_i422,
    cvt_i444, cvt_nv12, cvt_rgb24, cvt_rgba, check_conversion, i420_info, plan_conversion, rgb_info, rgba_info, split_planes,
    ColorRoutine, Plane,
};
use livekit_ffi::error::FfiError;
use livekit_ffi::proto::{ComponentInfo, VideoBufferInfo, VideoBufferType};

fn packed(t: VideoBufferType, w: u32, h: u32, bpp: u32) -> VideoBufferInfo {
    VideoBufferInfo {
        buffer_type: t,
        width: w,
        height: h,
        data_ptr: 0x1000,
        data_len: w * h * bpp,
        stride: w * bpp,
        components: Vec::new(),
    }
}

fn planar(t: VideoBufferType, w: u32, h: u32, strides: &[u32], len: u32) -> VideoBufferInfo {
    VideoBufferInfo {
        buffer_type: t,
        width: w,
        height: h,
        data_ptr: 0x2000,
        data_len: len,
        stride: 0,
        components: strides
            .iter()
            .map(|s| ComponentInfo { data_ptr: 0, stride: *s, size: 0 })
            .collect(),
    }
}

fn plane(offset: u32, stride: u32, len: u32) -> Plane {
    Plane { offset, stride, len }
}

fn message(e: FfiError) -> String {
    match e {
        FfiError::InvalidRequest(m) => m,
        other => panic!("unexpected error {:?}", other),
    }
}

#[test]
fn chroma_extent_rounds_up() {
    assert_eq!(chroma_extent(0), 0);
    assert_eq!(chroma_extent(5), 3);
    assert_eq!(chroma_extent(6), 3);
}

#[test]
fn rgba_to_i420_plan() {
    let plan = cvt_rgba(packed(VideoBufferType::Rgba, 5, 3, 4), VideoBufferType::I420, true)
        .unwrap();
    assert_eq!(plan.routine, ColorRoutine::AbgrToI420);
    assert!(plan.flip_y);
    assert_eq!((plan.width, plan.height), (5, 3));
    assert_eq!(plan.src_planes, vec![plane(0, 20, 60)]);
    // 5x3 luma plus two 3x2 chroma planes
    assert_eq!(plan.dst_len, 15 + 2 * 6);
    assert_eq!(plan.dst_planes, vec![plane(0, 5, 15), plane(15, 3, 6), plane(21, 3, 6)]);
}

#[test]
fn rgba_to_bgra_is_refused() {
    let err = cvt_rgba(packed(VideoBufferType::Rgba, 2, 2, 4), VideoBufferType::Bgra, false)
        .err()
        .unwrap();
    assert_eq!(message(err), "rgba to Bgra is not supported");
}

#[test]
fn abgr_expects_rgba_tagged_buffer() {
    let plan = cvt_abgr(packed(VideoBufferType::Rgba, 2, 2, 4), VideoBufferType::I420, false)
        .unwrap();
    assert_eq!(plan.routine, ColorRoutine::RgbaToI420);
    let err = cvt_abgr(packed(VideoBufferType::Rgba, 2, 2, 4), VideoBufferType::Rgb24, false)
        .err()
        .unwrap();
    assert_eq!(message(err), "abgr to Rgb24 is not supported");
}

#[test]
fn argb_bgra_rgb24_routines() {
    let a = cvt_argb(packed(VideoBufferType::Argb, 2, 2, 4), VideoBufferType::I420, false).unwrap();
    assert_eq!(a.routine, ColorRoutine::BgraToI420);
    let b = cvt_bgra(packed(VideoBufferType::Bgra, 2, 2, 4), VideoBufferType::I420, false).unwrap();
    assert_eq!(b.routine, ColorRoutine::ArgbToI420);
    let r = cvt_rgb24(packed(VideoBufferType::Rgb24, 2, 2, 3), VideoBufferType::I420, false)
        .unwrap();
    assert_eq!(r.routine, ColorRoutine::RawToI420);
    assert_eq!(r.src_planes, vec![plane(0, 6, 12)]);
    let e = cvt_bgra(packed(VideoBufferType::Bgra, 2, 2, 4), VideoBufferType::Nv12, false)
        .err()
        .unwrap();
    assert_eq!(message(e), "bgra to Nv12 is not supported");
    let e = cvt_argb(packed(VideoBufferType::Argb, 2, 2, 4), VideoBufferType::Rgba, false)
        .err()
        .unwrap();
    assert_eq!(message(e), "argb to Rgba is not supported");
    let e = cvt_rgb24(packed(VideoBufferType::Rgb24, 2, 2, 3), VideoBufferType::I444, false)
        .err()
        .unwrap();
    assert_eq!(message(e), "rgb24 to I444 is not supported");
}

#[test]
fn i420_source_planes_and_targets() {
    // 4x3 I420: luma stride 4, chroma stride 2, chroma rows 2
    let src = planar(VideoBufferType::I420, 4, 3, &[4, 2, 2], 12 + 4 + 4);
    let plan = cvt_i420(src, VideoBufferType::Abgr, false).unwrap();
    assert_eq!(plan.routine, ColorRoutine::I420ToRgba);
    assert_eq!(plan.src_planes, vec![plane(0, 4, 12), plane(12, 2, 4), plane(16, 2, 4)]);
    assert_eq!(plan.dst_len, 4 * 3 * 4);
    assert_eq!(plan.dst_planes, vec![plane(0, 16, 48)]);

    let src = planar(VideoBufferType::I420, 4, 3, &[4, 2, 2], 20);
    let plan = cvt_i420(src, VideoBufferType::Rgb24, false).unwrap();
    assert_eq!(plan.routine, ColorRoutine::I420ToRaw);
    assert_eq!(plan.dst_len, 36);
    assert_eq!(plan.dst_planes, vec![plane(0, 12, 36)]);

    let src = planar(VideoBufferType::I420, 4, 3, &[4, 2, 2], 20);
    let plan = cvt_i420(src, VideoBufferType::I420, true).unwrap();
    assert_eq!(plan.routine, ColorRoutine::I420Copy);
    assert_eq!(plan.dst_len, 20);

    for (dst, routine) in [
        (VideoBufferType::Rgba, ColorRoutine::I420ToAbgr),
        (VideoBufferType::Argb, ColorRoutine::I420ToBgra),
        (VideoBufferType::Bgra, ColorRoutine::I420ToArgb),
    ] {
        let src = planar(VideoBufferType::I420, 4, 3, &[4, 2, 2], 20);
        assert_eq!(cvt_i420(src, dst, false).unwrap().routine, routine);
    }

    let src = planar(VideoBufferType::I420, 4, 3, &[4, 2, 2], 20);
    let err = cvt_i420(src, VideoBufferType::Nv12, false).err().unwrap();
    assert_eq!(message(err), "i420 to Nv12 is not supported");
}

#[test]
fn i420a_drops_alpha() {
    let src = planar(VideoBufferType::I420a, 2, 2, &[2, 1, 1, 2], 4 + 1 + 1 + 4);
    let plan = cvt_i420a(src, VideoBufferType::I420, false).unwrap();
    assert_eq!(plan.routine, ColorRoutine::I420Copy);
    assert_eq!(
        plan.src_planes,
        vec![plane(0, 2, 4), plane(4, 1, 1), plane(5, 1, 1), plane(6, 2, 4)]
    );
    let src = planar(VideoBufferType::I420a, 2, 2, &[2, 1, 1, 2], 10);
    let err = cvt_i420a(src, VideoBufferType::Rgba, false).err().unwrap();
    assert_eq!(message(err), "i420a to Rgba is not supported");
}

#[test]
fn i422_and_i444_use_full_height_chroma() {
    let src = planar(VideoBufferType::I422, 4, 2, &[4, 2, 2], 8 + 4 + 4);
    let plan = cvt_i422(src, VideoBufferType::Argb, false).unwrap();
    assert_eq!(plan.routine, ColorRoutine::I422ToBgra);
    assert_eq!(plan.src_planes, vec![plane(0, 4, 8), plane(8, 2, 4), plane(12, 2, 4)]);
    let src = planar(VideoBufferType::I422, 4, 2, &[4, 2, 2], 16);
    let err = cvt_i422(src, VideoBufferType::Bgra, false).err().unwrap();
    assert_eq!(message(err), "i422 to Bgra is not supported");

    let src = planar(VideoBufferType::I444, 2, 2, &[2, 2, 2], 12);
    let plan = cvt_i444(src, VideoBufferType::I420, false).unwrap();
    assert_eq!(plan.routine, ColorRoutine::I444ToI420);
    assert_eq!(plan.src_planes, vec![plane(0, 2, 4), plane(4, 2, 4), plane(8, 2, 4)]);
    assert_eq!(plan.dst_len, 6);
    let src = planar(VideoBufferType::I444, 2, 2, &[2, 2, 2], 12);
    let err = cvt_i444(src, VideoBufferType::Abgr, false).err().unwrap();
    assert_eq!(message(err), "i444 to Abgr is not supported");
}

#[test]
fn i010_and_nv12_routines() {
    // I010 strides are in bytes: two bytes per sample
    let src = planar(VideoBufferType::I010, 2, 2, &[4, 2, 2], 8 + 2 + 2);
    let plan = cvt_i010(src, VideoBufferType::Bgra, false).unwrap();
    assert_eq!(plan.routine, ColorRoutine::I010ToArgb);
    assert_eq!(plan.src_planes, vec![plane(0, 4, 8), plane(8, 2, 2), plane(10, 2, 2)]);
    let src = planar(VideoBufferType::I010, 2, 2, &[4, 2, 2], 12);
    assert_eq!(message(cvt_i010(src, VideoBufferType::Rgb24, false).err().unwrap()), "i010 to Rgb24 is not supported");

    let src = planar(VideoBufferType::Nv12, 3, 3, &[3, 4], 9 + 8);
    let plan = cvt_nv12(src, VideoBufferType::Rgba, false).unwrap();
    assert_eq!(plan.routine, ColorRoutine::Nv12ToAbgr);
    assert_eq!(plan.src_planes, vec![plane(0, 3, 9), plane(9, 4, 8)]);
    assert_eq!(plan.dst_len, 36);
    let src = planar(VideoBufferType::Nv12, 3, 3, &[3, 4], 17);
    assert_eq!(message(cvt_nv12(src, VideoBufferType::I422, false).err().unwrap()), "nv12 to I422 is not supported");
}

#[test]
fn plan_output_info_points_into_destination() {
    let plan = cvt_rgba(packed(VideoBufferType::Rgba, 5, 3, 4), VideoBufferType::I420, false)
        .unwrap();
    let info = plan.output_info(0x9000);
    assert_eq!(info.buffer_type, VideoBufferType::I420);
    assert_eq!(info.data_ptr, 0x9000);
    assert_eq!(info.data_len, 27);
    assert_eq!(
        info.components,
        vec![
            ComponentInfo { data_ptr: 0x9000, stride: 5, size: 15 },
            ComponentInfo { data_ptr: 0x9000 + 15, stride: 3, size: 6 },
            ComponentInfo { data_ptr: 0x9000 + 21, stride: 3, size: 6 },
        ]
    );
    let src = planar(VideoBufferType::I420, 4, 3, &[4, 2, 2], 20);
    let plan = cvt_i420(src, VideoBufferType::Bgra, false).unwrap();
    let info = plan.output_info(64);
    assert_eq!(info.buffer_type, VideoBufferType::Bgra);
    assert_eq!(info.stride, 16);
    assert_eq!(info.data_len, 48);
    assert!(info.components.is_empty());
}

#[test]
fn buffer_infos() {
    let info = i420_info(100, 30, 4, 4);
    assert_eq!(info.stride, 0);
    assert_eq!(info.components[1].data_ptr, 116);
    assert_eq!(info.components[2].data_ptr, 120);
    assert_eq!(info.components[2].size, 4);
    let info = rgba_info(7, 32, VideoBufferType::Abgr, 4, 2);
    assert_eq!(info.stride, 16);
    assert_eq!(info.buffer_type, VideoBufferType::Abgr);
    let info = rgb_info(7, 24, VideoBufferType::Rgb24, 4, 2);
    assert_eq!(info.stride, 12);
}

#[test]
fn planes_stack_back_to_back() {
    let planes = split_planes(&vec![8, 4, 4], &vec![6, 3, 3]);
    assert_eq!(planes, vec![plane(0, 8, 48), plane(48, 4, 12), plane(60, 4, 12)]);
    assert!(split_planes(&vec![], &vec![]).is_empty());
}

#[test]
fn plans_stay_within_their_buffers() {
    for w in 1..6u32 {
        for h in 1..6u32 {
            let cw = (w + 1) / 2;
            let ch = (h + 1) / 2;
            let len = w * h + 2 * cw * ch;
            for dst in [VideoBufferType::I420, VideoBufferType::Rgba, VideoBufferType::Rgb24] {
                let src = planar(VideoBufferType::I420, w, h, &[w, cw, cw], len);
                let plan = cvt_i420(src, dst, false).unwrap();
                for p in &plan.src_planes {
                    assert!(p.offset + p.len <= len);
                }
                let mut next = 0;
                for p in &plan.dst_planes {
                    assert_eq!(p.offset, next);
                    next = p.offset + p.len;
                }
                assert_eq!(next, plan.dst_len);
            }
        }
    }
}

#[test]
fn conversion_checks() {
    // the source does not hold its chroma planes
    assert!(!check_conversion(&planar(VideoBufferType::I420, 4, 4, &[4, 2, 2], 17), VideoBufferType::Rgba));
    assert!(check_conversion(&planar(VideoBufferType::I420, 4, 4, &[4, 2, 2], 24), VideoBufferType::Rgba));
    // too few declared planes
    assert!(!check_conversion(&planar(VideoBufferType::I420, 4, 4, &[4, 2], 24), VideoBufferType::I420));
    // an empty image of any width fits
    assert!(check_conversion(&packed(VideoBufferType::Rgba, 0x10000, 0, 4), VideoBufferType::I420));
    // destination size overflows a u32
    let huge = VideoBufferInfo { buffer_type: VideoBufferType::Rgba, width: 0x10000, height: 0x10000, data_ptr: 0, data_len: 0, stride: 0, components: Vec::new() };
    assert!(!check_conversion(&huge, VideoBufferType::I420));
    // an unsupported pair is refused later, not here
    assert!(check_conversion(&huge, VideoBufferType::Nv12));
}

#[test]
fn abgr_tagged_buffers_are_not_convertible() {
    assert!(!check_conversion(&packed(VideoBufferType::Abgr, 2, 2, 4), VideoBufferType::I420));
    assert!(check_conversion(&packed(VideoBufferType::Rgba, 2, 2, 4), VideoBufferType::I420));
}

#[test]
fn i420a_plans_as_its_first_three_planes() {
    let a = cvt_i420a(planar(VideoBufferType::I420a, 4, 3, &[4, 2, 2, 4], 40), VideoBufferType::I420, true).unwrap();
    let b = cvt_i420(planar(VideoBufferType::I420, 4, 3, &[4, 2, 2], 40), VideoBufferType::I420, true).unwrap();
    assert_eq!(a.routine, b.routine);
    assert_eq!(&a.src_planes[..3], &b.src_planes[..]);
    assert_eq!(a.dst_len, b.dst_len);
    assert_eq!(a.dst_planes, b.dst_planes);
}

#[test]
fn mirroring_only_sets_the_flag() {
    let p0 = cvt_rgb24(packed(VideoBufferType::Rgb24, 3, 5, 3), VideoBufferType::I420, false).unwrap();
    let p1 = cvt_rgb24(packed(VideoBufferType::Rgb24, 3, 5, 3), VideoBufferType::I420, true).unwrap();
    assert!(!p0.flip_y && p1.flip_y);
    assert_eq!(p0.dst_len, 3 * 5 + 2 * 2 * 3);
    assert_eq!(p0.dst_len, p1.dst_len);
    assert_eq!(p0.src_planes, p1.src_planes);
    assert_eq!(p0.dst_planes, p1.dst_planes);
}

#[test]
fn sources_must_hold_their_rows() {
    // 3x3 RGBA at stride 12 needs 36 bytes
    let mut short = packed(VideoBufferType::Rgba, 3, 3, 4);
    short.data_len = 1;
    assert!(!check_conversion(&short, VideoBufferType::I420));
    // a stride narrower than a row
    let mut narrow = packed(VideoBufferType::Rgba, 3, 3, 4);
    narrow.stride = 8;
    assert!(!check_conversion(&narrow, VideoBufferType::I420));
    // but an unsupported pair is refused by the conversion itself
    assert!(check_conversion(&short, VideoBufferType::Nv12));
    // planar chroma stride narrower than a chroma row
    assert!(!check_conversion(&planar(VideoBufferType::I420, 4, 2, &[4, 1, 2], 16), VideoBufferType::I420));
    assert!(!check_conversion(&planar(VideoBufferType::Nv12, 4, 2, &[4, 2], 16), VideoBufferType::I420));
    assert!(check_conversion(&planar(VideoBufferType::Nv12, 4, 2, &[4, 4], 16), VideoBufferType::I420));
    assert!(!check_conversion(&planar(VideoBufferType::I010, 2, 2, &[2, 2, 2], 12), VideoBufferType::I420));
}

#[test]
fn dispatch_by_tag() {

    let plan = plan_conversion(packed(VideoBufferType::Bgra, 2, 2, 4), VideoBufferType::I420, false).unwrap();
    assert_eq!(plan.routine, ColorRoutine::ArgbToI420);
    let plan = plan_conversion(planar(VideoBufferType::Nv12, 4, 2, &[4, 4], 16), VideoBufferType::Bgra, false).unwrap();
    assert_eq!(plan.routine, ColorRoutine::Nv12ToArgb);
    let err = plan_conversion(planar(VideoBufferType::I444, 2, 2, &[2, 2, 2], 12), VideoBufferType::Rgb24, false).err().unwrap();
    assert_eq!(message(err), "i444 to Rgb24 is not supported");
}

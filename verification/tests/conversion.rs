use egui_cameras::{
    create_image_from_buffer, image_from_decoded, needs_jpeg_decoder, renderable_image, yuv_to_rgb,
    PixelFormat, RawFrame, Resolution, RgbImage,
};

fn frame(format: PixelFormat, width: u32, height: u32, data: Vec<u8>) -> RawFrame {
    RawFrame { format, resolution: Resolution::new(width, height), data }
}

#[test]
fn yuyv_macropixel_with_mid_chroma_is_gray() {
    let raw = frame(PixelFormat::Yuyv, 2, 1, vec![16, 128, 235, 128]);
    let image = create_image_from_buffer(&raw, PixelFormat::Yuyv, None).unwrap();
    assert_eq!(image.width, 2);
    assert_eq!(image.height, 1);
    assert_eq!(image.data, vec![16, 16, 16, 235, 235, 235]);
    assert!(image.is_complete());
}

#[test]
fn yuyv_pixels_share_their_chroma_pair() {
    let raw = frame(PixelFormat::Yuyv, 4, 1, vec![100, 100, 50, 200, 50, 130, 100, 110]);
    let image = raw.decode(None).unwrap();
    let mut expected: Vec<u8> = Vec::new();
    expected.extend_from_slice(&yuv_to_rgb(100, 100, 200));
    expected.extend_from_slice(&yuv_to_rgb(50, 100, 200));
    expected.extend_from_slice(&yuv_to_rgb(50, 130, 110));
    expected.extend_from_slice(&yuv_to_rgb(100, 130, 110));
    assert_eq!(image.data, expected);
    assert_eq!(&image.data[0..3], &[200, 58, 50]);
    assert_eq!(&image.data[6..9], &[24, 62, 53]);
}

#[test]
fn yuyv_trailing_partial_group_is_dropped() {
    for extra in 1..4usize {
        let mut data = vec![16, 128, 235, 128];
        data.extend(std::iter::repeat(77).take(extra));
        let raw = frame(PixelFormat::Yuyv, 2, 1, data);
        let image = create_image_from_buffer(&raw, PixelFormat::Yuyv, None).unwrap();
        assert_eq!(image.data, vec![16, 16, 16, 235, 235, 235]);
    }
}

#[test]
fn yuyv_buffer_shorter_than_one_group_gives_no_pixels() {
    let raw = frame(PixelFormat::Yuyv, 2, 1, vec![1, 2, 3]);
    let image = create_image_from_buffer(&raw, PixelFormat::Yuyv, None).unwrap();
    assert_eq!(image.data, Vec::<u8>::new());
    assert_eq!((image.width, image.height), (2, 1));
    assert!(!image.is_complete());
}

#[test]
fn nv12_four_by_two_gives_eight_pixels() {
    let data = vec![10, 20, 30, 40, 50, 60, 70, 80, 128, 128, 100, 200];
    let raw = frame(PixelFormat::Nv12, 4, 2, data);
    let image = create_image_from_buffer(&raw, PixelFormat::Nv12, None).unwrap();
    assert_eq!(image.data.len(), 8 * 3);
    assert!(image.is_complete());
    let mut expected: Vec<u8> = Vec::new();
    expected.extend_from_slice(&yuv_to_rgb(10, 128, 128));
    expected.extend_from_slice(&yuv_to_rgb(20, 128, 128));
    expected.extend_from_slice(&yuv_to_rgb(30, 100, 200));
    expected.extend_from_slice(&yuv_to_rgb(40, 100, 200));
    // the chroma plane ends here: the rest is shown without colour
    for y in [50u8, 60, 70, 80] {
        expected.extend_from_slice(&[y, y, y]);
    }
    assert_eq!(image.data, expected);
}

#[test]
fn nv12_with_a_full_chroma_run_uses_one_pair_per_two_samples() {
    let data = vec![100, 50, 50, 100, 100, 200, 130, 110];
    let raw = frame(PixelFormat::Nv12, 4, 1, data);
    let image = create_image_from_buffer(&raw, PixelFormat::Nv12, None).unwrap();
    assert_eq!(image.data, vec![200, 58, 50, 150, 8, 0, 24, 62, 53, 74, 112, 103]);
}

#[test]
fn nv12_half_a_chroma_pair_is_not_used() {
    let raw = frame(PixelFormat::Nv12, 2, 1, vec![90, 91, 200]);
    let image = create_image_from_buffer(&raw, PixelFormat::Nv12, None).unwrap();
    assert_eq!(image.data, vec![90, 90, 90, 91, 91, 91]);
}

#[test]
fn nv12_shorter_than_the_luma_plane_fails() {
    let raw = frame(PixelFormat::Nv12, 4, 2, vec![1, 2, 3, 4, 5, 6, 7]);
    assert_eq!(create_image_from_buffer(&raw, PixelFormat::Nv12, None), None);
}

#[test]
fn nv12_of_no_pixels_is_an_empty_image() {
    let raw = frame(PixelFormat::Nv12, 0, 7, vec![9, 9]);
    let image = create_image_from_buffer(&raw, PixelFormat::Nv12, None).unwrap();
    assert_eq!(image, RgbImage { width: 0, height: 7, data: vec![] });
}

#[test]
fn gray_bytes_are_tripled() {
    let raw = frame(PixelFormat::Gray, 3, 1, vec![0, 7, 255]);
    let image = create_image_from_buffer(&raw, PixelFormat::Gray, None).unwrap();
    assert_eq!(image.data, vec![0, 0, 0, 7, 7, 7, 255, 255, 255]);
    assert!(image.is_complete());
}

#[test]
fn raw_rgb_bytes_are_kept() {
    let raw = frame(PixelFormat::RawRgb, 2, 1, vec![1, 2, 3, 4, 5, 6]);
    let image = create_image_from_buffer(&raw, PixelFormat::RawRgb, None).unwrap();
    assert_eq!(image, RgbImage { width: 2, height: 1, data: vec![1, 2, 3, 4, 5, 6] });
}

#[test]
fn raw_rgb_too_short_for_its_size_fails() {
    let raw = frame(PixelFormat::RawRgb, 2, 1, vec![1, 2, 3, 4, 5]);
    assert_eq!(create_image_from_buffer(&raw, PixelFormat::RawRgb, None), None);
}

#[test]
fn raw_rgb_with_excess_bytes_is_kept_whole() {
    let raw = frame(PixelFormat::RawRgb, 1, 1, vec![1, 2, 3, 4]);
    let image = create_image_from_buffer(&raw, PixelFormat::RawRgb, None).unwrap();
    assert_eq!(image.data, vec![1, 2, 3, 4]);
    assert!(!image.is_complete());
}

#[test]
fn mjpeg_takes_what_the_decoder_produced() {
    let raw = frame(PixelFormat::Mjpeg, 1, 2, vec![0xFF, 0xD8, 0xFF]);
    let image = create_image_from_buffer(&raw, PixelFormat::Mjpeg, Some(vec![9, 8, 7, 6, 5, 4]));
    assert_eq!(image, Some(RgbImage { width: 1, height: 2, data: vec![9, 8, 7, 6, 5, 4] }));
    assert_eq!(create_image_from_buffer(&raw, PixelFormat::Mjpeg, None), None);
}

#[test]
fn decoder_output_is_ignored_for_other_formats() {
    let raw = frame(PixelFormat::Gray, 1, 1, vec![5]);
    let image = create_image_from_buffer(&raw, PixelFormat::Gray, Some(vec![1, 1, 1])).unwrap();
    assert_eq!(image.data, vec![5, 5, 5]);
}

#[test]
fn format_argument_overrides_the_frame_tag() {
    let raw = frame(PixelFormat::Yuyv, 4, 1, vec![16, 128, 235, 128]);
    let image = create_image_from_buffer(&raw, PixelFormat::Gray, None).unwrap();
    assert_eq!(image.data, vec![16, 16, 16, 128, 128, 128, 235, 235, 235, 128, 128, 128]);
}

#[test]
fn only_mjpeg_needs_the_jpeg_decoder() {
    assert!(needs_jpeg_decoder(PixelFormat::Mjpeg));
    for format in [PixelFormat::Yuyv, PixelFormat::Nv12, PixelFormat::RawRgb, PixelFormat::Gray] {
        assert!(!needs_jpeg_decoder(format));
    }
}

#[test]
fn decoded_bytes_become_an_image_of_the_given_size() {
    let image = image_from_decoded(Resolution::new(3, 2), Some(vec![1, 2, 3]));
    assert_eq!(image, Some(RgbImage { width: 3, height: 2, data: vec![1, 2, 3] }));
    assert_eq!(image_from_decoded(Resolution::new(3, 2), None), None);
}

#[test]
fn renderable_image_must_fill_its_size() {
    let full = frame(PixelFormat::Gray, 2, 2, vec![1, 2, 3, 4]);
    assert_eq!(
        renderable_image(&full, None),
        Some(RgbImage { width: 2, height: 2, data: vec![1, 1, 1, 2, 2, 2, 3, 3, 3, 4, 4, 4] })
    );
    let short = frame(PixelFormat::Gray, 2, 2, vec![1, 2, 3]);
    assert_eq!(renderable_image(&short, None), None);
    let long = frame(PixelFormat::RawRgb, 1, 1, vec![1, 2, 3, 4, 5, 6]);
    assert_eq!(renderable_image(&long, None), None);
    let padded = frame(PixelFormat::Yuyv, 2, 1, vec![16, 128, 235, 128, 0, 0]);
    assert_eq!(
        renderable_image(&padded, None),
        Some(RgbImage { width: 2, height: 1, data: vec![16, 16, 16, 235, 235, 235] })
    );
}

#[test]
fn completeness_compares_bytes_with_the_size() {
    assert!(RgbImage { width: 0, height: 0, data: vec![] }.is_complete());
    assert!(RgbImage { width: 65536, height: 0, data: vec![] }.is_complete());
    assert!(!RgbImage { width: 1, height: 1, data: vec![1, 2] }.is_complete());
    assert!(!RgbImage { width: 1, height: 1, data: vec![1, 2, 3, 4] }.is_complete());
    assert!(!RgbImage { width: 65536, height: 65536, data: vec![1, 2, 3] }.is_complete());
    assert_eq!(Resolution::new(65536, 65536).pixel_count(), 1u64 << 32);
    assert_eq!(Resolution::new(u32::MAX, u32::MAX).pixel_count(), 18446744065119617025);
}

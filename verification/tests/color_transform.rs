use egui_cameras::yuv_to_rgb;

#[test]
fn neutral_chroma_gives_gray() {
    assert_eq!(yuv_to_rgb(16, 128, 128), [16, 16, 16]);
    assert_eq!(yuv_to_rgb(235, 128, 128), [235, 235, 235]);
    assert_eq!(yuv_to_rgb(0, 128, 128), [0, 0, 0]);
    assert_eq!(yuv_to_rgb(255, 128, 128), [255, 255, 255]);
}

#[test]
fn neutral_chroma_gives_gray_for_every_luma() {
    for y in 0..=255u8 {
        assert_eq!(yuv_to_rgb(y, 128, 128), [y, y, y]);
    }
}

#[test]
fn channels_follow_the_formula() {
    // R = 100 + 1.402 * 72 = 200.944, G = 100 - 0.344 * (-28) - 0.714 * 72 = 58.224,
    // B = 100 + 1.772 * (-28) = 50.384
    assert_eq!(yuv_to_rgb(100, 100, 200), [200, 58, 50]);
    // R = 50 + 1.402 * (-18) = 24.764, G = 50 - 0.344 * 2 - 0.714 * (-18) = 62.164,
    // B = 50 + 1.772 * 2 = 53.544
    assert_eq!(yuv_to_rgb(50, 130, 110), [24, 62, 53]);
}

#[test]
fn bright_sample_with_extreme_chroma_saturates() {
    // R = 255 - 179.456 = 75.544, G = 255 - 43.688 + 91.392 = 302.704, B = 255 + 225.044
    assert_eq!(yuv_to_rgb(255, 255, 0), [75, 255, 255]);
    // R = 255 + 1.402 * 127 = 433.054 must stop at 255; G = 255 + 44.032 - 90.678 = 208.354,
    // B = 255 - 226.816 = 28.184
    assert_eq!(yuv_to_rgb(255, 0, 255), [255, 208, 28]);
    assert_eq!(yuv_to_rgb(255, 128, 255)[0], 255);
}

#[test]
fn dark_sample_with_extreme_chroma_saturates_at_zero() {
    // R = 0 - 179.456, B = 0 - 226.816 must stop at 0; G = 0 + 44.032 + 91.392 = 135.424
    assert_eq!(yuv_to_rgb(0, 0, 0), [0, 135, 0]);
    // G = 0 - 43.688 - 90.678 must stop at 0
    assert_eq!(yuv_to_rgb(0, 255, 255), [178, 0, 225]);
}

#[test]
fn whole_valued_green_is_kept() {
    // G = 0 - 0.344 * 2 - 0.714 * (-92) = 65 exactly
    assert_eq!(yuv_to_rgb(0, 130, 36)[1], 65);
    // G = 0 - 0.344 * 22 - 0.714 * (-12) = 1 exactly
    assert_eq!(yuv_to_rgb(0, 150, 116)[1], 1);
}

fn in_floating_point(y: u8, u: u8, v: u8) -> [u8; 3] {
    let y = y as f32;
    let u = u as f32 - 128.0;
    let v = v as f32 - 128.0;
    let r = (y + 1.402 * v).clamp(0.0, 255.0) as u8;
    let g = (y - 0.344 * u - 0.714 * v).clamp(0.0, 255.0) as u8;
    let b = (y + 1.772 * u).clamp(0.0, 255.0) as u8;
    [r, g, b]
}

#[test]
fn red_and_blue_agree_with_floating_point_everywhere() {
    for y in 0..=255u8 {
        for c in 0..=255u8 {
            assert_eq!(yuv_to_rgb(y, 128, c)[0], in_floating_point(y, 128, c)[0]);
            assert_eq!(yuv_to_rgb(y, c, 128)[2], in_floating_point(y, c, 128)[2]);
        }
    }
}

#[test]
fn green_agrees_with_floating_point_but_for_rounding_below_whole_values() {
    for y in (0..=255u8).step_by(15) {
        for u in 0..=255u8 {
            for v in 0..=255u8 {
                let exact = yuv_to_rgb(y, u, v)[1];
                let float = in_floating_point(y, u, v)[1];
                let thousandths =
                    1000 * y as i32 - 344 * (u as i32 - 128) - 714 * (v as i32 - 128);
                if thousandths % 1000 == 0 {
                    assert!(exact == float || exact == float + 1);
                } else {
                    assert_eq!(exact, float);
                }
            }
        }
    }
}

use upscaler::augmentation::{
    cool, grain, grain_with_noise, invert, mono, random_filter_plan, warm, CameraFilter,
};
use upscaler::pixels::PixelImage;

fn make_test_image() -> PixelImage {
    let mut img = PixelImage::new(64, 64);
    for y in 0..64u32 {
        for x in 0..64u32 {
            let r = (x * 4) as u8;
            let g = (y * 4) as u8;
            let b = 128u8;
            img.put_pixel(x, y, [r, g, b]);
        }
    }
    img
}

#[test]
fn test_grayscale_is_actually_gray() {
    let img = make_test_image();
    let mono = mono(&img);
    for (i, pix) in mono.as_raw().chunks(3).enumerate() {
        assert_eq!(pix[0], pix[1], "R=G at pixel {}", i);
        assert_eq!(pix[1], pix[2], "G=B at pixel {}", i);
    }
}

#[test]
fn mono_uses_srgb_luminance() {
    let mut img = PixelImage::new(2, 1);
    img.put_pixel(0, 0, [255, 0, 0]);
    img.put_pixel(1, 0, [200, 100, 50]);
    let out = mono(&img);
    // (2126 * 255) / 10000 = 54; (2126*200 + 7152*100 + 722*50) / 10000 = 117
    assert_eq!(out.get_pixel(0, 0), [54, 54, 54]);
    assert_eq!(out.get_pixel(1, 0), [117, 117, 117]);
}

#[test]
fn catalogue_lists_sixteen_distinct_filters() {
    let all = CameraFilter::all();
    assert_eq!(all.len(), 16);
    assert_eq!(all[0], CameraFilter::Original);
    assert_eq!(all[15], CameraFilter::Posterize);
    for i in 0..all.len() {
        for j in (i + 1)..all.len() {
            assert_ne!(all[i], all[j]);
        }
    }
}

#[test]
fn integer_filters_keep_size() {
    let img = make_test_image();
    for out in [warm(&img), cool(&img), grain(&img), invert(&img), mono(&img)] {
        assert_eq!(out.dimensions(), (64, 64));
        assert_eq!(out.as_raw().len(), 64 * 64 * 3);
    }
}

#[test]
fn warm_and_cool_shift_channels_with_saturation() {
    let mut img = PixelImage::new(2, 1);
    img.put_pixel(0, 0, [100, 100, 100]);
    img.put_pixel(1, 0, [250, 253, 5]);
    let w = warm(&img);
    assert_eq!(w.get_pixel(0, 0), [115, 105, 90]);
    assert_eq!(w.get_pixel(1, 0), [255, 255, 0]);
    let c = cool(&img);
    assert_eq!(c.get_pixel(0, 0), [90, 95, 115]);
    assert_eq!(c.get_pixel(1, 0), [240, 248, 20]);
}

#[test]
fn invert_complements_and_is_an_involution() {
    let img = make_test_image();
    let inv = invert(&img);
    assert_eq!(inv.get_pixel(3, 5), [255 - 12, 255 - 20, 127]);
    let back = invert(&inv);
    assert_eq!(back.as_raw(), img.as_raw());
}

#[test]
fn grain_with_noise_moves_pixels_and_clamps() {
    let mut img = PixelImage::new(3, 1);
    img.put_pixel(0, 0, [10, 20, 30]);
    img.put_pixel(1, 0, [5, 250, 128]);
    img.put_pixel(2, 0, [0, 0, 0]);
    let out = grain_with_noise(&img, &vec![15, -10, 0]);
    assert_eq!(out.get_pixel(0, 0), [25, 35, 45]);
    assert_eq!(out.get_pixel(1, 0), [0, 240, 118]);
    assert_eq!(out.get_pixel(2, 0), [0, 0, 0]);
}

#[test]
fn grain_stays_within_fifteen_levels() {
    let img = make_test_image();
    let out = grain(&img);
    for (a, b) in out.as_raw().chunks(3).zip(img.as_raw().chunks(3)) {
        let d0 = a[0] as i32 - b[0] as i32;
        for c in 0..3 {
            let d = a[c] as i32 - b[c] as i32;
            assert!(d.abs() <= 15);
            // channels that did not saturate moved by the pixel's common offset
            if a[c] != 0 && a[c] != 255 && a[0] != 0 && a[0] != 255 {
                assert_eq!(d, d0);
            }
        }
    }
}

#[test]
fn pixel_image_raw_round_trip() {
    assert!(PixelImage::from_raw(2, 2, vec![0; 11]).is_none());
    let img = PixelImage::from_raw(2, 1, vec![1, 2, 3, 4, 5, 6]).unwrap();
    assert_eq!(img.get_pixel(1, 0), [4, 5, 6]);
    assert_eq!(img.width(), 2);
    assert_eq!(img.height(), 1);
    assert_eq!(img.into_raw(), vec![1, 2, 3, 4, 5, 6]);
}

#[test]
fn random_filter_plans() {
    let all = CameraFilter::all();
    for i in 0..16 {
        assert_eq!(random_filter_plan(i, false, 0), (all[i], None));
    }
    assert_eq!(random_filter_plan(3, true, 0), (CameraFilter::Vivid, Some(CameraFilter::Grain)));
    assert_eq!(random_filter_plan(0, true, 1), (CameraFilter::Original, Some(CameraFilter::SoftFocus)));
    assert_eq!(random_filter_plan(15, true, 2), (CameraFilter::Posterize, Some(CameraFilter::Vivid)));
    assert_eq!(random_filter_plan(5, true, 3), (CameraFilter::Mono, Some(CameraFilter::Fade)));
    assert_eq!(random_filter_plan(5, true, 9), (CameraFilter::Mono, Some(CameraFilter::Fade)));
}

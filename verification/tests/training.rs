use upscaler::model::{FusionBlockConfig, ResBlockConfig, UpsampleStageConfig, PresenceGateConfig};
use upscaler::pixels::PixelImage;
use upscaler::training::{
    crop_pair, dataset_images, effective_main_size, flip_pair, is_checkpoint_extension, is_dataset_extension, plan_crop,
    planar_channels, run_counts, should_checkpoint, should_report_step, CropPlan, RunCounts,
};
use upscaler::RefGuidedUpsamplerConfig;

#[test]
fn test_rgb_to_tensor_shape() {
    let img = PixelImage::new(64, 64);
    let planes = planar_channels(img.as_raw(), 64, 64);
    assert_eq!(planes.len(), 1 * 3 * 64 * 64);
}

#[test]
fn planar_channels_reorders_hwc_to_chw() {
    // 2x1 image: pixel 0 = (1,2,3), pixel 1 = (4,5,6)
    let planes = planar_channels(&vec![1, 2, 3, 4, 5, 6], 2, 1);
    assert_eq!(planes, vec![1, 4, 2, 5, 3, 6]);
    assert!(planar_channels(&vec![], 0, 5).is_empty());
}

#[test]
fn crop_plans() {
    assert_eq!(plan_crop(2000, 1500, 256), Some(CropPlan { ref_size: 1024, max_x: 976, max_y: 476 }));
    assert_eq!(plan_crop(1024, 1024, 256), Some(CropPlan { ref_size: 1024, max_x: 0, max_y: 0 }));
    assert_eq!(plan_crop(1023, 4096, 256), None);
    // a 128 crop takes a 512 reference window
    assert_eq!(plan_crop(512, 600, 128), Some(CropPlan { ref_size: 512, max_x: 0, max_y: 88 }));
    assert_eq!(plan_crop(511, 600, 128), None);
}

#[test]
fn schedule() {
    assert_eq!(effective_main_size(true, 256), 1024);
    assert_eq!(effective_main_size(false, 256), 256);
    assert!(should_report_step(1));
    assert!(should_report_step(50));
    assert!(!should_report_step(51));
    assert!(should_checkpoint(500, 500));
    assert!(!should_checkpoint(0, 500));
    assert!(!should_checkpoint(499, 500));
}

#[test]
fn model_configs() {
    let c = RefGuidedUpsamplerConfig::new();
    assert_eq!(c.base_channels, 64);
    assert_eq!(c.num_res_blocks, 4);
    let plan = c.channel_plan();
    assert_eq!((plan.base, plan.doubled, plan.half), (64, 128, 32));
    assert_eq!(c.bottleneck(), FusionBlockConfig::new(64, 128, 64));
    assert_eq!(c.bottleneck().input_channels(), 192);
    let c2 = c.with_base_channels(32).with_num_res_blocks(2);
    assert_eq!((c2.base_channels, c2.num_res_blocks), (32, 2));
    assert_eq!(UpsampleStageConfig::new(64, 128).fusion(), FusionBlockConfig::new(64, 128, 64));
    assert_eq!(ResBlockConfig::new(8).channels, 8);
    assert_eq!(PresenceGateConfig::new(32).hidden_channels, 32);
}

#[test]
fn file_kinds() {
    for ext in ["png", "PNG", "Png", "jpg", "JPG", "jpeg", "JPEG", "Jpeg"] {
        assert!(is_dataset_extension(ext));
    }
    for ext in ["bmp", "", "pn", "jpe", "pngs", "gif"] {
        assert!(!is_dataset_extension(ext));
    }
    assert!(is_checkpoint_extension("bin"));
    assert!(!is_checkpoint_extension("BIN"));
    assert!(!is_checkpoint_extension("mpk"));
}

#[test]
fn settings_from_text() {
    let defaults = RunCounts {
        num_epochs: 100,
        steps_per_epoch: 1000,
        crop_main_size: 256,
        full_resolution: false,
        seed: 42,
    };
    assert_eq!(run_counts(None, None, None, None, None, defaults), defaults);
    let r = run_counts(Some("200"), Some("+2000"), Some("128"), Some("1"), Some("7"), defaults);
    assert_eq!(
        r,
        RunCounts { num_epochs: 200, steps_per_epoch: 2000, crop_main_size: 128, full_resolution: true, seed: 7 }
    );
    let r = run_counts(Some("x"), Some(""), Some("-1"), Some("TrUe"), Some("1.5"), defaults);
    assert_eq!(r, RunCounts { full_resolution: true, ..defaults });
    let r = run_counts(None, None, Some("4294967296"), Some("yes"), None, defaults);
    assert_eq!(r, defaults);
    assert!(!run_counts(None, None, None, Some("0"), None, RunCounts { full_resolution: true, ..defaults }).full_resolution);
}

fn gradient(w: u32, h: u32) -> PixelImage {
    let mut img = PixelImage::new(w, h);
    for y in 0..h {
        for x in 0..w {
            img.put_pixel(x, y, [x as u8, y as u8, (x * 10 + y) as u8]);
        }
    }
    img
}

#[test]
fn crop_flip_and_resize() {
    let img = gradient(8, 6);
    let c = img.crop(2, 1, 4);
    assert_eq!(c.dimensions(), (4, 4));
    for j in 0..4 {
        for i in 0..4 {
            assert_eq!(c.get_pixel(i, j), img.get_pixel(2 + i, 1 + j));
        }
    }
    let f = img.flip(true, false);
    assert_eq!(f.get_pixel(0, 0), img.get_pixel(7, 0));
    assert_eq!(f.get_pixel(7, 5), img.get_pixel(0, 5));
    let f = img.flip(false, true);
    assert_eq!(f.get_pixel(3, 0), img.get_pixel(3, 5));
    let f = img.flip(true, true);
    assert_eq!(f.get_pixel(1, 2), img.get_pixel(6, 3));
    assert_eq!(img.flip(false, false).as_raw(), img.as_raw());
    assert_eq!(img.flip(true, true).flip(true, true).as_raw(), img.as_raw());
    let small = img.resize(4, 3);
    assert_eq!(small.dimensions(), (4, 3));
    assert_eq!(small.as_raw().len(), 36);
    assert_eq!(img.resize(8, 6).as_raw(), img.as_raw());
    assert_eq!(img.duplicate().as_raw(), img.as_raw());
}

#[test]
fn training_pair_is_cut_from_one_window() {
    let img = gradient(20, 12);
    let (main, reference) = crop_pair(&img, 2, 5, 3);
    assert_eq!(reference.dimensions(), (8, 8));
    assert_eq!(reference.as_raw(), img.crop(5, 3, 8).as_raw());
    assert_eq!(main.dimensions(), (2, 2));
    assert_eq!(main.as_raw(), reference.resize(2, 2).as_raw());
    let (m2, r2) = flip_pair(&main, &reference, true, false);
    assert_eq!(m2.as_raw(), main.flip(true, false).as_raw());
    assert_eq!(r2.as_raw(), reference.flip(true, false).as_raw());
    assert_eq!(r2.get_pixel(0, 0), reference.get_pixel(7, 0));
}

#[test]
fn dataset_images_pick_the_image_files_in_order() {
    let exts: Vec<Option<String>> = vec![
        Some("png".into()),
        None,
        Some("txt".into()),
        Some("JPG".into()),
        Some("Jpeg".into()),
        Some("".into()),
        Some("bin".into()),
    ];
    assert_eq!(dataset_images(&exts), vec![0, 3, 4]);
    assert!(dataset_images(&vec![None, Some("gif".into())]).is_empty());
}

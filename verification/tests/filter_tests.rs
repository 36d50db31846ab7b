use rusty_transparent::compare::{eq, gt, lt, rgb_comp, ComparisonMode};
use rusty_transparent::filter::{apply, Image, Pixel, TargetColor};

fn px(r: u8, g: u8, b: u8, a: u8) -> Pixel {
    Pixel { r, g, b, a }
}

#[test]
fn channel_comparisons() {
    assert!(eq(&7, &7));
    assert!(!eq(&7, &8));
    assert!(gt(&8, &7));
    assert!(!gt(&7, &7));
    assert!(!gt(&6, &7));
    assert!(lt(&6, &7));
    assert!(!lt(&7, &7));
    assert!(!lt(&8, &7));
}

#[test]
fn rgb_comp_all_three_must_hold() {
    assert!(rgb_comp(&[1, 2, 3], &[1, 2, 3], ComparisonMode::Equal));
    assert!(!rgb_comp(&[1, 2, 4], &[1, 2, 3], ComparisonMode::Equal));
    assert!(rgb_comp(&[10, 20, 30], &[5, 5, 5], ComparisonMode::GreaterThan));
    assert!(!rgb_comp(&[10, 20, 5], &[5, 5, 5], ComparisonMode::GreaterThan));
    assert!(rgb_comp(&[1, 2, 3], &[9, 9, 9], ComparisonMode::LessThan));
    assert!(!rgb_comp(&[1, 2, 9], &[9, 9, 9], ComparisonMode::LessThan));
}

#[test]
fn shape_is_preserved() {
    let img = Image {
        width: 3,
        height: 2,
        pixels: vec![px(0, 0, 0, 255); 6],
    };
    let out = apply(&img, &TargetColor { r: 0, g: 0, b: 0 }, ComparisonMode::Equal);
    assert_eq!(out.width, 3);
    assert_eq!(out.height, 2);
    assert_eq!(out.pixels.len(), 6);
}

#[test]
fn colors_are_preserved() {
    let img = Image {
        width: 2,
        height: 1,
        pixels: vec![px(1, 2, 3, 9), px(255, 255, 255, 9)],
    };
    let out = apply(&img, &TargetColor { r: 255, g: 255, b: 255 }, ComparisonMode::Equal);
    assert_eq!((out.pixels[0].r, out.pixels[0].g, out.pixels[0].b), (1, 2, 3));
    assert_eq!((out.pixels[1].r, out.pixels[1].g, out.pixels[1].b), (255, 255, 255));
}

#[test]
fn equal_mode_clears_only_exact_matches() {
    let target = TargetColor { r: 10, g: 20, b: 30 };
    let img = Image {
        width: 3,
        height: 1,
        pixels: vec![px(10, 20, 30, 200), px(10, 20, 31, 200), px(0, 0, 0, 0)],
    };
    let out = apply(&img, &target, ComparisonMode::Equal);
    assert_eq!(out.pixels[0], px(10, 20, 30, 0));
    assert_eq!(out.pixels[1], px(10, 20, 31, 200));
    assert_eq!(out.pixels[2], px(0, 0, 0, 0));
}

#[test]
fn strict_modes_need_all_three_channels() {
    let target = TargetColor { r: 100, g: 100, b: 100 };
    let img = Image {
        width: 3,
        height: 1,
        pixels: vec![px(101, 101, 101, 50), px(101, 101, 100, 50), px(99, 98, 97, 50)],
    };
    let out_gt = apply(&img, &target, ComparisonMode::GreaterThan);
    assert_eq!(out_gt.pixels[0].a, 0);
    assert_eq!(out_gt.pixels[1].a, 50);
    assert_eq!(out_gt.pixels[2].a, 50);
    let out_lt = apply(&img, &target, ComparisonMode::LessThan);
    assert_eq!(out_lt.pixels[0].a, 50);
    assert_eq!(out_lt.pixels[1].a, 50);
    assert_eq!(out_lt.pixels[2].a, 0);
}

#[test]
fn boundary_pixel_never_matches_strict_modes() {
    let target = TargetColor { r: 100, g: 100, b: 100 };
    let img = Image {
        width: 1,
        height: 1,
        pixels: vec![px(100, 100, 100, 77)],
    };
    let out_gt = apply(&img, &target, ComparisonMode::GreaterThan);
    assert_eq!(out_gt.pixels[0], px(100, 100, 100, 77));
    let out_lt = apply(&img, &target, ComparisonMode::LessThan);
    assert_eq!(out_lt.pixels[0], px(100, 100, 100, 77));
}

#[test]
fn applying_twice_equals_applying_once() {
    let target = TargetColor { r: 10, g: 20, b: 30 };
    let modes = [
        ComparisonMode::Equal,
        ComparisonMode::GreaterThan,
        ComparisonMode::LessThan,
    ];
    let img = Image {
        width: 2,
        height: 2,
        pixels: vec![
            px(10, 20, 30, 255),
            px(200, 200, 200, 128),
            px(5, 5, 5, 255),
            px(10, 20, 30, 0),
        ],
    };
    for mode in modes {
        let once = apply(&img, &target, mode);
        let twice = apply(&once, &target, mode);
        assert_eq!(once, twice);
    }
}

#[test]
fn default_scenario_white_becomes_transparent() {
    let target = TargetColor { r: 255, g: 255, b: 255 };
    let img = Image {
        width: 2,
        height: 1,
        pixels: vec![px(255, 255, 255, 255), px(10, 20, 30, 255)],
    };
    let out = apply(&img, &target, ComparisonMode::Equal);
    assert_eq!(out.pixels[0], px(255, 255, 255, 0));
    assert_eq!(out.pixels[1], px(10, 20, 30, 255));
}

#[test]
fn gt_scenario_both_pixels_match() {
    let target = TargetColor { r: 5, g: 5, b: 5 };
    let img = Image {
        width: 2,
        height: 1,
        pixels: vec![px(255, 255, 255, 255), px(10, 20, 30, 255)],
    };
    let out = apply(&img, &target, ComparisonMode::GreaterThan);
    assert_eq!(out.pixels[0], px(255, 255, 255, 0));
    assert_eq!(out.pixels[1], px(10, 20, 30, 0));
}

#[test]
fn raw_round_trip() {
    let data: Vec<u8> = vec![1, 2, 3, 4, 5, 6, 7, 8];
    let img = Image::from_raw(2, 1, &data).unwrap();
    assert_eq!(img.width, 2);
    assert_eq!(img.height, 1);
    assert_eq!(img.pixels, vec![px(1, 2, 3, 4), px(5, 6, 7, 8)]);
    assert_eq!(img.to_raw(), data);
}

#[test]
fn from_raw_rejects_wrong_length() {
    let data: Vec<u8> = vec![1, 2, 3, 4, 5];
    assert!(Image::from_raw(2, 1, &data).is_none());
    assert!(Image::from_raw(1, 1, &data).is_none());
    let empty: Vec<u8> = Vec::new();
    assert!(Image::from_raw(0, 5, &empty).is_some());
}

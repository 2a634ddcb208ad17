use winr::detection::{
    detect_all_matching_pixels, detect_color_match, detect_match, detect_template_match,
    prepare_detector, PreparedDetector, RgbaPixels,
};
use winr::types::ProfileDetector;

fn blank_image(width: u32, height: u32) -> RgbaPixels {
    RgbaPixels { width, height, data: vec![0; (width * height * 4) as usize] }
}

fn put_pixel(image: &mut RgbaPixels, x: u32, y: u32, rgba: [u8; 4]) {
    let base = ((y * image.width + x) * 4) as usize;
    image.data[base..base + 4].copy_from_slice(&rgba);
}

fn fill_rect(image: &mut RgbaPixels, xs: std::ops::Range<u32>, ys: std::ops::Range<u32>, rgba: [u8; 4]) {
    for y in ys {
        for x in xs.clone() {
            put_pixel(image, x, y, rgba);
        }
    }
}

const PURPLE: [u8; 4] = [180, 50, 220, 255];

#[test]
fn detect_color_match_finds_cluster_centroid() {
    let mut image = blank_image(10, 10);
    fill_rect(&mut image, 2..5, 4..7, PURPLE);

    let found = detect_color_match(&image, (179, 48, 218), 5, 4).expect("cluster should be detected");
    assert_eq!(found.x, 3);
    assert_eq!(found.y, 5);
    assert_eq!(found.pixel_count, 9);
}

#[test]
fn detect_color_match_ignores_small_matches() {
    let mut image = blank_image(10, 10);
    put_pixel(&mut image, 1, 1, PURPLE);

    let found = detect_color_match(&image, (179, 48, 218), 5, 2);
    assert!(found.is_none());
}

#[test]
fn detect_color_match_prefers_largest_connected_cluster() {
    let mut image = blank_image(120, 120);
    fill_rect(&mut image, 10..20, 10..20, PURPLE);
    fill_rect(&mut image, 70..105, 80..110, PURPLE);

    let total = detect_all_matching_pixels(&image, (179, 48, 218), 5);
    assert_eq!(total, 1150);

    let found = detect_color_match(&image, (179, 48, 218), 5, 20)
        .expect("largest cluster should be selected");
    assert_eq!(found.pixel_count, 1050);
    assert!((found.x - 87).abs() <= 1);
    assert!((found.y - 94).abs() <= 1);
}

#[test]
fn detector_match_event_uses_capture_local_coordinates() {
    let mut image = blank_image(20, 20);
    fill_rect(&mut image, 5..8, 8..11, PURPLE);

    let found = detect_match(
        &image,
        &PreparedDetector::ColorMatch { red: 179, green: 48, blue: 218, tolerance: 5, min_pixels: 4 },
    )
    .expect("detector call should succeed")
    .expect("match should exist");

    assert_eq!(found.x, 6);
    assert_eq!(found.y, 9);
}

#[test]
fn color_match_breaks_ties_by_scan_order_and_counts_diagonals_apart() {
    let mut image = blank_image(12, 6);
    // Two clusters of four; the one met first in row-by-row order wins.
    fill_rect(&mut image, 8..10, 0..2, PURPLE);
    fill_rect(&mut image, 0..2, 3..5, PURPLE);
    // A diagonal neighbor does not join a cluster.
    put_pixel(&mut image, 10, 2, PURPLE);

    let found = detect_color_match(&image, (180, 50, 220), 0, 2).expect("a cluster");
    assert_eq!(found.pixel_count, 4);
    assert_eq!((found.x, found.y), (8, 0));
    assert_eq!(detect_all_matching_pixels(&image, (180, 50, 220), 0), 9);
}

#[test]
fn color_match_tolerance_is_per_channel() {
    let mut image = blank_image(4, 4);
    fill_rect(&mut image, 0..2, 0..2, [186, 50, 220, 255]);
    assert!(detect_color_match(&image, (180, 50, 220), 5, 1).is_none());
    let found = detect_color_match(&image, (180, 50, 220), 6, 1).expect("within six");
    assert_eq!(found.pixel_count, 4);
    assert_eq!((found.x, found.y), (0, 0));
}

#[test]
fn template_match_clicks_inside_the_matched_area() {
    let mut image = blank_image(20, 20);
    fill_rect(&mut image, 6..10, 7..11, [200, 10, 10, 255]);
    let mut template = blank_image(4, 4);
    fill_rect(&mut template, 0..4, 0..4, [200, 10, 10, 255]);

    let found = detect_template_match(&image, &template, 5, 90, 1).expect("template should match");
    assert_eq!(found.pixel_count, 16);
    assert!((7..9).contains(&found.x));
    assert!((8..10).contains(&found.y));
}

#[test]
fn template_match_rejects_below_minimum_and_oversized_templates() {
    let image = blank_image(8, 8);
    let mut template = blank_image(2, 2);
    fill_rect(&mut template, 0..2, 0..2, [255, 255, 255, 255]);
    assert!(detect_template_match(&image, &template, 5, 50, 1).is_none());

    let too_wide = blank_image(9, 2);
    assert!(detect_template_match(&image, &too_wide, 5, 0, 1).is_none());
    let empty = blank_image(0, 0);
    assert!(detect_template_match(&image, &empty, 5, 0, 1).is_none());
}

#[test]
fn template_match_samples_with_the_stride() {
    let mut image = blank_image(10, 10);
    // With a stride of two only even placements and even template pixels are tried.
    fill_rect(&mut image, 4..8, 2..6, [0, 200, 0, 255]);
    let mut template = blank_image(4, 4);
    fill_rect(&mut template, 0..4, 0..4, [0, 200, 0, 255]);

    let found = detect_template_match(&image, &template, 0, 100, 2).expect("even placement");
    assert_eq!(found.pixel_count, 4);
    assert!((5..7).contains(&found.x));
    assert!((3..5).contains(&found.y));
}

#[test]
fn prepared_detectors_follow_the_profile() {
    let color = Some(ProfileDetector::ColorMatch { red: 1, green: 2, blue: 3, tolerance: 4, min_pixels: 5 });
    assert_eq!(
        prepare_detector(&color, None),
        Some(PreparedDetector::ColorMatch { red: 1, green: 2, blue: 3, tolerance: 4, min_pixels: 5 })
    );
    assert_eq!(prepare_detector(&None, None), None);

    let template = Some(ProfileDetector::TemplateMatch {
        image_path: "button.png".to_string(),
        pixel_tolerance: 7,
        min_match_percent: 80,
        sample_stride: 3,
    });
    let prepared = prepare_detector(&template, Some(blank_image(2, 2))).expect("prepared");
    assert_eq!(
        prepared,
        PreparedDetector::TemplateMatch {
            template: blank_image(2, 2),
            pixel_tolerance: 7,
            min_match_percent: 80,
            sample_stride: 3,
        }
    );
}

use boringwm::layout::{fullscreen_geometry, tile, Geometry};

#[test]
fn no_windows_yield_no_geometry() {
    let r = tile(1920, 1080, &vec![], 60, 2);
    assert!(r.is_empty());
}

#[test]
fn single_window_fills_usable_area() {
    let r = tile(1920, 1080, &vec![7], 60, 2);
    assert_eq!(
        r,
        vec![Geometry { x: 8, y: 8, width: 1904, height: 1064, border_width: 2 }]
    );
}

#[test]
fn two_windows_split_into_master_and_stack() {
    let r = tile(1920, 1080, &vec![7, 8], 60, 2);
    assert_eq!(r.len(), 2);
    assert_eq!(r[0], Geometry { x: 8, y: 8, width: 1137, height: 1064, border_width: 2 });
    assert_eq!(r[1], Geometry { x: 1153, y: 8, width: 759, height: 1064, border_width: 2 });
    // master + inner gap + stack fills the usable width exactly
    assert_eq!(r[0].width + 8 + r[1].width, 1904);
}

#[test]
fn three_windows_stack_evenly_with_gaps() {
    let r = tile(1920, 1080, &vec![7, 8, 9], 60, 2);
    assert_eq!(r.len(), 3);
    assert_eq!(r[0], Geometry { x: 8, y: 8, width: 1137, height: 1064, border_width: 2 });
    assert_eq!(r[1], Geometry { x: 1153, y: 8, width: 759, height: 528, border_width: 2 });
    assert_eq!(r[2], Geometry { x: 1153, y: 544, width: 759, height: 528, border_width: 2 });
    // the two stack slots and the gap between them fit the usable height
    assert!(r[1].height + 8 + r[2].height <= 1064);
}

#[test]
fn tiny_screen_yields_no_geometry() {
    assert!(tile(10, 1080, &vec![7], 60, 2).is_empty());
    assert!(tile(1920, 15, &vec![7, 8], 60, 2).is_empty());
    assert!(tile(16, 16, &vec![7], 60, 2).is_empty());
}

#[test]
fn crowded_stack_clamps_heights_to_one_pixel() {
    let windows: Vec<u32> = (0..40).collect();
    let r = tile(1920, 100, &windows, 60, 2);
    assert_eq!(r.len(), 40);
    for g in &r {
        assert!(g.width >= 1);
        assert!(g.height >= 1);
    }
    // the inter-stack gaps alone exceed the usable height, so each stack
    // slot is clamped to the one-pixel minimum
    assert_eq!(r[1].height, 1);
}

#[test]
fn fullscreen_geometry_covers_the_screen_without_border() {
    let g = fullscreen_geometry(1920, 1080);
    assert_eq!(g, Geometry { x: 0, y: 0, width: 1920, height: 1080, border_width: 0 });
}

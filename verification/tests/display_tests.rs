use uicontrol::display::{get_stitched_layout, sort_displays, DisplayInfo, LayoutError};

fn d(id: u32, w: u32, h: u32, x: i32, y: i32) -> DisplayInfo {
    DisplayInfo { display_id: id, logical_width: w, logical_height: h, origin_x: x, origin_y: y, pixel_width: w * 2 }
}

#[test]
fn displays_are_placed_left_to_right() {
    let l = get_stitched_layout(vec![d(1, 1440, 900, 0, 0), d(2, 1920, 1080, 1440, -100)]).ok().unwrap();
    assert_eq!(l.stitched_width, 3360);
    assert_eq!(l.stitched_height, 1080);
    assert_eq!(l.offsets, vec![(0, 0), (1440, 0)]);
}

#[test]
fn no_display_gives_no_layout() {
    assert!(matches!(get_stitched_layout(Vec::new()), Err(LayoutError::NoDisplays)));
}

#[test]
fn pixels_map_to_their_display() {
    let l = get_stitched_layout(vec![d(1, 1440, 900, 0, 0), d(2, 1920, 1080, 1440, -100)]).ok().unwrap();
    assert!(l.coordinates_fit());
    assert_eq!(l.locate_pixel(0, 0).ok(), Some((0, 0)));
    assert_eq!(l.locate_pixel(1439, 899).ok(), Some((1439, 899)));
    assert_eq!(l.locate_pixel(1440, 0).ok(), Some((1440, -100)));
    assert_eq!(l.locate_pixel(2000, 500).ok(), Some((2000, 400)));
    assert!(matches!(l.locate_pixel(100, 950), Err(LayoutError::OutOfRange)));
    assert!(matches!(l.locate_pixel(4000, 0), Err(LayoutError::OutOfRange)));
}

#[test]
fn stitch_plan_captures_each_display_at_its_offset() {
    let l = get_stitched_layout(vec![d(7, 800, 600, 0, 0), d(3, 1024, 768, 800, 0)]).ok().unwrap();
    let tiles = l.plan_stitch().ok().unwrap();
    assert_eq!(tiles.len(), 2);
    assert_eq!((tiles[0].capture_id, tiles[0].width, tiles[0].height, tiles[0].offset_x), (1, 800, 600, 0));
    assert_eq!((tiles[1].capture_id, tiles[1].width, tiles[1].height, tiles[1].offset_x), (2, 1024, 768, 800));
}

#[test]
fn displays_are_ordered_by_id_keeping_ties() {
    let sorted = sort_displays(vec![d(5, 1, 1, 0, 0), d(2, 2, 1, 0, 0), d(5, 3, 1, 0, 0), d(1, 4, 1, 0, 0)]);
    let ids: Vec<(u32, u32)> = sorted.iter().map(|x| (x.display_id, x.logical_width)).collect();
    assert_eq!(ids, vec![(1, 4), (2, 2), (5, 1), (5, 3)]);
}

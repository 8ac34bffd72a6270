use image::{ImageFormat, Rgba, RgbaImage};
use uicontrol::display::{DisplayInfo, LayoutError, StitchedLayout};
use uicontrol::document_parser::decode_image_base64;
use uicontrol::stitch::{stitch_captures, StitchError};

fn display(id: u32, w: u32, h: u32, x: i32) -> DisplayInfo {
    DisplayInfo { display_id: id, logical_width: w, logical_height: h, origin_x: x, origin_y: 0, pixel_width: w }
}

fn png_of(w: u32, h: u32, colour: [u8; 4]) -> Vec<u8> {
    let img = RgbaImage::from_pixel(w, h, Rgba(colour));
    let mut bytes = Vec::new();
    img.write_to(&mut std::io::Cursor::new(&mut bytes), ImageFormat::Png).unwrap();
    bytes
}

fn two_displays() -> StitchedLayout {
    StitchedLayout {
        displays: vec![display(1, 2, 2, 0), display(2, 3, 1, 2)],
        stitched_width: 5,
        stitched_height: 2,
        offsets: vec![(0, 0), (2, 0)],
    }
}

#[test]
fn captures_are_laid_side_by_side() {
    let layout = two_displays();
    let red = [255, 0, 0, 255];
    let blue = [0, 0, 255, 255];
    let out = stitch_captures(&layout, vec![png_of(2, 2, red), png_of(3, 1, blue)]).ok().unwrap();
    let png = decode_image_base64(&out).unwrap();
    let img = image::load_from_memory(&png).unwrap().to_rgba8();
    assert_eq!(img.dimensions(), (5, 2));
    assert_eq!(img.get_pixel(0, 0).0, red);
    assert_eq!(img.get_pixel(1, 1).0, red);
    assert_eq!(img.get_pixel(2, 0).0, blue);
    assert_eq!(img.get_pixel(4, 0).0, blue);
    assert_eq!(img.get_pixel(3, 1).0, [0, 0, 0, 0]);
}

#[test]
fn a_capture_of_another_size_is_scaled_to_its_display() {
    let layout = StitchedLayout {
        displays: vec![display(1, 2, 2, 0)],
        stitched_width: 2,
        stitched_height: 2,
        offsets: vec![(0, 0)],
    };
    let green = [0, 200, 0, 255];
    let out = stitch_captures(&layout, vec![png_of(4, 4, green)]).ok().unwrap();
    let img = image::load_from_memory(&decode_image_base64(&out).unwrap()).unwrap().to_rgba8();
    assert_eq!(img.dimensions(), (2, 2));
    assert_eq!(img.get_pixel(1, 1).0, green);
}

#[test]
fn the_first_capture_that_does_not_decode_fails() {
    let layout = two_displays();
    let r = stitch_captures(&layout, vec![png_of(2, 2, [1, 2, 3, 255]), b"not a picture".to_vec()]);
    assert!(matches!(r, Err(StitchError::Undecodable(1))));
    let r2 = stitch_captures(&layout, vec![Vec::new(), Vec::new()]);
    assert!(matches!(r2, Err(StitchError::Undecodable(0))));
}

#[test]
fn layout_errors_come_first() {
    let empty = StitchedLayout { displays: Vec::new(), stitched_width: 0, stitched_height: 0, offsets: Vec::new() };
    assert!(matches!(stitch_captures(&empty, Vec::new()), Err(StitchError::Layout(LayoutError::NoDisplays))));
    let mut no_offsets = two_displays();
    no_offsets.offsets.pop();
    assert!(matches!(
        stitch_captures(&no_offsets, vec![Vec::new(), Vec::new()]),
        Err(StitchError::Layout(LayoutError::OffsetsMismatch))
    ));
}

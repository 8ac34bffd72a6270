//! Composing the stitched screenshot: each display's capture is decoded,
//! scaled to the display's size in points where it differs, and laid onto
//! a blank picture at the display's offset; the picture is then written as
//! a PNG and encoded in base64. The image work itself is done by the
//! `image` crate.
use vstd::prelude::*;
use crate::display::{LayoutError, StitchedLayout};
use crate::document_parser::{base64_encode, encode_image_base64};

verus! {

/// An image as 8-bit RGBA pixels, row by row, four bytes a pixel.
pub struct RgbaPixels {
    pub width: u32,
    pub height: u32,
    pub data: Vec<u8>,
}

impl RgbaPixels {
    /// The buffer holds exactly the pixels of the image.
    pub open spec fn wf(&self) -> bool {
        self.data@.len() == self.width as int * self.height as int * 4
    }
}

/// Why the stitched picture could not be composed.
pub enum StitchError {
    /// The layout cannot be composed.
    Layout(LayoutError),
    /// The capture of this display (counted from 0) is not an image that
    /// can be read.
    Undecodable(usize),
    /// The picture, or a capture scaled to its display's size, would not fit
    /// in memory.
    TooLarge,
    /// The picture could not be written as a PNG.
    EncodeFailed,
}

/// An image of `w` by `h` pixels is small enough for the buffers that
/// decoding and scaling allocate (at most 16 bytes a pixel).
pub open spec fn fits_memory(w: u32, h: u32) -> bool {
    w as int * h as int <= isize::MAX as int / 16
}

/// Whether an image of `w` by `h` pixels is small enough.
pub fn fits_in_memory(w: u32, h: u32) -> (r: bool)
    ensures
        r == fits_memory(w, h),
{
    let wide = w as u64;
    let high = h as u64;
    assert(wide * high <= 0xffff_ffff_ffff_ffffu64) by (nonlinear_arith)
        requires
            wide <= 0xffff_ffffu64,
            high <= 0xffff_ffffu64,
    ;
    let area: u64 = wide * high;
    area <= (isize::MAX as u64) / 16
}

/// The pixels that the `image` crate decodes from `bytes` (the format
/// guessed from the bytes themselves) and converts to 8-bit RGBA: width,
/// height and pixel data, or none where the bytes are no image it reads.
pub uninterp spec fn decoded_rgba(bytes: Seq<u8>) -> Option<(u32, u32, Seq<u8>)>;

/// The pixels of a `w` by `h` RGBA image scaled to `nw` by `nh` with the
/// `image` crate's Lanczos filter of radius 3.
pub uninterp spec fn lanczos3_resized(w: u32, h: u32, data: Seq<u8>, nw: u32, nh: u32) -> Seq<u8>;

/// The pixels of the `bw` by `bh` RGBA image `bottom` after the `image`
/// crate's `overlay` has blended the `tw` by `th` image `top` onto it with
/// its top-left corner at `(x, y)`, cropped to `bottom`.
pub uninterp spec fn overlaid(
    bw: u32,
    bh: u32,
    bottom: Seq<u8>,
    tw: u32,
    th: u32,
    top: Seq<u8>,
    x: u32,
    y: u32,
) -> Seq<u8>;

/// The PNG file that the `image` crate writes for a `w` by `h` RGBA image,
/// or none where writing it fails.
pub uninterp spec fn png_encoded(w: u32, h: u32, data: Seq<u8>) -> Option<Seq<u8>>;

/// A blank `w` by `h` RGBA picture: every byte 0.
pub open spec fn blank_pixels(w: u32, h: u32) -> Seq<u8> {
    Seq::new((w as int * h as int * 4) as nat, |i: int| 0u8)
}

/// `image::load_from_memory` followed by `to_rgba8`. The contract claims
/// that the result is a function of the bytes alone, and that the buffer it
/// hands out holds exactly the image's pixels, as `ImageBuffer::new` and
/// the decoders allocate it.
#[verifier::external_body]
fn decode_rgba(bytes: &[u8]) -> (r: Option<RgbaPixels>)
    ensures
        r is Some <==> decoded_rgba(bytes@) is Some,
        r matches Some(p) ==> decoded_rgba(bytes@) == Some((p.width, p.height, p.data@)) && p.wf(),
{
    match image::load_from_memory(bytes) {
        Ok(img) => {
            let rgba = img.to_rgba8();
            Some(RgbaPixels { width: rgba.width(), height: rgba.height(), data: rgba.into_raw() })
        },
        Err(_) => None,
    }
}

/// `image::RgbaImage::new`: a picture of the given size whose bytes are all
/// 0. It panics where the buffer's length overflows, which `fits_memory`
/// rules out.
#[verifier::external_body]
fn blank_rgba(w: u32, h: u32) -> (r: RgbaPixels)
    requires
        fits_memory(w, h),
    ensures
        r.width == w,
        r.height == h,
        r.data@ == blank_pixels(w, h),
{
    let img = image::RgbaImage::new(w, h);
    RgbaPixels { width: w, height: h, data: img.into_raw() }
}

/// `image::imageops::resize` with `FilterType::Lanczos3`: the image scaled
/// to exactly `nw` by `nh`. Its intermediate buffer has the source's width
/// and the new height, at 16 bytes a pixel, hence the second bound.
#[verifier::external_body]
fn resize_lanczos3(p: RgbaPixels, nw: u32, nh: u32) -> (r: RgbaPixels)
    requires
        p.wf(),
        fits_memory(p.width, nh),
        fits_memory(nw, nh),
    ensures
        r.width == nw,
        r.height == nh,
        r.data@ == lanczos3_resized(p.width, p.height, p.data@, nw, nh),
        r.wf(),
{
    let img = image::RgbaImage::from_raw(p.width, p.height, p.data).unwrap();
    let out = image::imageops::resize(&img, nw, nh, image::imageops::FilterType::Lanczos3);
    RgbaPixels { width: out.width(), height: out.height(), data: out.into_raw() }
}

/// `image::imageops::overlay`: `top` blended onto `canvas` at `(x, y)`. The
/// canvas keeps its size and its buffer.
#[verifier::external_body]
fn overlay_at(canvas: &mut RgbaPixels, top: RgbaPixels, x: u32, y: u32)
    requires
        old(canvas).wf(),
        top.wf(),
    ensures
        final(canvas).width == old(canvas).width,
        final(canvas).height == old(canvas).height,
        final(canvas).data@ == overlaid(
            old(canvas).width,
            old(canvas).height,
            old(canvas).data@,
            top.width,
            top.height,
            top.data@,
            x,
            y,
        ),
        final(canvas).wf(),
{
    let data = std::mem::take(&mut canvas.data);
    let mut bottom = image::RgbaImage::from_raw(canvas.width, canvas.height, data).unwrap();
    let top_img = image::RgbaImage::from_raw(top.width, top.height, top.data).unwrap();
    image::imageops::overlay(&mut bottom, &top_img, x as i64, y as i64);
    canvas.data = bottom.into_raw();
}

/// `DynamicImage::write_to` with `ImageFormat::Png` into a byte vector: the
/// PNG file, or none where writing fails.
#[verifier::external_body]
fn encode_png(p: RgbaPixels) -> (r: Option<Vec<u8>>)
    requires
        p.wf(),
    ensures
        r is Some <==> png_encoded(p.width, p.height, p.data@) is Some,
        r matches Some(b) ==> png_encoded(p.width, p.height, p.data@) == Some(b@),
{
    let img = image::RgbaImage::from_raw(p.width, p.height, p.data).unwrap();
    let mut bytes: Vec<u8> = Vec::new();
    match image::DynamicImage::ImageRgba8(img).write_to(
        &mut std::io::Cursor::new(&mut bytes),
        image::ImageFormat::Png,
    ) {
        Ok(()) => Some(bytes),
        Err(_) => None,
    }
}

/// The decoded capture: its width, height and pixels (meaningful where it
/// decodes).
pub open spec fn capture_image(bytes: Seq<u8>) -> (u32, u32, Seq<u8>) {
    match decoded_rgba(bytes) {
        Some(img) => img,
        None => (0, 0, Seq::empty()),
    }
}

/// The capture of display `i` differs in size from the display in points.
pub open spec fn needs_resize(l: StitchedLayout, i: int, img: (u32, u32, Seq<u8>)) -> bool {
    img.0 != l.displays@[i].logical_width || img.1 != l.displays@[i].logical_height
}

/// The capture of display `i` as it is laid onto the picture: scaled to
/// the display's size in points where it differs.
pub open spec fn placed_pixels(l: StitchedLayout, i: int, img: (u32, u32, Seq<u8>)) -> (u32, u32, Seq<u8>) {
    let d = l.displays@[i];
    if needs_resize(l, i, img) {
        (d.logical_width, d.logical_height, lanczos3_resized(img.0, img.1, img.2, d.logical_width, d.logical_height))
    } else {
        img
    }
}

/// What stops the capture of display `i` from being laid onto the
/// picture: it does not decode, or scaling it would not fit in memory.
pub open spec fn tile_error(l: StitchedLayout, i: int, bytes: Seq<u8>) -> Option<StitchError> {
    match decoded_rgba(bytes) {
        None => Some(StitchError::Undecodable(i as usize)),
        Some(img) => {
            let d = l.displays@[i];
            if needs_resize(l, i, img) && !(fits_memory(img.0, d.logical_height) && fits_memory(
                d.logical_width,
                d.logical_height,
            )) {
                Some(StitchError::TooLarge)
            } else {
                None
            }
        },
    }
}

/// The first thing that stops one of the first `k` captures from being
/// laid onto the picture, taken in display order.
pub open spec fn first_tile_error(l: StitchedLayout, caps: Seq<Seq<u8>>, k: int) -> Option<StitchError>
    decreases k,
{
    if k <= 0 {
        None
    } else {
        match first_tile_error(l, caps, k - 1) {
            Some(e) => Some(e),
            None => tile_error(l, k - 1, caps[k - 1]),
        }
    }
}

/// The picture after the first `k` captures have been laid, in order, onto
/// a blank picture of the layout's size, each at its display's offset.
pub open spec fn composed(l: StitchedLayout, caps: Seq<Seq<u8>>, k: int) -> Seq<u8>
    decreases k,
{
    if k <= 0 {
        blank_pixels(l.stitched_width, l.stitched_height)
    } else {
        let img = placed_pixels(l, k - 1, capture_image(caps[k - 1]));
        let (ox, oy) = l.offsets@[k - 1];
        overlaid(
            l.stitched_width,
            l.stitched_height,
            composed(l, caps, k - 1),
            img.0,
            img.1,
            img.2,
            ox,
            oy,
        )
    }
}

/// Each capture is laid onto the picture at its display's size in points:
/// the picture after display `k` is the one before it with, at the
/// display's offset, an image exactly as wide and high as the display,
/// which is the Lanczos3 scaling of the capture where the capture's size
/// differs and the capture itself where it does not.
pub proof fn law_capture_laid_at_display_size(
    l: StitchedLayout,
    caps: Seq<Seq<u8>>,
    k: int,
    w: u32,
    h: u32,
    pixels: Seq<u8>,
)
    requires
        0 <= k < l.displays@.len(),
        k < l.offsets@.len(),
        decoded_rgba(caps[k]) == Some((w, h, pixels)),
    ensures
        composed(l, caps, k + 1) == overlaid(
            l.stitched_width,
            l.stitched_height,
            composed(l, caps, k),
            l.displays@[k].logical_width,
            l.displays@[k].logical_height,
            if w == l.displays@[k].logical_width && h == l.displays@[k].logical_height {
                pixels
            } else {
                lanczos3_resized(w, h, pixels, l.displays@[k].logical_width, l.displays@[k].logical_height)
            },
            l.offsets@[k].0,
            l.offsets@[k].1,
        ),
{
}

/// The bytes of each capture.
pub open spec fn capture_bytes(captures: Seq<Vec<u8>>) -> Seq<Seq<u8>> {
    captures.map_values(|v: Vec<u8>| v@)
}

/// Once one capture fails, the first failure stays the same.
proof fn lemma_first_error_stays(l: StitchedLayout, caps: Seq<Seq<u8>>, j: int, k: int)
    requires
        0 <= j <= k,
        first_tile_error(l, caps, j) is Some,
    ensures
        first_tile_error(l, caps, k) == first_tile_error(l, caps, j),
    decreases k - j,
{
    if j < k {
        lemma_first_error_stays(l, caps, j, k - 1);
    }
}

/// The stitched screenshot, as a PNG in base64, composed from `captures`,
/// one per display in order. The layout's errors are those of
/// `plan_stitch`; a picture too large for memory fails; then the first
/// capture that does not decode, or whose scaling would not fit in memory,
/// fails; otherwise the captures are laid onto the picture (`composed`),
/// and the PNG written from it is returned, or `EncodeFailed` where writing
/// it fails.
pub fn stitch_captures(layout: &StitchedLayout, captures: Vec<Vec<u8>>) -> (r: Result<String, StitchError>)
    requires
        layout.displays@.len() < u32::MAX,
        captures@.len() == layout.displays@.len(),
    ensures
        layout.displays@.len() == 0 ==> r matches Err(StitchError::Layout(LayoutError::NoDisplays)),
        layout.displays@.len() > 0 && (layout.stitched_width == 0 || layout.stitched_height == 0)
            ==> r matches Err(StitchError::Layout(LayoutError::InvalidSize)),
        layout.displays@.len() > 0 && layout.stitched_width > 0 && layout.stitched_height > 0
            && layout.offsets@.len() < layout.displays@.len() ==> r matches Err(
            StitchError::Layout(LayoutError::OffsetsMismatch),
        ),
        layout.displays@.len() > 0 && layout.stitched_width > 0 && layout.stitched_height > 0
            && layout.offsets@.len() >= layout.displays@.len() ==> {
            let caps = capture_bytes(captures@);
            let n = layout.displays@.len() as int;
            if !fits_memory(layout.stitched_width, layout.stitched_height) {
                r matches Err(StitchError::TooLarge)
            } else {
                match first_tile_error(*layout, caps, n) {
                    Some(e) => r == Err::<String, StitchError>(e),
                    None => match png_encoded(
                        layout.stitched_width,
                        layout.stitched_height,
                        composed(*layout, caps, n),
                    ) {
                        Some(png) => r matches Ok(s) && s@ == base64_encode(png),
                        None => r matches Err(StitchError::EncodeFailed),
                    },
                }
            }
        },
{
    let tiles = match layout.plan_stitch() {
        Ok(t) => t,
        Err(e) => return Err(StitchError::Layout(e)),
    };
    if !fits_in_memory(layout.stitched_width, layout.stitched_height) {
        return Err(StitchError::TooLarge);
    }
    let ghost caps = capture_bytes(captures@);
    let mut canvas = blank_rgba(layout.stitched_width, layout.stitched_height);
    let n = tiles.len();
    for i in 0..n
        invariant
            n == layout.displays@.len(),
            n > 0,
            layout.stitched_width > 0,
            layout.stitched_height > 0,
            fits_memory(layout.stitched_width, layout.stitched_height),
            tiles@.len() == n,
            captures@.len() == n,
            caps == capture_bytes(captures@),
            layout.offsets@.len() >= n,
            forall|j: int|
                0 <= j < n ==> {
                    let t = #[trigger] tiles@[j];
                    &&& t.width == layout.displays@[j].logical_width
                    &&& t.height == layout.displays@[j].logical_height
                    &&& (t.offset_x, t.offset_y) == layout.offsets@[j]
                },
            canvas.wf(),
            canvas.width == layout.stitched_width,
            canvas.height == layout.stitched_height,
            canvas.data@ == composed(*layout, caps, i as int),
            first_tile_error(*layout, caps, i as int) is None,
    {
        let t = &tiles[i];
        assert(caps[i as int] == captures@[i as int]@);
        let img = match decode_rgba(captures[i].as_slice()) {
            Some(p) => p,
            None => {
                proof {
                    assert(first_tile_error(*layout, caps, i + 1) == Some(
                        StitchError::Undecodable(i),
                    ));
                    lemma_first_error_stays(*layout, caps, i + 1, n as int);
                }
                return Err(StitchError::Undecodable(i));
            },
        };
        let placed = if img.width != t.width || img.height != t.height {
            if !fits_in_memory(img.width, t.height) || !fits_in_memory(t.width, t.height) {
                proof {
                    assert(first_tile_error(*layout, caps, i + 1) == Some(StitchError::TooLarge));
                    lemma_first_error_stays(*layout, caps, i + 1, n as int);
                }
                return Err(StitchError::TooLarge);
            }
            resize_lanczos3(img, t.width, t.height)
        } else {
            img
        };
        overlay_at(&mut canvas, placed, t.offset_x, t.offset_y);
    }
    match encode_png(canvas) {
        Some(png) => Ok(encode_image_base64(png.as_slice())),
        None => Err(StitchError::EncodeFailed),
    }
}

} // verus!

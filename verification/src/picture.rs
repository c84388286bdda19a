//! The picture that a render fills, pixel by pixel.
//!
//! The picture is an image buffer of the `image` crate. What is known of it
//! here is what that crate's `new` and `put_pixel` promise; the order in
//! which the pixels are filled, the row that the camera sees for each, and
//! what is reported on the way are decided and proved here.

use crate::progress::flip_row;
use crate::progress::flipped;
use crate::progress::percent_at;
use crate::progress::percent_is_in_range;
use crate::progress::percent_never_falls;
use crate::progress::Progress;
use vstd::prelude::*;

verus! {

/// A picture of pixels with one byte each for red, green and blue: an
/// `image::RgbImage`. Its inside belongs to the `image` crate; here it is
/// known by its size and by the colours of its pixels.
#[verifier::external_body]
pub struct Picture {
    pub image: image::RgbImage,
}

/// The colours of a picture's pixels, each under its column and its row; the
/// row at the top is row 0.
pub uninterp spec fn pixels_of(picture: Picture) -> Map<(u32, u32), (u8, u8, u8)>;

/// The width and the height of a picture.
pub uninterp spec fn size_of(picture: Picture) -> (u32, u32);

/// Whether a picture of this size can be held: three bytes for each pixel,
/// and neither in one row nor in all more bytes than `usize::MAX`.
pub open spec fn fits(img_width: u32, img_height: u32) -> bool {
    3 * img_width <= usize::MAX && 3 * img_width * img_height <= usize::MAX
}

/// Whether a place lies in a picture of the given size.
pub open spec fn inside(place: (u32, u32), size: (u32, u32)) -> bool {
    place.0 < size.0 && place.1 < size.1
}

impl Picture {
    /// `ImageBuffer::new` of the `image` crate: a picture of the given size
    /// whose pixels are all black. That function panics where the bytes of
    /// a row or of the picture are more than `usize::MAX`; such sizes are
    /// left out.
    #[verifier::external_body]
    fn blank(img_width: u32, img_height: u32) -> (picture: Picture)
        requires
            fits(img_width, img_height),
        ensures
            size_of(picture) == (img_width, img_height),
            forall|place: (u32, u32)|
                pixels_of(picture).dom().contains(place) <==> inside(place, (img_width, img_height)),
            forall|place: (u32, u32)|
                inside(place, (img_width, img_height)) ==> #[trigger] pixels_of(picture)[place] == (
                    0u8,
                    0u8,
                    0u8,
                ),
    {
        Picture { image: image::RgbImage::new(img_width, img_height) }
    }

    /// `ImageBuffer::put_pixel` of the `image` crate: the pixel in the given
    /// column and row takes the given colour, and no other pixel changes.
    /// That function panics outside the picture; such places are left out.
    #[verifier::external_body]
    fn put_pixel(&mut self, x: u32, row: u32, rgb: (u8, u8, u8))
        requires
            inside((x, row), size_of(*old(self))),
        ensures
            size_of(*final(self)) == size_of(*old(self)),
            pixels_of(*final(self)) == pixels_of(*old(self)).insert((x, row), rgb),
    {
        self.image.put_pixel(x, row, image::Rgb([rgb.0, rgb.1, rgb.2]))
    }

    /// Whether a picture of this size can be held.
    pub fn can_hold(img_width: u32, img_height: u32) -> (r: bool)
        ensures
            r == fits(img_width, img_height),
    {
        assert(3 * img_width * img_height <= 3 * 0x1_0000_0000 * 0x1_0000_0000) by (nonlinear_arith)
            requires
                0 <= img_width < 0x1_0000_0000,
                0 <= img_height < 0x1_0000_0000,
        ;
        assert(3 * img_width <= 3 * 0x1_0000_0000);
        let row_bytes: u128 = 3 * (img_width as u128);
        let bytes: u128 = row_bytes * (img_height as u128);
        row_bytes <= usize::MAX as u128 && bytes <= usize::MAX as u128
    }

    /// Renders a picture: every pixel, row by row from the top and from left
    /// to right in each row, gets the colour that `shade` finds for its
    /// column and for the row as the camera counts it, from the bottom up.
    /// Before a pixel is shaded, `report` is told by how many percent the
    /// work has advanced, whenever that is by one percent or more; no step
    /// that it is told is above 100.
    pub fn render<F, G>(img_width: u32, img_height: u32, shade: F, report: G) -> (picture: Picture)
        where 
            F: Fn(u32, u32) -> (u8, u8, u8),
            G: Fn(i32),
        requires
            fits(img_width, img_height),
            forall|x: u32, y: u32| x < img_width && y < img_height ==> shade.requires((x, y)),
            forall|step: i32| 1 <= step <= 100 ==> report.requires((step,)),
        ensures
            size_of(picture) == (img_width, img_height),
            forall|place: (u32, u32)|
                pixels_of(picture).dom().contains(place) <==> inside(place, (img_width, img_height)),
            forall|x: u32, row: u32|
                x < img_width && row < img_height ==> shade.ensures(
                    (x, flipped(img_height, row) as u32),
                    #[trigger] pixels_of(picture)[(x, row)],
                ),
    {
        let mut picture = Picture::blank(img_width, img_height);
        let mut progress = Progress::new();
        let mut row: u32 = 0;
        proof {
            if 0 < img_height {
                percent_is_in_range(img_height, flipped(img_height, 0) as u32);
            }
        }
        while row < img_height
            invariant
                row <= img_height,
                size_of(picture) == (img_width, img_height),
                forall|place: (u32, u32)|
                    pixels_of(picture).dom().contains(place) <==> inside(
                        place,
                        (img_width, img_height),
                    ),
                progress.well_formed(),
                forall|x: u32, y: u32| x < img_width && y < img_height ==> shade.requires((x, y)),
                forall|step: i32| 1 <= step <= 100 ==> report.requires((step,)),
                row < img_height ==> progress.prev_percent <= percent_at(
                    img_height,
                    flipped(img_height, row) as u32,
                ),
                forall|x: u32, r: u32|
                    x < img_width && r < row ==> shade.ensures(
                        (x, flipped(img_height, r) as u32),
                        #[trigger] pixels_of(picture)[(x, r)],
                    ),
            decreases img_height - row,
        {
            let mut x: u32 = 0;
            while x < img_width
                invariant
                    row < img_height,
                    x <= img_width,
                    size_of(picture) == (img_width, img_height),
                    forall|place: (u32, u32)|
                        pixels_of(picture).dom().contains(place) <==> inside(
                            place,
                            (img_width, img_height),
                        ),
                    progress.well_formed(),
                    forall|x: u32, y: u32|
                        x < img_width && y < img_height ==> shade.requires((x, y)),
                    forall|step: i32| 1 <= step <= 100 ==> report.requires((step,)),
                    progress.prev_percent <= percent_at(img_height, flipped(img_height, row) as u32),
                    forall|c: u32, r: u32|
                        c < img_width && r < row ==> shade.ensures(
                            (c, flipped(img_height, r) as u32),
                            #[trigger] pixels_of(picture)[(c, r)],
                        ),
                    forall|c: u32|
                        c < x ==> shade.ensures(
                            (c, flipped(img_height, row) as u32),
                            #[trigger] pixels_of(picture)[(c, row)],
                        ),
                decreases img_width - x,
            {
                let y = flip_row(img_height, row);
                proof {
                    percent_is_in_range(img_height, y);
                }
                match progress.row_started(img_height, row) {
                    Some(step) => {
                        report(step);
                    },
                    None => {},
                }
                let rgb = shade(x, y);
                picture.put_pixel(x, row, rgb);
                x = x + 1;
            }
            proof {
                if row + 1 < img_height {
                    percent_never_falls(img_height, row, (row + 1) as u32);
                }
            }
            row = row + 1;
        }
        picture
    }
}

} // verus!

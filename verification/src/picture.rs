use vstd::prelude::*;
use image::GenericImage;
use crate::scene::{Scene, grid_place, lemma_index_in_grid};

verus! {

/// `image::DynamicImage`, an image of any sample kind. Nothing is known of
/// its inside but what the three names below say of it.
#[verifier::external_type_specification]
#[verifier::external_body]
pub struct ExDynamicImage(image::DynamicImage);

/// Width and height of an image, in pixels.
pub uninterp spec fn image_dimensions(img: image::DynamicImage) -> (int, int);

/// The red, green and blue samples that an image holds at each place
/// (column, row).
pub uninterp spec fn image_pixels(img: image::DynamicImage) -> Map<(int, int), (u8, u8, u8)>;

/// The image stores three 8-bit samples for each pixel.
pub uninterp spec fn image_is_rgb8(img: image::DynamicImage) -> bool;

/// The samples that an image holds at (x, y), if the place lies inside it.
pub open spec fn pixel_at(img: image::DynamicImage, x: int, y: int) -> Option<(u8, u8, u8)> {
    if image_pixels(img).dom().contains((x, y)) {
        Some(image_pixels(img)[(x, y)])
    } else {
        None
    }
}

/// A colour as it is stored: one byte for each channel.
#[derive(Clone, Copy, Debug, PartialEq, Eq, Structural)]
pub struct Rgb {
    pub red: u8,
    pub green: u8,
    pub blue: u8,
}

/// The samples shown for a pixel: those of its colour, or black where the
/// pixel's ray met no surface.
pub open spec fn shown(colour: Option<Rgb>) -> (u8, u8, u8) {
    match colour {
        None => (0u8, 0u8, 0u8),
        Some(c) => (c.red, c.green, c.blue),
    }
}

/// `image::DynamicImage::new_rgb8`: a new image of the given size that
/// stores three 8-bit samples for each pixel, all of them zero. The call
/// panics where the number of samples of one row does not fit in `usize`,
/// or where that of all rows is more than a vector can hold (`isize::MAX`
/// bytes), which the precondition leaves out.
#[verifier::external_body]
fn new_rgb8(width: u32, height: u32) -> (img: image::DynamicImage)
    requires
        3 * width <= usize::MAX,
        3 * width * height <= isize::MAX,
    ensures
        image_is_rgb8(img),
        image_dimensions(img) == (width as int, height as int),
        forall|x: int, y: int|
            0 <= x < width && 0 <= y < height ==> #[trigger] pixel_at(img, x, y) == Some((0u8, 0u8, 0u8)),
{
    image::DynamicImage::new_rgb8(width, height)
}

/// `image::GenericImage::put_pixel` on an `image::DynamicImage` that stores
/// three 8-bit samples for each pixel, with an `image::Rgba` pixel made of
/// the four bytes: the red, green and blue bytes replace the samples at
/// (x, y), the alpha byte is dropped, and nothing else changes. The call
/// panics for a place outside the image, which the precondition leaves out.
#[verifier::external_body]
fn put_pixel(img: &mut image::DynamicImage, x: u32, y: u32, red: u8, green: u8, blue: u8, alpha: u8)
    requires
        image_is_rgb8(*old(img)),
        x < image_dimensions(*old(img)).0,
        y < image_dimensions(*old(img)).1,
    ensures
        image_is_rgb8(*final(img)),
        image_dimensions(*final(img)) == image_dimensions(*old(img)),
        image_pixels(*final(img)) == image_pixels(*old(img)).insert(
            (x as int, y as int),
            (red, green, blue),
        ),
{
    img.put_pixel(x, y, image::Rgba([red, green, blue, alpha]));
}

/// Assembles the picture of a scene from the colour found for each pixel.
/// `colours` is laid out column by column: the colour of pixel (x, y) stands
/// at `x * height + y`, and is `None` where the pixel's ray met no surface.
/// The samples of one row must fit in `usize`, those of the whole picture in
/// `isize`.
pub fn render(scene: &Scene, colours: &Vec<Option<Rgb>>) -> (img: image::DynamicImage)
    requires
        scene.wf(),
        colours@.len() == scene.width * scene.height,
        3 * scene.width <= usize::MAX,
        3 * scene.width * scene.height <= isize::MAX,
    ensures
        image_is_rgb8(img),
        image_dimensions(img) == (scene.width as int, scene.height as int),
        forall|x: int, y: int|
            0 <= x < scene.width && 0 <= y < scene.height ==> #[trigger] pixel_at(img, x, y) == Some(shown(colours@[grid_place(scene.height as int, x, y)])),
{
    let width: u32 = scene.width;
    let height: u32 = scene.height;
    let total: usize = colours.len();
    let mut img = new_rgb8(width, height);
    let mut x: u32 = 0;
    while x < width
        invariant
            x <= width,
            width == scene.width,
            height == scene.height,
            colours@.len() == width * height,
            colours@.len() == total,
            image_is_rgb8(img),
            image_dimensions(img) == (width as int, height as int),
            forall|a: int, b: int|
                0 <= a < x && 0 <= b < height ==> #[trigger] pixel_at(img, a, b) == Some(shown(colours@[grid_place(height as int, a, b)])),
        decreases width - x,
    {
        let mut y: u32 = 0;
        while y < height
            invariant
                x < width,
                y <= height,
                colours@.len() == width * height,
                colours@.len() == total,
                image_is_rgb8(img),
                image_dimensions(img) == (width as int, height as int),
                forall|a: int, b: int|
                    0 <= a < x && 0 <= b < height ==> #[trigger] pixel_at(img, a, b) == Some(shown(colours@[grid_place(height as int, a, b)])),
                forall|b: int|
                    0 <= b < y ==> #[trigger] pixel_at(img, x as int, b) == Some(shown(colours@[grid_place(height as int, x as int, b)])),
            decreases height - y,
        {
            proof {
                lemma_index_in_grid(width as int, height as int, x as int, y as int);
                assert(x * height >= 0) by (nonlinear_arith)
                    requires
                        x >= 0,
                        height >= 0,
                ;
            }
            let column: usize = (x as usize) * (height as usize);
            let place: usize = column + (y as usize);
            let ghost prior = img;
            match colours[place] {
                Some(colour) => put_pixel(&mut img, x, y, colour.red, colour.green, colour.blue, 0),
                None => put_pixel(&mut img, x, y, 0, 0, 0, 255),
            }
            proof {
                assert(pixel_at(img, x as int, y as int) == Some(shown(colours@[place as int])));
                assert forall|a: int, b: int| (a, b) != (x as int, y as int) implies #[trigger] pixel_at(img, a, b)
                    == pixel_at(prior, a, b) by {}
            }
            y = y + 1;
        }
        x = x + 1;
    }
    img
}

} // verus!

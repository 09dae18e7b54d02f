//! Rasterizing the vector mascot into an image: parsing the SVG, rendering
//! it to a pixel buffer, and converting the buffer to an RGBA image.
use resvg::tiny_skia::Pixmap;
use resvg::tiny_skia::PremultipliedColorU8;
use resvg::usvg;
use vstd::prelude::*;

verus! {

#[verifier::external_type_specification]
#[verifier::external_body]
pub struct ExUsvgTree(usvg::Tree);

#[verifier::external_type_specification]
#[verifier::external_body]
pub struct ExPixmap(Pixmap);

#[verifier::external_type_specification]
#[verifier::external_body]
pub struct ExPremultipliedColorU8(PremultipliedColorU8);

#[verifier::external_type_specification]
#[verifier::external_body]
pub struct ExDynamicImage(image::DynamicImage);

/// Why the raster path gave up; every case falls back to the text path.
#[derive(Clone, Copy, PartialEq, Eq, Structural, Debug)]
pub enum RenderError {
    /// The vector asset did not parse.
    SvgParse,
    /// The pixel buffer could not be allocated.
    PixmapAlloc,
}

/// Whether `usvg` parses these bytes as an SVG document (under the fixed
/// default options): a function of the bytes alone.
pub uninterp spec fn svg_parse_ok(data: Seq<u8>) -> bool;

/// The parsed document's intrinsic size in whole pixels, each dimension
/// floored at one: a function of the bytes alone.
pub uninterp spec fn svg_intrinsic_size(data: Seq<u8>) -> (u32, u32);

/// A pixmap's stored width and height.
pub uninterp spec fn pixmap_size_of(p: Pixmap) -> (u32, u32);

/// An image's width and height.
pub uninterp spec fn image_dims_of(img: image::DynamicImage) -> (u32, u32);

/// Whether `tiny_skia` can allocate a pixmap of this size: both dimensions
/// nonzero, a row of at most `i32::MAX` bytes, and a byte total that fits a
/// `usize`.
pub open spec fn pixmap_allocatable(width: u32, height: u32) -> bool {
    &&& 1 <= width
    &&& 1 <= height
    &&& 4 * (width as int) <= 0x7fffffff
    &&& 4 * (width as int) * (height as int) <= usize::MAX as int
}

/// Relies on `usvg::Tree::from_data` with `usvg::Options::default()`, then
/// `usvg::Tree::size` and `Size::to_int_size`: parsing succeeds or fails on
/// the bytes alone; a parsed tree's size is finite and positive, and the
/// integer conversion floors it at one pixel in each direction.
#[verifier::external_body]
fn svg_tree_with_size(data: &[u8]) -> (r: Option<(usvg::Tree, u32, u32)>)
    ensures
        r is Some <==> svg_parse_ok(data@),
        r matches Some(t) ==> (t.1, t.2) == svg_intrinsic_size(data@) && t.1 >= 1 && t.2 >= 1,
{
    let tree = usvg::Tree::from_data(data, &usvg::Options::default()).ok()?;
    let size = tree.size().to_int_size();
    Some((tree, size.width(), size.height()))
}

/// Relies on `tiny_skia::Pixmap::new`: allocates a transparent pixel buffer
/// of exactly the asked size; it fails precisely on a zero dimension, a row
/// wider than `i32::MAX` bytes, or a byte total beyond `usize`.
#[verifier::external_body]
fn new_pixmap(width: u32, height: u32) -> (r: Option<Pixmap>)
    ensures
        r is Some <==> pixmap_allocatable(width, height),
        r matches Some(p) ==> pixmap_size_of(p) == (width, height),
{
    Pixmap::new(width, height)
}

/// Relies on `resvg::render`: draws the tree over the pixmap's pixels with
/// the identity transform; the pixmap keeps its dimensions.
#[verifier::external_body]
fn render_tree_into(tree: &usvg::Tree, pixmap: &mut Pixmap)
    ensures
        pixmap_size_of(*final(pixmap)) == pixmap_size_of(*old(pixmap)),
{
    resvg::render(tree, resvg::tiny_skia::Transform::default(), &mut pixmap.as_mut());
}

/// Relies on `Pixmap::width`, `Pixmap::height` and `Pixmap::pixels`: a pixmap
/// holds exactly `width * height` pixels, four bytes each, in one allocation
/// (so `width * height * 4` fits a `usize`).
#[verifier::external_body]
fn pixmap_parts<'a>(pixmap: &'a Pixmap) -> (r: (u32, u32, &'a [PremultipliedColorU8]))
    ensures
        (r.0, r.1) == pixmap_size_of(*pixmap),
        r.2@.len() == r.0 as int * r.1 as int,
        r.0 as int * r.1 as int * 4 <= usize::MAX as int,
{
    (pixmap.width(), pixmap.height(), pixmap.pixels())
}

/// Relies on `PremultipliedColorU8::demultiply` and the `ColorU8` accessors:
/// yields the pixel's straight-alpha channels in RGBA order. The channel
/// arithmetic is a pure function of the pixel, but it is not restated here:
/// nothing downstream depends on the channel values.
#[verifier::external_body]
fn demultiplied_rgba(pixel: &PremultipliedColorU8) -> (u8, u8, u8, u8) {
    let c = pixel.demultiply();
    (c.red(), c.green(), c.blue(), c.alpha())
}

/// Relies on `image::RgbaImage::from_raw` and `DynamicImage::ImageRgba8`:
/// builds an RGBA image over the buffer, which succeeds whenever the buffer
/// covers `width * height` four-byte pixels; the image then has exactly the
/// asked dimensions.
#[verifier::external_body]
fn rgba_image_from_raw(width: u32, height: u32, data: Vec<u8>) -> (r: Option<image::DynamicImage>)
    ensures
        4 * (width as int) * (height as int) <= data@.len() ==> r is Some,
        r matches Some(img) ==> image_dims_of(img) == (width, height),
{
    image::RgbaImage::from_raw(width, height, data).map(image::DynamicImage::ImageRgba8)
}

/// Converts a rendered pixmap into an RGBA image of the same dimensions,
/// pixel by pixel. The buffer it builds always covers the pixmap exactly, so
/// the conversion cannot fail.
pub fn pixmap_to_image(pixmap: &Pixmap) -> (r: image::DynamicImage)
    ensures
        image_dims_of(r) == pixmap_size_of(*pixmap),
{
    let parts = pixmap_parts(pixmap);
    let width = parts.0;
    let height = parts.1;
    let pixels = parts.2;
    let n: usize = pixels.len();
    let mut raw: Vec<u8> = Vec::new();
    let mut i: usize = 0;
    while i < n
        invariant
            n == pixels@.len(),
            i <= n,
            raw@.len() == 4 * i,
        decreases n - i,
    {
        let channels = demultiplied_rgba(&pixels[i]);
        raw.push(channels.0);
        raw.push(channels.1);
        raw.push(channels.2);
        raw.push(channels.3);
        i = i + 1;
    }
    proof {
        assert(raw@.len() == 4 * (width as int * height as int));
        assert(4 * (width as int) * (height as int) == 4 * (width as int * height as int))
            by (nonlinear_arith);
    }
    match rgba_image_from_raw(width, height, raw) {
        Some(img) => img,
        None => vstd::pervasive::unreached(),
    }
}

/// Rasterizes the vector mascot: parse, size, allocate, render, convert.
/// It fails exactly when the bytes do not parse or the intrinsic size cannot
/// be allocated — never with a panic — and on success the image has the
/// document's intrinsic pixel size.
pub fn render_ferris(svg_data: &[u8]) -> (r: Result<image::DynamicImage, RenderError>)
    ensures
        (r matches Err(e) && e == RenderError::SvgParse) <==> !svg_parse_ok(svg_data@),
        (r matches Err(e) && e == RenderError::PixmapAlloc) <==> (svg_parse_ok(svg_data@)
            && !pixmap_allocatable(
            svg_intrinsic_size(svg_data@).0,
            svg_intrinsic_size(svg_data@).1,
        )),
        r is Ok <==> (svg_parse_ok(svg_data@) && pixmap_allocatable(
            svg_intrinsic_size(svg_data@).0,
            svg_intrinsic_size(svg_data@).1,
        )),
        r matches Ok(img) ==> image_dims_of(img) == svg_intrinsic_size(svg_data@),
{
    let parsed = match svg_tree_with_size(svg_data) {
        Some(t) => t,
        None => {
            return Err(RenderError::SvgParse);
        },
    };
    let tree = parsed.0;
    let mut pixmap = match new_pixmap(parsed.1, parsed.2) {
        Some(p) => p,
        None => {
            return Err(RenderError::PixmapAlloc);
        },
    };
    render_tree_into(&tree, &mut pixmap);
    Ok(pixmap_to_image(&pixmap))
}

} // verus!

use ferrisfetch::raster::render_ferris;
use ferrisfetch::raster::RenderError;
use image::GenericImageView;

#[test]
fn malformed_svg_is_a_parse_error() {
    let r = render_ferris(b"this is not an svg");
    assert_eq!(r.err(), Some(RenderError::SvgParse));
}

#[test]
fn oversized_svg_fails_pixmap_allocation() {
    // A pixmap row is limited to i32::MAX bytes, so this width cannot be
    // allocated and the raster path reports it before rendering anything.
    let svg = "<svg xmlns='http://www.w3.org/2000/svg' width='600000000' height='1'></svg>";
    let r = render_ferris(svg.as_bytes());
    assert_eq!(r.err(), Some(RenderError::PixmapAlloc));
}

#[test]
fn small_svg_rasterizes_to_its_pixel_size() {
    let svg = "<svg xmlns='http://www.w3.org/2000/svg' width='12' height='9'>\
               <rect width='12' height='9' fill='red'/></svg>";
    let img = render_ferris(svg.as_bytes()).unwrap();
    assert_eq!(img.dimensions(), (12, 9));
    // The rendered rectangle is opaque red, so the buffer is not left blank.
    let pixel = img.to_rgba8().get_pixel(5, 5).0;
    assert_eq!(pixel[0], 255);
    assert_eq!(pixel[3], 255);
}

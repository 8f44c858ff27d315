use resvg_wrapper::options::{RenderError, RenderOptions};
use resvg_wrapper::render::render_svg_to_png_with_options;

const SVG_100X50: &str =
    "<svg xmlns='http://www.w3.org/2000/svg' width='100' height='50'><rect width='100' height='50' fill='blue'/></svg>";

fn quiet_options() -> RenderOptions {
    RenderOptions { skip_system_fonts: true, ..RenderOptions::default() }
}

fn png_dimensions(png: &[u8]) -> (u32, u32) {
    // The PNG signature is eight bytes; the IHDR chunk follows with a
    // four-byte length and four-byte type, so width and height sit at
    // offsets 16 and 20, big-endian.
    assert!(png.len() >= 24);
    assert_eq!(&png[0..8], &[0x89, b'P', b'N', b'G', 0x0d, 0x0a, 0x1a, 0x0a]);
    let w = u32::from_be_bytes([png[16], png[17], png[18], png[19]]);
    let h = u32::from_be_bytes([png[20], png[21], png[22], png[23]]);
    (w, h)
}

#[test]
fn width_only_renders_at_aspect_scaled_size() {
    let opts = RenderOptions { width: 200, ..quiet_options() };
    let png = render_svg_to_png_with_options(SVG_100X50, &opts).unwrap();
    assert_eq!(png_dimensions(&png), (200, 100));
}

#[test]
fn no_directive_renders_at_intrinsic_size() {
    let png = render_svg_to_png_with_options(SVG_100X50, &quiet_options()).unwrap();
    assert_eq!(png_dimensions(&png), (100, 50));
}

#[test]
fn explicit_width_and_height_stretch_the_document() {
    let opts = RenderOptions { width: 300, height: 400, ..quiet_options() };
    let png = render_svg_to_png_with_options(SVG_100X50, &opts).unwrap();
    assert_eq!(png_dimensions(&png), (300, 400));
}

#[test]
fn height_only_renders_at_aspect_scaled_size() {
    let opts = RenderOptions { height: 100, ..quiet_options() };
    let png = render_svg_to_png_with_options(SVG_100X50, &opts).unwrap();
    assert_eq!(png_dimensions(&png), (200, 100));
}

#[test]
fn zoom_renders_scaled_and_ignores_requests() {
    let opts = RenderOptions { zoom_micros: 2_000_000, width: 7, height: 9, ..quiet_options() };
    let png = render_svg_to_png_with_options(SVG_100X50, &opts).unwrap();
    assert_eq!(png_dimensions(&png), (200, 100));
}

#[test]
fn oversized_width_request_is_clamped() {
    let opts = RenderOptions { width: 999_999, height: 1, ..quiet_options() };
    let png = render_svg_to_png_with_options(SVG_100X50, &opts).unwrap();
    assert_eq!(png_dimensions(&png), (16384, 1));
}

#[test]
fn unparseable_document_reports_parse_error() {
    let r = render_svg_to_png_with_options("this is not an svg document", &quiet_options());
    assert_eq!(r.unwrap_err(), RenderError::ParseError);
}

#[test]
fn empty_document_reports_parse_error() {
    let r = render_svg_to_png_with_options("", &quiet_options());
    assert_eq!(r.unwrap_err(), RenderError::ParseError);
}

#[test]
fn missing_font_file_is_absorbed() {
    let opts = RenderOptions {
        font_file: Some(String::from("/nonexistent/path/to/font.ttf")),
        ..RenderOptions::default()
    };
    let png = render_svg_to_png_with_options(SVG_100X50, &opts).unwrap();
    assert_eq!(png_dimensions(&png), (100, 50));
}

#[test]
fn background_fill_changes_the_output() {
    let svg = "<svg xmlns='http://www.w3.org/2000/svg' width='20' height='10'></svg>";
    let plain = render_svg_to_png_with_options(svg, &quiet_options()).unwrap();
    let filled = render_svg_to_png_with_options(
        svg,
        &RenderOptions { background: Some(String::from("white")), ..quiet_options() },
    )
    .unwrap();
    assert_eq!(png_dimensions(&plain), (20, 10));
    assert_eq!(png_dimensions(&filled), (20, 10));
    assert_ne!(plain, filled);
}

#[test]
fn unparseable_background_is_ignored() {
    let opts =
        RenderOptions { background: Some(String::from("not-a-color")), ..quiet_options() };
    let png = render_svg_to_png_with_options(SVG_100X50, &opts).unwrap();
    assert_eq!(png_dimensions(&png), (100, 50));
}

#[test]
fn in_memory_font_blob_is_accepted() {
    // A malformed blob is simply ignored by the font database; the call
    // still succeeds.
    let opts = RenderOptions { fonts: vec![vec![0u8; 16]], ..quiet_options() };
    let png = render_svg_to_png_with_options(SVG_100X50, &opts).unwrap();
    assert_eq!(png_dimensions(&png), (100, 50));
}

#[test]
fn status_codes_match_the_taxonomy() {
    assert_eq!(RenderError::ParseError.status_code(), 1);
    assert_eq!(RenderError::EncodeError.status_code(), 2);
    assert_eq!(RenderError::InvalidArgument.status_code(), 4);
    assert_eq!(RenderError::AllocationError.status_code(), 4);
}

#[test]
fn default_options_have_no_directive() {
    let opts = RenderOptions::default();
    assert_eq!(opts.width, 0);
    assert_eq!(opts.height, 0);
    assert_eq!(opts.zoom_micros, 0);
    assert_eq!(opts.dpi, 0);
    assert!(!opts.skip_system_fonts);
    assert!(opts.background.is_none());
    assert!(opts.fonts.is_empty());
    assert!(opts.font_file.is_none());
    assert!(opts.font_dir.is_none());
}

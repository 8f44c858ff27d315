//! The per-call options record and the error taxonomy of the render
//! entry point.

use vstd::prelude::*;

verus! {

/// The directives of one render call. Every field is read-only for the
/// duration of the call; an absent directive is `None`, or zero for the
/// numeric sizing fields.
///
/// `zoom_micros` carries the zoom factor in fixed point, in millionths
/// (`1_000_000` meaning a zoom of one); zero means no zoom. `width`,
/// `height` and `dpi` take effect only when strictly positive. The
/// `export_id`, `export_area_page` and `export_area_drawing` selectors
/// are accepted but not consulted here.
pub struct RenderOptions {
    pub width: i32,
    pub height: i32,
    pub zoom_micros: u64,
    pub dpi: i32,
    pub skip_system_fonts: bool,
    pub background: Option<String>,
    pub export_id: Option<String>,
    pub export_area_page: bool,
    pub export_area_drawing: bool,
    pub resources_dir: Option<String>,
    pub fonts: Vec<Vec<u8>>,
    pub font_file: Option<String>,
    pub font_dir: Option<String>,
    pub serif_family: Option<String>,
    pub sans_serif_family: Option<String>,
    pub cursive_family: Option<String>,
    pub fantasy_family: Option<String>,
    pub monospace_family: Option<String>,
}

impl Default for RenderOptions {
    /// Options with no directive set: intrinsic size, default DPI, system
    /// fonts loaded, no extra font source, no background, no overrides.
    fn default() -> (r: Self)
        ensures
            r.width == 0,
            r.height == 0,
            r.zoom_micros == 0,
            r.dpi == 0,
            !r.skip_system_fonts,
            r.background is None,
            r.export_id is None,
            !r.export_area_page,
            !r.export_area_drawing,
            r.resources_dir is None,
            r.fonts@ =~= Seq::<Vec<u8>>::empty(),
            r.font_file is None,
            r.font_dir is None,
            r.serif_family is None,
            r.sans_serif_family is None,
            r.cursive_family is None,
            r.fantasy_family is None,
            r.monospace_family is None,
    {
        RenderOptions {
            width: 0,
            height: 0,
            zoom_micros: 0,
            dpi: 0,
            skip_system_fonts: false,
            background: None,
            export_id: None,
            export_area_page: false,
            export_area_drawing: false,
            resources_dir: None,
            fonts: Vec::new(),
            font_file: None,
            font_dir: None,
            serif_family: None,
            sans_serif_family: None,
            cursive_family: None,
            fantasy_family: None,
            monospace_family: None,
        }
    }
}

/// Why a render call failed. Font-loading failures are never reported:
/// they are absorbed by design, and the call renders with whatever fonts
/// did load.
#[derive(PartialEq, Eq, Structural, Clone, Copy, Debug)]
pub enum RenderError {
    /// A required pointer was absent at the foreign boundary. The
    /// library's own render function never produces it.
    InvalidArgument,
    /// The SVG source is not valid text, or the document failed to parse.
    ParseError,
    /// The raster could not be encoded as PNG.
    EncodeError,
    /// The handoff buffer could not be allocated. The library's own
    /// render function never produces it: the clamped raster size always
    /// admits a raster, so only the foreign boundary's allocation can
    /// fail.
    AllocationError,
}

/// The numeric status code of each error: parse failures report 1,
/// encode failures 2, and both invalid arguments and allocation
/// failures 4.
pub open spec fn spec_status_code(e: RenderError) -> int {
    match e {
        RenderError::InvalidArgument => 4,
        RenderError::ParseError => 1,
        RenderError::EncodeError => 2,
        RenderError::AllocationError => 4,
    }
}

impl RenderError {
    /// The status code reported across the foreign boundary for this
    /// error; a successful call reports 0.
    pub fn status_code(&self) -> (c: i32)
        ensures
            c == spec_status_code(*self),
    {
        match self {
            RenderError::InvalidArgument => 4,
            RenderError::ParseError => 1,
            RenderError::EncodeError => 2,
            RenderError::AllocationError => 4,
        }
    }
}

} // verus!

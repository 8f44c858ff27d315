//! The render pipeline: build the per-call font database, parse the SVG
//! text, resolve the raster size, fill the optional background, render,
//! and encode to PNG.

use vstd::prelude::*;
use resvg::usvg::fontdb::Database;
use resvg::usvg::Tree;
use crate::backend;
use crate::backend::{
    data_faces, db_cursive_family, db_faces, db_fantasy_family, db_monospace_family,
    db_sans_serif_family, db_serif_family, tree_height_px, tree_width_px,
};
use crate::color::{parse_color, spec_parse_color, Rgba8};
use crate::dims::{resolve_dimensions, spec_resolve_dimensions};
use crate::options::{RenderError, RenderOptions};
use crate::png_header::{spec_png_height, spec_png_width};

verus! {

/// The background fill a set of options asks for: the parsed color of
/// the background string, and no fill when the string is absent or does
/// not parse.
pub open spec fn spec_background_color(background: Option<String>) -> Option<Rgba8> {
    match background {
        Some(s) => spec_parse_color(s@),
        None => None,
    }
}

/// The background fill for this call, exactly as `spec_background_color`
/// states it: an absent or unparseable background string means no fill,
/// never an error.
pub fn background_color(background: &Option<String>) -> (r: Option<Rgba8>)
    ensures
        r == spec_background_color(*background),
{
    match background {
        Some(s) => parse_color(s.as_str()),
        None => None,
    }
}

/// The DPI override handed to the parser: absent unless the requested
/// DPI is strictly positive, and saturated at 65535, which the
/// representation handed across the trusted boundary forces.
pub open spec fn spec_dpi_override(dpi: int) -> Option<u16> {
    if dpi <= 0 {
        None
    } else if dpi > 65535 {
        Some(65535u16)
    } else {
        Some(dpi as u16)
    }
}

/// Computes the DPI override, exactly as `spec_dpi_override` states it.
pub fn dpi_override(dpi: i32) -> (r: Option<u16>)
    ensures
        r == spec_dpi_override(dpi as int),
{
    if dpi <= 0 {
        None
    } else if dpi > 65535 {
        Some(65535)
    } else {
        Some(dpi as u16)
    }
}

/// The intrinsic document size in whole pixels, floored to one pixel per
/// axis so that the aspect arithmetic of the sizing policy can divide
/// by it.
pub fn intrinsic_size_px(tree: &Tree) -> (r: (u32, u32))
    ensures
        r.0 == if tree_width_px(*tree) < 1 {
            1int
        } else {
            tree_width_px(*tree)
        },
        r.1 == if tree_height_px(*tree) < 1 {
            1int
        } else {
            tree_height_px(*tree)
        },
        r.0 >= 1,
        r.1 >= 1,
{
    let (w, h) = backend::tree_size_px(tree);
    (
        if w == 0 {
            1
        } else {
            w
        },
        if h == 0 {
            1
        } else {
            h
        },
    )
}

/// `faces` decomposes as the system-font part, then the in-memory blob
/// part, then the font-file-and-directory part, in that order.
pub open spec fn blob_split(faces: Seq<int>, sys: Seq<int>, blobs: Seq<int>, extra: Seq<int>) -> bool {
    faces == sys + blobs + extra
}

/// The faces that a sequence of in-memory font blobs yields, in the
/// given order.
pub open spec fn blobs_faces(fonts: Seq<Vec<u8>>) -> Seq<int>
    decreases fonts.len(),
{
    if fonts.len() == 0 {
        Seq::empty()
    } else {
        blobs_faces(fonts.drop_last()) + data_faces(fonts.last()@)
    }
}

/// Builds the font database for one call: system fonts unless opted out,
/// then each in-memory font blob in the given order, then the optional
/// font file and font directory (their failures absorbed), and the five
/// generic-family overrides last, since they name families the earlier
/// steps may have loaded.
///
/// The contract states what holds whatever this machine's fonts and
/// disks yield: the database's faces are the system fonts' (none when
/// opted out), then every supplied blob's in order, then the file's and
/// the directory's (none when neither is given); and each present
/// generic-family override is applied, each absent one left alone.
pub fn build_font_db(opts: &RenderOptions) -> (db: Database)
    ensures
        exists|sys: Seq<int>, extra: Seq<int>|
            {
                &&& #[trigger] blob_split(db_faces(db), sys, blobs_faces(opts.fonts@), extra)
                &&& (opts.skip_system_fonts ==> sys == Seq::<int>::empty())
                &&& (opts.font_file is None && opts.font_dir is None ==> extra
                    == Seq::<int>::empty())
            },
        opts.serif_family matches Some(f) ==> db_serif_family(db) == f@,
        opts.sans_serif_family matches Some(f) ==> db_sans_serif_family(db) == f@,
        opts.cursive_family matches Some(f) ==> db_cursive_family(db) == f@,
        opts.fantasy_family matches Some(f) ==> db_fantasy_family(db) == f@,
        opts.monospace_family matches Some(f) ==> db_monospace_family(db) == f@,
{
    let mut db = backend::database_new();
    if !opts.skip_system_fonts {
        backend::database_load_system_fonts(&mut db);
    }
    let ghost sys: Seq<int> = db_faces(db);
    let mut i: usize = 0;
    while i < opts.fonts.len()
        invariant
            i <= opts.fonts.len(),
            db_faces(db) == sys + blobs_faces(opts.fonts@.subrange(0, i as int)),
            opts.skip_system_fonts ==> sys == Seq::<int>::empty(),
        decreases opts.fonts.len() - i,
    {
        backend::database_load_font_data(&mut db, &opts.fonts[i]);
        proof {
            let done = opts.fonts@.subrange(0, i + 1);
            assert(done.drop_last() =~= opts.fonts@.subrange(0, i as int));
            assert(db_faces(db) =~= sys + blobs_faces(done));
        }
        i = i + 1;
    }
    proof {
        assert(opts.fonts@.subrange(0, opts.fonts@.len() as int) =~= opts.fonts@);
    }
    let ghost base: Seq<int> = db_faces(db);
    if let Some(path) = &opts.font_file {
        backend::database_load_font_file(&mut db, path.as_str());
    }
    let ghost mid: Seq<int> = db_faces(db);
    if let Some(dir) = &opts.font_dir {
        backend::database_load_fonts_dir(&mut db, dir.as_str());
    }
    let ghost extra: Seq<int> = db_faces(db).skip(base.len() as int);
    proof {
        assert(base.is_prefix_of(mid));
        assert(mid.is_prefix_of(db_faces(db)));
        assert(db_faces(db) =~= base + extra);
        if opts.font_file is None && opts.font_dir is None {
            assert(extra =~= Seq::<int>::empty());
        }
    }
    if let Some(family) = &opts.serif_family {
        backend::database_set_serif_family(&mut db, family.as_str());
    }
    if let Some(family) = &opts.sans_serif_family {
        backend::database_set_sans_serif_family(&mut db, family.as_str());
    }
    if let Some(family) = &opts.cursive_family {
        backend::database_set_cursive_family(&mut db, family.as_str());
    }
    if let Some(family) = &opts.fantasy_family {
        backend::database_set_fantasy_family(&mut db, family.as_str());
    }
    if let Some(family) = &opts.monospace_family {
        backend::database_set_monospace_family(&mut db, family.as_str());
    }
    proof {
        assert(blob_split(db_faces(db), sys, blobs_faces(opts.fonts@), extra));
    }
    db
}

/// Renders the SVG text to a PNG byte buffer under the given options.
///
/// The raster size is `resolve_dimensions` applied to the parsed
/// document's intrinsic size in whole pixels (floored to one per axis)
/// and the sizing directives; on success the returned bytes record
/// exactly that size in their PNG header. A document that fails to parse
/// reports `ParseError`; a failed PNG encoding, `EncodeError`. Since
/// each resolved axis lies in [1, 16384], the raster allocation is owed,
/// so `AllocationError` never arises here; with `InvalidArgument` it
/// belongs to the foreign boundary, which alone sees pointers and
/// allocates the handoff buffer. Whether parsing and encoding succeed is
/// the rendering library's decision, so no clause promises success.
pub fn render_svg_to_png_with_options(svg: &str, opts: &RenderOptions) -> (r: Result<
    Vec<u8>,
    RenderError,
>)
    ensures
        r matches Err(e) ==> (e == RenderError::ParseError || e == RenderError::EncodeError),
        r matches Ok(b) ==> b@.len() >= 24 && exists|iw: int, ih: int|
            iw >= 1 && ih >= 1 && #[trigger] spec_resolve_dimensions(
                iw,
                ih,
                opts.zoom_micros as int,
                opts.width as int,
                opts.height as int,
            ) == (spec_png_width(b@), spec_png_height(b@)),
{
    let db = build_font_db(opts);
    let dpi = dpi_override(opts.dpi);
    let tree = match backend::parse_tree(svg, db, dpi, opts.resources_dir.as_ref()) {
        Ok(t) => t,
        Err(()) => {
            return Err(RenderError::ParseError);
        },
    };
    let (iw, ih) = intrinsic_size_px(&tree);
    let (width, height) = resolve_dimensions(iw, ih, opts.zoom_micros, opts.width, opts.height);
    let mut pixmap = match backend::pixmap_new(width, height) {
        Some(p) => p,
        // pixmap_new owes a raster for any size in [1, 16384].
        None => unreached(),
    };
    if let Some(c) = background_color(&opts.background) {
        backend::pixmap_fill(&mut pixmap, c.r, c.g, c.b, c.a);
    }
    backend::render_tree(&tree, width, height, &mut pixmap);
    match backend::pixmap_encode_png(&pixmap) {
        Ok(buf) => {
            proof {
                assert(spec_resolve_dimensions(
                    iw as int,
                    ih as int,
                    opts.zoom_micros as int,
                    opts.width as int,
                    opts.height as int,
                ) == (spec_png_width(buf@), spec_png_height(buf@)));
            }
            Ok(buf)
        },
        Err(()) => Err(RenderError::EncodeError),
    }
}

} // verus!

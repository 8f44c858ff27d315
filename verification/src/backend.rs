//! The trusted boundary to the `resvg` rendering library: type
//! declarations for its font database, parsed tree and raster, and one
//! wrapper per library call the render pipeline makes. Everything
//! verified about rendering rests on the contracts here.

use vstd::prelude::*;
use resvg::tiny_skia::Pixmap;
use resvg::usvg::Tree;
use resvg::usvg::fontdb::Database;
use crate::png_header::{spec_png_height, spec_png_width};

verus! {

#[verifier::external_type_specification]
#[verifier::external_body]
pub struct ExDatabase(Database);

#[verifier::external_type_specification]
#[verifier::external_body]
pub struct ExTree(Tree);

#[verifier::external_type_specification]
#[verifier::external_body]
pub struct ExPixmap(Pixmap);

/// The font faces a database holds, in insertion order, each face an
/// abstract identity. The database only ever gains faces: none of the
/// calls below removes one.
pub uninterp spec fn db_faces(db: Database) -> Seq<int>;

/// The faces that one in-memory font blob yields when loaded: a function
/// of the bytes alone (a malformed blob yields none).
pub uninterp spec fn data_faces(data: Seq<u8>) -> Seq<int>;

/// The family name the serif generic resolves to.
pub uninterp spec fn db_serif_family(db: Database) -> Seq<char>;

/// The family name the sans-serif generic resolves to.
pub uninterp spec fn db_sans_serif_family(db: Database) -> Seq<char>;

/// The family name the cursive generic resolves to.
pub uninterp spec fn db_cursive_family(db: Database) -> Seq<char>;

/// The family name the fantasy generic resolves to.
pub uninterp spec fn db_fantasy_family(db: Database) -> Seq<char>;

/// The family name the monospace generic resolves to.
pub uninterp spec fn db_monospace_family(db: Database) -> Seq<char>;

/// The five generic-family mappings of `a` and `b` agree.
pub open spec fn same_families(a: Database, b: Database) -> bool {
    &&& db_serif_family(a) == db_serif_family(b)
    &&& db_sans_serif_family(a) == db_sans_serif_family(b)
    &&& db_cursive_family(a) == db_cursive_family(b)
    &&& db_fantasy_family(a) == db_fantasy_family(b)
    &&& db_monospace_family(a) == db_monospace_family(b)
}

/// The width of a raster, in pixels.
pub uninterp spec fn pix_width(p: Pixmap) -> int;

/// The height of a raster, in pixels.
pub uninterp spec fn pix_height(p: Pixmap) -> int;

/// Relies on fontdb::Database::new: a font database with no faces in it.
#[verifier::external_body]
pub(crate) fn database_new() -> (db: Database)
    ensures
        db_faces(db) == Seq::<int>::empty(),
{
    Database::new()
}

/// Relies on fontdb::Database::load_system_fonts: discovers and indexes
/// the fonts installed on this machine, and under the fontconfig feature
/// may also rewrite any of the generic-family mappings from the system's
/// aliases. What it does depends on the machine alone, so only this
/// holds of every outcome: faces are only added.
#[verifier::external_body]
pub(crate) fn database_load_system_fonts(db: &mut Database)
    ensures
        db_faces(*old(db)).is_prefix_of(db_faces(*final(db))),
{
    db.load_system_fonts();
}

/// Relies on fontdb::Database::load_font_data: appends the faces of one
/// in-memory font (or font collection) to the database; a malformed blob
/// contributes none. The family mappings are untouched.
#[verifier::external_body]
pub(crate) fn database_load_font_data(db: &mut Database, data: &Vec<u8>)
    ensures
        db_faces(*final(db)) == db_faces(*old(db)) + data_faces(data@),
        same_families(*old(db), *final(db)),
{
    db.load_font_data(data.clone());
}

/// Relies on fontdb::Database::load_font_file: appends the faces of one
/// file; a file that cannot be read or parsed leaves the database as it
/// was, and the failure is discarded here as the policy asks. What the
/// disk yields is the machine's, so only the extension itself is stated.
#[verifier::external_body]
pub(crate) fn database_load_font_file(db: &mut Database, path: &str)
    ensures
        db_faces(*old(db)).is_prefix_of(db_faces(*final(db))),
        same_families(*old(db), *final(db)),
{
    let _ = db.load_font_file(path);
}

/// Relies on fontdb::Database::load_fonts_dir: appends every font found
/// under the directory, recursively; unreadable entries are skipped by
/// the library itself.
#[verifier::external_body]
pub(crate) fn database_load_fonts_dir(db: &mut Database, dir: &str)
    ensures
        db_faces(*old(db)).is_prefix_of(db_faces(*final(db))),
        same_families(*old(db), *final(db)),
{
    db.load_fonts_dir(dir);
}

/// Relies on fontdb::Database::set_serif_family: names the family that
/// the serif generic resolves to; a plain assignment that touches
/// nothing else.
#[verifier::external_body]
pub(crate) fn database_set_serif_family(db: &mut Database, family: &str)
    ensures
        db_serif_family(*final(db)) == family@,
        db_faces(*final(db)) == db_faces(*old(db)),
        db_sans_serif_family(*final(db)) == db_sans_serif_family(*old(db)),
        db_cursive_family(*final(db)) == db_cursive_family(*old(db)),
        db_fantasy_family(*final(db)) == db_fantasy_family(*old(db)),
        db_monospace_family(*final(db)) == db_monospace_family(*old(db)),
{
    db.set_serif_family(family);
}

/// Relies on fontdb::Database::set_sans_serif_family: names the family
/// that the sans-serif generic resolves to; a plain assignment that
/// touches nothing else.
#[verifier::external_body]
pub(crate) fn database_set_sans_serif_family(db: &mut Database, family: &str)
    ensures
        db_sans_serif_family(*final(db)) == family@,
        db_faces(*final(db)) == db_faces(*old(db)),
        db_serif_family(*final(db)) == db_serif_family(*old(db)),
        db_cursive_family(*final(db)) == db_cursive_family(*old(db)),
        db_fantasy_family(*final(db)) == db_fantasy_family(*old(db)),
        db_monospace_family(*final(db)) == db_monospace_family(*old(db)),
{
    db.set_sans_serif_family(family);
}

/// Relies on fontdb::Database::set_cursive_family: names the family that
/// the cursive generic resolves to; a plain assignment that touches
/// nothing else.
#[verifier::external_body]
pub(crate) fn database_set_cursive_family(db: &mut Database, family: &str)
    ensures
        db_cursive_family(*final(db)) == family@,
        db_faces(*final(db)) == db_faces(*old(db)),
        db_serif_family(*final(db)) == db_serif_family(*old(db)),
        db_sans_serif_family(*final(db)) == db_sans_serif_family(*old(db)),
        db_fantasy_family(*final(db)) == db_fantasy_family(*old(db)),
        db_monospace_family(*final(db)) == db_monospace_family(*old(db)),
{
    db.set_cursive_family(family);
}

/// Relies on fontdb::Database::set_fantasy_family: names the family that
/// the fantasy generic resolves to; a plain assignment that touches
/// nothing else.
#[verifier::external_body]
pub(crate) fn database_set_fantasy_family(db: &mut Database, family: &str)
    ensures
        db_fantasy_family(*final(db)) == family@,
        db_faces(*final(db)) == db_faces(*old(db)),
        db_serif_family(*final(db)) == db_serif_family(*old(db)),
        db_sans_serif_family(*final(db)) == db_sans_serif_family(*old(db)),
        db_cursive_family(*final(db)) == db_cursive_family(*old(db)),
        db_monospace_family(*final(db)) == db_monospace_family(*old(db)),
{
    db.set_fantasy_family(family);
}

/// Relies on fontdb::Database::set_monospace_family: names the family
/// that the monospace generic resolves to; a plain assignment that
/// touches nothing else.
#[verifier::external_body]
pub(crate) fn database_set_monospace_family(db: &mut Database, family: &str)
    ensures
        db_monospace_family(*final(db)) == family@,
        db_faces(*final(db)) == db_faces(*old(db)),
        db_serif_family(*final(db)) == db_serif_family(*old(db)),
        db_sans_serif_family(*final(db)) == db_sans_serif_family(*old(db)),
        db_cursive_family(*final(db)) == db_cursive_family(*old(db)),
        db_fantasy_family(*final(db)) == db_fantasy_family(*old(db)),
{
    db.set_monospace_family(family);
}

/// Relies on usvg::Tree::from_str: parses the SVG text into a render
/// tree under a usvg::Options record built here, which carries the font
/// database, the DPI override when one is given, and the resources
/// directory used to resolve relative references. A document the library
/// rejects comes back as `Err`; whether it accepts depends on the text,
/// the fonts and the disk, so success is not promised.
#[verifier::external_body]
pub(crate) fn parse_tree(
    svg: &str,
    db: Database,
    dpi: Option<u16>,
    resources_dir: Option<&String>,
) -> (r: Result<Tree, ()>) {
    let mut opt = resvg::usvg::Options::default();
    opt.fontdb = std::sync::Arc::new(db);
    if let Some(d) = dpi {
        opt.dpi = d.into();
    }
    if let Some(dir) = resources_dir {
        opt.resources_dir = Some(std::path::Path::new(dir.as_str()).to_path_buf());
    }
    match Tree::from_str(svg, &opt) {
        Ok(t) => Ok(t),
        Err(_) => Err(()),
    }
}

/// The intrinsic document width in whole pixels: what the width of
/// usvg::Tree::size truncates to, a function of the tree alone.
pub uninterp spec fn tree_width_px(t: Tree) -> int;

/// The intrinsic document height in whole pixels: what the height of
/// usvg::Tree::size truncates to, a function of the tree alone.
pub uninterp spec fn tree_height_px(t: Tree) -> int;

/// Relies on usvg::Tree::size: the intrinsic document size, a stored
/// field, truncated here to whole pixels on each axis.
#[verifier::external_body]
pub(crate) fn tree_size_px(t: &Tree) -> (r: (u32, u32))
    ensures
        r.0 == tree_width_px(*t),
        r.1 == tree_height_px(*t),
{
    (t.size().width() as u32, t.size().height() as u32)
}

/// Relies on tiny_skia::Pixmap::new: allocates a transparent raster that
/// records exactly the given size. Its own source returns `None` only for
/// a zero axis or a size past its internal limits, both far beyond
/// [1, 16384], so within that range a raster is owed.
#[verifier::external_body]
pub(crate) fn pixmap_new(width: u32, height: u32) -> (r: Option<Pixmap>)
    ensures
        1 <= width <= 16384 && 1 <= height <= 16384 ==> r is Some,
        r matches Some(p) ==> pix_width(p) == width as int && pix_height(p) == height as int,
{
    Pixmap::new(width, height)
}

/// Relies on tiny_skia::Pixmap::fill: fills the whole raster with one
/// solid color, built here with tiny_skia::Color::from_rgba8; the
/// raster's size does not change.
#[verifier::external_body]
pub(crate) fn pixmap_fill(p: &mut Pixmap, r: u8, g: u8, b: u8, a: u8)
    ensures
        pix_width(*final(p)) == pix_width(*old(p)),
        pix_height(*final(p)) == pix_height(*old(p)),
{
    p.fill(resvg::tiny_skia::Color::from_rgba8(r, g, b, a));
}

/// Relies on resvg::render: draws the tree into the raster under a scale
/// transform that maps the intrinsic document size onto the raster size
/// independently on each axis; the raster's size does not change. The
/// bound on the arguments serves the integer-to-float conversion below.
#[verifier::external_body]
#[allow(unused_assignments)]
pub(crate) fn render_tree(t: &Tree, width: u32, height: u32, p: &mut Pixmap)
    requires
        width <= 0xffff,
        height <= 0xffff,
    ensures
        pix_width(*final(p)) == pix_width(*old(p)),
        pix_height(*final(p)) == pix_height(*old(p)),
{
    // The first assignments only fix the bindings' types; the names of
    // float types cannot be written here.
    let mut sx = t.size().width();
    let mut sy = t.size().height();
    sx = (width as u16).into();
    sy = (height as u16).into();
    let transform = resvg::tiny_skia::Transform::from_scale(
        sx / t.size().width(),
        sy / t.size().height(),
    );
    resvg::render(t, transform, &mut p.as_mut());
}

/// Relies on tiny_skia::Pixmap::encode_png: encodes the raster as PNG
/// bytes, whose header records the raster's own size; an encoding
/// failure comes back as `Err`.
#[verifier::external_body]
pub(crate) fn pixmap_encode_png(p: &Pixmap) -> (r: Result<Vec<u8>, ()>)
    ensures
        r matches Ok(b) ==> b@.len() >= 24 && spec_png_width(b@) == pix_width(*p)
            && spec_png_height(b@) == pix_height(*p),
{
    match p.encode_png() {
        Ok(v) => Ok(v),
        Err(_) => Err(()),
    }
}

} // verus!

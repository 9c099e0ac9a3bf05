use vstd::prelude::*;

verus! {

#[verifier::external_type_specification]
#[verifier::external_body]
pub struct ExOptions(usvg::Options);

#[verifier::external_type_specification]
#[verifier::external_body]
pub struct ExTree(usvg::Tree);

#[verifier::external_type_specification]
#[verifier::external_body]
pub struct ExPixmap(tiny_skia::Pixmap);

/// The RGBA bytes that a pixmap holds, row by row, each colour channel
/// premultiplied by its alpha.
pub uninterp spec fn pixmap_data(p: tiny_skia::Pixmap) -> Seq<u8>;

/// The width and height that a pixmap was made with.
pub uninterp spec fn pixmap_size(p: tiny_skia::Pixmap) -> (u32, u32);

/// The parser's message for `data`, or `None` when `data` parses as a
/// vector-image document.
pub uninterp spec fn svg_parse_error(data: Seq<u8>) -> Option<Seq<char>>;

/// The unpremultiplied colour `(r, g, b, a)` of a premultiplied pixel.
pub uninterp spec fn demultiplied(px: (u8, u8, u8, u8)) -> (u8, u8, u8, u8);

/// A pixmap of `width * height` pixels can be made: both sides are nonzero,
/// a row's byte count fits an `i32` and the whole buffer fits a `usize`.
pub open spec fn pixmap_fits(width: u32, height: u32) -> bool {
    &&& width > 0
    &&& height > 0
    &&& width as int * 4 <= i32::MAX as int
    &&& width as int * height as int * 4 <= usize::MAX as int
}

/// A parsed tree with its natural width and height, or the parser's message.
pub type ParsedDocument = Result<(usvg::Tree, u32, u32), String>;

/// Relies on usvg::Options::default, fontdb::Database::load_system_fonts,
/// usvg::Tree::from_data, the `Display` impl of usvg::Error and
/// usvg::Size::to_screen_size of the root `svg` element: the parsed tree with
/// its size rounded to whole pixels, at least one on each side, or the
/// parser's message. Whether parsing succeeds, and the message, depend on the
/// bytes alone; the size may depend on the host's fonts. A document needs a
/// root element, so bytes without a `<` that are not gzip data are refused.
#[verifier::external_body]
pub(crate) fn parse_document(data: &[u8]) -> (r: ParsedDocument)
    ensures
        r is Ok <==> svg_parse_error(data@) is None,
        r matches Ok((t, w, h)) ==> w >= 1 && h >= 1,
        r matches Err(m) ==> svg_parse_error(data@) == Some(m@),
        !data@.contains(0x3cu8) && !(data@.len() >= 2 && data@[0] == 0x1fu8 && data@[1] == 0x8bu8)
            ==> r is Err,
{
    let mut opt = usvg::Options::default();
    opt.fontdb.load_system_fonts();
    match usvg::Tree::from_data(data, &opt.to_ref()) {
        Ok(tree) => {
            let size = tree.svg_node().size.to_screen_size();
            Ok((tree, size.width(), size.height()))
        },
        Err(e) => Err(e.to_string()),
    }
}

/// Relies on tiny_skia::Pixmap::new: a zeroed pixmap of the given size, made
/// exactly when that size fits.
#[verifier::external_body]
pub(crate) fn new_pixmap(width: u32, height: u32) -> (r: Option<tiny_skia::Pixmap>)
    ensures
        r is Some <==> pixmap_fits(width, height),
        r matches Some(p) ==> {
            &&& pixmap_size(p) == (width, height)
            &&& pixmap_data(p) == Seq::new((width as int * height as int * 4) as nat, |i: int| 0u8)
        },
{
    tiny_skia::Pixmap::new(width, height)
}

/// Relies on resvg::render with `FitTo::Size(width, height)` and the
/// identity transform: draws the document scaled to fit that size, aspect
/// kept, into the pixmap, whose size and byte count stay. With both sides
/// nonzero the fitted size exists, so drawing always takes place.
#[verifier::external_body]
pub(crate) fn render_fitted(
    tree: &usvg::Tree,
    width: u32,
    height: u32,
    pixmap: &mut tiny_skia::Pixmap,
) -> (r: bool)
    ensures
        width >= 1 && height >= 1 ==> r,
        pixmap_size(*final(pixmap)) == pixmap_size(*old(pixmap)),
        pixmap_data(*final(pixmap)).len() == pixmap_data(*old(pixmap)).len(),
{
    let fit = usvg::FitTo::Size(width, height);
    resvg::render(tree, fit, tiny_skia::Transform::identity(), pixmap.as_mut()).is_some()
}

/// Relies on tiny_skia::Pixmap::data: a copy of the pixmap's premultiplied
/// RGBA bytes.
#[verifier::external_body]
pub(crate) fn pixmap_bytes(p: &tiny_skia::Pixmap) -> (r: Vec<u8>)
    ensures
        r@ == pixmap_data(*p),
{
    p.data().to_vec()
}

/// Relies on tiny_skia::PremultipliedColorU8::from_rgba, which accepts a
/// pixel whose colour channels are at most its alpha, and its `demultiply`:
/// the alpha stays, and an opaque pixel keeps its colour.
#[verifier::external_body]
pub(crate) fn demultiply_pixel(r: u8, g: u8, b: u8, a: u8) -> (out: (u8, u8, u8, u8))
    requires
        r <= a && g <= a && b <= a,
    ensures
        out == demultiplied((r, g, b, a)),
        out.3 == a,
        a == 255 ==> out == (r, g, b, a),
{
    let c = tiny_skia::PremultipliedColorU8::from_rgba(r, g, b, a).unwrap().demultiply();
    (c.red(), c.green(), c.blue(), c.alpha())
}

} // verus!

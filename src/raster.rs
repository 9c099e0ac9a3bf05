use vstd::prelude::*;
use crate::pixels::{rgba_len, unmultiplied, unmultiply, PixelBuffer, RasterError};
use crate::scale::{scaled_dimension, scaled_len, scaled_product, Scale};
use crate::surface::{
    new_pixmap, parse_document, pixmap_bytes, pixmap_data, pixmap_fits, pixmap_size,
    render_fitted, svg_parse_error,
};

verus! {

/// Both scaled sides of a `width * height` image fit in a `u32`.
pub open spec fn scaled_size_fits(width: nat, height: nat, scale: Scale) -> bool {
    scaled_len(width, scale) <= u32::MAX && scaled_len(height, scale) <= u32::MAX
}

/// A surface for the scaled image of a `width * height` document can exist.
pub open spec fn scaled_surface_exists(width: u32, height: u32, scale: Scale) -> bool {
    &&& scaled_size_fits(width as nat, height as nat, scale)
    &&& pixmap_fits(
        scaled_len(width as nat, scale) as u32,
        scaled_len(height as nat, scale) as u32,
    )
}

/// The allocation error for a surface of the scaled size of `width * height`.
pub open spec fn scaled_allocation_error(width: u32, height: u32, scale: Scale) -> RasterError {
    RasterError::Allocation {
        width: scaled_len(width as nat, scale) as u64,
        height: scaled_len(height as nat, scale) as u64,
    }
}

/// Bytes that can hold no XML element and are not gzip data.
pub open spec fn plainly_not_markup(bytes: Seq<u8>) -> bool {
    &&& !bytes.contains(0x3cu8)
    &&& !(bytes.len() >= 2 && bytes[0] == 0x1fu8 && bytes[1] == 0x8bu8)
}

/// At a ratio equal to one the scaled surface has the document's natural
/// size, and it exists exactly when a surface of the natural size does.
pub proof fn lemma_unit_scale_natural_size(width: u32, height: u32, scale: Scale)
    requires
        scale.wf(),
        scale.num == scale.den,
    ensures
        scaled_len(width as nat, scale) == width,
        scaled_len(height as nat, scale) == height,
        scaled_surface_exists(width, height, scale) == pixmap_fits(width, height),
{
    crate::scale::lemma_unit_scale_keeps_length(width as nat, scale);
    crate::scale::lemma_unit_scale_keeps_length(height as nat, scale);
}

/// A scale under which either side rounds down to zero, that is where
/// `side * num < den`, leaves no surface to draw into, so rasterization ends
/// with the allocation error.
pub proof fn lemma_vanishing_side_refused(width: u32, height: u32, scale: Scale)
    requires
        scale.wf(),
        width * scale.num < scale.den || height * scale.num < scale.den,
    ensures
        scaled_len(width as nat, scale) == 0 || scaled_len(height as nat, scale) == 0,
        !scaled_surface_exists(width, height, scale),
{
    crate::scale::lemma_scaled_len_zero_iff(width as nat, scale);
    crate::scale::lemma_scaled_len_zero_iff(height as nat, scale);
}

/// The scaled size of a `width * height` image, or the allocation error when
/// a side does not fit in a `u32`.
pub fn scaled_size(width: u32, height: u32, scale: Scale) -> (r: Result<(u32, u32), RasterError>)
    requires
        scale.wf(),
    ensures
        r is Ok <==> scaled_size_fits(width as nat, height as nat, scale),
        r matches Ok((w, h)) ==> w == scaled_len(width as nat, scale) && h == scaled_len(
            height as nat,
            scale,
        ),
        r matches Err(e) ==> e == scaled_allocation_error(width, height, scale),
{
    let sw = scaled_dimension(width, scale);
    let sh = scaled_dimension(height, scale);
    match (sw, sh) {
        (Some(w), Some(h)) => Ok((w, h)),
        _ => Err(
            RasterError::Allocation {
                width: scaled_product(width, scale),
                height: scaled_product(height, scale),
            },
        ),
    }
}

/// A zeroed surface of `width * height` pixels, or the allocation error when
/// no such surface can exist.
pub fn allocate_surface(width: u32, height: u32) -> (r: Result<tiny_skia::Pixmap, RasterError>)
    ensures
        r is Ok <==> pixmap_fits(width, height),
        r matches Ok(p) ==> {
            &&& pixmap_size(p) == (width, height)
            &&& pixmap_data(p).len() == rgba_len(width as nat, height as nat)
        },
        r matches Err(e) ==> e == (RasterError::Allocation { width: width as u64, height: height as u64 }),
{
    match new_pixmap(width, height) {
        Some(p) => Ok(p),
        None => Err(RasterError::Allocation { width: width as u64, height: height as u64 }),
    }
}

/// What rasterizing a document of natural size `width * height` at `scale`
/// gives: a buffer of the scaled size, each side rounded down, holding the
/// unpremultiplied form of drawn pixels, exactly when a surface of that size
/// can exist; otherwise the allocation error for that size.
pub open spec fn scaled_render_result(
    width: u32,
    height: u32,
    scale: Scale,
    r: Result<PixelBuffer, RasterError>,
) -> bool {
    &&& scaled_surface_exists(width, height, scale) <==> r is Ok
    &&& !scaled_surface_exists(width, height, scale) ==> r == Err::<PixelBuffer, RasterError>(
        scaled_allocation_error(width, height, scale),
    )
    &&& r matches Ok(b) ==> {
        &&& b.wf()
        &&& b.width == scaled_len(width as nat, scale)
        &&& b.height == scaled_len(height as nat, scale)
        &&& exists|drawn: Seq<u8>|
            drawn.len() == b.data@.len() && b.data@ == #[trigger] unmultiplied(drawn)
    }
}

/// Rasterizing a document of natural size `width * height` succeeds whenever
/// a surface of the scaled size can exist, and its sides are the natural
/// sides times the scale, rounded down.
pub proof fn lemma_scaled_sides(
    width: u32,
    height: u32,
    scale: Scale,
    r: Result<PixelBuffer, RasterError>,
)
    requires
        scale.wf(),
        scaled_render_result(width, height, scale, r),
        scaled_surface_exists(width, height, scale),
    ensures
        r is Ok,
        r->Ok_0.width == scaled_len(width as nat, scale),
        r->Ok_0.height == scaled_len(height as nat, scale),
        r->Ok_0.wf(),
{
}

/// Draws a parsed document whose natural size is `width * height` into a
/// fresh surface of that size scaled by `scale`, each side rounded down, and
/// returns its pixels as unpremultiplied RGBA.
pub fn render_scaled(tree: &usvg::Tree, width: u32, height: u32, scale: Scale) -> (r: Result<
    PixelBuffer,
    RasterError,
>)
    requires
        scale.wf(),
    ensures
        scaled_render_result(width, height, scale, r),
{
    let (sw, sh) = match scaled_size(width, height, scale) {
        Ok(dims) => dims,
        Err(e) => {
            return Err(e);
        },
    };
    let mut pixmap = match allocate_surface(sw, sh) {
        Ok(p) => p,
        Err(e) => {
            return Err(e);
        },
    };
    if !render_fitted(tree, sw, sh, &mut pixmap) {
        return Err(RasterError::Render);
    }
    let drawn = pixmap_bytes(&pixmap);
    proof {
        assert(rgba_len(sw as nat, sh as nat) == sw as int * sh as int * 4);
        assert((sw as int * sh as int * 4) % 4 == 0) by (nonlinear_arith);
    }
    let data = unmultiply(&drawn);
    Ok(PixelBuffer { width: sw, height: sh, data })
}

/// Parses vector-image bytes and rasterizes the document at its natural size
/// scaled by `scale`, each side rounded down, into unpremultiplied RGBA
/// pixels.
pub fn load_svg_bytes(svg_bytes: &[u8], scale: Scale) -> (r: Result<PixelBuffer, RasterError>)
    requires
        scale.wf(),
    ensures
        svg_parse_error(svg_bytes@) is Some <==> (r is Err && r->Err_0 is Parse),
        svg_parse_error(svg_bytes@) matches Some(m) ==> r->Err_0->Parse_0@ == m,
        plainly_not_markup(svg_bytes@) ==> r is Err && r->Err_0 is Parse,
        svg_parse_error(svg_bytes@) is None ==> exists|w: u32, h: u32|
            w >= 1 && h >= 1 && #[trigger] scaled_render_result(w, h, scale, r),
        scale.num == 0 ==> r is Err,
{
    let (tree, w, h) = match parse_document(svg_bytes) {
        Ok(parsed) => parsed,
        Err(msg) => {
            return Err(RasterError::Parse(msg));
        },
    };
    let r = render_scaled(&tree, w, h, scale);
    proof {
        if scale.num == 0 {
            crate::scale::lemma_zero_scale_vanishes(w as nat, scale);
        }
        assert(scaled_render_result(w, h, scale, r));
    }
    r
}

} // verus!

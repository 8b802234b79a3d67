//! The rasterizer's decisions: parsing the sanitized document, the exact
//! aspect-preserving fit of its intrinsic size into the target canvas, the
//! transparent canvas itself and its lossless encoding.
use vstd::prelude::*;
use resvg::usvg::TreeParsing;
use crate::error::{ServiceError, ServiceResult};

verus! {

/// Intrinsic sizes are handed to `fit_layout` in this many units per pixel,
/// so that fractional view boxes keep their precision.
pub const INTRINSIC_UNITS_PER_PX: u32 = 256;

/// How a document of intrinsic size (iw, ih) sits on a canvas of (tw, th):
/// the content is scaled by `scale_num / scale_den` target pixels per
/// intrinsic unit, then shifted right by `offset_x_num / offset_den` and down
/// by `offset_y_num / offset_den` target pixels.
pub struct FitLayout {
    pub scale_num: u64,
    pub scale_den: u64,
    pub offset_x_num: u64,
    pub offset_y_num: u64,
    pub offset_den: u64,
}

/// The width ratio tw / iw is the smaller one, so width limits the scale.
pub open spec fn width_limited(iw: u32, ih: u32, tw: u32, th: u32) -> bool {
    tw * ih <= th * iw
}

/// scale = min(tw / iw, th / ih); offset = (target - intrinsic * scale) / 2
/// on each axis.
pub open spec fn fit_spec(iw: u32, ih: u32, tw: u32, th: u32) -> FitLayout {
    let sn: u64 = if width_limited(iw, ih, tw, th) { tw as u64 } else { th as u64 };
    let sd: u64 = if width_limited(iw, ih, tw, th) { iw as u64 } else { ih as u64 };
    FitLayout {
        scale_num: sn,
        scale_den: sd,
        offset_x_num: (tw * sd - iw * sn) as u64,
        offset_y_num: (th * sd - ih * sn) as u64,
        offset_den: (2 * sd) as u64,
    }
}

/// Fits content of intrinsic size (iw, ih), in `INTRINSIC_UNITS_PER_PX`
/// units or any other unit, into a (tw, th) pixel canvas: uniformly scaled so
/// that it fits entirely, and centered. A zero intrinsic dimension cannot be
/// scaled and is a processing error.
pub fn fit_layout(iw: u32, ih: u32, tw: u32, th: u32) -> (r: ServiceResult<FitLayout>)
    ensures
        r is Ok <==> iw > 0 && ih > 0,
        r matches Ok(l) ==> l == fit_spec(iw, ih, tw, th),
        r matches Err(e) ==> e is SvgProcessingError,
{
    if iw == 0 || ih == 0 {
        return Err(ServiceError::SvgProcessingError(String::from_str("SVG has an empty view box")));
    }
    let (iw, ih, tw, th) = (iw as u64, ih as u64, tw as u64, th as u64);
    assert(tw * ih <= 0xffff_ffff * 0xffff_ffff) by (nonlinear_arith)
        requires
            tw <= 0xffff_ffff,
            ih <= 0xffff_ffff,
    ;
    assert(th * iw <= 0xffff_ffff * 0xffff_ffff) by (nonlinear_arith)
        requires
            th <= 0xffff_ffff,
            iw <= 0xffff_ffff,
    ;
    let (sn, sd) = if tw * ih <= th * iw { (tw, iw) } else { (th, ih) };
    assert(tw * sd <= 0xffff_ffff * 0xffff_ffff && th * sd <= 0xffff_ffff * 0xffff_ffff
        && iw * sn <= 0xffff_ffff * 0xffff_ffff && ih * sn <= 0xffff_ffff * 0xffff_ffff)
        by (nonlinear_arith)
        requires
            tw <= 0xffff_ffff,
            th <= 0xffff_ffff,
            iw <= 0xffff_ffff,
            ih <= 0xffff_ffff,
            sn <= 0xffff_ffff,
            sd <= 0xffff_ffff,
    ;
    assert(iw * sn <= tw * sd && ih * sn <= th * sd) by (nonlinear_arith)
        requires
            (sn == tw && sd == iw && tw * ih <= th * iw) || (sn == th && sd == ih && !(tw * ih
                <= th * iw)),
    ;
    Ok(
        FitLayout {
            scale_num: sn,
            scale_den: sd,
            offset_x_num: tw * sd - iw * sn,
            offset_y_num: th * sd - ih * sn,
            offset_den: 2 * sd,
        },
    )
}

/// The fitted content keeps the document's aspect ratio, scales by the
/// smaller of the two axis ratios so that it fits the canvas and touches it
/// on at least one axis, and is centered: on each axis the margin before the
/// content equals the margin after it. Content and margins are measured in
/// target pixels times `scale_den` and `offset_den` respectively.
pub proof fn lemma_fit_preserves_aspect_and_centers(iw: u32, ih: u32, tw: u32, th: u32)
    requires
        iw > 0,
        ih > 0,
    ensures
        ({
            let l = fit_spec(iw, ih, tw, th);
            let sn = l.scale_num as int;
            let sd = l.scale_den as int;
            let content_w = iw * sn;
            let content_h = ih * sn;
            &&& sd > 0
            &&& content_w * ih == content_h * iw
            &&& content_w <= tw * sd && content_h <= th * sd
            &&& (content_w == tw * sd || content_h == th * sd)
            &&& l.offset_den == 2 * sd
            &&& l.offset_x_num == 2 * tw * sd - l.offset_x_num - 2 * content_w
            &&& l.offset_y_num == 2 * th * sd - l.offset_y_num - 2 * content_h
        }),
{
    let l = fit_spec(iw, ih, tw, th);
    let (iw, ih, tw, th) = (iw as int, ih as int, tw as int, th as int);
    let sn = l.scale_num as int;
    let sd = l.scale_den as int;
    assert((iw * sn) * ih == (ih * sn) * iw) by (nonlinear_arith);
    assert(iw * sn <= tw * sd && ih * sn <= th * sd && (iw * sn == tw * sd || ih * sn == th
        * sd)) by (nonlinear_arith)
        requires
            (sn == tw && sd == iw && tw * ih <= th * iw) || (sn == th && sd == ih && !(tw * ih
                <= th * iw)),
    ;
    assert(tw * sd <= u32::MAX * u32::MAX) by (nonlinear_arith)
        requires
            0 <= tw <= u32::MAX,
            0 <= sd <= u32::MAX,
    ;
    assert(th * sd <= u32::MAX * u32::MAX) by (nonlinear_arith)
        requires
            0 <= th <= u32::MAX,
            0 <= sd <= u32::MAX,
    ;
    assert(l.offset_x_num == tw * sd - iw * sn);
    assert(l.offset_y_num == th * sd - ih * sn);
    assert(2 * tw * sd == 2 * (tw * sd) && 2 * th * sd == 2 * (th * sd)) by (nonlinear_arith);
}

#[verifier::external_type_specification]
#[verifier::external_body]
pub struct ExTree(resvg::usvg::Tree);

#[verifier::external_type_specification]
#[verifier::external_body]
pub struct ExParseError(resvg::usvg::Error);

#[verifier::external_type_specification]
#[verifier::external_body]
pub struct ExPixmap(tiny_skia::Pixmap);

/// Whether usvg accepts the text as an SVG document.
pub uninterp spec fn svg_parses(text: Seq<char>) -> bool;

/// Relies on usvg's `Tree::from_str` with default options: it parses the
/// document, and whether it succeeds depends on the text alone.
#[verifier::external_body]
fn parse_tree(text: &str) -> (r: Result<resvg::usvg::Tree, resvg::usvg::Error>)
    ensures
        r is Ok <==> svg_parses(text@),
{
    resvg::usvg::Tree::from_str(text, &resvg::usvg::Options::default())
}

/// Parses sanitized text into a render tree; text that does not parse is a
/// processing error.
pub fn parse_document(text: &str) -> (r: ServiceResult<resvg::usvg::Tree>)
    ensures
        r is Ok <==> svg_parses(text@),
        r matches Err(e) ==> e is SvgProcessingError,
{
    match parse_tree(text) {
        Ok(tree) => Ok(tree),
        Err(_) => Err(ServiceError::SvgProcessingError(String::from_str("Failed to parse SVG"))),
    }
}

/// Relies on tiny-skia's `Pixmap::new`: a pixmap filled with transparent
/// black; it refuses a zero dimension and a width past `i32::MAX / 4`, and
/// succeeds otherwise where the byte size `4 * w * h` fits in `usize`.
#[verifier::external_body]
fn pixmap_new(w: u32, h: u32) -> (r: Option<tiny_skia::Pixmap>)
    ensures
        r is Some ==> w > 0 && h > 0,
        (w > 0 && h > 0 && w * 4 <= i32::MAX && 4 * w * h <= usize::MAX) ==> r is Some,
{
    tiny_skia::Pixmap::new(w, h)
}

/// A fully transparent canvas of the target size.
pub fn new_canvas(w: u32, h: u32) -> (r: ServiceResult<tiny_skia::Pixmap>)
    ensures
        r is Ok ==> w > 0 && h > 0,
        (w > 0 && h > 0 && w * 4 <= i32::MAX && 4 * w * h <= usize::MAX) ==> r is Ok,
        r matches Err(e) ==> e is SvgProcessingError,
{
    match pixmap_new(w, h) {
        Some(p) => Ok(p),
        None => Err(ServiceError::SvgProcessingError(String::from_str("Failed to create pixel buffer"))),
    }
}

/// Relies on tiny-skia's `Pixmap::encode_png`: the pixels encoded as PNG
/// into memory. The png encoder fails only on a zero dimension, a buffer of
/// the wrong length or an oversized chunk; a pixmap has neither of the first
/// two, its image data is written in small chunks, and writing into a `Vec`
/// cannot fail, so it always succeeds.
#[verifier::external_body]
fn png_bytes(canvas: &tiny_skia::Pixmap) -> (r: Option<Vec<u8>>)
    ensures
        r is Some,
{
    canvas.encode_png().ok()
}

/// The canvas encoded losslessly as PNG; the encoding always succeeds.
pub fn encode_canvas(canvas: &tiny_skia::Pixmap) -> (r: ServiceResult<Vec<u8>>)
    ensures
        r is Ok,
{
    match png_bytes(canvas) {
        Some(bytes) => Ok(bytes),
        None => Err(ServiceError::SvgProcessingError(String::from_str("Failed to encode PNG"))),
    }
}

} // verus!

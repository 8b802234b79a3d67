use svg_rasterizer::error::ServiceError;
use svg_rasterizer::render::{
    encode_canvas, fit_layout, new_canvas, parse_document, FitLayout, INTRINSIC_UNITS_PER_PX,
};

fn units(px: f32) -> u32 {
    let scaled = px as f64 * INTRINSIC_UNITS_PER_PX as f64;
    if px.is_finite() && px > 0.0 && scaled <= u32::MAX as f64 {
        scaled.round().max(1.0) as u32
    } else {
        0
    }
}

fn draw(text: &str, w: u32, h: u32) -> tiny_skia::Pixmap {
    let tree = parse_document(text).ok().unwrap();
    let rect = tree.view_box.rect;
    let layout = fit_layout(units(rect.width()), units(rect.height()), w, h).ok().unwrap();
    let mut canvas = new_canvas(w, h).ok().unwrap();
    let scale =
        (layout.scale_num as f64 / layout.scale_den as f64 * INTRINSIC_UNITS_PER_PX as f64) as f32;
    let dx = (layout.offset_x_num as f64 / layout.offset_den as f64) as f32;
    let dy = (layout.offset_y_num as f64 / layout.offset_den as f64) as f32;
    let transform = tiny_skia::Transform::from_row(scale, 0.0, 0.0, scale, dx, dy);
    resvg::Tree::from_usvg(&tree).render(transform, &mut canvas.as_mut());
    canvas
}

fn alpha(p: &tiny_skia::Pixmap, x: u32, y: u32) -> u8 {
    p.pixel(x, y).unwrap().alpha()
}

const SQUARE: &str = "<svg xmlns=\"http://www.w3.org/2000/svg\" width=\"100\" height=\"100\" viewBox=\"0 0 100 100\"><rect width=\"100\" height=\"100\" fill=\"red\"/></svg>";
const WIDE: &str = "<svg xmlns=\"http://www.w3.org/2000/svg\" width=\"200\" height=\"100\" viewBox=\"0 0 200 100\"><rect width=\"200\" height=\"100\" fill=\"blue\"/></svg>";

fn as_px(num: u64, den: u64) -> f64 {
    num as f64 / den as f64
}

#[test]
fn square_source_fills_square_target() {
    let l = fit_layout(100, 100, 50, 50).ok().unwrap();
    assert_eq!(as_px(l.scale_num, l.scale_den), 0.5);
    assert_eq!((l.offset_x_num, l.offset_y_num), (0, 0));
    let canvas = draw(SQUARE, 50, 50);
    assert_eq!((canvas.width(), canvas.height()), (50, 50));
    for (x, y) in [(0, 0), (49, 0), (0, 49), (49, 49), (25, 25)] {
        assert_eq!(alpha(&canvas, x, y), 255);
    }
}

#[test]
fn wide_source_is_letterboxed() {
    let l = fit_layout(200, 100, 100, 100).ok().unwrap();
    assert_eq!(as_px(l.scale_num, l.scale_den), 0.5);
    assert_eq!(as_px(200 * l.scale_num, l.scale_den), 100.0);
    assert_eq!(as_px(100 * l.scale_num, l.scale_den), 50.0);
    assert_eq!(as_px(l.offset_x_num, l.offset_den), 0.0);
    assert_eq!(as_px(l.offset_y_num, l.offset_den), 25.0);
    let canvas = draw(WIDE, 100, 100);
    for (x, y) in [(50, 0), (50, 24), (0, 99), (99, 75)] {
        assert_eq!(alpha(&canvas, x, y), 0);
    }
    for (x, y) in [(0, 25), (99, 25), (50, 50), (0, 74), (99, 74)] {
        assert_eq!(alpha(&canvas, x, y), 255);
    }
}

#[test]
fn fit_keeps_aspect_and_centers() {
    for (iw, ih, tw, th) in [(300u32, 70u32, 128u32, 512u32), (7, 13, 1000, 33), (640, 480, 32, 32)] {
        let l: FitLayout = fit_layout(iw, ih, tw, th).ok().unwrap();
        let cw = as_px(iw as u64 * l.scale_num, l.scale_den);
        let ch = as_px(ih as u64 * l.scale_num, l.scale_den);
        assert!((cw / ch - iw as f64 / ih as f64).abs() < 1e-9);
        assert!(cw <= tw as f64 + 1e-9 && ch <= th as f64 + 1e-9);
        let left = as_px(l.offset_x_num, l.offset_den);
        let right = tw as f64 - left - cw;
        let top = as_px(l.offset_y_num, l.offset_den);
        let bottom = th as f64 - top - ch;
        assert!((left - right).abs() < 1.0 && (top - bottom).abs() < 1.0);
    }
}

#[test]
fn exact_layout_fields() {
    let l = fit_layout(200, 100, 100, 100).ok().unwrap();
    assert_eq!((l.scale_num, l.scale_den), (100, 200));
    assert_eq!((l.offset_x_num, l.offset_y_num, l.offset_den), (0, 10000, 400));
    let t = fit_layout(100, 300, 90, 90).ok().unwrap();
    assert_eq!((t.scale_num, t.scale_den), (90, 300));
    assert_eq!((t.offset_x_num, t.offset_y_num, t.offset_den), (18000, 0, 600));
}

#[test]
fn empty_intrinsic_size_is_a_processing_error() {
    assert!(matches!(fit_layout(0, 10, 5, 5), Err(ServiceError::SvgProcessingError(_))));
    assert!(matches!(fit_layout(10, 0, 5, 5), Err(ServiceError::SvgProcessingError(_))));
}

#[test]
fn rendering_twice_gives_identical_bytes() {
    let a = encode_canvas(&draw(WIDE, 120, 80)).ok().unwrap();
    let b = encode_canvas(&draw(WIDE, 120, 80)).ok().unwrap();
    assert_eq!(a, b);
    assert_eq!(&a[..8], &[0x89, b'P', b'N', b'G', 0x0d, 0x0a, 0x1a, 0x0a]);
}

#[test]
fn canvas_starts_transparent_and_refuses_zero_size() {
    let c = new_canvas(4, 3).ok().unwrap();
    assert_eq!((c.width(), c.height()), (4, 3));
    assert!(c.pixels().iter().all(|p| p.alpha() == 0));
    assert!(matches!(new_canvas(0, 3), Err(ServiceError::SvgProcessingError(_))));
}

#[test]
fn encoding_succeeds_on_any_canvas() {
    let c = new_canvas(1, 1).ok().unwrap();
    assert!(encode_canvas(&c).is_ok());
}

#[test]
fn unparsable_text_is_a_processing_error() {
    assert!(matches!(parse_document("<svg"), Err(ServiceError::SvgProcessingError(_))));
    assert!(matches!(parse_document("plain text"), Err(ServiceError::SvgProcessingError(_))));
    assert!(parse_document(SQUARE).is_ok());
}

use svg_view::pixels::{unmultiply, RasterError};
use svg_view::raster::{allocate_surface, load_svg_bytes, scaled_size};
use svg_view::scale::{scaled_dimension, scaled_product, Scale};

const SQUARE: &str = "<svg xmlns=\"http://www.w3.org/2000/svg\" width=\"98\" height=\"98\">\
<rect x=\"0\" y=\"0\" width=\"98\" height=\"98\" fill=\"#ff0000\"/></svg>";

const WIDE: &str = "<svg xmlns=\"http://www.w3.org/2000/svg\" width=\"200\" height=\"50\">\
<rect x=\"0\" y=\"0\" width=\"200\" height=\"50\" fill=\"#0000ff\"/></svg>";

fn tenth() -> Scale {
    Scale::new(1, 10).unwrap()
}

#[test]
fn scale_rejects_zero_denominator() {
    assert!(Scale::new(1, 0).is_none());
    let s = Scale::new(3, 4).unwrap();
    assert_eq!((s.num, s.den), (3, 4));
    let u = Scale::unit();
    assert_eq!((u.num, u.den), (1, 1));
}

#[test]
fn scaled_dimension_rounds_down() {
    assert_eq!(scaled_dimension(98, tenth()), Some(9));
    assert_eq!(scaled_dimension(99, tenth()), Some(9));
    assert_eq!(scaled_dimension(100, tenth()), Some(10));
    assert_eq!(scaled_dimension(7, Scale::new(3, 2).unwrap()), Some(10));
    assert_eq!(scaled_dimension(9, tenth()), Some(0));
}

#[test]
fn scaled_dimension_too_large() {
    let double = Scale::new(2, 1).unwrap();
    assert_eq!(scaled_dimension(u32::MAX, double), None);
    assert_eq!(scaled_product(u32::MAX, double), 2 * (u32::MAX as u64));
    assert_eq!(scaled_dimension(u32::MAX, Scale::unit()), Some(u32::MAX));
}

#[test]
fn scaled_size_exact() {
    assert_eq!(scaled_size(98, 98, tenth()), Ok((9, 9)));
    assert_eq!(scaled_size(200, 50, tenth()), Ok((20, 5)));
    assert_eq!(scaled_size(98, 98, Scale::unit()), Ok((98, 98)));
    let huge = Scale::new(u32::MAX, 1).unwrap();
    assert_eq!(
        scaled_size(2, 1, huge),
        Err(RasterError::Allocation { width: 2 * (u32::MAX as u64), height: u32::MAX as u64 })
    );
}

#[test]
fn allocate_surface_sizes() {
    let p = allocate_surface(9, 4).unwrap();
    assert_eq!((p.width(), p.height()), (9, 4));
    assert_eq!(p.data().len(), 9 * 4 * 4);
    assert!(p.data().iter().all(|b| *b == 0));
    assert_eq!(allocate_surface(0, 4).unwrap_err(), RasterError::Allocation { width: 0, height: 4 });
    assert_eq!(allocate_surface(4, 0).unwrap_err(), RasterError::Allocation { width: 4, height: 0 });
    let wide = 1u32 << 30;
    assert_eq!(
        allocate_surface(wide, 1).unwrap_err(),
        RasterError::Allocation { width: wide as u64, height: 1 }
    );
}

#[test]
fn load_at_a_tenth() {
    let b = load_svg_bytes(SQUARE.as_bytes(), tenth()).unwrap();
    assert_eq!((b.width(), b.height()), (9, 9));
    assert_eq!(b.data().len(), 9 * 9 * 4);
}

#[test]
fn load_keeps_aspect_sides() {
    let b = load_svg_bytes(WIDE.as_bytes(), tenth()).unwrap();
    assert_eq!((b.width, b.height), (20, 5));
    assert_eq!(b.data.len(), 20 * 5 * 4);
}

#[test]
fn load_at_unit_scale_has_natural_size() {
    let b = load_svg_bytes(SQUARE.as_bytes(), Scale::unit()).unwrap();
    assert_eq!((b.width, b.height), (98, 98));
    assert_eq!(b.data.len(), 98 * 98 * 4);
}

#[test]
fn load_draws_the_document() {
    let b = load_svg_bytes(SQUARE.as_bytes(), Scale::new(1, 2).unwrap()).unwrap();
    assert_eq!((b.width, b.height), (49, 49));
    let centre = ((24 * 49 + 24) * 4) as usize;
    assert_eq!(&b.data[centre..centre + 4], &[255, 0, 0, 255]);
    let blue = load_svg_bytes(WIDE.as_bytes(), tenth()).unwrap();
    assert_eq!(&blue.data[0..4], &[0, 0, 255, 255]);
}

#[test]
fn load_rejects_non_markup() {
    let r = load_svg_bytes(b"not a picture at all", tenth());
    assert!(matches!(r, Err(RasterError::Parse(_))));
    let e = load_svg_bytes(b"", tenth());
    match e {
        Err(RasterError::Parse(msg)) => assert!(!msg.is_empty()),
        other => panic!("expected a parse error, got {:?}", other),
    }
}

#[test]
fn load_rejects_truncated_markup() {
    let cut = &SQUARE.as_bytes()[..40];
    assert!(matches!(load_svg_bytes(cut, tenth()), Err(RasterError::Parse(_))));
    let bad_utf8: &[u8] = &[0x3c, 0xff, 0xfe, 0x3e];
    assert!(matches!(load_svg_bytes(bad_utf8, tenth()), Err(RasterError::Parse(_))));
}

#[test]
fn load_at_zero_scale_is_allocation_error() {
    let zero = Scale::new(0, 1).unwrap();
    assert_eq!(
        load_svg_bytes(SQUARE.as_bytes(), zero).unwrap_err(),
        RasterError::Allocation { width: 0, height: 0 }
    );
}

#[test]
fn load_with_one_side_vanishing() {
    let r = load_svg_bytes(WIDE.as_bytes(), Scale::new(1, 60).unwrap());
    assert_eq!(r.unwrap_err(), RasterError::Allocation { width: 3, height: 0 });
}

const HALF_RED: &str = "<svg xmlns=\"http://www.w3.org/2000/svg\" width=\"20\" height=\"20\">\
<rect x=\"0\" y=\"0\" width=\"20\" height=\"20\" fill=\"#ff0000\" fill-opacity=\"0.5\"/></svg>";

#[test]
fn unmultiply_restores_colour() {
    assert_eq!(unmultiply(&vec![20, 0, 0, 60]), vec![85, 0, 0, 60]);
    assert_eq!(unmultiply(&vec![10, 20, 30, 255]), vec![10, 20, 30, 255]);
    assert_eq!(unmultiply(&vec![0, 0, 0, 0]), vec![0, 0, 0, 0]);
    assert_eq!(unmultiply(&vec![10, 0, 0, 5]), vec![10, 0, 0, 5]);
    assert_eq!(unmultiply(&vec![]), Vec::<u8>::new());
    assert_eq!(
        unmultiply(&vec![20, 0, 0, 60, 1, 2, 3, 255]),
        vec![85, 0, 0, 60, 1, 2, 3, 255]
    );
}

#[test]
fn load_gives_unpremultiplied_pixels() {
    let b = load_svg_bytes(HALF_RED.as_bytes(), Scale::new(1, 2).unwrap()).unwrap();
    assert_eq!((b.width, b.height), (10, 10));
    let centre = ((5 * 10 + 5) * 4) as usize;
    let px = &b.data[centre..centre + 4];
    assert_eq!(px[0], 255);
    assert_eq!((px[1], px[2]), (0, 0));
    assert!(px[3] == 127 || px[3] == 128);
}

#[test]
fn load_empty_document_at_half() {
    let svg = b"<svg xmlns='http://www.w3.org/2000/svg' width='20' height='10'/>";
    let b = load_svg_bytes(svg, Scale::new(1, 2).unwrap()).unwrap();
    assert_eq!((b.width, b.height), (10, 5));
    assert_eq!(b.data.len(), 10 * 5 * 4);
    assert!(b.data.iter().all(|v| *v == 0));
}

#[test]
fn load_rejects_unfinished_root() {
    let svg = b"<svg xmlns='http://www.w3.org/2000/svg' width='10'";
    assert!(matches!(load_svg_bytes(svg, Scale::unit()), Err(RasterError::Parse(_))));
}

#[test]
fn load_is_repeatable() {
    let a = load_svg_bytes(SQUARE.as_bytes(), tenth()).unwrap();
    let b = load_svg_bytes(SQUARE.as_bytes(), tenth()).unwrap();
    assert_eq!((a.width, a.height), (b.width, b.height));
    assert_eq!(a.data, b.data);
}

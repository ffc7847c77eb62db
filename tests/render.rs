use resvg_py::background::Rgba8;
use resvg_py::error::{Conflict, RenderError};
use resvg_py::render::{prepare_canvas, render, render_request, Background, RenderOutcome};
use resvg_py::scene::Scene;
use resvg_py::transform::RowMajorTransform;
use tiny_skia::{Pixmap, Transform};

fn scene(svg: &str) -> Scene {
    Scene::from_str(svg, &usvg::Options::default()).expect("markup parses")
}

fn identity() -> Transform {
    let (sx, ky, kx, sy, tx, ty) =
        RowMajorTransform::new(1.0f32, 0.0, 0.0, 0.0, 1.0, 0.0).skia_row();
    Transform::from_row(sx, ky, kx, sy, tx, ty)
}

fn empty_scene() -> Scene {
    scene(r#"<svg xmlns="http://www.w3.org/2000/svg" width="10" height="10"/>"#)
}

#[test]
fn int_size_of_ten_by_ten() {
    let s = empty_scene();
    assert_eq!(s.int_size(), (10, 10));
}

#[test]
fn int_size_is_stable() {
    let s = scene(r#"<svg xmlns="http://www.w3.org/2000/svg" width="33.4" height="7.6"/>"#);
    let first = s.int_size();
    assert_eq!(first, (33, 8));
    assert_eq!(s.int_size(), first);
    assert_eq!(s.int_size(), first);
}

#[test]
fn malformed_markup_is_a_parse_error() {
    match Scene::from_str("<svg", &usvg::Options::default()) {
        Err(RenderError::Parse(msg)) => assert!(!msg.is_empty()),
        Err(e) => panic!("unexpected error {:?}", e),
        Ok(_) => panic!("malformed markup parsed"),
    }
}

#[test]
fn default_render_is_transparent_at_scene_size() {
    let s = empty_scene();
    let png = render(&s, identity(), Background::Fill { size: None, color: None }).unwrap();
    let p = Pixmap::decode_png(&png).unwrap();
    assert_eq!((p.width(), p.height()), (10, 10));
    assert!(p.data().iter().all(|&b| b == 0));
}

#[test]
fn explicit_size_without_color_is_transparent() {
    let s = empty_scene();
    let png = render(&s, identity(), Background::Fill { size: Some((7, 3)), color: None }).unwrap();
    let p = Pixmap::decode_png(&png).unwrap();
    assert_eq!((p.width(), p.height()), (7, 3));
    assert!(p.data().iter().all(|&b| b == 0));
}

#[test]
fn opaque_color_fills_every_pixel_exactly() {
    let s = empty_scene();
    let c = Rgba8 { r: 12, g: 200, b: 77, a: 255 };
    let png = render(&s, identity(), Background::Fill { size: Some((5, 4)), color: Some(c) }).unwrap();
    let p = Pixmap::decode_png(&png).unwrap();
    assert_eq!((p.width(), p.height()), (5, 4));
    for px in p.data().chunks(4) {
        assert_eq!(px, &[12, 200, 77, 255]);
    }
}

#[test]
fn translucent_color_keeps_alpha_on_every_pixel() {
    let s = empty_scene();
    let c = Rgba8 { r: 255, g: 0, b: 0, a: 128 };
    let p = prepare_canvas(&s, Background::Fill { size: Some((3, 3)), color: Some(c) }).unwrap();
    for px in p.data().chunks(4) {
        assert_eq!(px, &[128, 0, 0, 128]);
    }
}

#[test]
fn color_alone_fills_scene_size() {
    let s = empty_scene();
    let c = Rgba8 { r: 0, g: 0, b: 255, a: 255 };
    let p = prepare_canvas(&s, Background::Fill { size: None, color: Some(c) }).unwrap();
    assert_eq!((p.width(), p.height()), (10, 10));
    assert_eq!(p.data().len(), 400);
    for px in p.data().chunks(4) {
        assert_eq!(px, &[0, 0, 255, 255]);
    }
}

#[test]
fn zero_size_is_an_allocation_error() {
    let s = empty_scene();
    match render(&s, identity(), Background::Fill { size: Some((0, 10)), color: None }) {
        Err(RenderError::Allocation) => {}
        other => panic!("unexpected {:?}", other),
    }
}

#[test]
fn too_wide_is_an_allocation_error() {
    let s = empty_scene();
    match prepare_canvas(&s, Background::Fill { size: Some((u32::MAX, 1)), color: None }) {
        Err(RenderError::Allocation) => {}
        other => panic!("unexpected {:?}", other.map(|p| p.width())),
    }
}

#[test]
fn malformed_png_is_a_decode_error() {
    let s = empty_scene();
    match render(&s, identity(), Background::Png(vec![1, 2, 3, 4])) {
        Err(RenderError::Decode(msg)) => assert!(!msg.is_empty()),
        other => panic!("unexpected {:?}", other),
    }
}

#[test]
fn png_background_is_used_as_is() {
    let s = empty_scene();
    let c = Rgba8 { r: 9, g: 8, b: 7, a: 255 };
    let bg = render(&s, identity(), Background::Fill { size: Some((6, 2)), color: Some(c) }).unwrap();
    let png = render(&s, identity(), Background::Png(bg)).unwrap();
    let p = Pixmap::decode_png(&png).unwrap();
    assert_eq!((p.width(), p.height()), (6, 2));
    for px in p.data().chunks(4) {
        assert_eq!(px, &[9, 8, 7, 255]);
    }
}

#[test]
fn encode_decode_round_trip_is_lossless() {
    let s = scene(
        r#"<svg xmlns="http://www.w3.org/2000/svg" width="8" height="8"><circle cx="4" cy="4" r="3" fill="green" fill-opacity="0.5"/></svg>"#,
    );
    let c = Rgba8 { r: 10, g: 20, b: 30, a: 255 };
    let png = render(&s, identity(), Background::Fill { size: None, color: Some(c) }).unwrap();
    let first = Pixmap::decode_png(&png).unwrap();
    let again = Pixmap::decode_png(&first.encode_png().unwrap()).unwrap();
    assert_eq!(first.data(), again.data());
    assert_eq!((again.width(), again.height()), (8, 8));
}

#[test]
fn identity_transform_keeps_origin() {
    let s = scene(
        r#"<svg xmlns="http://www.w3.org/2000/svg" width="10" height="10"><rect x="0" y="0" width="1" height="1" fill="red"/></svg>"#,
    );
    let png = render(&s, identity(), Background::Fill { size: None, color: None }).unwrap();
    let p = Pixmap::decode_png(&png).unwrap();
    assert_eq!(&p.data()[0..4], &[255, 0, 0, 255]);
    assert_eq!(&p.data()[4..8], &[0, 0, 0, 0]);
    assert!(p.data()[40..].iter().all(|&b| b == 0));
}

#[test]
fn translation_moves_the_scene() {
    let s = scene(
        r#"<svg xmlns="http://www.w3.org/2000/svg" width="10" height="10"><rect x="0" y="0" width="1" height="1" fill="red"/></svg>"#,
    );
    let (sx, ky, kx, sy, tx, ty) =
        RowMajorTransform::new(1.0f32, 0.0, 2.0, 0.0, 1.0, 3.0).skia_row();
    let tr = Transform::from_row(sx, ky, kx, sy, tx, ty);
    let png = render(&s, tr, Background::Fill { size: None, color: None }).unwrap();
    let p = Pixmap::decode_png(&png).unwrap();
    let at = |x: usize, y: usize| &p.data()[(y * 10 + x) * 4..(y * 10 + x) * 4 + 4];
    assert_eq!(at(2, 3), &[255, 0, 0, 255]);
    assert_eq!(at(0, 0), &[0, 0, 0, 0]);
}

#[test]
fn request_with_missing_file_and_color_is_invalid_arguments() {
    let s = empty_scene();
    let c = Rgba8 { r: 1, g: 2, b: 3, a: 255 };
    let r = render_request(&s, identity(), Some("/nonexistent/none.png".to_string()), None, None, Some(c));
    match r {
        Err(RenderError::InvalidArguments(Conflict::WithFile)) => {}
        other => panic!("unexpected {:?}", other),
    }
}

#[test]
fn request_with_data_and_size_is_invalid_arguments() {
    let s = empty_scene();
    let r = render_request(&s, identity(), None, Some(vec![1, 2]), Some((2, 2)), None);
    match r {
        Err(RenderError::InvalidArguments(Conflict::WithData)) => {}
        other => panic!("unexpected {:?}", other),
    }
}

#[test]
fn request_with_file_alone_asks_for_the_file() {
    let s = empty_scene();
    match render_request(&s, identity(), Some("bg.png".to_string()), None, None, None) {
        Ok(RenderOutcome::NeedsFile(p)) => assert_eq!(p, "bg.png"),
        other => panic!("unexpected {:?}", other),
    }
}

#[test]
fn request_with_nothing_renders_scene_size() {
    let s = empty_scene();
    match render_request(&s, identity(), None, None, None, None) {
        Ok(RenderOutcome::Encoded(png)) => {
            let p = Pixmap::decode_png(&png).unwrap();
            assert_eq!((p.width(), p.height()), (10, 10));
            assert!(p.data().iter().all(|&b| b == 0));
        }
        other => panic!("unexpected {:?}", other),
    }
}

#[test]
fn request_with_bad_data_is_a_decode_error() {
    let s = empty_scene();
    match render_request(&s, identity(), None, Some(vec![0, 1, 2]), None, None) {
        Err(RenderError::Decode(_)) => {}
        other => panic!("unexpected {:?}", other),
    }
}

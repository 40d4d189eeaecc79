use graphics::graphic_device::GraphicDevice;
use graphics::uniforms::{Extent, ViewUniforms};

fn value(extent: Extent) -> f32 {
    extent.numerator as f32 / extent.denominator as f32
}

#[test]
fn landscape_view_is_four_thirds_wide_and_one_high() {
    let view = ViewUniforms::for_size(800, 600);
    assert_eq!(view.half_width, Extent { numerator: 800, denominator: 600 });
    assert_eq!(view.half_height, Extent { numerator: 1, denominator: 1 });
    assert_eq!(view.half_width.numerator * 3, view.half_width.denominator * 4);
    assert_eq!(value(view.half_width), 4.0f32 / 3.0);
    assert_eq!(value(view.half_height), 1.0);
}

#[test]
fn portrait_view_is_one_wide_and_four_thirds_high() {
    let view = ViewUniforms::for_size(600, 800);
    assert_eq!(view.half_width, Extent { numerator: 1, denominator: 1 });
    assert_eq!(view.half_height, Extent { numerator: 800, denominator: 600 });
    assert_eq!(view.half_height.numerator * 3, view.half_height.denominator * 4);
    assert_eq!(value(view.half_width), 1.0);
    assert_eq!(value(view.half_height), 4.0f32 / 3.0);
}

#[test]
fn square_view_is_one_by_one() {
    let view = ViewUniforms::for_size(512, 512);
    assert_eq!(view.half_width, Extent { numerator: 512, denominator: 512 });
    assert_eq!(view.half_height, Extent { numerator: 1, denominator: 1 });
    assert_eq!(value(view.half_width), 1.0);
}

#[test]
fn view_keeps_the_aspect_of_the_viewport() {
    for &(width, height) in &[(1u32, 1u32), (1920, 1080), (1080, 1920), (3, 7), (4096, 1)] {
        let view = ViewUniforms::for_size(width, height);
        let w = view.half_width;
        let h = view.half_height;
        assert_eq!(
            w.numerator as u64 * h.denominator as u64 * height as u64,
            h.numerator as u64 * w.denominator as u64 * width as u64
        );
        assert!(w.numerator == w.denominator || h.numerator == h.denominator);
        assert!(w.numerator >= w.denominator && h.numerator >= h.denominator);
    }
}

#[test]
fn resize_replaces_the_view() {
    let mut device = GraphicDevice::new(800, 600);
    assert_eq!(device.size(), (800, 600));
    assert_eq!(device.view_uniforms(), ViewUniforms::for_size(800, 600));
    let view = device.set_window_size(600, 800);
    assert_eq!(view, ViewUniforms::for_size(600, 800));
    assert_eq!(device.size(), (600, 800));
    assert_eq!(device.view_uniforms(), view);
}

use screen_grabber::compose::{blend_overlay, crop_image, resize_image, CropError};
use screen_grabber::geometry::{Point, PointerEvent, Rect, Size};
use screen_grabber::image_widget::{FillStrat, OverImage};
use screen_grabber::selection::SelectedRect;
use screen_grabber::raster::{RasterImage, Rgba};
use screen_grabber::zstack::{route, CustomZStack, Delivery, OverImages, ZChild, UnitPoint};

fn solid(w: u32, h: u32, p: Rgba) -> RasterImage {
    let mut img = RasterImage::new(w, h);
    for k in 0..img.pixels.len() {
        img.pixels[k] = p;
    }
    img
}

fn rgba(r: u8, g: u8, b: u8, a: u8) -> Rgba {
    Rgba::new(r, g, b, a)
}

fn catalog() -> Vec<RasterImage> {
    vec![
        solid(2, 2, rgba(255, 0, 0, 255)),
        solid(2, 2, rgba(0, 255, 0, 128)),
        solid(2, 2, rgba(0, 0, 255, 0)),
        solid(3, 1, rgba(9, 9, 9, 9)),
    ]
}

fn stack_with_catalog() -> CustomZStack {
    let mut s = CustomZStack::new();
    s.load_catalog(catalog());
    s
}

#[test]
fn raw_round_trip() {
    let raw: Vec<u8> = (0u8..24).collect();
    let img = RasterImage::from_raw(3, 2, &raw).unwrap();
    assert_eq!(img.get_pixel(1, 1), rgba(16, 17, 18, 19));
    assert_eq!(img.to_raw(), raw);
    assert!(RasterImage::from_raw(3, 2, &raw[..20].to_vec()).is_none());
}

#[test]
fn toggle_twice_removes_overlay() {
    let mut s = stack_with_catalog();
    let shown = s.show_over_img(1, None).unwrap();
    assert_eq!(shown.pixels, catalog()[1].pixels);
    assert_eq!(s.layers.len(), 2);
    assert_eq!(s.showing_over_img, Some(1));
    assert!(s.show_over_img(1, None).is_none());
    assert_eq!(s.layers.len(), 1);
    assert_eq!(s.showing_over_img, None);
    for _ in 0..4 {
        s.show_over_img(0, None);
    }
    assert_eq!(s.layers.len(), 1);
}

#[test]
fn show_kind_dispatch() {
    let mut s = stack_with_catalog();
    assert!(s.show_kind(OverImages::Remove, None).is_none());
    assert_eq!(s.layers.len(), 1);
    s.show_kind(OverImages::Arrow, None);
    assert_eq!(s.showing_over_img, Some(2));
    s.show_kind(OverImages::Remove, None);
    assert_eq!(s.showing_over_img, None);
    assert!(s.show_kind(OverImages::Text, None).is_none());
    assert_eq!(s.showing_over_img, None);
    let text = solid(4, 2, rgba(255, 255, 255, 255));
    let shown = s.show_kind(OverImages::Text, Some(text)).unwrap();
    assert_eq!(shown.width, 4);
    assert_eq!(s.showing_over_img, Some(4));
    assert_eq!(s.over_images.as_ref().unwrap().len(), 5);
    s.show_kind(OverImages::Highlighter, None);
    assert_eq!(s.showing_over_img, None);
}

#[test]
fn tint_full_opacity_paints_visible_pixels() {
    let mut s = stack_with_catalog();
    s.show_over_img(0, None);
    s.update_tint(Some(rgba(10, 20, 30, 255)), Some(100));
    assert_eq!(s.layers.len(), 1);
    assert_eq!(s.showing_over_img, None);
    let cat = s.over_images.as_ref().unwrap();
    assert_eq!(cat[0].pixels[0], rgba(10, 20, 30, 255));
    assert_eq!(cat[1].pixels[3], rgba(10, 20, 30, 255));
    // transparent pixels are left alone
    assert_eq!(cat[2].pixels[0], rgba(0, 0, 255, 0));
}

#[test]
fn tint_zero_opacity_keeps_colour() {
    let mut s = stack_with_catalog();
    s.update_tint(None, Some(0));
    let cat = s.over_images.as_ref().unwrap();
    assert_eq!(cat[0].pixels[0], rgba(255, 0, 0, 0));
    assert_eq!(cat[3].pixels[2], rgba(9, 9, 9, 0));
    assert_eq!(s.color, (None, 0));
}

#[test]
fn tint_partial_opacity_scales_alpha() {
    let mut s = stack_with_catalog();
    s.update_tint(None, Some(50));
    assert_eq!(s.over_images.as_ref().unwrap()[0].pixels[0].a, 127);
    s.update_tint(None, Some(1));
    assert_eq!(s.over_images.as_ref().unwrap()[0].pixels[0].a, 2);
}

#[test]
fn blend_alpha_law() {
    let canvas = solid(3, 1, rgba(0, 0, 0, 255));
    let mut over = RasterImage::new(3, 1);
    over.pixels[0] = rgba(200, 100, 50, 255);
    over.pixels[1] = rgba(200, 100, 50, 0);
    over.pixels[2] = rgba(255, 255, 255, 128);
    let out = blend_overlay(canvas, &over, 0, 0);
    assert_eq!(out.pixels[0], rgba(200, 100, 50, 255));
    assert_eq!(out.pixels[1], rgba(0, 0, 0, 255));
    // image blends in single precision: the opaque background comes out at 254
    assert_eq!(out.pixels[2], rgba(128, 128, 128, 254));
}

#[test]
fn blend_offset_and_clipping() {
    let canvas = solid(3, 3, rgba(1, 1, 1, 255));
    let over = solid(2, 2, rgba(9, 9, 9, 255));
    let out = blend_overlay(canvas, &over, 2, -1);
    assert_eq!(out.get_pixel(2, 0), rgba(9, 9, 9, 255));
    assert_eq!(out.get_pixel(2, 1), rgba(1, 1, 1, 255));
    assert_eq!(out.get_pixel(1, 0), rgba(1, 1, 1, 255));
}

#[test]
fn resize_nearest_and_same_size() {
    let mut img = RasterImage::new(2, 1);
    img.pixels[0] = rgba(255, 0, 0, 255);
    img.pixels[1] = rgba(0, 0, 255, 255);
    let big = resize_image(&img, 4, 2, true);
    assert_eq!(big.width, 4);
    assert_eq!(big.height, 2);
    assert_eq!(big.get_pixel(0, 1), rgba(255, 0, 0, 255));
    assert_eq!(big.get_pixel(3, 0), rgba(0, 0, 255, 255));
    let same = resize_image(&img, 2, 1, false);
    assert_eq!(same.pixels, img.pixels);
}

#[test]
fn crop_scenario_and_new_base() {
    let mut img = RasterImage::new(1000, 800);
    img.pixels[50 * 1000 + 100] = rgba(7, 7, 7, 7);
    let crop = crop_image(&img, &Rect::new(100, 50, 500, 400)).unwrap();
    assert_eq!((crop.width, crop.height), (400, 350));
    assert_eq!(crop.get_pixel(0, 0), rgba(7, 7, 7, 7));
    let mut s = CustomZStack::new();
    s.set_base_image(crop);
    let base = s.back_img.as_ref().unwrap();
    assert_eq!((base.width, base.height), (400, 350));
}

#[test]
fn crop_outside_is_refused() {
    let img = RasterImage::new(10, 10);
    assert!(matches!(crop_image(&img, &Rect::new(0, 0, 11, 5)), Err(CropError::OutOfBounds)));
    assert!(matches!(crop_image(&img, &Rect::new(-1, 0, 5, 5)), Err(CropError::OutOfBounds)));
    assert!(matches!(crop_image(&img, &Rect::new(3, 3, 3, 5)), Err(CropError::OutOfBounds)));
    assert_eq!(crop_image(&img, &Rect::new(0, 0, 10, 10)).unwrap().width, 10);
}

#[test]
fn save_without_overlay_is_noop() {
    let mut s = stack_with_catalog();
    let base = solid(4, 4, rgba(3, 4, 5, 255));
    s.set_base_image(base.clone());
    assert!(s.save_new_img().is_none());
    assert_eq!(s.back_img.as_ref().unwrap().pixels, base.pixels);
    assert_eq!(s.layers.len(), 1);
}

#[test]
fn bake_places_overlay() {
    let mut s = stack_with_catalog();
    s.set_base_image(solid(4, 4, rgba(3, 4, 5, 255)));
    s.show_over_img(0, None);
    // base laid out at 4x4, overlay 2x2 at (1, 1): scale factors are one
    s.layout(Size::new(4, 4), &vec![Size::new(2, 2), Size::new(4, 4)]);
    assert_eq!(s.layers[0].layout_rect, Rect::new(6, 6, 8, 8));
    s.update_origin(Point::new(-5, -5));
    s.layout(Size::new(4, 4), &vec![Size::new(2, 2), Size::new(4, 4)]);
    assert_eq!(s.layers[0].layout_rect, Rect::new(1, 1, 3, 3));
    assert_eq!(s.layers[1].layout_rect, Rect::new(0, 0, 4, 4));
    let out = s.save_new_img().unwrap();
    assert_eq!((out.width, out.height), (4, 4));
    assert_eq!(out.get_pixel(1, 1), rgba(255, 0, 0, 255));
    assert_eq!(out.get_pixel(2, 2), rgba(255, 0, 0, 255));
    assert_eq!(out.get_pixel(0, 0), rgba(3, 4, 5, 255));
    assert_eq!(out.get_pixel(3, 3), rgba(3, 4, 5, 255));
    assert_eq!(s.layers.len(), 1);
    assert_eq!(s.back_img_origin, None);
    // the screenshot itself changes only once the result is handed back
    assert_eq!(s.back_img.as_ref().unwrap().get_pixel(1, 1), rgba(3, 4, 5, 255));
}

#[test]
fn bake_scales_to_screenshot() {
    let mut s = stack_with_catalog();
    s.set_base_image(solid(8, 8, rgba(3, 4, 5, 255)));
    s.show_over_img(0, None);
    s.layout(Size::new(4, 4), &vec![Size::new(2, 2), Size::new(4, 4)]);
    s.update_origin(Point::new(-5, -5));
    s.layout(Size::new(4, 4), &vec![Size::new(2, 2), Size::new(4, 4)]);
    let out = s.save_new_img().unwrap();
    assert_eq!((out.width, out.height), (8, 8));
    assert_eq!(out.get_pixel(2, 2), rgba(255, 0, 0, 255));
    assert_eq!(out.get_pixel(5, 5), rgba(255, 0, 0, 255));
    assert_eq!(out.get_pixel(6, 6), rgba(3, 4, 5, 255));
}

#[test]
fn layer_resolution() {
    let c = ZChild::base();
    assert_eq!(c.resolve_max_size(Size::new(300, 200)), Size::new(300, 200));
    assert_eq!(c.resolve_point(Size::new(100, -51)), Point::new(50, -25));
    assert_eq!(UnitPoint::center(), UnitPoint { x: 500, y: 500 });
}

#[test]
fn event_routing() {
    assert_eq!(route(false, true, false), Delivery::Event);
    assert_eq!(route(true, false, false), Delivery::Event);
    assert_eq!(route(true, true, true), Delivery::Captured);
    assert_eq!(route(true, true, false), Delivery::Leave);
}

#[test]
fn alert_show_and_hide() {
    let mut a = screen_grabber::alert::Alert::new();
    a.show_alert("saved");
    assert!(a.is_visible());
    assert_eq!(a.message(), "saved");
    a.hide_alert();
    assert!(!a.is_visible());
    assert_eq!(a.message(), "saved");
}

#[test]
fn resize_then_crop_scenario() {
    let mut selector = SelectedRect::new(1000, 800);
    selector.event(PointerEvent::Down(Point::new(0, 0)));
    selector.event(PointerEvent::Move(Point::new(100, 50)));
    selector.event(PointerEvent::Up);
    selector.event(PointerEvent::Down(Point::new(1000, 800)));
    selector.event(PointerEvent::Move(Point::new(500, 400)));
    selector.event(PointerEvent::Up);
    let rect = selector.rect();
    assert_eq!(rect, Rect::new(100, 50, 500, 400));
    let mut shot = screen_grabber::image_widget::ScreenshotImage::new(RasterImage::new(1000, 800));
    let crop = shot.crop(&rect).unwrap();
    assert_eq!((crop.width, crop.height), (400, 350));
    assert_eq!((shot.image_data.width, shot.image_data.height), (400, 350));
    let mut stack = CustomZStack::new();
    stack.set_base_image(crop);
    let base = stack.back_img.as_ref().unwrap();
    assert_eq!((base.width, base.height), (400, 350));
}

#[test]
fn picture_stretches_by_south_east_corner() {
    let mut pic = OverImage::new(solid(20, 10, rgba(1, 2, 3, 255))).fill_mode(FillStrat::Cover);
    let monitor = Rect::new(0, 0, 1920, 1080);
    pic.event(PointerEvent::Down(Point::new(20, 10)), &monitor);
    pic.event(PointerEvent::Move(Point::new(40, 30)), &monitor);
    assert_eq!((pic.image_data.width, pic.image_data.height), (40, 30));
    assert_eq!(pic.image_data.get_pixel(39, 29), rgba(1, 2, 3, 255));
    pic.event(PointerEvent::Up, &monitor);
    assert_eq!(pic.image_size(), Size::new(40, 30));
    assert_eq!(pic.fill, FillStrat::Cover);
}

#[test]
fn screenshot_crop_refused_keeps_image() {
    let mut shot = screen_grabber::image_widget::ScreenshotImage::new(RasterImage::new(10, 10));
    assert!(shot.crop(&Rect::new(5, 5, 20, 8)).is_err());
    assert_eq!((shot.image_data.width, shot.image_data.height), (10, 10));
    let r = shot.set_image_data(RasterImage::new(7, 3));
    assert_eq!(r, Rect::new(0, 0, 7, 3));
}

use screen_grabber::geometry::{classify, CursorHint, DragAnchor, Handle, Point, PointerEvent, Rect, Size, Zone};
use screen_grabber::resizable_box::{Axis, BoxConstraints, Extent, ResizableBox};
use screen_grabber::selection::SelectedRect;

fn p(x: i64, y: i64) -> Point {
    Point::new(x, y)
}

#[test]
fn classify_prefers_corners_then_edges() {
    let r = Rect::new(100, 100, 300, 200);
    assert_eq!(classify(&r, p(105, 95)), Zone::Handle(Handle::NorthWest));
    assert_eq!(classify(&r, p(295, 205)), Zone::Handle(Handle::SouthEast));
    assert_eq!(classify(&r, p(200, 91)), Zone::Handle(Handle::North));
    assert_eq!(classify(&r, p(309, 150)), Zone::Handle(Handle::East));
    assert_eq!(classify(&r, p(200, 150)), Zone::Inside);
    assert_eq!(classify(&r, p(400, 150)), Zone::Outside);
    // the band is strictly narrower than ten pixels
    assert_eq!(classify(&r, p(200, 90)), Zone::Outside);
}

#[test]
fn selector_resize_then_crop_region() {
    let mut s = SelectedRect::new(1000, 800);
    s.event(PointerEvent::Down(p(1000, 800)));
    s.event(PointerEvent::Move(p(500, 400)));
    s.event(PointerEvent::Up);
    s.event(PointerEvent::Down(p(0, 0)));
    s.event(PointerEvent::Move(p(100, 50)));
    s.event(PointerEvent::Up);
    assert_eq!(s.rect(), Rect::new(100, 50, 500, 400));
    assert!(!s.show_overlay());
}

#[test]
fn selector_keeps_sides_longer_than_border() {
    let mut s = SelectedRect::new(1000, 800);
    s.event(PointerEvent::Down(p(1000, 400)));
    // drag the east edge onto the west one
    s.event(PointerEvent::Move(p(0, 400)));
    let r = s.rect();
    assert!(r.x1 - r.x0 > 5);
    assert!(r.x0 >= 0 && r.x1 <= 1000);
}

#[test]
fn selector_pushed_out_of_bound_is_clamped_only() {
    let mut s = SelectedRect::new(1000, 800);
    s.event(PointerEvent::Down(p(1000, 800)));
    s.event(PointerEvent::Move(p(400, 300)));
    s.event(PointerEvent::Up);
    s.event(PointerEvent::Down(p(200, 150)));
    assert!(s.show_overlay());
    s.event(PointerEvent::Move(p(-300, 150)));
    let r = s.rect();
    // the near edge is pulled back to the bound; the far one stays where the drag left it
    assert_eq!(r.x0, 0);
    assert_eq!(r.x1, -100);
}

#[test]
fn selector_far_edge_pulled_in_by_border() {
    let mut s = SelectedRect::new(1000, 800);
    s.event(PointerEvent::Down(p(500, 400)));
    s.event(PointerEvent::Move(p(600, 400)));
    let r = s.rect();
    assert_eq!(r, Rect::new(100, 0, 995, 800));
}

#[test]
fn selector_hover_cursor() {
    let mut s = SelectedRect::new(1000, 800);
    s.event(PointerEvent::Down(p(1000, 800)));
    s.event(PointerEvent::Move(p(500, 400)));
    s.event(PointerEvent::Up);
    assert_eq!(s.event(PointerEvent::Move(p(250, 2))), Some(CursorHint::ResizeUpDown));
    assert_eq!(s.event(PointerEvent::Move(p(498, 200))), Some(CursorHint::ResizeLeftRight));
    assert_eq!(s.event(PointerEvent::Move(p(498, 398))), Some(CursorHint::Crosshair));
    assert_eq!(s.event(PointerEvent::Move(p(250, 200))), Some(CursorHint::Clear));
    s.event(PointerEvent::Down(p(250, 200)));
    assert_eq!(s.event(PointerEvent::Move(p(260, 200))), None);
}

#[test]
fn selector_reset_rect() {
    let mut s = SelectedRect::new(1000, 800);
    s.event(PointerEvent::Down(p(500, 400)));
    s.reset_rect(&Rect::new(10, 20, 410, 370));
    assert_eq!(s.rect(), Rect::new(0, 0, 400, 350));
    assert_eq!(s.bound(), Rect::new(0, 0, 400, 350));
    assert!(!s.show_overlay());
}

#[test]
fn selector_layout_pads_when_idle() {
    let mut s = SelectedRect::new(1000, 800);
    let size = s.layout(Size::new(0, 0), Size::new(2000, 2000));
    assert_eq!(size, Size::new(1010, 810));
    let size = s.layout(Size::new(0, 0), Size::new(500, 500));
    assert_eq!(size, Size::new(500, 500));
    assert_eq!(s.rect(), Rect::new(0, 0, 500, 500));
}

fn placed_box() -> ResizableBox {
    let mut b = ResizableBox::new().width(50).height(50);
    b.set_rect(p(0, 0), Size::new(50, 50));
    b
}

fn big_window() -> Size {
    Size::new(1000, 1000)
}

#[test]
fn box_corner_drag_is_uniform() {
    let mut b = placed_box();
    b.pointer_down(p(50, 50));
    assert_eq!(b.mouse, DragAnchor::Edge(Handle::SouthEast, p(50, 50)));
    b.pointer_move(p(80, 60), big_window(), p(100, 200));
    assert_eq!(b.rect, Some(Rect::new(0, 0, 80, 80)));
    assert_eq!(b.width, Some(Extent::Fixed(80)));
}

#[test]
fn box_north_west_corner_uses_larger_delta() {
    let mut b = placed_box();
    b.pointer_down(p(0, 0));
    b.pointer_move(p(-5, -20), big_window(), p(100, 200));
    assert_eq!(b.rect, Some(Rect::new(-20, -20, 50, 50)));
}

#[test]
fn box_edges_move_one_side() {
    let mut b = placed_box();
    b.pointer_down(p(50, 25));
    b.pointer_move(p(70, 40), big_window(), p(100, 200));
    assert_eq!(b.rect, Some(Rect::new(0, 0, 70, 50)));
    b.pointer_up();
    let mut b = placed_box();
    b.pointer_down(p(25, 0));
    b.pointer_move(p(40, -10), big_window(), p(100, 200));
    assert_eq!(b.rect, Some(Rect::new(0, -10, 50, 50)));
}

#[test]
fn box_interior_drag_and_release_commits_origin() {
    let mut b = placed_box();
    b.pointer_down(p(25, 25));
    b.pointer_move(p(35, 45), big_window(), p(100, 200));
    assert_eq!(b.rect, Some(Rect::new(10, 20, 60, 70)));
    let origin = b.pointer_up();
    assert_eq!(origin, Some(p(10, 20)));
    assert_eq!(b.rect, Some(Rect::new(0, 0, 50, 50)));
    assert_eq!(b.mouse, DragAnchor::Idle);
}

#[test]
fn box_drag_into_chrome_ends_drag() {
    let mut b = placed_box();
    b.pointer_down(p(25, 25));
    // the box's window position puts its top at y = 100; the toolbar reaches 97
    b.pointer_move(p(25, 20), big_window(), p(100, 100));
    assert_eq!(b.rect, Some(Rect::new(0, -5, 50, 45)));
    assert_eq!(b.mouse, DragAnchor::Idle);
    // no drag any more: moves only report the cursor
    assert_eq!(b.pointer_move(p(25, 25), big_window(), p(100, 100)), Some(CursorHint::Clear));
}

#[test]
fn box_keeps_sides_longer_than_border() {
    let mut b = placed_box();
    b.pointer_down(p(50, 25));
    b.pointer_move(p(-100, 25), big_window(), p(100, 200));
    let r = b.rect.unwrap();
    assert!(r.x1 - r.x0 > 2);
}

#[test]
fn box_constraints_and_intrinsics() {
    let b = ResizableBox::new().width(50);
    let bc = BoxConstraints { min: Size::new(10, 10), max: Size::new(40, 300) };
    let c = b.child_constraints(&bc);
    assert_eq!(c.min, Size::new(40, 10));
    assert_eq!(c.max, Size::new(40, 300));
    let e = ResizableBox::new().expand_height();
    let c = e.child_constraints(&bc);
    assert_eq!(c.min.height, 300);
    assert_eq!(b.compute_max_intrinsic(Axis::Horizontal, 7), 50);
    assert_eq!(b.compute_max_intrinsic(Axis::Vertical, 7), 7);
    let x = ResizableBox::new().expand();
    assert_eq!(x.width, Some(Extent::Expand));
    assert_eq!(x.height, Some(Extent::Expand));
    let w = ResizableBox::new().expand_width();
    assert_eq!(w.width, Some(Extent::Expand));
    assert_eq!(placed_box().layout(Size::new(3, 3)), Size::new(50, 50));
    assert_eq!(ResizableBox::new().layout(Size::new(3, 4)), Size::new(3, 4));
}

#[test]
fn capture_area_scales_origin_to_monitor() {
    let a = screen_grabber::capture::capture_area(&Rect::new(10, 20, 960, 540), Size::new(1920, 1080)).unwrap();
    // 10 * 1920 / 950 = 20.21, 20 * 1080 / 520 = 41.54
    assert_eq!((a.x, a.y, a.width, a.height), (20, 42, 1920, 1080));
    assert!(screen_grabber::capture::capture_area(&Rect::new(5, 5, 5, 9), Size::new(100, 100)).is_none());
}

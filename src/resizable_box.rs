use vstd::prelude::*;
use crate::geometry::{
    abs, anchor_at, anchor_for, classify, coord_ok, cursor_for, cursor_hint, lemma_widened,
    rect_within, widen, widened, zone_of, CursorHint, DragAnchor, Handle, Point, PointerEvent,
    Rect, Size, COORD_LIMIT,
};

verus! {

/// Width of the dashed border; every side of the box stays longer than this.
pub const BOX_BORDER: i64 = 2;

/// Space kept free of the box at the window's left edge.
pub const CHROME_LEFT: i64 = 15;

/// Space kept free of the box at the window's top edge (the toolbar).
pub const CHROME_TOP: i64 = 97;

/// Space kept free of the box at the window's right edge.
pub const CHROME_RIGHT: i64 = 31;

/// Space kept free of the box at the window's bottom edge.
pub const CHROME_BOTTOM: i64 = 73;

/// A requested extent along one axis.
#[derive(Clone, Copy, Debug, PartialEq, Eq, Structural)]
pub enum Extent {
    /// Exactly this many pixels, as far as the constraints allow.
    Fixed(i64),
    /// All the space the constraints allow.
    Expand,
}

/// Layout constraints: the smallest and the largest size allowed.
#[derive(Clone, Copy, Debug, PartialEq, Eq, Structural)]
pub struct BoxConstraints {
    pub min: Size,
    pub max: Size,
}

impl BoxConstraints {
    pub open spec fn valid(&self) -> bool {
        0 <= self.min.width <= self.max.width && 0 <= self.min.height <= self.max.height
    }
}

/// Which axis an intrinsic size is asked for.
#[derive(Clone, Copy, Debug, PartialEq, Eq, Structural)]
pub enum Axis {
    Horizontal,
    Vertical,
}

/// The draggable overlay box: moved by its interior, resized by its edges, and resized
/// uniformly by its corners.
#[derive(Clone, Copy, Debug)]
pub struct ResizableBox {
    pub width: Option<Extent>,
    pub height: Option<Extent>,
    pub mouse: DragAnchor,
    pub rect: Option<Rect>,
    pub new_origin: Option<Point>,
}

/// The larger-magnitude of the two deltas; `dy` on a tie.
pub open spec fn dominant(dx: int, dy: int) -> int {
    if abs(dx) > abs(dy) { dx } else { dy }
}

/// The rectangle a drag produces before the corrective pass.
pub open spec fn box_dragged(r: Rect, a: DragAnchor, p: Point) -> Rect {
    match a {
        DragAnchor::Idle => r,
        DragAnchor::Edge(h, q) => {
            let dx = p.x - q.x;
            let dy = p.y - q.y;
            let d = dominant(dx, dy);
            match h {
                Handle::North => Rect { y0: (r.y0 + dy) as i64, ..r },
                Handle::South => Rect { y1: (r.y1 + dy) as i64, ..r },
                Handle::East => Rect { x1: (r.x1 + dx) as i64, ..r },
                Handle::West => Rect { x0: (r.x0 + dx) as i64, ..r },
                Handle::SouthEast => Rect { x1: (r.x1 + d) as i64, y1: (r.y1 + d) as i64, ..r },
                Handle::NorthWest => Rect { x0: (r.x0 + d) as i64, y0: (r.y0 + d) as i64, ..r },
                Handle::NorthEast => if abs(dx) > abs(dy) {
                    Rect { y0: (r.y0 - dx) as i64, x1: (r.x1 + dx) as i64, ..r }
                } else {
                    Rect { y0: (r.y0 + dy) as i64, x1: (r.x1 - dy) as i64, ..r }
                },
                Handle::SouthWest => if abs(dx) > abs(dy) {
                    Rect { y1: (r.y1 - dx) as i64, x0: (r.x0 + dx) as i64, ..r }
                } else {
                    Rect { y1: (r.y1 + dy) as i64, x0: (r.x0 - dy) as i64, ..r }
                },
            }
        },
        DragAnchor::Interior(q) => Rect {
            x0: (r.x0 + (p.x - q.x)) as i64,
            y0: (r.y0 + (p.y - q.y)) as i64,
            x1: (r.x1 + (p.x - q.x)) as i64,
            y1: (r.y1 + (p.y - q.y)) as i64,
        },
    }
}

/// The box, placed in the window at `origin`, reaches into the window's chrome.
pub open spec fn in_chrome(r: Rect, window: Size, origin: Point) -> bool {
    ||| r.x0 + origin.x <= CHROME_LEFT
    ||| r.y0 + origin.y <= CHROME_TOP
    ||| r.x1 + origin.x >= window.width - CHROME_RIGHT
    ||| r.y1 + origin.y >= window.height - CHROME_BOTTOM
}

/// The anchor that follows a drag to `p`.
pub open spec fn follow(a: DragAnchor, p: Point) -> DragAnchor {
    match a {
        DragAnchor::Idle => DragAnchor::Idle,
        DragAnchor::Edge(h, _) => DragAnchor::Edge(h, p),
        DragAnchor::Interior(_) => DragAnchor::Interior(p),
    }
}

/// A box rectangle in range: coordinates and side lengths within four pointer ranges.
pub open spec fn box_rect_ok(r: Rect) -> bool {
    &&& rect_within(r, 4)
    &&& -(4 * COORD_LIMIT) <= r.spec_width() <= 4 * COORD_LIMIT
    &&& -(4 * COORD_LIMIT) <= r.spec_height() <= 4 * COORD_LIMIT
}

pub open spec fn size_ok(s: Size) -> bool {
    coord_ok(s.width as int) && coord_ok(s.height as int)
}

impl ResizableBox {
    pub open spec fn wf(&self) -> bool {
        &&& match self.mouse {
            DragAnchor::Edge(_, q) => q.in_range(),
            DragAnchor::Interior(q) => q.in_range(),
            DragAnchor::Idle => true,
        }
        &&& match self.rect {
            Some(r) => box_rect_ok(r) && self.new_origin.is_some(),
            None => true,
        }
        &&& match self.new_origin {
            Some(o) => rect_within(Rect { x0: o.x, y0: o.y, x1: o.x, y1: o.y }, 4),
            None => true,
        }
    }

    /// The state after a pointer move to `p`, in a window of size `window` where the box's
    /// coordinates start at `origin`.
    pub open spec fn moved(self, p: Point, window: Size, origin: Point) -> ResizableBox {
        match self.rect {
            None => self,
            Some(r) => match self.mouse {
                DragAnchor::Idle => self,
                _ => {
                    let w = widened(box_dragged(r, self.mouse, p), BOX_BORDER as int);
                    if !box_rect_ok(w) {
                        ResizableBox { mouse: DragAnchor::Idle, ..self }
                    } else {
                        ResizableBox {
                            rect: Some(w),
                            mouse: if in_chrome(w, window, origin) {
                                DragAnchor::Idle
                            } else {
                                follow(self.mouse, p)
                            },
                            width: Some(Extent::Fixed((w.x1 - w.x0) as i64)),
                            height: Some(Extent::Fixed((w.y1 - w.y0) as i64)),
                            ..self
                        }
                    }
                },
            },
        }
    }

    /// The state after the pointer is released: the displacement is committed to the origin and
    /// the rectangle returns to the origin.
    pub open spec fn released(self) -> ResizableBox {
        match (self.rect, self.new_origin) {
            (Some(r), Some(o)) => {
                let n = Point { x: (o.x + r.x0) as i64, y: (o.y + r.y0) as i64 };
                ResizableBox {
                    mouse: DragAnchor::Idle,
                    new_origin: if rect_within(Rect { x0: n.x, y0: n.y, x1: n.x, y1: n.y }, 4) {
                        Some(n)
                    } else {
                        Some(o)
                    },
                    rect: Some(
                        Rect { x0: 0, y0: 0, x1: (r.x1 - r.x0) as i64, y1: (r.y1 - r.y0) as i64 },
                    ),
                    ..self
                }
            },
            _ => ResizableBox { mouse: DragAnchor::Idle, ..self },
        }
    }

    /// A box with no size set and no rectangle yet.
    pub fn new() -> (b: ResizableBox)
        ensures
            b.wf(),
            b.width.is_none(),
            b.height.is_none(),
            b.mouse == DragAnchor::Idle,
            b.rect.is_none(),
            b.new_origin.is_none(),
    {
        ResizableBox {
            width: None,
            height: None,
            mouse: DragAnchor::Idle,
            rect: None,
            new_origin: None,
        }
    }

    /// Sets the width.
    pub fn width(self, width: i64) -> (b: ResizableBox)
        ensures
            b == (ResizableBox { width: Some(Extent::Fixed(width)), ..self }),
    {
        ResizableBox { width: Some(Extent::Fixed(width)), ..self }
    }

    /// Sets the height.
    pub fn height(self, height: i64) -> (b: ResizableBox)
        ensures
            b == (ResizableBox { height: Some(Extent::Fixed(height)), ..self }),
    {
        ResizableBox { height: Some(Extent::Fixed(height)), ..self }
    }

    /// Takes all the space the constraints allow on both axes.
    pub fn expand(self) -> (b: ResizableBox)
        ensures
            b == (ResizableBox {
                width: Some(Extent::Expand),
                height: Some(Extent::Expand),
                ..self
            }),
    {
        ResizableBox { width: Some(Extent::Expand), height: Some(Extent::Expand), ..self }
    }

    /// Takes all the width the constraints allow.
    pub fn expand_width(self) -> (b: ResizableBox)
        ensures
            b == (ResizableBox { width: Some(Extent::Expand), ..self }),
    {
        ResizableBox { width: Some(Extent::Expand), ..self }
    }

    /// Takes all the height the constraints allow.
    pub fn expand_height(self) -> (b: ResizableBox)
        ensures
            b == (ResizableBox { height: Some(Extent::Expand), ..self }),
    {
        ResizableBox { height: Some(Extent::Expand), ..self }
    }

    /// The constraints handed to the content: a set extent is clamped into `bc` and fixes that
    /// axis; an unset one passes `bc` through.
    pub fn child_constraints(&self, bc: &BoxConstraints) -> (c: BoxConstraints)
        requires
            bc.valid(),
        ensures
            c.valid(),
            (c.min.width, c.max.width) == axis_constraint(
                self.width,
                bc.min.width,
                bc.max.width,
            ),
            (c.min.height, c.max.height) == axis_constraint(
                self.height,
                bc.min.height,
                bc.max.height,
            ),
    {
        let (min_w, max_w) = resolve_axis(self.width, bc.min.width, bc.max.width);
        let (min_h, max_h) = resolve_axis(self.height, bc.min.height, bc.max.height);
        BoxConstraints { min: Size::new(min_w, min_h), max: Size::new(max_w, max_h) }
    }

    /// Places the box at `origin` with size `size`, and makes that size its set extent.
    pub fn set_rect(&mut self, origin: Point, size: Size)
        requires
            old(self).wf(),
            origin.in_range(),
            size_ok(size),
        ensures
            final(self).wf(),
            final(self).rect == Some(
                Rect {
                    x0: origin.x,
                    y0: origin.y,
                    x1: (origin.x + size.width) as i64,
                    y1: (origin.y + size.height) as i64,
                },
            ),
            final(self).width == Some(Extent::Fixed(size.width)),
            final(self).height == Some(Extent::Fixed(size.height)),
            final(self).new_origin == Some(origin),
            final(self).mouse == old(self).mouse,
    {
        let rect = Rect::new(origin.x, origin.y, size.width + origin.x, size.height + origin.y);
        self.width = Some(Extent::Fixed(rect.x1 - rect.x0));
        self.height = Some(Extent::Fixed(rect.y1 - rect.y0));
        self.rect = Some(rect);
        self.new_origin = Some(origin);
    }

    /// The size the box takes in a layout pass, given the size its content took.
    pub fn layout(&self, child_size: Size) -> (s: Size)
        requires
            self.wf(),
        ensures
            s == match self.rect {
                Some(r) => Size { width: (r.x1 - r.x0) as i64, height: (r.y1 - r.y0) as i64 },
                None => child_size,
            },
    {
        match self.rect {
            Some(r) => Size::new(r.x1 - r.x0, r.y1 - r.y0),
            None => child_size,
        }
    }

    /// The largest natural extent along `axis`: a fixed extent is its own answer; otherwise the
    /// content's, `child_value`.
    pub fn compute_max_intrinsic(&self, axis: Axis, child_value: i64) -> (v: i64)
        ensures
            v == match (match axis {
                Axis::Horizontal => self.width,
                Axis::Vertical => self.height,
            }) {
                Some(Extent::Fixed(x)) => x,
                _ => child_value,
            },
    {
        let kv = match axis {
            Axis::Horizontal => self.width,
            Axis::Vertical => self.height,
        };
        match kv {
            Some(Extent::Fixed(x)) => x,
            _ => child_value,
        }
    }

    /// The drag a press at `p` would start; none before the box has a rectangle.
    pub fn where_mouse_is(&self, p: Point) -> (a: DragAnchor)
        requires
            self.wf(),
            p.in_range(),
        ensures
            a == match self.rect {
                Some(r) => anchor_for(zone_of(r, p), p),
                None => DragAnchor::Idle,
            },
    {
        match self.rect {
            Some(r) => anchor_at(classify(&r, p), p),
            None => DragAnchor::Idle,
        }
    }

    /// Handles a press at `p`: starts the drag that the zone under `p` calls for.
    pub fn pointer_down(&mut self, p: Point)
        requires
            old(self).wf(),
            p.in_range(),
        ensures
            final(self).wf(),
            *final(self) == (ResizableBox {
                mouse: match old(self).rect {
                    Some(r) => anchor_for(zone_of(r, p), p),
                    None => DragAnchor::Idle,
                },
                ..*old(self)
            }),
    {
        self.mouse = self.where_mouse_is(p);
    }

    /// Handles a pointer move to `p`. During a drag the box follows the pointer, the corrective
    /// pass runs, and the drag ends once the box reaches into the window's chrome; without a drag
    /// the hover cursor is returned.
    pub fn pointer_move(&mut self, p: Point, window: Size, origin: Point) -> (cursor: Option<
        CursorHint,
    >)
        requires
            old(self).wf(),
            p.in_range(),
            origin.in_range(),
            size_ok(window),
        ensures
            final(self).wf(),
            *final(self) == old(self).moved(p, window, origin),
            cursor == match (old(self).mouse, old(self).rect) {
                (DragAnchor::Idle, Some(r)) => Some(cursor_for(zone_of(r, p))),
                (DragAnchor::Idle, None) => Some(CursorHint::Clear),
                _ => None,
            },
    {
        let r = match self.rect {
            Some(r) => r,
            None => {
                if let DragAnchor::Idle = self.mouse {
                    return Some(CursorHint::Clear);
                }
                return None;
            },
        };
        let a = self.mouse;
        match a {
            DragAnchor::Idle => {
                return Some(cursor_hint(classify(&r, p)));
            },
            _ => {},
        }
        let m = drag_rect(r, a, p);
        proof {
            lemma_widened(m, BOX_BORDER as int);
        }
        let w = widen(m, BOX_BORDER);
        if !rect_ok(&w) {
            self.mouse = DragAnchor::Idle;
            return None;
        }
        self.rect = Some(w);
        self.width = Some(Extent::Fixed(w.x1 - w.x0));
        self.height = Some(Extent::Fixed(w.y1 - w.y0));
        if w.x0 + origin.x <= CHROME_LEFT || w.y0 + origin.y <= CHROME_TOP || w.x1 + origin.x
            >= window.width - CHROME_RIGHT || w.y1 + origin.y >= window.height - CHROME_BOTTOM {
            self.mouse = DragAnchor::Idle;
        } else {
            self.mouse = match a {
                DragAnchor::Edge(h, _) => DragAnchor::Edge(h, p),
                DragAnchor::Interior(_) => DragAnchor::Interior(p),
                DragAnchor::Idle => DragAnchor::Idle,
            };
        }
        None
    }

    /// Handles the release of the pointer. Returns the box's new origin, which the stack holding
    /// the box is to be told of.
    pub fn pointer_up(&mut self) -> (origin: Option<Point>)
        requires
            old(self).wf(),
        ensures
            final(self).wf(),
            *final(self) == old(self).released(),
            origin == match old(self).rect {
                Some(_) => final(self).new_origin,
                None => None,
            },
    {
        self.mouse = DragAnchor::Idle;
        match (self.rect, self.new_origin) {
            (Some(r), Some(o)) => {
                let n = Point::new(o.x + r.x0, o.y + r.y0);
                if -(4 * COORD_LIMIT) <= n.x && n.x <= 4 * COORD_LIMIT && -(4 * COORD_LIMIT) <= n.y
                    && n.y <= 4 * COORD_LIMIT {
                    self.new_origin = Some(n);
                }
                self.rect = Some(Rect::new(0, 0, r.x1 - r.x0, r.y1 - r.y0));
                self.new_origin
            },
            _ => None,
        }
    }

    /// Handles one pointer event; see `pointer_down`, `pointer_move` and `pointer_up`.
    pub fn event(&mut self, e: PointerEvent, window: Size, origin: Point) -> (r: (
        Option<CursorHint>,
        Option<Point>,
    ))
        requires
            old(self).wf(),
            e.in_range(),
            origin.in_range(),
            size_ok(window),
        ensures
            final(self).wf(),
            *final(self) == old(self).step(e, window, origin),
            match e {
                PointerEvent::Down(p) => *final(self) == (ResizableBox {
                    mouse: match old(self).rect {
                        Some(rc) => anchor_for(zone_of(rc, p), p),
                        None => DragAnchor::Idle,
                    },
                    ..*old(self)
                }) && r == (None::<CursorHint>, None::<Point>),
                PointerEvent::Move(p) => *final(self) == old(self).moved(p, window, origin)
                    && r.1 == None::<Point> && r.0 == match (old(self).mouse, old(self).rect) {
                    (DragAnchor::Idle, Some(rc)) => Some(cursor_for(zone_of(rc, p))),
                    (DragAnchor::Idle, None) => Some(CursorHint::Clear),
                    _ => None,
                },
                PointerEvent::Up => *final(self) == old(self).released() && r.0 == None::<
                    CursorHint,
                > && r.1 == match old(self).rect {
                    Some(_) => final(self).new_origin,
                    None => None,
                },
            },
    {
        match e {
            PointerEvent::Down(p) => {
                self.pointer_down(p);
                (None, None)
            },
            PointerEvent::Move(p) => (self.pointer_move(p, window, origin), None),
            PointerEvent::Up => (None, self.pointer_up()),
        }
    }
}

pub open spec fn axis_constraint(e: Option<Extent>, lo: i64, hi: i64) -> (i64, i64) {
    match e {
        Some(Extent::Fixed(v)) => {
            let c = if v < lo { lo } else if v > hi { hi } else { v };
            (c, c)
        },
        Some(Extent::Expand) => (hi, hi),
        None => (lo, hi),
    }
}

fn resolve_axis(e: Option<Extent>, lo: i64, hi: i64) -> (r: (i64, i64))
    requires
        0 <= lo <= hi,
    ensures
        r == axis_constraint(e, lo, hi),
        0 <= r.0 <= r.1,
{
    match e {
        Some(Extent::Fixed(v)) => {
            let c = if v < lo { lo } else if v > hi { hi } else { v };
            (c, c)
        },
        Some(Extent::Expand) => (hi, hi),
        None => (lo, hi),
    }
}

fn rect_ok(r: &Rect) -> (b: bool)
    requires
        rect_within(*r, 17),
    ensures
        b == box_rect_ok(*r),
{
    let k = 4 * COORD_LIMIT;
    -k <= r.x0 && r.x0 <= k && -k <= r.y0 && r.y0 <= k && -k <= r.x1 && r.x1 <= k && -k <= r.y1
        && r.y1 <= k && -k <= r.x1 - r.x0 && r.x1 - r.x0 <= k && -k <= r.y1 - r.y0 && r.y1 - r.y0
        <= k
}

fn abs_i64(v: i64) -> (r: i64)
    requires
        -(4 * COORD_LIMIT) <= v <= 4 * COORD_LIMIT,
    ensures
        r == abs(v as int),
{
    if v < 0 { -v } else { v }
}

fn drag_rect(r: Rect, a: DragAnchor, p: Point) -> (m: Rect)
    requires
        rect_within(r, 4),
        p.in_range(),
        match a {
            DragAnchor::Edge(_, q) => q.in_range(),
            DragAnchor::Interior(q) => q.in_range(),
            DragAnchor::Idle => true,
        },
    ensures
        m == box_dragged(r, a, p),
        rect_within(m, 8),
{
    match a {
        DragAnchor::Idle => r,
        DragAnchor::Edge(h, q) => {
            let dx = p.x - q.x;
            let dy = p.y - q.y;
            let wide = abs_i64(dx) > abs_i64(dy);
            let d = if wide { dx } else { dy };
            match h {
                Handle::North => Rect { y0: r.y0 + dy, ..r },
                Handle::South => Rect { y1: r.y1 + dy, ..r },
                Handle::East => Rect { x1: r.x1 + dx, ..r },
                Handle::West => Rect { x0: r.x0 + dx, ..r },
                Handle::SouthEast => Rect { x1: r.x1 + d, y1: r.y1 + d, ..r },
                Handle::NorthWest => Rect { x0: r.x0 + d, y0: r.y0 + d, ..r },
                Handle::NorthEast => if wide {
                    Rect { y0: r.y0 - dx, x1: r.x1 + dx, ..r }
                } else {
                    Rect { y0: r.y0 + dy, x1: r.x1 - dy, ..r }
                },
                Handle::SouthWest => if wide {
                    Rect { y1: r.y1 - dx, x0: r.x0 + dx, ..r }
                } else {
                    Rect { y1: r.y1 + dy, x0: r.x0 - dy, ..r }
                },
            }
        },
        DragAnchor::Interior(q) => Rect {
            x0: r.x0 + (p.x - q.x),
            y0: r.y0 + (p.y - q.y),
            x1: r.x1 + (p.x - q.x),
            y1: r.y1 + (p.y - q.y),
        },
    }
}

/// After every pointer move the box keeps each side longer than its border.
pub proof fn lemma_box_valid(b: ResizableBox, p: Point, window: Size, origin: Point)
    requires
        b.wf(),
        b.rect.is_some(),
        b.rect.unwrap().wider_than(BOX_BORDER as int),
        p.in_range(),
    ensures
        b.moved(p, window, origin).rect.unwrap().wider_than(BOX_BORDER as int),
        b.released().rect.unwrap().wider_than(BOX_BORDER as int),
{
    let r = b.rect.unwrap();
    match b.mouse {
        DragAnchor::Idle => {},
        _ => {
            lemma_widened(box_dragged(r, b.mouse, p), BOX_BORDER as int);
        },
    }
}

impl ResizableBox {
    /// The state after one pointer event, in a window of size `window` where the box's
    /// coordinates start at `origin`.
    pub open spec fn step(self, e: PointerEvent, window: Size, origin: Point) -> ResizableBox {
        match e {
            PointerEvent::Down(p) => ResizableBox {
                mouse: match self.rect {
                    Some(r) => anchor_for(zone_of(r, p), p),
                    None => DragAnchor::Idle,
                },
                ..self
            },
            PointerEvent::Move(p) => self.moved(p, window, origin),
            PointerEvent::Up => self.released(),
        }
    }

    /// The state after the events `es`, in order.
    pub open spec fn run(self, es: Seq<PointerEvent>, window: Size, origin: Point) -> ResizableBox
        decreases es.len(),
    {
        if es.len() == 0 {
            self
        } else {
            self.run(es.drop_last(), window, origin).step(es.last(), window, origin)
        }
    }
}

/// One event keeps the box well formed, keeps it placed, and keeps every side longer than the
/// border.
pub proof fn lemma_box_step_valid(b: ResizableBox, e: PointerEvent, window: Size, origin: Point)
    requires
        b.wf(),
        b.rect.is_some(),
        b.rect.unwrap().wider_than(BOX_BORDER as int),
        e.in_range(),
    ensures
        b.step(e, window, origin).wf(),
        b.step(e, window, origin).rect.is_some(),
        b.step(e, window, origin).rect.unwrap().wider_than(BOX_BORDER as int),
{
    match e {
        PointerEvent::Move(p) => {
            lemma_box_valid(b, p, window, origin);
            match b.mouse {
                DragAnchor::Idle => {},
                _ => {
                    lemma_widened(box_dragged(b.rect.unwrap(), b.mouse, p), BOX_BORDER as int);
                },
            }
        },
        _ => {},
    }
}

/// Over any sequence of pointer events, a placed box whose sides are longer than the border
/// keeps them so after each event.
pub proof fn lemma_box_run_valid(b: ResizableBox, es: Seq<PointerEvent>, window: Size, origin: Point)
    requires
        b.wf(),
        b.rect.is_some(),
        b.rect.unwrap().wider_than(BOX_BORDER as int),
        forall|i: int| 0 <= i < es.len() ==> (#[trigger] es[i]).in_range(),
    ensures
        b.run(es, window, origin).wf(),
        b.run(es, window, origin).rect.is_some(),
        b.run(es, window, origin).rect.unwrap().wider_than(BOX_BORDER as int),
    decreases es.len(),
{
    if es.len() > 0 {
        let front = es.drop_last();
        assert forall|i: int| 0 <= i < front.len() implies (#[trigger] front[i]).in_range() by {
            assert(front[i] == es[i]);
        }
        lemma_box_run_valid(b, front, window, origin);
        lemma_box_step_valid(b.run(front, window, origin), es.last(), window, origin);
    }
}

} // verus!

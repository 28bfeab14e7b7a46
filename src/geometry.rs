use vstd::prelude::*;

verus! {

/// Largest magnitude of a pointer coordinate that the editors accept.
pub const COORD_LIMIT: i64 = 1_000_000_000;

/// Half-width of the band around an edge or a corner in which a press grabs it.
pub const DISTANCE_MARGIN: i64 = 10;

/// A position in window pixels.
#[derive(Clone, Copy, Debug, PartialEq, Eq, Structural)]
pub struct Point {
    pub x: i64,
    pub y: i64,
}

pub open spec fn coord_ok(v: int) -> bool {
    -COORD_LIMIT <= v <= COORD_LIMIT
}

impl Point {
    pub open spec fn in_range(&self) -> bool {
        coord_ok(self.x as int) && coord_ok(self.y as int)
    }

    pub fn new(x: i64, y: i64) -> (p: Point)
        ensures
            p.x == x,
            p.y == y,
    {
        Point { x, y }
    }
}

/// A width and a height in pixels.
#[derive(Clone, Copy, Debug, PartialEq, Eq, Structural)]
pub struct Size {
    pub width: i64,
    pub height: i64,
}

impl Size {
    pub fn new(width: i64, height: i64) -> (s: Size)
        ensures
            s.width == width,
            s.height == height,
    {
        Size { width, height }
    }
}

/// An axis-aligned rectangle from `(x0, y0)` to `(x1, y1)`.
#[derive(Clone, Copy, Debug, PartialEq, Eq, Structural)]
pub struct Rect {
    pub x0: i64,
    pub y0: i64,
    pub x1: i64,
    pub y1: i64,
}

/// Every coordinate lies within `k` times the pointer range.
pub open spec fn rect_within(r: Rect, k: int) -> bool {
    &&& -k * COORD_LIMIT <= r.x0 <= k * COORD_LIMIT
    &&& -k * COORD_LIMIT <= r.y0 <= k * COORD_LIMIT
    &&& -k * COORD_LIMIT <= r.x1 <= k * COORD_LIMIT
    &&& -k * COORD_LIMIT <= r.y1 <= k * COORD_LIMIT
}

impl Rect {
    pub fn new(x0: i64, y0: i64, x1: i64, y1: i64) -> (r: Rect)
        ensures
            r == (Rect { x0, y0, x1, y1 }),
    {
        Rect { x0, y0, x1, y1 }
    }

    pub open spec fn spec_width(&self) -> int {
        self.x1 - self.x0
    }

    pub open spec fn spec_height(&self) -> int {
        self.y1 - self.y0
    }

    pub fn width(&self) -> (w: i64)
        requires
            rect_within(*self, 4),
        ensures
            w == self.spec_width(),
    {
        self.x1 - self.x0
    }

    pub fn height(&self) -> (h: i64)
        requires
            rect_within(*self, 4),
        ensures
            h == self.spec_height(),
    {
        self.y1 - self.y0
    }

    /// Both sides are longer than `b`.
    pub open spec fn wider_than(&self, b: int) -> bool {
        self.spec_width() > b && self.spec_height() > b
    }

    /// The rectangle lies inside `outer`.
    pub open spec fn inside(&self, outer: Rect) -> bool {
        outer.x0 <= self.x0 && self.x0 <= self.x1 && self.x1 <= outer.x1 && outer.y0 <= self.y0
            && self.y0 <= self.y1 && self.y1 <= outer.y1
    }
}

/// One of the eight grab handles on a rectangle's border.
#[derive(Clone, Copy, Debug, PartialEq, Eq, Structural)]
pub enum Handle {
    North,
    NorthEast,
    East,
    SouthEast,
    South,
    SouthWest,
    West,
    NorthWest,
}

/// Where a pointer stands relative to a rectangle.
#[derive(Clone, Copy, Debug, PartialEq, Eq, Structural)]
pub enum Zone {
    Handle(Handle),
    Inside,
    Outside,
}

/// The cursor to show while hovering over a zone.
#[derive(Clone, Copy, Debug, PartialEq, Eq, Structural)]
pub enum CursorHint {
    ResizeUpDown,
    ResizeLeftRight,
    Crosshair,
    Clear,
}

/// What a pressed pointer is dragging, with the pointer position last seen.
#[derive(Clone, Copy, Debug, PartialEq, Eq, Structural)]
pub enum DragAnchor {
    Idle,
    Edge(Handle, Point),
    Interior(Point),
}

/// The drag that a press in zone `z` at `p` starts.
pub open spec fn anchor_for(z: Zone, p: Point) -> DragAnchor {
    match z {
        Zone::Handle(h) => DragAnchor::Edge(h, p),
        Zone::Inside => DragAnchor::Interior(p),
        Zone::Outside => DragAnchor::Idle,
    }
}

pub fn anchor_at(z: Zone, p: Point) -> (a: DragAnchor)
    ensures
        a == anchor_for(z, p),
{
    match z {
        Zone::Handle(h) => DragAnchor::Edge(h, p),
        Zone::Inside => DragAnchor::Interior(p),
        Zone::Outside => DragAnchor::Idle,
    }
}

/// A pointer event as the editors receive it.
#[derive(Clone, Copy, Debug, PartialEq, Eq, Structural)]
pub enum PointerEvent {
    Down(Point),
    Move(Point),
    Up,
}

impl PointerEvent {
    pub open spec fn in_range(&self) -> bool {
        match *self {
            PointerEvent::Down(p) => p.in_range(),
            PointerEvent::Move(p) => p.in_range(),
            PointerEvent::Up => true,
        }
    }
}

pub open spec fn abs(v: int) -> int {
    if v < 0 { -v } else { v }
}

pub open spec fn near(a: int, b: int) -> bool {
    -DISTANCE_MARGIN < a - b < DISTANCE_MARGIN
}

/// Corners win over edges, edges over the interior.
pub open spec fn zone_of(r: Rect, p: Point) -> Zone {
    if near(p.x as int, r.x0 as int) {
        if near(p.y as int, r.y0 as int) {
            Zone::Handle(Handle::NorthWest)
        } else if near(p.y as int, r.y1 as int) {
            Zone::Handle(Handle::SouthWest)
        } else {
            Zone::Handle(Handle::West)
        }
    } else if near(p.x as int, r.x1 as int) {
        if near(p.y as int, r.y0 as int) {
            Zone::Handle(Handle::NorthEast)
        } else if near(p.y as int, r.y1 as int) {
            Zone::Handle(Handle::SouthEast)
        } else {
            Zone::Handle(Handle::East)
        }
    } else if near(p.y as int, r.y0 as int) {
        Zone::Handle(Handle::North)
    } else if near(p.y as int, r.y1 as int) {
        Zone::Handle(Handle::South)
    } else if r.y0 < p.y && p.y < r.y1 && r.x0 < p.x && p.x < r.x1 {
        Zone::Inside
    } else {
        Zone::Outside
    }
}

fn is_near(a: i64, b: i64) -> (r: bool)
    requires
        -(8 * COORD_LIMIT) <= a <= 8 * COORD_LIMIT,
        -(8 * COORD_LIMIT) <= b <= 8 * COORD_LIMIT,
    ensures
        r == near(a as int, b as int),
{
    let d = a - b;
    -DISTANCE_MARGIN < d && d < DISTANCE_MARGIN
}

/// Classifies a pointer position against a rectangle.
pub fn classify(r: &Rect, p: Point) -> (z: Zone)
    requires
        rect_within(*r, 4),
        p.in_range(),
    ensures
        z == zone_of(*r, p),
{
    if is_near(p.x, r.x0) {
        if is_near(p.y, r.y0) {
            Zone::Handle(Handle::NorthWest)
        } else if is_near(p.y, r.y1) {
            Zone::Handle(Handle::SouthWest)
        } else {
            Zone::Handle(Handle::West)
        }
    } else if is_near(p.x, r.x1) {
        if is_near(p.y, r.y0) {
            Zone::Handle(Handle::NorthEast)
        } else if is_near(p.y, r.y1) {
            Zone::Handle(Handle::SouthEast)
        } else {
            Zone::Handle(Handle::East)
        }
    } else if is_near(p.y, r.y0) {
        Zone::Handle(Handle::North)
    } else if is_near(p.y, r.y1) {
        Zone::Handle(Handle::South)
    } else if r.y0 < p.y && p.y < r.y1 && r.x0 < p.x && p.x < r.x1 {
        Zone::Inside
    } else {
        Zone::Outside
    }
}

pub open spec fn cursor_for(z: Zone) -> CursorHint {
    match z {
        Zone::Handle(Handle::North) | Zone::Handle(Handle::South) => CursorHint::ResizeUpDown,
        Zone::Handle(Handle::East) | Zone::Handle(Handle::West) => CursorHint::ResizeLeftRight,
        Zone::Handle(_) => CursorHint::Crosshair,
        _ => CursorHint::Clear,
    }
}

/// The hover cursor for a zone: edges resize along their axis, corners show a crosshair.
pub fn cursor_hint(z: Zone) -> (c: CursorHint)
    ensures
        c == cursor_for(z),
{
    match z {
        Zone::Handle(Handle::North) | Zone::Handle(Handle::South) => CursorHint::ResizeUpDown,
        Zone::Handle(Handle::East) | Zone::Handle(Handle::West) => CursorHint::ResizeLeftRight,
        Zone::Handle(_) => CursorHint::Crosshair,
        _ => CursorHint::Clear,
    }
}

/// Pushes `lo` and `hi` apart by `b + 1` on each side until `hi - lo > b`.
pub open spec fn grow_span(lo: int, hi: int, b: int) -> (int, int)
    decreases (if hi - lo > b { 0 } else { b + 1 - (hi - lo) }),
{
    if hi - lo > b || b < 0 {
        (lo, hi)
    } else {
        grow_span(lo - (b + 1), hi + (b + 1), b)
    }
}

pub proof fn lemma_grow_span(lo: int, hi: int, b: int)
    requires
        b >= 0,
    ensures
        grow_span(lo, hi, b).1 - grow_span(lo, hi, b).0 > b,
        grow_span(lo, hi, b).0 <= lo,
        lo - grow_span(lo, hi, b).0 == grow_span(lo, hi, b).1 - hi,
        hi - lo > b ==> grow_span(lo, hi, b) == (lo, hi),
        hi - lo <= b ==> grow_span(lo, hi, b).1 - grow_span(lo, hi, b).0 <= 3 * b + 2,
    decreases (if hi - lo > b { 0 } else { b + 1 - (hi - lo) }),
{
    if hi - lo <= b {
        lemma_grow_span(lo - (b + 1), hi + (b + 1), b);
    }
}

/// The rectangle after the corrective pass: each too-thin axis is widened symmetrically.
pub open spec fn widened(r: Rect, b: int) -> Rect {
    let (x0, x1) = grow_span(r.x0 as int, r.x1 as int, b);
    let (y0, y1) = grow_span(r.y0 as int, r.y1 as int, b);
    Rect { x0: x0 as i64, y0: y0 as i64, x1: x1 as i64, y1: y1 as i64 }
}

/// Bounds on the corrective pass, for spans of at most `8 * COORD_LIMIT` in magnitude.
pub proof fn lemma_grow_span_bounds(lo: int, hi: int, b: int)
    requires
        0 <= b <= 10,
        -(8 * COORD_LIMIT) <= lo <= 8 * COORD_LIMIT,
        -(8 * COORD_LIMIT) <= hi <= 8 * COORD_LIMIT,
    ensures
        -(17 * COORD_LIMIT) <= grow_span(lo, hi, b).0 <= grow_span(lo, hi, b).1 <= 17 * COORD_LIMIT,
{
    lemma_grow_span(lo, hi, b);
}

/// Widening leaves every side longer than `b` and keeps the coordinates in range.
pub proof fn lemma_widened(r: Rect, b: int)
    requires
        0 <= b <= 10,
        rect_within(r, 8),
    ensures
        widened(r, b).wider_than(b),
        rect_within(widened(r, b), 17),
        widened(r, b).x0 <= r.x0,
        widened(r, b).y0 <= r.y0,
        widened(r, b).x1 >= r.x1,
        widened(r, b).y1 >= r.y1,
        widened(r, b).x0 as int == grow_span(r.x0 as int, r.x1 as int, b).0,
        widened(r, b).x1 as int == grow_span(r.x0 as int, r.x1 as int, b).1,
        widened(r, b).y0 as int == grow_span(r.y0 as int, r.y1 as int, b).0,
        widened(r, b).y1 as int == grow_span(r.y0 as int, r.y1 as int, b).1,
{
    lemma_grow_span(r.x0 as int, r.x1 as int, b);
    lemma_grow_span(r.y0 as int, r.y1 as int, b);
    lemma_grow_span_bounds(r.x0 as int, r.x1 as int, b);
    lemma_grow_span_bounds(r.y0 as int, r.y1 as int, b);
}

fn widen_span(lo: i64, hi: i64, b: i64) -> (r: (i64, i64))
    requires
        0 <= b <= 10,
        -(8 * COORD_LIMIT) <= lo <= 8 * COORD_LIMIT,
        -(8 * COORD_LIMIT) <= hi <= 8 * COORD_LIMIT,
    ensures
        (r.0 as int, r.1 as int) == grow_span(lo as int, hi as int, b as int),
{
    proof {
        lemma_grow_span_bounds(lo as int, hi as int, b as int);
    }
    let mut a: i64 = lo;
    let mut c: i64 = hi;
    while c - a <= b
        invariant
            0 <= b <= 10,
            -(8 * COORD_LIMIT) <= lo <= 8 * COORD_LIMIT,
            -(8 * COORD_LIMIT) <= hi <= 8 * COORD_LIMIT,
            a <= lo,
            c - a == (hi - lo) + 2 * (lo - a),
            lo - a > 0 ==> c - a <= 3 * b + 2,
            grow_span(a as int, c as int, b as int) == grow_span(lo as int, hi as int, b as int),
        decreases (if c - a > b { 0 } else { b + 1 - (c - a) }),
    {
        a = a - (b + 1);
        c = c + (b + 1);
    }
    (a, c)
}

/// Runs the corrective pass on `r`.
pub fn widen(r: Rect, b: i64) -> (w: Rect)
    requires
        0 <= b <= 10,
        rect_within(r, 8),
    ensures
        w == widened(r, b as int),
        w.wider_than(b as int),
        rect_within(w, 17),
{
    proof {
        lemma_widened(r, b as int);
    }
    let (x0, x1) = widen_span(r.x0, r.x1, b);
    let (y0, y1) = widen_span(r.y0, r.y1, b);
    Rect { x0, y0, x1, y1 }
}

} // verus!

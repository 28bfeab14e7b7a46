use vstd::prelude::*;
use crate::geometry::{
    anchor_at, anchor_for, classify, cursor_for, cursor_hint, lemma_widened, widen, widened,
    zone_of, CursorHint, DragAnchor, Handle, Point, PointerEvent, Rect, Size, COORD_LIMIT,
    rect_within,
};

verus! {

/// Width of the selection border; every side of the selection stays longer than this.
pub const SELECT_BORDER: i64 = 5;

/// The full-screen region selector: a rectangle the user drags and resizes inside a fixed bound.
#[derive(Clone, Copy, Debug)]
pub struct SelectedRect {
    pub rect: Rect,
    pub mouse: DragAnchor,
    pub show_overlay: bool,
    pub fix_rect: Rect,
}

/// Pulls a rectangle back inside `bound`; an escaping far edge ends up `b` inside the bound.
pub open spec fn clamped(r: Rect, bound: Rect, b: int) -> Rect {
    Rect {
        x0: if r.x0 < bound.x0 { bound.x0 } else { r.x0 },
        y0: if r.y0 < bound.y0 { bound.y0 } else { r.y0 },
        x1: if r.x1 > bound.x1 { (bound.x1 - b) as i64 } else { r.x1 },
        y1: if r.y1 > bound.y1 { (bound.y1 - b) as i64 } else { r.y1 },
    }
}

/// The corrective pass followed by the clamp, as run after every event.
pub open spec fn settled(r: Rect, bound: Rect) -> Rect {
    clamped(widened(r, SELECT_BORDER as int), bound, SELECT_BORDER as int)
}

/// A side was pushed past an edge of the bound while the opposite side lay so near that edge
/// that pulling the rectangle back leaves a side no longer than the border.
pub open spec fn pushed_out(r: Rect, bound: Rect) -> bool {
    ||| r.x1 > bound.x1 && r.x0 >= bound.x1 - 2 * SELECT_BORDER
    ||| r.y1 > bound.y1 && r.y0 >= bound.y1 - 2 * SELECT_BORDER
    ||| r.x0 < bound.x0 && r.x1 <= bound.x0 + SELECT_BORDER
    ||| r.y0 < bound.y0 && r.y1 <= bound.y0 + SELECT_BORDER
}

/// A bound that a selector can take: anchored at the origin, larger than two borders.
pub open spec fn bound_ok(bound: Rect) -> bool {
    &&& bound.x0 == 0
    &&& bound.y0 == 0
    &&& 2 * SELECT_BORDER < bound.x1 <= COORD_LIMIT
    &&& 2 * SELECT_BORDER < bound.y1 <= COORD_LIMIT
}

/// The rectangle a drag produces before the corrective pass.
pub open spec fn select_dragged(r: Rect, a: DragAnchor, p: Point) -> Rect {
    match a {
        DragAnchor::Idle => r,
        DragAnchor::Edge(h, _) => match h {
            Handle::North => Rect { y0: p.y, ..r },
            Handle::NorthEast => Rect { y0: p.y, x1: p.x, ..r },
            Handle::East => Rect { x1: p.x, ..r },
            Handle::SouthEast => Rect { y1: p.y, x1: p.x, ..r },
            Handle::South => Rect { y1: p.y, ..r },
            Handle::SouthWest => Rect { y1: p.y, x0: p.x, ..r },
            Handle::West => Rect { x0: p.x, ..r },
            Handle::NorthWest => Rect { y0: p.y, x0: p.x, ..r },
        },
        DragAnchor::Interior(q) => Rect {
            x0: (r.x0 + (p.x - q.x)) as i64,
            y0: (r.y0 + (p.y - q.y)) as i64,
            x1: (r.x1 + (p.x - q.x)) as i64,
            y1: (r.y1 + (p.y - q.y)) as i64,
        },
    }
}

impl SelectedRect {
    /// The selection rectangle.
    pub open spec fn spec_rect(&self) -> Rect {
        self.rect
    }

    /// The bound that the selection is kept inside.
    pub open spec fn spec_bound(&self) -> Rect {
        self.fix_rect
    }

    pub open spec fn spec_mouse(&self) -> DragAnchor {
        self.mouse
    }

    pub open spec fn spec_show_overlay(&self) -> bool {
        self.show_overlay
    }

    /// Coordinates stay in range; an interior drag keeps the rectangle within reach of the
    /// pointer that drags it.
    pub open spec fn wf(&self) -> bool {
        &&& bound_ok(self.fix_rect)
        &&& 0 <= self.rect.x0 <= 2 * COORD_LIMIT
        &&& 0 <= self.rect.y0 <= 2 * COORD_LIMIT
        &&& -2 * COORD_LIMIT <= self.rect.x1 <= self.fix_rect.x1
        &&& -2 * COORD_LIMIT <= self.rect.y1 <= self.fix_rect.y1
        &&& match self.mouse {
            DragAnchor::Interior(q) => {
                &&& q.in_range()
                &&& self.rect.x0 <= q.x + COORD_LIMIT
                &&& self.rect.y0 <= q.y + COORD_LIMIT
                &&& self.rect.x1 >= q.x - COORD_LIMIT
                &&& self.rect.y1 >= q.y - COORD_LIMIT
            },
            _ => true,
        }
    }

    /// The rectangle that event `e` produces before the corrective pass.
    pub open spec fn step_dragged(self, e: PointerEvent) -> Rect {
        match e {
            PointerEvent::Move(p) => select_dragged(self.rect, self.mouse, p),
            _ => self.rect,
        }
    }

    /// The state after one event.
    pub open spec fn step(self, e: PointerEvent) -> SelectedRect {
        let (mouse, show_overlay) = match e {
            PointerEvent::Down(p) => (anchor_for(zone_of(self.rect, p), p), true),
            PointerEvent::Move(p) => match self.mouse {
                DragAnchor::Interior(_) => (DragAnchor::Interior(p), true),
                _ => (self.mouse, self.show_overlay),
            },
            PointerEvent::Up => (DragAnchor::Idle, false),
        };
        SelectedRect {
            rect: settled(self.step_dragged(e), self.fix_rect),
            mouse,
            show_overlay,
            fix_rect: self.fix_rect,
        }
    }

    /// A selector covering the whole of a `width` by `height` screen.
    pub fn new(width: i64, height: i64) -> (s: SelectedRect)
        requires
            2 * SELECT_BORDER < width <= COORD_LIMIT,
            2 * SELECT_BORDER < height <= COORD_LIMIT,
        ensures
            s.wf(),
            s.spec_rect() == (Rect { x0: 0, y0: 0, x1: width, y1: height }),
            s.spec_bound() == s.spec_rect(),
            s.spec_mouse() == DragAnchor::Idle,
            !s.spec_show_overlay(),
    {
        let rect = Rect::new(0, 0, width, height);
        SelectedRect { rect, mouse: DragAnchor::Idle, show_overlay: false, fix_rect: rect }
    }

    pub fn rect(&self) -> (r: Rect)
        ensures
            r == self.spec_rect(),
    {
        self.rect
    }

    pub fn bound(&self) -> (r: Rect)
        ensures
            r == self.spec_bound(),
    {
        self.fix_rect
    }

    /// Whether the darkened surround and the border are drawn as during a drag.
    pub fn show_overlay(&self) -> (b: bool)
        ensures
            b == self.spec_show_overlay(),
    {
        self.show_overlay
    }

    /// The drag a press at `p` would start.
    pub fn where_mouse_is(&self, p: Point) -> (a: DragAnchor)
        requires
            self.wf(),
            p.in_range(),
        ensures
            a == anchor_for(zone_of(self.spec_rect(), p), p),
    {
        anchor_at(classify(&self.rect, p), p)
    }

    /// Resets the selection and its bound to the full extent of `rect`'s size, and drops any drag.
    pub fn reset_rect(&mut self, rect: &Rect)
        requires
            2 * SELECT_BORDER < rect.spec_width() <= COORD_LIMIT,
            2 * SELECT_BORDER < rect.spec_height() <= COORD_LIMIT,
        ensures
            final(self).wf(),
            final(self).spec_rect().x0 == 0,
            final(self).spec_rect().y0 == 0,
            final(self).spec_rect().x1 == rect.spec_width(),
            final(self).spec_rect().y1 == rect.spec_height(),
            final(self).spec_bound() == final(self).spec_rect(),
            final(self).spec_mouse() == DragAnchor::Idle,
            !final(self).spec_show_overlay(),
    {
        let w = rect.x1 - rect.x0;
        let h = rect.y1 - rect.y0;
        let r = Rect::new(0, 0, w, h);
        self.rect = r;
        self.mouse = DragAnchor::Idle;
        self.show_overlay = false;
        self.fix_rect = r;
    }

    /// Handles one pointer event: updates the drag, moves the selection, then runs the corrective
    /// pass and the clamp. Returns the hover cursor when the pointer moves without a drag.
    pub fn event(&mut self, e: PointerEvent) -> (cursor: Option<CursorHint>)
        requires
            old(self).wf(),
            e.in_range(),
        ensures
            final(self).wf(),
            *final(self) == old(self).step(e),
            cursor == match e {
                PointerEvent::Move(p) => match old(self).spec_mouse() {
                    DragAnchor::Idle => Some(cursor_for(zone_of(old(self).spec_rect(), p))),
                    _ => None,
                },
                _ => None,
            },
    {
        let mut cursor: Option<CursorHint> = None;
        let mut r = self.rect;
        match e {
            PointerEvent::Down(p) => {
                let z = classify(&self.rect, p);
                self.mouse = anchor_at(z, p);
                self.show_overlay = true;
            },
            PointerEvent::Move(p) => {
                match self.mouse {
                    DragAnchor::Idle => {
                        cursor = Some(cursor_hint(classify(&self.rect, p)));
                    },
                    DragAnchor::Edge(h, _) => {
                        match h {
                            Handle::North => {
                                r.y0 = p.y;
                            },
                            Handle::NorthEast => {
                                r.y0 = p.y;
                                r.x1 = p.x;
                            },
                            Handle::East => {
                                r.x1 = p.x;
                            },
                            Handle::SouthEast => {
                                r.y1 = p.y;
                                r.x1 = p.x;
                            },
                            Handle::South => {
                                r.y1 = p.y;
                            },
                            Handle::SouthWest => {
                                r.y1 = p.y;
                                r.x0 = p.x;
                            },
                            Handle::West => {
                                r.x0 = p.x;
                            },
                            Handle::NorthWest => {
                                r.y0 = p.y;
                                r.x0 = p.x;
                            },
                        }
                    },
                    DragAnchor::Interior(q) => {
                        r.x0 = r.x0 + (p.x - q.x);
                        r.y0 = r.y0 + (p.y - q.y);
                        r.x1 = r.x1 + (p.x - q.x);
                        r.y1 = r.y1 + (p.y - q.y);
                        self.mouse = DragAnchor::Interior(p);
                        self.show_overlay = true;
                    },
                }
            },
            PointerEvent::Up => {
                self.mouse = DragAnchor::Idle;
                self.show_overlay = false;
            },
        }
        proof {
            lemma_widened(r, SELECT_BORDER as int);
        }
        let w = widen(r, SELECT_BORDER);
        self.rect = clamp(w, &self.fix_rect);
        cursor
    }

    /// Sizes the selector for a layout pass: a selection larger than the available space is reset
    /// to cover it; the result is the selection plus a border on each side when no drag is shown,
    /// kept within `min` and `max`.
    pub fn layout(&mut self, min: Size, max: Size) -> (s: Size)
        requires
            old(self).wf(),
            0 <= min.width <= max.width,
            0 <= min.height <= max.height,
            2 * SELECT_BORDER < max.width <= COORD_LIMIT,
            2 * SELECT_BORDER < max.height <= COORD_LIMIT,
        ensures
            final(self).wf(),
            final(self).spec_mouse() == old(self).spec_mouse(),
            final(self).spec_show_overlay() == old(self).spec_show_overlay(),
            old(self).spec_rect().spec_width() > max.width || old(self).spec_rect().spec_height()
                > max.height ==> final(self).spec_rect() == (Rect {
                x0: 0,
                y0: 0,
                x1: max.width,
                y1: max.height,
            }) && final(self).spec_bound() == final(self).spec_rect(),
            !(old(self).spec_rect().spec_width() > max.width || old(self).spec_rect().spec_height()
                > max.height) ==> *final(self) == *old(self),
            s.width == clamp_to(
                final(self).spec_rect().spec_width() + 2 * pad(final(self).spec_show_overlay()),
                min.width as int,
                max.width as int,
            ),
            s.height == clamp_to(
                final(self).spec_rect().spec_height() + 2 * pad(final(self).spec_show_overlay()),
                min.height as int,
                max.height as int,
            ),
    {
        if self.rect.x1 - self.rect.x0 > max.width || self.rect.y1 - self.rect.y0 > max.height {
            let r = Rect::new(0, 0, max.width, max.height);
            self.rect = r;
            self.fix_rect = r;
        }
        let padding: i64 = if self.show_overlay { 0 } else { SELECT_BORDER };
        let w = self.rect.x1 - self.rect.x0 + padding * 2;
        let h = self.rect.y1 - self.rect.y0 + padding * 2;
        Size::new(clamp_i64(w, min.width, max.width), clamp_i64(h, min.height, max.height))
    }
}

pub open spec fn pad(show_overlay: bool) -> int {
    if show_overlay { 0 } else { SELECT_BORDER as int }
}

pub open spec fn clamp_to(v: int, lo: int, hi: int) -> int {
    if v < lo { lo } else if v > hi { hi } else { v }
}

fn clamp_i64(v: i64, lo: i64, hi: i64) -> (r: i64)
    requires
        lo <= hi,
    ensures
        r == clamp_to(v as int, lo as int, hi as int),
{
    if v < lo { lo } else if v > hi { hi } else { v }
}

fn clamp(r: Rect, bound: &Rect) -> (c: Rect)
    requires
        bound_ok(*bound),
    ensures
        c == clamped(r, *bound, SELECT_BORDER as int),
{
    let mut c = r;
    if c.x0 < bound.x0 {
        c.x0 = bound.x0;
    }
    if c.y0 < bound.y0 {
        c.y0 = bound.y0;
    }
    if c.x1 > bound.x1 {
        c.x1 = bound.x1 - SELECT_BORDER;
    }
    if c.y1 > bound.y1 {
        c.y1 = bound.y1 - SELECT_BORDER;
    }
    c
}

/// After every event the selection keeps each side longer than the border and lies inside its
/// bound, unless the drag pushed it out of the bound so far that pulling it back leaves a side
/// too short.
pub proof fn lemma_selection_valid(r: Rect, bound: Rect)
    requires
        bound_ok(bound),
        rect_within(r, 4),
        !pushed_out(widened(r, SELECT_BORDER as int), bound),
    ensures
        settled(r, bound).wider_than(SELECT_BORDER as int),
        settled(r, bound).inside(bound),
{
    lemma_widened(r, SELECT_BORDER as int);
}

/// The law above, stated of a selector and the event it receives.
pub proof fn lemma_selection_event_valid(s: SelectedRect, e: PointerEvent)
    requires
        s.wf(),
        e.in_range(),
        !pushed_out(
            widened(s.step_dragged(e), SELECT_BORDER as int),
            s.spec_bound(),
        ),
    ensures
        s.step(e).spec_rect().wider_than(SELECT_BORDER as int),
        s.step(e).spec_rect().inside(s.spec_bound()),
{
    lemma_selection_valid(s.step_dragged(e), s.spec_bound());
}

/// Clamping alone keeps the near sides of the selection inside the bound and the far sides
/// from passing it, whatever the drag did.
pub proof fn lemma_selection_clamped(r: Rect, bound: Rect)
    requires
        bound_ok(bound),
        rect_within(r, 4),
    ensures
        bound.x0 <= settled(r, bound).x0,
        bound.y0 <= settled(r, bound).y0,
        settled(r, bound).x1 <= bound.x1,
        settled(r, bound).y1 <= bound.y1,
{
    lemma_widened(r, SELECT_BORDER as int);
}

impl SelectedRect {
    /// The state after the events `es`, in order.
    pub open spec fn run(self, es: Seq<PointerEvent>) -> SelectedRect
        decreases es.len(),
    {
        if es.len() == 0 {
            self
        } else {
            self.run(es.drop_last()).step(es.last())
        }
    }
}

/// One event keeps the selector well formed and its bound fixed.
pub proof fn lemma_selection_step_wf(s: SelectedRect, e: PointerEvent)
    requires
        s.wf(),
        e.in_range(),
    ensures
        s.step(e).wf(),
        s.step(e).spec_bound() == s.spec_bound(),
{
    lemma_widened(s.step_dragged(e), SELECT_BORDER as int);
}

/// Over any sequence of pointer events the selector stays well formed, and after each event its
/// sides are longer than the border and it lies inside its bound, unless that event pushed it
/// out of the bound (see `pushed_out`).
pub proof fn lemma_selection_run_valid(s: SelectedRect, es: Seq<PointerEvent>)
    requires
        s.wf(),
        forall|i: int| 0 <= i < es.len() ==> (#[trigger] es[i]).in_range(),
        forall|i: int|
            0 <= i < es.len() ==> !pushed_out(
                widened(s.run(#[trigger] es.take(i)).step_dragged(es[i]), SELECT_BORDER as int),
                s.spec_bound(),
            ),
    ensures
        s.run(es).wf(),
        s.run(es).spec_bound() == s.spec_bound(),
        es.len() > 0 ==> s.run(es).spec_rect().wider_than(SELECT_BORDER as int),
        es.len() > 0 ==> s.run(es).spec_rect().inside(s.spec_bound()),
    decreases es.len(),
{
    if es.len() > 0 {
        let front = es.drop_last();
        assert forall|i: int| 0 <= i < front.len() implies front.take(i) == es.take(i) by {
            assert(front.take(i) =~= es.take(i));
        }
        assert forall|i: int| 0 <= i < front.len() implies (#[trigger] front[i]).in_range() by {
            assert(front[i] == es[i]);
        }
        assert forall|i: int|
            0 <= i < front.len() implies !pushed_out(
            widened(s.run(#[trigger] front.take(i)).step_dragged(front[i]), SELECT_BORDER as int),
            s.spec_bound(),
        ) by {
            assert(front.take(i) == es.take(i));
            assert(front[i] == es[i]);
        }
        lemma_selection_run_valid(s, front);
        let prev = s.run(front);
        let last = es.last();
        assert(es.take(es.len() - 1) =~= front);
        assert(es[es.len() - 1] == last);
        lemma_selection_step_wf(prev, last);
        lemma_selection_event_valid(prev, last);
    }
}

} // verus!

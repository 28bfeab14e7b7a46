use vstd::prelude::*;
use crate::compose::{blend_overlay, overlaid, pixels_of, resize_image};
use crate::geometry::{Point, Rect, Size, COORD_LIMIT};
use crate::raster::{nearest_resampled, raw_bytes, tinted, RasterImage, Rgba};

verus! {

/// Fractions of a size are written in thousandths.
pub const UNIT: i64 = 1000;

/// Side of the square box an overlay is first shown in.
pub const OVERLAY_BOX: i64 = 50;

/// Offset of a freshly shown overlay from the centre of the stack.
pub const OVERLAY_OFFSET: i64 = 5;

/// Catalog slot of the rendered text overlay.
pub const TEXT_SLOT: usize = 4;

/// The overlays a user can ask for.
#[derive(Clone, Copy, Debug, PartialEq, Eq, Structural)]
pub enum OverImages {
    Circles,
    Triangle,
    Arrow,
    Highlighter,
    Remove,
    Text,
}

/// A point of a rectangle in thousandths of its width and height: `(0, 0)` is the top-left
/// corner, `(1000, 1000)` the bottom-right one.
#[derive(Clone, Copy, Debug, PartialEq, Eq, Structural)]
pub struct UnitPoint {
    pub x: i64,
    pub y: i64,
}

impl UnitPoint {
    pub open spec fn valid(&self) -> bool {
        0 <= self.x <= UNIT && 0 <= self.y <= UNIT
    }

    /// The centre.
    pub fn center() -> (u: UnitPoint)
        ensures
            u == (UnitPoint { x: 500, y: 500 }),
    {
        UnitPoint { x: 500, y: 500 }
    }
}

/// `v` times `f` thousandths, rounded toward zero.
pub open spec fn scale(v: int, f: int) -> int {
    if v >= 0 {
        v * f / 1000
    } else {
        -((-v) * f / 1000)
    }
}

fn scale_i64(v: i64, f: i64) -> (r: i64)
    requires
        -(4 * COORD_LIMIT) <= v <= 4 * COORD_LIMIT,
        0 <= f <= UNIT,
    ensures
        r == scale(v as int, f as int),
        v >= 0 ==> 0 <= r <= v,
        v < 0 ==> v <= r <= 0,
{
    if v >= 0 {
        assert(0 <= v * f <= v * 1000) by (nonlinear_arith)
            requires
                0 <= v,
                0 <= f <= 1000,
        ;
        assert(v * f / 1000 <= v) by (nonlinear_arith)
            requires
                0 <= v * f <= v * 1000,
        ;
        v * f / 1000
    } else {
        assert(0 <= (-v) * f <= (-v) * 1000) by (nonlinear_arith)
            requires
                v < 0,
                0 <= f <= 1000,
        ;
        assert((-v) * f / 1000 <= -v) by (nonlinear_arith)
            requires
                0 <= (-v) * f <= (-v) * 1000,
        ;
        -(((-v) * f) / 1000)
    }
}

/// One layer of the stack, and where the last layout pass put it.
#[derive(Clone, Copy, Debug, PartialEq, Eq, Structural)]
pub struct ZChild {
    /// The share of the base layer's size the layer may take.
    pub relative_size: UnitPoint,
    /// Pixels added to the relative share.
    pub absolute_size: Size,
    /// Where the layer sits in the space the base layer leaves around it.
    pub position: UnitPoint,
    /// Pixels added to the position.
    pub offset: Point,
    pub layout_rect: Rect,
}

pub open spec fn size_in_range(s: Size) -> bool {
    0 <= s.width <= COORD_LIMIT && 0 <= s.height <= COORD_LIMIT
}

impl ZChild {
    pub open spec fn wf(&self) -> bool {
        &&& self.relative_size.valid()
        &&& self.position.valid()
        &&& size_in_range(self.absolute_size)
        &&& self.offset.in_range()
    }

    /// The base layer: it takes the whole size, centred, with no offset.
    pub fn base() -> (c: ZChild)
        ensures
            c.wf(),
            c.relative_size == (UnitPoint { x: UNIT, y: UNIT }),
            c.absolute_size == (Size { width: 0, height: 0 }),
            c.position == (UnitPoint { x: 500, y: 500 }),
            c.offset == (Point { x: 0, y: 0 }),
            c.layout_rect == (Rect { x0: 0, y0: 0, x1: 0, y1: 0 }),
    {
        ZChild {
            relative_size: UnitPoint { x: UNIT, y: UNIT },
            absolute_size: Size::new(0, 0),
            position: UnitPoint::center(),
            offset: Point::new(0, 0),
            layout_rect: Rect::new(0, 0, 0, 0),
        }
    }

    /// The largest size the layer may take when the base layer has size `available`.
    pub fn resolve_max_size(&self, available: Size) -> (s: Size)
        requires
            self.wf(),
            size_in_range(available),
        ensures
            s.width == self.absolute_size.width + scale(
                available.width as int,
                self.relative_size.x as int,
            ),
            s.height == self.absolute_size.height + scale(
                available.height as int,
                self.relative_size.y as int,
            ),
    {
        Size::new(
            self.absolute_size.width + scale_i64(available.width, self.relative_size.x),
            self.absolute_size.height + scale_i64(available.height, self.relative_size.y),
        )
    }

    /// The layer's origin when the base layer leaves `remaining` around it.
    pub fn resolve_point(&self, remaining: Size) -> (p: Point)
        requires
            self.wf(),
            -(2 * COORD_LIMIT) <= remaining.width <= 2 * COORD_LIMIT,
            -(2 * COORD_LIMIT) <= remaining.height <= 2 * COORD_LIMIT,
        ensures
            p.x == scale(remaining.width as int, self.position.x as int) + self.offset.x,
            p.y == scale(remaining.height as int, self.position.y as int) + self.offset.y,
            -(3 * COORD_LIMIT) <= p.x <= 3 * COORD_LIMIT,
            -(3 * COORD_LIMIT) <= p.y <= 3 * COORD_LIMIT,
    {
        Point::new(
            scale_i64(remaining.width, self.position.x) + self.offset.x,
            scale_i64(remaining.height, self.position.y) + self.offset.y,
        )
    }
}

/// The layer an overlay is shown in: it may take the whole stack, centred, slightly offset.
pub open spec fn overlay_child() -> ZChild {
    ZChild {
        relative_size: UnitPoint { x: UNIT, y: UNIT },
        absolute_size: Size { width: 0, height: 0 },
        position: UnitPoint { x: 500, y: 500 },
        offset: Point { x: OVERLAY_OFFSET, y: OVERLAY_OFFSET },
        layout_rect: Rect { x0: 0, y0: 0, x1: 0, y1: 0 },
    }
}

/// A stack of layers over a screenshot: the last layer is the base, at most one overlay lies on
/// top of it, and a catalog of overlay bitmaps can be tinted and baked into the screenshot.
#[derive(Debug)]
pub struct CustomZStack {
    pub layers: Vec<ZChild>,
    pub back_img: Option<RasterImage>,
    pub back_img_origin: Option<Point>,
    /// The tint: a colour, if one was chosen, and an opacity in percent.
    pub color: (Option<Rgba>, u8),
    pub over_images: Option<Vec<RasterImage>>,
    pub showing_over_img: Option<usize>,
}

/// The catalog after a tint: every image keeps its size and has each pixel tinted.
pub open spec fn catalog_tinted(
    before: Seq<RasterImage>,
    after: Seq<RasterImage>,
    color: Option<Rgba>,
    pct: int,
) -> bool {
    &&& after.len() == before.len()
    &&& forall|i: int| 0 <= i < before.len() ==> #[trigger] image_tinted(before[i], after[i], color, pct)
}

/// `after` is `before` with every pixel tinted.
pub open spec fn image_tinted(before: RasterImage, after: RasterImage, color: Option<Rgba>, pct: int) -> bool {
    &&& after.width == before.width
    &&& after.height == before.height
    &&& after.pixels@.len() == before.pixels@.len()
    &&& forall|k: int|
        0 <= k < before.pixels@.len() ==> #[trigger] after.pixels@[k] == tinted(
            before.pixels@[k],
            color,
            pct,
        )
}

/// `n` divided by `d`, rounded up.
pub open spec fn ceil_div(n: int, d: int) -> int {
    (n + d - 1) / d
}

/// The sizes and places a bake works with, in pixels of the screenshot.
#[derive(Clone, Copy, Debug, PartialEq, Eq, Structural)]
pub struct BakePlan {
    /// Screenshot pixels per layout unit, rounded up, across and down.
    pub sx: i64,
    pub sy: i64,
    /// The canvas the screenshot is rescaled to.
    pub cw: u32,
    pub ch: u32,
    /// The overlay's top-left corner on the canvas, and the size it is rescaled to.
    pub ox: i64,
    pub oy: i64,
    pub ow: u32,
    pub oh: u32,
}

/// The plan for a screenshot of `bw` by `bh` pixels laid out at `base`, with the overlay laid out
/// at `over`. The overlay's near corner scales down, its far corner up; with whole scale factors
/// the two agree.
pub open spec fn plan_numbers(bw: int, bh: int, base: Rect, over: Rect) -> (int, int, int, int, int, int, int, int) {
    let sx = ceil_div(bw, base.x1 as int);
    let sy = ceil_div(bh, base.y1 as int);
    (
        sx,
        sy,
        base.x1 * sx - base.x0,
        base.y1 * sy - base.y0,
        over.x0 * sx,
        over.y0 * sy,
        (over.x1 - over.x0) * sx,
        (over.y1 - over.y0) * sy,
    )
}

/// A bake can run: the base layer has a positive extent, and every size and place in the plan
/// is in range for the bitmaps involved.
pub open spec fn plan_fits(back: RasterImage, img: RasterImage, base: Rect, over: Rect) -> bool {
    let (sx, sy, cw, ch, ox, oy, ow, oh) = plan_numbers(
        back.width as int,
        back.height as int,
        base,
        over,
    );
    &&& base.x1 > 0
    &&& base.y1 > 0
    &&& 0 <= cw <= u32::MAX
    &&& 0 <= ch <= u32::MAX
    &&& 0 <= ow <= u32::MAX
    &&& 0 <= oh <= u32::MAX
    &&& -(4 * COORD_LIMIT) <= ox <= 4 * COORD_LIMIT
    &&& -(4 * COORD_LIMIT) <= oy <= 4 * COORD_LIMIT
    &&& 16 * (back.width as int * ch) <= usize::MAX
    &&& 16 * (cw * ch) <= usize::MAX
    &&& 16 * (img.width as int * oh) <= usize::MAX
    &&& 16 * (ow * oh) <= usize::MAX
}

/// `out` is what a bake makes of the screenshot `back` laid out at `base` and the overlay `img`
/// laid out at `over`, given `canvas`, the screenshot rescaled with Lanczos3 to the canvas size:
/// the overlay, rescaled with the nearest-neighbour filter, is laid over the canvas at its place.
/// When the canvas has the screenshot's own size, it is the screenshot.
pub open spec fn baked_from(
    out: Seq<Rgba>,
    canvas: Seq<Rgba>,
    back: RasterImage,
    img: RasterImage,
    base: Rect,
    over: Rect,
) -> bool {
    let (sx, sy, cw, ch, ox, oy, ow, oh) = plan_numbers(
        back.width as int,
        back.height as int,
        base,
        over,
    );
    let top = pixels_of(
        nearest_resampled(raw_bytes(img.pixels@), img.width, img.height, ow as u32, oh as u32),
    );
    &&& canvas.len() == cw * ch
    &&& cw == back.width && ch == back.height ==> canvas == back.pixels@
    &&& out.len() == canvas.len()
    &&& forall|k: int|
        0 <= k < out.len() ==> #[trigger] out[k] == overlaid(cw, canvas, ow, oh, top, ox, oy, k)
}

impl CustomZStack {
    pub open spec fn wf(&self) -> bool {
        &&& 1 <= self.layers@.len() <= 2
        &&& forall|i: int| 0 <= i < self.layers@.len() ==> (#[trigger] self.layers@[i]).wf()
        &&& (self.layers@.len() == 2 <==> self.showing_over_img.is_some())
        &&& match self.showing_over_img {
            Some(i) => self.over_images.is_some() && i < self.over_images.unwrap()@.len(),
            None => true,
        }
        &&& match self.over_images {
            Some(cat) => forall|i: int| 0 <= i < cat@.len() ==> (#[trigger] cat@[i]).wf(),
            None => true,
        }
        &&& match self.back_img {
            Some(b) => b.wf(),
            None => true,
        }
        &&& match self.back_img_origin {
            Some(o) => o.in_range(),
            None => true,
        }
        &&& self.color.1 <= 100
    }

    /// The base layer.
    pub open spec fn base_layer(&self) -> ZChild {
        self.layers@.last()
    }

    /// Whether a bake would run, and on what.
    pub open spec fn bake_ready(&self) -> bool {
        &&& self.showing_over_img.is_some()
        &&& self.back_img.is_some()
        &&& plan_fits(
            self.back_img.unwrap(),
            self.over_images.unwrap()@[self.showing_over_img.unwrap() as int],
            self.layers@[1].layout_rect,
            self.layers@[0].layout_rect,
        )
    }

    /// A stack holding only its base layer, with no screenshot, no catalog, no overlay, and an
    /// opaque tint of no colour.
    pub fn new() -> (s: CustomZStack)
        ensures
            s.wf(),
            s.layers@.len() == 1,
            s.layers@[0].relative_size == (UnitPoint { x: UNIT, y: UNIT }),
            s.layers@[0].position == (UnitPoint { x: 500, y: 500 }),
            s.back_img.is_none(),
            s.back_img_origin.is_none(),
            s.color == (None::<Rgba>, 100u8),
            s.over_images.is_none(),
            s.showing_over_img.is_none(),
    {
        let mut layers: Vec<ZChild> = Vec::new();
        layers.push(ZChild::base());
        CustomZStack {
            layers,
            back_img: None,
            back_img_origin: None,
            color: (None, 100),
            over_images: None,
            showing_over_img: None,
        }
    }

    /// Removes the top layer.
    fn rm_child(&mut self) -> (c: ZChild)
        requires
            old(self).layers@.len() > 0,
        ensures
            c == old(self).layers@[0],
            final(self).layers@ == old(self).layers@.subrange(1, old(self).layers@.len() as int),
            final(self).back_img == old(self).back_img,
            final(self).back_img_origin == old(self).back_img_origin,
            final(self).color == old(self).color,
            final(self).over_images == old(self).over_images,
            final(self).showing_over_img == old(self).showing_over_img,
    {
        self.layers.remove(0)
    }

    /// Takes the overlay off, leaving the base layer alone, and forgets where it was moved to.
    fn rm_over_img(&mut self)
        requires
            1 <= old(self).layers@.len() <= 2,
        ensures
            final(self).layers@ == seq![old(self).layers@.last()],
            final(self).showing_over_img.is_none(),
            final(self).back_img_origin.is_none(),
            final(self).back_img == old(self).back_img,
            final(self).color == old(self).color,
            final(self).over_images == old(self).over_images,
    {
        let ghost last = self.layers@.last();
        while self.layers.len() > 1
            invariant
                1 <= self.layers@.len() <= 2,
                self.layers@.last() == last,
                self.back_img == old(self).back_img,
                self.color == old(self).color,
                self.over_images == old(self).over_images,
            decreases self.layers@.len(),
        {
            self.rm_child();
        }
        assert(self.layers@ =~= seq![last]);
        self.showing_over_img = None;
        self.back_img_origin = None;
    }

    /// Puts `child` directly above the base layer.
    fn with_child(&mut self, child: ZChild)
        requires
            old(self).layers@.len() >= 1,
        ensures
            final(self).layers@ == old(self).layers@.insert(
                old(self).layers@.len() - 1,
                child,
            ),
            final(self).back_img == old(self).back_img,
            final(self).back_img_origin == old(self).back_img_origin,
            final(self).color == old(self).color,
            final(self).over_images == old(self).over_images,
            final(self).showing_over_img == old(self).showing_over_img,
    {
        let next_index = self.layers.len() - 1;
        self.layers.insert(next_index, child);
    }
}

impl CustomZStack {
    /// Shows the overlay in catalog slot `index`, or, if an overlay is shown already, takes it
    /// off. When `text` holds a rendered text and `index` is the text slot, the text takes that
    /// slot first. Returns the bitmap now shown, if one is.
    pub fn show_over_img(&mut self, index: usize, text: Option<RasterImage>) -> (shown: Option<
        RasterImage,
    >)
        requires
            old(self).wf(),
            old(self).showing_over_img.is_none() ==> old(self).over_images.is_some(),
            old(self).showing_over_img.is_none() ==> match text {
                Some(t) => index == TEXT_SLOT && t.wf() && old(self).over_images.unwrap()@.len()
                    >= TEXT_SLOT,
                None => index < old(self).over_images.unwrap()@.len(),
            },
        ensures
            final(self).wf(),
            final(self).back_img == old(self).back_img,
            final(self).color == old(self).color,
            (final(self).layers@, final(self).showing_over_img) == toggled_layers(
                old(self).layers@,
                old(self).showing_over_img,
                index,
            ),
            old(self).showing_over_img.is_some() ==> {
                &&& shown.is_none()
                &&& final(self).layers@ == seq![old(self).base_layer()]
                &&& final(self).showing_over_img.is_none()
                &&& final(self).back_img_origin.is_none()
                &&& final(self).over_images == old(self).over_images
            },
            old(self).showing_over_img.is_none() ==> {
                let cat = final(self).over_images.unwrap()@;
                let old_cat = old(self).over_images.unwrap()@;
                &&& final(self).layers@ == seq![overlay_child()] + old(self).layers@
                &&& final(self).showing_over_img == Some(index)
                &&& final(self).back_img_origin == old(self).back_img_origin
                &&& final(self).over_images.is_some()
                &&& match text {
                    Some(t) => {
                        &&& cat.len() == if old_cat.len() > TEXT_SLOT {
                            old_cat.len()
                        } else {
                            TEXT_SLOT as nat + 1
                        }
                        &&& cat[TEXT_SLOT as int] == t
                        &&& forall|i: int|
                            0 <= i < cat.len() && i != TEXT_SLOT ==> #[trigger] cat[i] == old_cat[i]
                    },
                    None => cat == old_cat,
                }
                &&& shown.is_some()
                &&& shown.unwrap().width == cat[index as int].width
                &&& shown.unwrap().height == cat[index as int].height
                &&& shown.unwrap().pixels@ == cat[index as int].pixels@
            },
    {
        if self.showing_over_img.is_some() {
            self.rm_over_img();
            return None;
        }
        let mut cat = self.over_images.take().unwrap();
        let shown = match text {
            Some(t) => {
                let copy = t.duplicate();
                if cat.len() > TEXT_SLOT {
                    cat.set(TEXT_SLOT, t);
                } else {
                    cat.push(t);
                }
                copy
            },
            None => cat[index].duplicate(),
        };
        self.over_images = Some(cat);
        self.with_child(overlay_child_exec());
        self.showing_over_img = Some(index);
        Some(shown)
    }

    /// Handles a request for an overlay kind: the four shapes toggle their catalog slot, a text
    /// (already rendered, if the user typed any) toggles the text slot, and removal takes off
    /// the overlay shown, if any.
    pub fn show_kind(&mut self, kind: OverImages, text: Option<RasterImage>) -> (shown: Option<
        RasterImage,
    >)
        requires
            old(self).wf(),
            old(self).over_images.is_some(),
            old(self).over_images.unwrap()@.len() >= TEXT_SLOT,
            match text {
                Some(t) => t.wf(),
                None => true,
            },
        ensures
            final(self).wf(),
            match kind {
                OverImages::Remove => old(self).showing_over_img.is_none() ==> *final(self)
                    == *old(self) && shown.is_none(),
                OverImages::Text => text.is_none() ==> *final(self) == *old(self) && shown.is_none(),
                _ => true,
            },
            match kind {
                OverImages::Remove | OverImages::Text => true,
                _ => final(self).showing_over_img == if old(self).showing_over_img.is_some() {
                    None
                } else {
                    Some(kind_slot(kind))
                },
            },
            kind == OverImages::Text && text.is_some() ==> final(self).showing_over_img == if old(
                self,
            ).showing_over_img.is_some() {
                None
            } else {
                Some(TEXT_SLOT)
            },
            kind == OverImages::Remove ==> final(self).showing_over_img.is_none(),
    {
        match kind {
            OverImages::Circles => self.show_over_img(0, None),
            OverImages::Triangle => self.show_over_img(1, None),
            OverImages::Arrow => self.show_over_img(2, None),
            OverImages::Highlighter => self.show_over_img(3, None),
            OverImages::Text => {
                if text.is_some() {
                    self.show_over_img(TEXT_SLOT, text)
                } else {
                    None
                }
            },
            OverImages::Remove => {
                if self.showing_over_img.is_some() {
                    self.show_over_img(0, None)
                } else {
                    None
                }
            },
        }
    }
}

impl CustomZStack {
    /// Changes the tint, keeping what is not given, and repaints every catalog image with it.
    /// A shown overlay is taken off, to be asked for again in the new tint.
    pub fn update_tint(&mut self, color: Option<Rgba>, alpha: Option<u8>)
        requires
            old(self).wf(),
            match alpha {
                Some(a) => a <= 100,
                None => true,
            },
        ensures
            final(self).wf(),
            final(self).color.0 == match color {
                Some(c) => Some(c),
                None => old(self).color.0,
            },
            final(self).color.1 == match alpha {
                Some(a) => a,
                None => old(self).color.1,
            },
            final(self).over_images.is_some() == old(self).over_images.is_some(),
            old(self).over_images.is_some() ==> catalog_tinted(
                old(self).over_images.unwrap()@,
                final(self).over_images.unwrap()@,
                final(self).color.0,
                final(self).color.1 as int,
            ),
            final(self).layers@ == seq![old(self).base_layer()],
            final(self).showing_over_img.is_none(),
            final(self).back_img == old(self).back_img,
            old(self).showing_over_img.is_none() ==> final(self).back_img_origin
                == old(self).back_img_origin,
            old(self).showing_over_img.is_some() ==> final(self).back_img_origin.is_none(),
    {
        if let Some(c) = color {
            self.color.0 = Some(c);
        }
        if let Some(a) = alpha {
            self.color.1 = a;
        }
        let (c, pct) = self.color;
        match self.over_images.take() {
            Some(cat) => {
                let mut out: Vec<RasterImage> = Vec::new();
                let n = cat.len();
                let mut i: usize = 0;
                while i < n
                    invariant
                        i <= n,
                        n == cat@.len(),
                        pct <= 100,
                        forall|j: int| 0 <= j < n ==> (#[trigger] cat@[j]).wf(),
                        out@.len() == i,
                        forall|j: int|
                            0 <= j < i ==> #[trigger] image_tinted(cat@[j], out@[j], c, pct as int),
                        forall|j: int| 0 <= j < i ==> (#[trigger] out@[j]).wf(),
                    decreases n - i,
                {
                    let mut img = cat[i].duplicate();
                    img.tint(c, pct);
                    out.push(img);
                    i = i + 1;
                }
                self.over_images = Some(out);
            },
            None => {},
        }
        if self.showing_over_img.is_some() {
            self.rm_over_img();
        }
    }

    /// Bakes the shown overlay into the screenshot: the screenshot is rescaled to its on-screen
    /// layout (Lanczos3), the overlay to its own (nearest neighbour), and the overlay is laid
    /// over it where it stands; then the overlay is taken off. Returns the result, which is not
    /// yet the stack's screenshot: once it is stored, hand it to `set_base_image`. With no overlay
    /// shown, no screenshot, or a layout a bake cannot work with, nothing changes and `None` comes
    /// back.
    pub fn save_new_img(&mut self) -> (out: Option<RasterImage>)
        requires
            old(self).wf(),
        ensures
            final(self).wf(),
            out.is_some() <==> old(self).bake_ready(),
            !old(self).bake_ready() ==> *final(self) == *old(self),
            old(self).bake_ready() ==> {
                let back = old(self).back_img.unwrap();
                let img = old(self).over_images.unwrap()@[old(self).showing_over_img.unwrap() as int];
                let base = old(self).layers@[1].layout_rect;
                let over = old(self).layers@[0].layout_rect;
                let (sx, sy, cw, ch, ox, oy, ow, oh) = plan_numbers(
                    back.width as int,
                    back.height as int,
                    base,
                    over,
                );
                let r = out.unwrap();
                &&& r.wf()
                &&& r.width == cw
                &&& r.height == ch
                &&& exists|canvas: Seq<Rgba>| #[trigger]
                    baked_from(r.pixels@, canvas, back, img, base, over)
                &&& final(self).layers@ == seq![old(self).base_layer()]
                &&& final(self).showing_over_img.is_none()
                &&& final(self).back_img_origin.is_none()
                &&& final(self).back_img == old(self).back_img
                &&& final(self).over_images == old(self).over_images
                &&& final(self).color == old(self).color
            },
    {
        let index = match self.showing_over_img {
            Some(i) => i,
            None => {
                return None;
            },
        };
        let out = match (&self.back_img, &self.over_images) {
            (Some(back), Some(cat)) => {
                let img = &cat[index];
                let base = self.layers[1].layout_rect;
                let over = self.layers[0].layout_rect;
                match make_plan(back, img, &base, &over) {
                    Some(plan) => {
                        let canvas = resize_image(back, plan.cw, plan.ch, false);
                        let top = resize_image(img, plan.ow, plan.oh, true);
                        let ghost cpx = canvas.pixels@;
                        let r = blend_overlay(canvas, &top, plan.ox, plan.oy);
                        assert(baked_from(r.pixels@, cpx, *back, *img, base, over));
                        r
                    },
                    None => {
                        return None;
                    },
                }
            },
            _ => {
                return None;
            },
        };
        self.rm_over_img();
        Some(out)
    }

    /// Replaces the screenshot.
    pub fn set_base_image(&mut self, img: RasterImage)
        requires
            old(self).wf(),
            img.wf(),
        ensures
            final(self).wf(),
            final(self).back_img == Some(img),
            final(self).layers == old(self).layers,
            final(self).back_img_origin == old(self).back_img_origin,
            final(self).color == old(self).color,
            final(self).over_images == old(self).over_images,
            final(self).showing_over_img == old(self).showing_over_img,
    {
        self.back_img = Some(img);
    }

    /// Sets the catalog of overlay bitmaps: the four shapes, in order. A shown overlay keeps its
    /// slot, which the new catalog must have.
    pub fn load_catalog(&mut self, images: Vec<RasterImage>)
        requires
            old(self).wf(),
            match old(self).showing_over_img {
                Some(i) => i < images@.len(),
                None => true,
            },
            forall|i: int| 0 <= i < images@.len() ==> (#[trigger] images@[i]).wf(),
        ensures
            final(self).wf(),
            final(self).over_images == Some(images),
            final(self).layers == old(self).layers,
            final(self).back_img == old(self).back_img,
            final(self).back_img_origin == old(self).back_img_origin,
            final(self).color == old(self).color,
            final(self).showing_over_img == old(self).showing_over_img,
    {
        self.over_images = Some(images);
    }

    /// Records where the overlay was moved to, relative to where it was first put.
    pub fn update_origin(&mut self, origin: Point)
        requires
            old(self).wf(),
            origin.in_range(),
        ensures
            final(self).wf(),
            final(self).back_img_origin == Some(origin),
            final(self).layers == old(self).layers,
            final(self).back_img == old(self).back_img,
            final(self).color == old(self).color,
            final(self).over_images == old(self).over_images,
            final(self).showing_over_img == old(self).showing_over_img,
    {
        self.back_img_origin = Some(origin);
    }

    /// Lays out the stack once the base layer took `base_size` and each layer `i` took
    /// `sizes[i]`: every layer is placed in the space the base leaves around it, the overlay moved
    /// by the recorded origin when it is the only one. Returns the stack's size, the base's.
    pub fn layout(&mut self, base_size: Size, sizes: &Vec<Size>) -> (s: Size)
        requires
            old(self).wf(),
            size_in_range(base_size),
            sizes@.len() == old(self).layers@.len(),
            forall|i: int| 0 <= i < sizes@.len() ==> size_in_range(#[trigger] sizes@[i]),
        ensures
            final(self).wf(),
            s == base_size,
            final(self).layers@.len() == old(self).layers@.len(),
            forall|i: int|
                0 <= i < sizes@.len() ==> #[trigger] final(self).layers@[i] == (ZChild {
                    layout_rect: placed(
                        old(self).layers@[i],
                        base_size,
                        sizes@[i],
                        if i == 0 && old(self).layers@.len() == 2 {
                            old(self).back_img_origin
                        } else {
                            None
                        },
                    ),
                    ..old(self).layers@[i]
                }),
            final(self).back_img == old(self).back_img,
            final(self).back_img_origin == old(self).back_img_origin,
            final(self).color == old(self).color,
            final(self).over_images == old(self).over_images,
            final(self).showing_over_img == old(self).showing_over_img,
    {
        let len = self.layers.len();
        let mut i: usize = 0;
        while i < len
            invariant
                i <= len,
                len == self.layers@.len(),
                len == old(self).layers@.len(),
                len == sizes@.len(),
                1 <= len <= 2,
                size_in_range(base_size),
                forall|j: int| 0 <= j < sizes@.len() ==> size_in_range(#[trigger] sizes@[j]),
                forall|j: int| 0 <= j < len ==> (#[trigger] old(self).layers@[j]).wf(),
                forall|j: int|
                    0 <= j < i ==> #[trigger] self.layers@[j] == (ZChild {
                        layout_rect: placed(
                            old(self).layers@[j],
                            base_size,
                            sizes@[j],
                            if j == 0 && len == 2 {
                                old(self).back_img_origin
                            } else {
                                None
                            },
                        ),
                        ..old(self).layers@[j]
                    }),
                forall|j: int| i <= j < len ==> #[trigger] self.layers@[j] == old(self).layers@[j],
                self.back_img == old(self).back_img,
                self.back_img_origin == old(self).back_img_origin,
                match self.back_img_origin {
                    Some(o) => o.in_range(),
                    None => true,
                },
                self.color == old(self).color,
                self.over_images == old(self).over_images,
                self.showing_over_img == old(self).showing_over_img,
            decreases len - i,
        {
            let layer = self.layers[i];
            let size = sizes[i];
            let remaining = Size::new(base_size.width - size.width, base_size.height - size.height);
            let mut origin = layer.resolve_point(remaining);
            if i == 0 && len == 2 {
                if let Some(d) = self.back_img_origin {
                    origin.x = origin.x + d.x;
                    origin.y = origin.y + d.y;
                }
            }
            let rect = Rect::new(origin.x, origin.y, origin.x + size.width, origin.y + size.height);
            self.layers.set(i, ZChild { layout_rect: rect, ..layer });
            i = i + 1;
        }
        base_size
    }
}

/// Where layout puts a layer of size `size` over a base of size `base`, moved by `nudge`.
pub open spec fn placed(c: ZChild, base: Size, size: Size, nudge: Option<Point>) -> Rect {
    let x = scale(base.width - size.width, c.position.x as int) + c.offset.x + match nudge {
        Some(d) => d.x as int,
        None => 0,
    };
    let y = scale(base.height - size.height, c.position.y as int) + c.offset.y + match nudge {
        Some(d) => d.y as int,
        None => 0,
    };
    Rect {
        x0: x as i64,
        y0: y as i64,
        x1: (x + size.width) as i64,
        y1: (y + size.height) as i64,
    }
}

/// `a * b`, for factors small enough that the product fits.
fn mul_wide(a: i128, b: i128) -> (r: i128)
    requires
        -36893488147419103232 <= a <= 36893488147419103232,
        -1099511627776 <= b <= 1099511627776,
    ensures
        r == a * b,
        -40564819207303340847894502572032 <= r <= 40564819207303340847894502572032,
{
    assert(-40564819207303340847894502572032 <= a * b <= 40564819207303340847894502572032)
        by (nonlinear_arith)
        requires
            -36893488147419103232 <= a <= 36893488147419103232,
            -1099511627776 <= b <= 1099511627776,
    ;
    a * b
}

/// Works out a bake's plan, or `None` when the plan does not fit.
fn make_plan(back: &RasterImage, img: &RasterImage, base: &Rect, over: &Rect) -> (p: Option<
    BakePlan,
>)
    ensures
        p.is_some() <==> plan_fits(*back, *img, *base, *over),
        p.is_some() ==> {
            let (sx, sy, cw, ch, ox, oy, ow, oh) = plan_numbers(
                back.width as int,
                back.height as int,
                *base,
                *over,
            );
            let q = p.unwrap();
            q.sx == sx && q.sy == sy && q.cw == cw && q.ch == ch && q.ox == ox && q.oy == oy
                && q.ow == ow && q.oh == oh
        },
{
    if base.x1 <= 0 || base.y1 <= 0 {
        return None;
    }
    let bw = back.width as i128;
    let bh = back.height as i128;
    let iw = img.width as i128;
    let x1 = base.x1 as i128;
    let y1 = base.y1 as i128;
    let sx = (bw + x1 - 1) / x1;
    let sy = (bh + y1 - 1) / y1;
    assert(0 <= sx <= bw) by (nonlinear_arith)
        requires
            sx == (bw + x1 - 1) as int / x1 as int,
            x1 >= 1,
            0 <= bw,
    ;
    assert(0 <= sy <= bh) by (nonlinear_arith)
        requires
            sy == (bh + y1 - 1) as int / y1 as int,
            y1 >= 1,
            0 <= bh,
    ;
    let cw = mul_wide(x1, sx) - base.x0 as i128;
    let ch = mul_wide(y1, sy) - base.y0 as i128;
    let ox = mul_wide(over.x0 as i128, sx);
    let oy = mul_wide(over.y0 as i128, sy);
    let ow = mul_wide(over.x1 as i128 - over.x0 as i128, sx);
    let oh = mul_wide(over.y1 as i128 - over.y0 as i128, sy);
    let limit = 4 * (COORD_LIMIT as i128);
    let u32_max = u32::MAX as i128;
    if cw < 0 || cw > u32_max || ch < 0 || ch > u32_max || ow < 0 || ow > u32_max || oh < 0 || oh
        > u32_max || ox < -limit || ox > limit || oy < -limit || oy > limit {
        return None;
    }
    let room = (usize::MAX as i128) / 16;
    if mul_wide(bw, ch) > room || mul_wide(cw, ch) > room || mul_wide(iw, oh) > room || mul_wide(
        ow,
        oh,
    ) > room {
        return None;
    }
    Some(
        BakePlan {
            sx: sx as i64,
            sy: sy as i64,
            cw: cw as u32,
            ch: ch as u32,
            ox: ox as i64,
            oy: oy as i64,
            ow: ow as u32,
            oh: oh as u32,
        },
    )
}

/// The catalog slot of each shape.
pub open spec fn kind_slot(kind: OverImages) -> usize {
    match kind {
        OverImages::Circles => 0,
        OverImages::Triangle => 1,
        OverImages::Arrow => 2,
        OverImages::Highlighter => 3,
        _ => TEXT_SLOT,
    }
}

fn overlay_child_exec() -> (c: ZChild)
    ensures
        c == overlay_child(),
        c.wf(),
{
    ZChild {
        relative_size: UnitPoint { x: UNIT, y: UNIT },
        absolute_size: Size::new(0, 0),
        position: UnitPoint::center(),
        offset: Point::new(OVERLAY_OFFSET, OVERLAY_OFFSET),
        layout_rect: Rect::new(0, 0, 0, 0),
    }
}

/// The layers and the shown slot after asking for slot `index`: with no overlay shown, an
/// overlay layer goes on top; with one shown, only the base layer stays.
pub open spec fn toggled_layers(layers: Seq<ZChild>, showing: Option<usize>, index: usize) -> (
    Seq<ZChild>,
    Option<usize>,
) {
    if showing.is_some() {
        (seq![layers.last()], None)
    } else {
        (seq![overlay_child()] + layers, Some(index))
    }
}

/// `toggled_layers` applied `n` times.
pub open spec fn toggled_n(
    layers: Seq<ZChild>,
    showing: Option<usize>,
    index: usize,
    n: nat,
) -> (Seq<ZChild>, Option<usize>)
    decreases n,
{
    if n == 0 {
        (layers, showing)
    } else {
        let (l, s) = toggled_layers(layers, showing, index);
        toggled_n(l, s, index, (n - 1) as nat)
    }
}

/// Asking for an overlay twice in a row, with nothing removed between, gives back the layers
/// there were; from a stack with no overlay, that is the base layer alone with nothing shown.
pub proof fn lemma_toggle_twice(layers: Seq<ZChild>, showing: Option<usize>, index: usize)
    requires
        1 <= layers.len() <= 2,
        layers.len() == 2 <==> showing.is_some(),
    ensures
        toggled_n(layers, showing, index, 2).0.len() == layers.len(),
        showing.is_none() ==> toggled_n(layers, showing, index, 2) == (layers, showing),
        showing.is_none() ==> toggled_n(layers, showing, index, 2).0.len() == 1,
{
    let (l1, s1) = toggled_layers(layers, showing, index);
    let (l2, s2) = toggled_layers(l1, s1, index);
    assert(toggled_n(l2, s2, index, 0) == (l2, s2));
    assert(toggled_n(l1, s1, index, 1) == (l2, s2));
    if showing.is_none() {
        assert(l2 =~= layers);
    }
}

/// Asking for an overlay an even number of times leaves the number of layers as it was.
pub proof fn lemma_toggle_even(layers: Seq<ZChild>, showing: Option<usize>, index: usize, m: nat)
    requires
        1 <= layers.len() <= 2,
        layers.len() == 2 <==> showing.is_some(),
    ensures
        toggled_n(layers, showing, index, 2 * m).0.len() == layers.len(),
    decreases m,
{
    if m > 0 {
        lemma_toggle_twice(layers, showing, index);
        let (l1, s1) = toggled_layers(layers, showing, index);
        let (l2, s2) = toggled_layers(l1, s1, index);
        lemma_toggle_split(layers, showing, index, (2 * m - 2) as nat);
        lemma_toggle_even(l2, s2, index, (m - 1) as nat);
    }
}

proof fn lemma_toggle_split(layers: Seq<ZChild>, showing: Option<usize>, index: usize, n: nat)
    ensures
        ({
            let (l1, s1) = toggled_layers(layers, showing, index);
            let (l2, s2) = toggled_layers(l1, s1, index);
            toggled_n(layers, showing, index, n + 2) == toggled_n(l2, s2, index, n)
        }),
{
    let (l1, s1) = toggled_layers(layers, showing, index);
    assert(toggled_n(layers, showing, index, n + 2) == toggled_n(l1, s1, index, n + 1));
}

/// Tinting at full opacity with a colour makes every visible catalog pixel that colour, fully
/// opaque; tinting at zero opacity with no colour makes every visible pixel fully transparent
/// and keeps its colour.
pub proof fn lemma_tint_round_trip(before: RasterImage, after: RasterImage, c: Rgba, k: int)
    requires
        0 <= k < before.pixels@.len(),
        before.pixels@[k].a > 0,
    ensures
        image_tinted(before, after, Some(c), 100) ==> after.pixels@[k] == (Rgba {
            r: c.r,
            g: c.g,
            b: c.b,
            a: 255,
        }),
        image_tinted(before, after, None, 0) ==> after.pixels@[k] == (Rgba {
            a: 0,
            ..before.pixels@[k]
        }),
{
}

/// How a layer takes part in a pointer event, given whether a layer above it is hot.
#[derive(Clone, Copy, Debug, PartialEq, Eq, Structural)]
pub enum Delivery {
    /// The layer gets the event.
    Event,
    /// The layer gets the event alone: it is captured, and the event is marked handled.
    Captured,
    /// The layer is told the pointer left instead.
    Leave,
}

/// Events go front to back. Once a layer above is hot, a pointer event reaches a lower layer
/// only if that layer holds the pointer captured; otherwise it is told the pointer left.
pub fn route(previous_hot: bool, is_pointer_event: bool, child_active: bool) -> (d: Delivery)
    ensures
        !(previous_hot && is_pointer_event) ==> d == Delivery::Event,
        previous_hot && is_pointer_event && child_active ==> d == Delivery::Captured,
        previous_hot && is_pointer_event && !child_active ==> d == Delivery::Leave,
{
    if is_pointer_event && previous_hot {
        if child_active {
            Delivery::Captured
        } else {
            Delivery::Leave
        }
    } else {
        Delivery::Event
    }
}

} // verus!

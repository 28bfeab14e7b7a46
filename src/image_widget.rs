use vstd::prelude::*;
use crate::compose::{crop_fits, crop_image, pixels_of, resize_image, CropError};
use crate::geometry::{
    anchor_at, anchor_for, classify, lemma_widened, widen, widened, zone_of, DragAnchor, Handle,
    Point, PointerEvent, Rect, Size, COORD_LIMIT, rect_within,
};
use crate::raster::{nearest_resampled, raw_bytes, RasterImage};
use crate::resizable_box::BoxConstraints;

verus! {

/// Width of the border kept around a resizable picture.
pub const PICTURE_BORDER: i64 = 5;

/// How a picture fills the space it is given.
#[derive(Clone, Copy, Debug, PartialEq, Eq, Structural)]
pub enum FillStrat {
    Contain,
    Cover,
    Fill,
    FitHeight,
    FitWidth,
    /// Drawn at its own size.
    Natural,
    ScaleDown,
}

/// How pixels are interpolated when a picture is drawn scaled.
#[derive(Clone, Copy, Debug, PartialEq, Eq, Structural)]
pub enum InterpolationMode {
    NearestNeighbor,
    Bilinear,
}

/// The size a picture shows: its clip area's, if it has one, else its own.
pub open spec fn shown_size(image: RasterImage, clip_area: Option<Rect>) -> (int, int) {
    match clip_area {
        Some(a) => (a.x1 - a.x0, a.y1 - a.y0),
        None => (image.width as int, image.height as int),
    }
}

fn shown_size_exec(image: &RasterImage, clip_area: Option<Rect>) -> (s: Size)
    requires
        match clip_area {
            Some(a) => rect_within(a, 4),
            None => true,
        },
    ensures
        (s.width as int, s.height as int) == shown_size(*image, clip_area),
{
    match clip_area {
        Some(a) => Size::new(a.x1 - a.x0, a.y1 - a.y0),
        None => Size::new(image.width as i64, image.height as i64),
    }
}

/// A side length as a bitmap dimension: negative lengths count as zero.
pub open spec fn dim(v: int) -> u32 {
    if v <= 0 {
        0
    } else if v > u32::MAX {
        u32::MAX
    } else {
        v as u32
    }
}

fn dim_exec(v: i64) -> (d: u32)
    ensures
        d == dim(v as int),
{
    if v <= 0 {
        0
    } else if v > u32::MAX as i64 {
        u32::MAX
    } else {
        v as u32
    }
}

/// Keeps a size within layout constraints.
pub open spec fn constrained(bc: BoxConstraints, w: int, h: int) -> Size {
    Size {
        width: (if w < bc.min.width {
            bc.min.width as int
        } else if w > bc.max.width {
            bc.max.width as int
        } else {
            w
        }) as i64,
        height: (if h < bc.min.height {
            bc.min.height as int
        } else if h > bc.max.height {
            bc.max.height as int
        } else {
            h
        }) as i64,
    }
}

fn constrain_exec(bc: &BoxConstraints, s: Size) -> (r: Size)
    requires
        bc.valid(),
    ensures
        r == constrained(*bc, s.width as int, s.height as int),
{
    let w = if s.width < bc.min.width {
        bc.min.width
    } else if s.width > bc.max.width {
        bc.max.width
    } else {
        s.width
    };
    let h = if s.height < bc.min.height {
        bc.min.height
    } else if s.height > bc.max.height {
        bc.max.height
    } else {
        s.height
    };
    Size::new(w, h)
}

/// Pulls a rectangle back inside the monitor; an escaping far edge ends up a border inside it.
pub open spec fn monitor_clamped(r: Rect, m: Rect) -> Rect {
    Rect {
        x0: if r.x0 < m.x0 { m.x0 } else { r.x0 },
        y0: if r.y0 < m.y0 { m.y0 } else { r.y0 },
        x1: if r.x1 > m.x1 { (m.x1 - PICTURE_BORDER) as i64 } else { r.x1 },
        y1: if r.y1 > m.y1 { (m.y1 - PICTURE_BORDER) as i64 } else { r.y1 },
    }
}

fn monitor_clamp(r: Rect, m: &Rect) -> (c: Rect)
    requires
        rect_within(*m, 1),
    ensures
        c == monitor_clamped(r, *m),
{
    let mut c = r;
    if c.x0 < m.x0 {
        c.x0 = m.x0;
    }
    if c.y0 < m.y0 {
        c.y0 = m.y0;
    }
    if c.x1 > m.x1 {
        c.x1 = m.x1 - PICTURE_BORDER;
    }
    if c.y1 > m.y1 {
        c.y1 = m.y1 - PICTURE_BORDER;
    }
    c
}

/// A picture the user can stretch by its east edge, its south edge and its south-east corner.
#[derive(Debug)]
pub struct OverImage {
    pub image_data: RasterImage,
    pub fill: FillStrat,
    pub interpolation: InterpolationMode,
    pub clip_area: Option<Rect>,
    pub mouse: DragAnchor,
}

impl OverImage {
    pub open spec fn wf(&self) -> bool {
        &&& self.image_data.wf()
        &&& self.image_data.width <= COORD_LIMIT
        &&& self.image_data.height <= COORD_LIMIT
        &&& match self.clip_area {
            Some(a) => rect_within(a, 1),
            None => true,
        }
        &&& match self.mouse {
            DragAnchor::Edge(_, q) => q.in_range(),
            DragAnchor::Interior(q) => q.in_range(),
            DragAnchor::Idle => true,
        }
    }

    /// The rectangle the picture covers, from its top-left corner.
    pub open spec fn spec_area(&self) -> Rect {
        let (w, h) = shown_size(self.image_data, self.clip_area);
        Rect { x0: 0, y0: 0, x1: w as i64, y1: h as i64 }
    }

    /// The area after a pointer move to `p` during a drag, before the corrective pass.
    pub open spec fn stretched(&self, p: Point) -> Rect {
        let r = self.spec_area();
        match self.mouse {
            DragAnchor::Edge(Handle::East, _) => Rect { x1: p.x, ..r },
            DragAnchor::Edge(Handle::SouthEast, _) => Rect { x1: p.x, y1: p.y, ..r },
            DragAnchor::Edge(Handle::South, _) => Rect { y1: p.y, ..r },
            _ => r,
        }
    }

    /// A picture shown whole, contained in its space, drawn with bilinear interpolation.
    pub fn new(image_data: RasterImage) -> (o: OverImage)
        ensures
            o.image_data == image_data,
            o.fill == FillStrat::Contain,
            o.interpolation == InterpolationMode::Bilinear,
            o.clip_area.is_none(),
            o.mouse == DragAnchor::Idle,
    {
        OverImage {
            image_data,
            fill: FillStrat::Contain,
            interpolation: InterpolationMode::Bilinear,
            clip_area: None,
            mouse: DragAnchor::Idle,
        }
    }

    /// Sets the fill strategy.
    pub fn fill_mode(self, mode: FillStrat) -> (o: OverImage)
        ensures
            o == (OverImage { fill: mode, ..self }),
    {
        OverImage { fill: mode, ..self }
    }

    pub fn set_fill_mode(&mut self, newfil: FillStrat)
        ensures
            *final(self) == (OverImage { fill: newfil, ..*old(self) }),
    {
        self.fill = newfil;
    }

    /// Sets the interpolation mode.
    pub fn interpolation_mode(self, interpolation: InterpolationMode) -> (o: OverImage)
        ensures
            o == (OverImage { interpolation, ..self }),
    {
        OverImage { interpolation, ..self }
    }

    pub fn set_interpolation_mode(&mut self, interpolation: InterpolationMode)
        ensures
            *final(self) == (OverImage { interpolation, ..*old(self) }),
    {
        self.interpolation = interpolation;
    }

    /// Shows only `clip_area` of the picture; `None` shows it whole.
    pub fn clip_area(self, clip_area: Option<Rect>) -> (o: OverImage)
        ensures
            o == (OverImage { clip_area, ..self }),
    {
        OverImage { clip_area, ..self }
    }

    pub fn set_clip_area(&mut self, clip_area: Option<Rect>)
        ensures
            *final(self) == (OverImage { clip_area, ..*old(self) }),
    {
        self.clip_area = clip_area;
    }

    /// Replaces the picture.
    pub fn set_image_data(&mut self, image_data: RasterImage)
        ensures
            *final(self) == (OverImage { image_data, ..*old(self) }),
    {
        self.image_data = image_data;
    }

    /// The size shown, considering the clip area.
    pub fn image_size(&self) -> (s: Size)
        requires
            self.wf(),
        ensures
            (s.width as int, s.height as int) == shown_size(self.image_data, self.clip_area),
    {
        shown_size_exec(&self.image_data, self.clip_area)
    }

    /// Where `p` stands on the picture's area.
    pub fn where_mouse_is(&self, p: Point) -> (a: DragAnchor)
        requires
            self.wf(),
            p.in_range(),
        ensures
            a == anchor_for(zone_of(self.spec_area(), p), p),
    {
        let s = self.image_size();
        let r = Rect::new(0, 0, s.width, s.height);
        anchor_at(classify(&r, p), p)
    }

    /// Handles one pointer event on a monitor covering `monitor`: a press picks the handle, a
    /// move during a drag of the east edge, the south edge or the south-east corner stretches the
    /// area to the pointer, a release ends the drag. After every event the corrective pass and
    /// the clamp to the monitor run, and the picture is rescaled (nearest neighbour) to the
    /// resulting area.
    pub fn event(&mut self, e: PointerEvent, monitor: &Rect)
        requires
            old(self).wf(),
            e.in_range(),
            rect_within(*monitor, 1),
        ensures
            final(self).fill == old(self).fill,
            final(self).interpolation == old(self).interpolation,
            final(self).clip_area == old(self).clip_area,
            final(self).mouse == match e {
                PointerEvent::Down(p) => anchor_for(zone_of(old(self).spec_area(), p), p),
                PointerEvent::Move(_) => old(self).mouse,
                PointerEvent::Up => DragAnchor::Idle,
            },
            ({
                let area = monitor_clamped(
                    widened(
                        match e {
                            PointerEvent::Move(p) => old(self).stretched(p),
                            _ => old(self).spec_area(),
                        },
                        PICTURE_BORDER as int,
                    ),
                    *monitor,
                );
                let (w, h) = (dim(area.x1 - area.x0), dim(area.y1 - area.y0));
                let fits = 16 * (old(self).image_data.width as int * h as int) <= usize::MAX && 16
                    * (w as int * h as int) <= usize::MAX;
                &&& !fits ==> final(self).image_data == old(self).image_data
                &&& fits ==> {
                    &&& final(self).image_data.wf()
                    &&& final(self).image_data.width == w
                    &&& final(self).image_data.height == h
                    &&& final(self).image_data.pixels@ == pixels_of(
                        nearest_resampled(
                            raw_bytes(old(self).image_data.pixels@),
                            old(self).image_data.width,
                            old(self).image_data.height,
                            w,
                            h,
                        ),
                    )
                }
            }),
    {
        let s = self.image_size();
        let mut r = Rect::new(0, 0, s.width, s.height);
        match e {
            PointerEvent::Down(p) => {
                self.mouse = anchor_at(classify(&r, p), p);
            },
            PointerEvent::Move(p) => {
                match self.mouse {
                    DragAnchor::Edge(Handle::East, _) => {
                        r.x1 = p.x;
                    },
                    DragAnchor::Edge(Handle::SouthEast, _) => {
                        r.x1 = p.x;
                        r.y1 = p.y;
                    },
                    DragAnchor::Edge(Handle::South, _) => {
                        r.y1 = p.y;
                    },
                    _ => {},
                }
            },
            PointerEvent::Up => {
                self.mouse = DragAnchor::Idle;
            },
        }
        proof {
            lemma_widened(r, PICTURE_BORDER as int);
        }
        let w = widen(r, PICTURE_BORDER);
        let area = monitor_clamp(w, monitor);
        let nw = dim_exec(area.x1 - area.x0);
        let nh = dim_exec(area.y1 - area.y0);
        let iw = self.image_data.width as u64;
        let fits = match (iw.checked_mul(nh as u64), (nw as u64).checked_mul(nh as u64)) {
            (Some(a), Some(b)) => a <= (usize::MAX / 16) as u64 && b <= (usize::MAX / 16) as u64,
            _ => false,
        };
        if fits {
            let resized = resize_image(&self.image_data, nw, nh, true);
            self.image_data = resized;
        }
    }

    /// The size the picture takes in a layout pass: its shown size, within the constraints.
    pub fn layout(&self, bc: &BoxConstraints) -> (s: Size)
        requires
            self.wf(),
            bc.valid(),
        ensures
            s == constrained(
                *bc,
                shown_size(self.image_data, self.clip_area).0,
                shown_size(self.image_data, self.clip_area).1,
            ),
    {
        constrain_exec(bc, self.image_size())
    }
}

/// The screenshot on show: it can be replaced and cropped.
#[derive(Debug)]
pub struct ScreenshotImage {
    pub image_data: RasterImage,
    pub fill: FillStrat,
    pub interpolation: InterpolationMode,
    pub clip_area: Option<Rect>,
}

impl ScreenshotImage {
    pub open spec fn wf(&self) -> bool {
        &&& self.image_data.wf()
        &&& match self.clip_area {
            Some(a) => rect_within(a, 1),
            None => true,
        }
    }

    /// A screenshot shown whole, contained in its space, drawn with bilinear interpolation.
    pub fn new(image_data: RasterImage) -> (o: ScreenshotImage)
        ensures
            o.image_data == image_data,
            o.fill == FillStrat::Contain,
            o.interpolation == InterpolationMode::Bilinear,
            o.clip_area.is_none(),
    {
        ScreenshotImage {
            image_data,
            fill: FillStrat::Contain,
            interpolation: InterpolationMode::Bilinear,
            clip_area: None,
        }
    }

    /// Sets the fill strategy.
    pub fn fill_mode(self, mode: FillStrat) -> (o: ScreenshotImage)
        ensures
            o == (ScreenshotImage { fill: mode, ..self }),
    {
        ScreenshotImage { fill: mode, ..self }
    }

    pub fn set_fill_mode(&mut self, newfil: FillStrat)
        ensures
            *final(self) == (ScreenshotImage { fill: newfil, ..*old(self) }),
    {
        self.fill = newfil;
    }

    /// Sets the interpolation mode.
    pub fn interpolation_mode(self, interpolation: InterpolationMode) -> (o: ScreenshotImage)
        ensures
            o == (ScreenshotImage { interpolation, ..self }),
    {
        ScreenshotImage { interpolation, ..self }
    }

    pub fn set_interpolation_mode(&mut self, interpolation: InterpolationMode)
        ensures
            *final(self) == (ScreenshotImage { interpolation, ..*old(self) }),
    {
        self.interpolation = interpolation;
    }

    /// Shows only `clip_area` of the screenshot; `None` shows it whole.
    pub fn clip_area(self, clip_area: Option<Rect>) -> (o: ScreenshotImage)
        ensures
            o == (ScreenshotImage { clip_area, ..self }),
    {
        ScreenshotImage { clip_area, ..self }
    }

    pub fn set_clip_area(&mut self, clip_area: Option<Rect>)
        ensures
            *final(self) == (ScreenshotImage { clip_area, ..*old(self) }),
    {
        self.clip_area = clip_area;
    }

    /// Replaces the screenshot. Returns the rectangle a region selector over it is reset to.
    pub fn set_image_data(&mut self, image_data: RasterImage) -> (r: Rect)
        ensures
            *final(self) == (ScreenshotImage { image_data, ..*old(self) }),
            r == (Rect {
                x0: 0,
                y0: 0,
                x1: image_data.width as i64,
                y1: image_data.height as i64,
            }),
    {
        let r = Rect::new(0, 0, image_data.width as i64, image_data.height as i64);
        self.image_data = image_data;
        r
    }

    /// The size shown, considering the clip area.
    pub fn image_size(&self) -> (s: Size)
        requires
            self.wf(),
        ensures
            (s.width as int, s.height as int) == shown_size(self.image_data, self.clip_area),
    {
        shown_size_exec(&self.image_data, self.clip_area)
    }

    /// Crops the screenshot to `rect`. On success the crop becomes the screenshot and a copy of
    /// it comes back; a rectangle that does not fit leaves the screenshot as it was.
    pub fn crop(&mut self, rect: &Rect) -> (out: Result<RasterImage, CropError>)
        requires
            old(self).wf(),
        ensures
            final(self).wf(),
            out.is_ok() <==> crop_fits(
                *rect,
                old(self).image_data.width as int,
                old(self).image_data.height as int,
            ),
            out.is_err() ==> *final(self) == *old(self),
            out.is_ok() ==> {
                let c = out.unwrap();
                &&& c.width == rect.x1 - rect.x0
                &&& c.height == rect.y1 - rect.y0
                &&& final(self).image_data.width == c.width
                &&& final(self).image_data.height == c.height
                &&& final(self).image_data.pixels@ == c.pixels@
                &&& forall|i: int, j: int|
                    0 <= i < c.width && 0 <= j < c.height ==> #[trigger] c.spec_pixel(i, j)
                        == old(self).image_data.spec_pixel(rect.x0 + i, rect.y0 + j)
                &&& final(self).fill == old(self).fill
                &&& final(self).clip_area == old(self).clip_area
            },
    {
        match crop_image(&self.image_data, rect) {
            Ok(c) => {
                self.image_data = c.duplicate();
                Ok(c)
            },
            Err(e) => Err(e),
        }
    }

    /// The size the screenshot takes in a layout pass: its shown size, within the constraints.
    pub fn layout(&self, bc: &BoxConstraints) -> (s: Size)
        requires
            self.wf(),
            bc.valid(),
        ensures
            s == constrained(
                *bc,
                shown_size(self.image_data, self.clip_area).0,
                shown_size(self.image_data, self.clip_area).1,
            ),
    {
        constrain_exec(bc, self.image_size())
    }
}

} // verus!

use vstd::prelude::*;
use vstd::arithmetic::div_mod::{lemma_fundamental_div_mod, lemma_fundamental_div_mod_converse};
use image::Pixel;

verus! {

/// One RGBA pixel, eight bits per channel, straight (not premultiplied) alpha.
#[derive(Clone, Copy, Debug, PartialEq, Eq, Structural)]
pub struct Rgba {
    pub r: u8,
    pub g: u8,
    pub b: u8,
    pub a: u8,
}

impl Rgba {
    pub fn new(r: u8, g: u8, b: u8, a: u8) -> (p: Rgba)
        ensures
            p == (Rgba { r, g, b, a }),
    {
        Rgba { r, g, b, a }
    }
}

/// A bitmap of `width` by `height` RGBA pixels, stored row by row.
#[derive(Clone, Debug)]
pub struct RasterImage {
    pub width: u32,
    pub height: u32,
    pub pixels: Vec<Rgba>,
}

/// The pixel stored at `4 * j .. 4 * j + 4` of a byte sequence.
pub open spec fn rgba_at(raw: Seq<u8>, j: int) -> Rgba {
    Rgba { r: raw[4 * j], g: raw[4 * j + 1], b: raw[4 * j + 2], a: raw[4 * j + 3] }
}

/// `raw` holds the pixels `px`, four bytes each, in order.
pub open spec fn raw_holds(raw: Seq<u8>, px: Seq<Rgba>) -> bool {
    &&& raw.len() == 4 * px.len()
    &&& forall|j: int| 0 <= j < px.len() ==> #[trigger] rgba_at(raw, j) == px[j]
}

/// Channel `c` (red, green, blue, alpha) of a pixel.
pub open spec fn channel(p: Rgba, c: int) -> u8 {
    if c == 0 {
        p.r
    } else if c == 1 {
        p.g
    } else if c == 2 {
        p.b
    } else {
        p.a
    }
}

/// The pixels `px` as bytes, four per pixel, in order.
pub open spec fn raw_bytes(px: Seq<Rgba>) -> Seq<u8> {
    Seq::new((4 * px.len()) as nat, |k: int| channel(px[k / 4], k % 4))
}

/// The byte sequence holding `px` is the one `raw_bytes` gives.
pub proof fn lemma_raw_bytes(raw: Seq<u8>, px: Seq<Rgba>)
    requires
        raw_holds(raw, px),
    ensures
        raw == raw_bytes(px),
        raw_holds(raw_bytes(px), px),
{
    assert forall|k: int| 0 <= k < raw.len() implies raw[k] == #[trigger] raw_bytes(px)[k] by {
        let j = k / 4;
        assert(rgba_at(raw, j) == px[j]);
    }
    assert(raw =~= raw_bytes(px));
}

impl RasterImage {
    /// The pixel buffer holds exactly `width * height` pixels, few enough that sixteen bytes
    /// per pixel still fit in memory.
    pub open spec fn wf(&self) -> bool {
        &&& self.pixels@.len() == self.width as int * self.height as int
        &&& 16 * self.pixels@.len() <= usize::MAX
    }

    /// The pixel in column `x` of row `y`.
    pub open spec fn spec_pixel(&self, x: int, y: int) -> Rgba {
        self.pixels@[y * self.width + x]
    }

    /// A fully transparent image.
    pub fn new(width: u32, height: u32) -> (img: RasterImage)
        requires
            16 * (width as int * height as int) <= usize::MAX,
        ensures
            img.wf(),
            img.width == width,
            img.height == height,
            forall|k: int| 0 <= k < img.pixels@.len() ==> #[trigger] img.pixels@[k] == (Rgba {
                r: 0,
                g: 0,
                b: 0,
                a: 0,
            }),
    {
        let n = (width as usize) * (height as usize);
        let mut pixels: Vec<Rgba> = Vec::new();
        let mut k: usize = 0;
        while k < n
            invariant
                k <= n,
                n == width as int * height as int,
                pixels@.len() == k,
                forall|i: int| 0 <= i < k ==> #[trigger] pixels@[i] == (Rgba {
                    r: 0,
                    g: 0,
                    b: 0,
                    a: 0,
                }),
            decreases n - k,
        {
            pixels.push(Rgba::new(0, 0, 0, 0));
            k = k + 1;
        }
        RasterImage { width, height, pixels }
    }

    /// Builds an image from RGBA bytes, four per pixel, row by row; `None` unless there are
    /// exactly `4 * width * height` bytes and the image fits in memory.
    pub fn from_raw(width: u32, height: u32, raw: &Vec<u8>) -> (img: Option<RasterImage>)
        ensures
            img.is_some() <==> raw@.len() == 4 * (width as int * height as int) && 16 * (width as int
                * height as int) <= usize::MAX,
            img.is_some() ==> img.unwrap().wf() && img.unwrap().width == width
                && img.unwrap().height == height && raw_holds(raw@, img.unwrap().pixels@),
    {
        let len = raw.len();
        let n = match (width as usize).checked_mul(height as usize) {
            Some(n) => n,
            None => {
                return None;
            },
        };
        if len % 4 != 0 || len / 4 != n || n > usize::MAX / 16 {
            return None;
        }
        let mut pixels: Vec<Rgba> = Vec::new();
        let mut k: usize = 0;
        while k < n
            invariant
                k <= n,
                n == width as int * height as int,
                raw@.len() == 4 * n,
                4 * n <= usize::MAX,
                pixels@.len() == k,
                forall|i: int| 0 <= i < k ==> #[trigger] rgba_at(raw@, i) == pixels@[i],
            decreases n - k,
        {
            let b = 4 * k;
            pixels.push(Rgba::new(raw[b], raw[b + 1], raw[b + 2], raw[b + 3]));
            k = k + 1;
        }
        Some(RasterImage { width, height, pixels })
    }

    /// The RGBA bytes of the image, four per pixel, row by row.
    pub fn to_raw(&self) -> (raw: Vec<u8>)
        requires
            4 * self.pixels@.len() <= usize::MAX,
        ensures
            raw@ == raw_bytes(self.pixels@),
            raw_holds(raw@, self.pixels@),
    {
        let mut raw: Vec<u8> = Vec::new();
        let n = self.pixels.len();
        let mut k: usize = 0;
        while k < n
            invariant
                k <= n,
                n == self.pixels@.len(),
                4 * n <= usize::MAX,
                raw@.len() == 4 * k,
                forall|i: int| 0 <= i < k ==> #[trigger] rgba_at(raw@, i) == self.pixels@[i],
            decreases n - k,
        {
            let p = self.pixels[k];
            let ghost before = raw@;
            raw.push(p.r);
            raw.push(p.g);
            raw.push(p.b);
            raw.push(p.a);
            assert forall|i: int| 0 <= i < k + 1 implies #[trigger] rgba_at(raw@, i)
                == self.pixels@[i] by {
                if i < k {
                    assert(rgba_at(before, i) == self.pixels@[i]);
                }
            }
            k = k + 1;
        }
        proof {
            lemma_raw_bytes(raw@, self.pixels@);
        }
        raw
    }

    /// An exact copy.
    pub fn duplicate(&self) -> (c: RasterImage)
        ensures
            c.width == self.width,
            c.height == self.height,
            c.pixels@ == self.pixels@,
    {
        let mut pixels: Vec<Rgba> = Vec::new();
        let n = self.pixels.len();
        let mut k: usize = 0;
        while k < n
            invariant
                k <= n,
                n == self.pixels@.len(),
                pixels@ == self.pixels@.subrange(0, k as int),
            decreases n - k,
        {
            pixels.push(self.pixels[k]);
            k = k + 1;
            assert(pixels@ =~= self.pixels@.subrange(0, k as int));
        }
        assert(pixels@ =~= self.pixels@);
        RasterImage { width: self.width, height: self.height, pixels }
    }

    /// The pixel in column `x` of row `y`.
    pub fn get_pixel(&self, x: u32, y: u32) -> (p: Rgba)
        requires
            self.wf(),
            x < self.width,
            y < self.height,
        ensures
            p == self.spec_pixel(x as int, y as int),
    {
        let n = self.pixels.len();
        proof {
            lemma_index_in(x as int, y as int, self.width as int, self.height as int);
        }
        self.pixels[(y as usize) * (self.width as usize) + (x as usize)]
    }
}

/// Row-major indices of a `w` by `h` grid stay below `w * h`.
pub proof fn lemma_index_in(x: int, y: int, w: int, h: int)
    requires
        0 <= x < w,
        0 <= y < h,
    ensures
        0 <= y * w + x < w * h,
{
    assert(0 <= y * w + x < w * h) by (nonlinear_arith)
        requires
            0 <= x < w,
            0 <= y < h,
    ;
}

/// Row and column of a row-major index.
pub proof fn lemma_index_split(k: int, w: int)
    requires
        0 <= k,
        0 < w,
    ensures
        k == (k / w) * w + k % w,
        0 <= k % w < w,
        0 <= k / w,
{
    lemma_fundamental_div_mod(k, w);
    assert((k / w) * w == w * (k / w)) by (nonlinear_arith);
    assert(0 <= k / w) by (nonlinear_arith)
        requires
            0 <= k,
            0 < w,
    ;
}

/// The row and column recovered from a row-major index are the ones it was made of.
pub proof fn lemma_index_join(x: int, y: int, w: int)
    requires
        0 <= x < w,
        0 <= y,
    ensures
        (y * w + x) / w == y,
        (y * w + x) % w == x,
{
    lemma_fundamental_div_mod_converse(y * w + x, w, y, x);
}

// ---------------------------------------------------------------- tint

/// Opacity in percent, rescaled to an alpha channel value.
pub open spec fn alpha_of_percent(pct: int) -> int {
    pct * 255 / 100
}

/// A pixel after a tint: transparent pixels are left alone; on the others the colour, if any,
/// replaces red, green and blue, and the alpha channel becomes the opacity.
pub open spec fn tinted(p: Rgba, color: Option<Rgba>, pct: int) -> Rgba {
    if p.a == 0 {
        p
    } else {
        let base = match color {
            Some(c) => Rgba { r: c.r, g: c.g, b: c.b, a: p.a },
            None => p,
        };
        Rgba { a: alpha_of_percent(pct) as u8, ..base }
    }
}

impl RasterImage {
    /// Repaints every pixel with a nonzero alpha channel; see `tinted`.
    pub fn tint(&mut self, color: Option<Rgba>, pct: u8)
        requires
            pct <= 100,
        ensures
            final(self).width == old(self).width,
            final(self).height == old(self).height,
            final(self).pixels@.len() == old(self).pixels@.len(),
            forall|k: int| 0 <= k < old(self).pixels@.len() ==> #[trigger] final(self).pixels@[k]
                == tinted(old(self).pixels@[k], color, pct as int),
    {
        let alpha: u8 = ((pct as u32) * 255 / 100) as u8;
        let n = self.pixels.len();
        let mut k: usize = 0;
        while k < n
            invariant
                k <= n,
                pct <= 100,
                alpha as int == alpha_of_percent(pct as int),
                n == self.pixels@.len(),
                self.width == old(self).width,
                self.height == old(self).height,
                n == old(self).pixels@.len(),
                forall|i: int| 0 <= i < k ==> #[trigger] self.pixels@[i] == tinted(
                    old(self).pixels@[i],
                    color,
                    pct as int,
                ),
                forall|i: int| k <= i < n ==> #[trigger] self.pixels@[i] == old(self).pixels@[i],
            decreases n - k,
        {
            let p = self.pixels[k];
            if p.a > 0 {
                let mut q = p;
                if let Some(c) = color {
                    q.r = c.r;
                    q.g = c.g;
                    q.b = c.b;
                }
                q.a = alpha;
                self.pixels.set(k, q);
            }
            k = k + 1;
        }
    }
}

// ---------------------------------------------------------------- outside pixel operations

/// What `image`'s `Rgba::blend` makes of `fg` laid over `bg`.
pub uninterp spec fn over_blend(bg: Rgba, fg: Rgba) -> Rgba;

/// Relies on image's `Rgba::<u8>::blend` ("over" compositing): a fully transparent `fg`
/// leaves `bg` as it is, a fully opaque one replaces it.
#[verifier::external_body]
pub(crate) fn blend_pixel(bg: Rgba, fg: Rgba) -> (r: Rgba)
    ensures
        r == over_blend(bg, fg),
        fg.a == 0 ==> r == bg,
        fg.a == 255 ==> r == fg,
{
    let mut p = image::Rgba([bg.r, bg.g, bg.b, bg.a]);
    p.blend(&image::Rgba([fg.r, fg.g, fg.b, fg.a]));
    Rgba { r: p.0[0], g: p.0[1], b: p.0[2], a: p.0[3] }
}

/// What `image::imageops::resize` with the nearest-neighbour filter makes of a `w` by `h` RGBA
/// bitmap at `nw` by `nh`.
pub uninterp spec fn nearest_resampled(raw: Seq<u8>, w: u32, h: u32, nw: u32, nh: u32) -> Seq<u8>;

/// Relies on `image::imageops::resize`: the result has the requested size and is a plain copy
/// when the size does not change. Only the nearest-neighbour result is named: Lanczos3 goes
/// through the platform's `sin`, which may differ from machine to machine.
#[verifier::external_body]
pub(crate) fn resize_raw(raw: Vec<u8>, w: u32, h: u32, nw: u32, nh: u32, nearest: bool) -> (r: Vec<
    u8,
>)
    requires
        raw@.len() == 4 * (w as int * h as int),
        16 * (w as int * nh as int) <= usize::MAX,
        16 * (nw as int * nh as int) <= usize::MAX,
    ensures
        r@.len() == 4 * (nw as int * nh as int),
        nearest ==> r@ == nearest_resampled(raw@, w, h, nw, nh),
        nw == w && nh == h ==> r@ == raw@,
{
    let filter = if nearest {
        image::imageops::FilterType::Nearest
    } else {
        image::imageops::FilterType::Lanczos3
    };
    let buf = image::RgbaImage::from_raw(w, h, raw).unwrap();
    image::imageops::resize(&buf, nw, nh, filter).into_raw()
}

/// Relies on `image::imageops::crop_imm` and `SubImage::to_image`: for a region inside the
/// bitmap, a `cw` by `ch` copy of the pixels starting at column `x`, row `y`.
#[verifier::external_body]
pub(crate) fn crop_raw(raw: Vec<u8>, w: u32, h: u32, x: u32, y: u32, cw: u32, ch: u32) -> (r: Vec<u8>)
    requires
        raw@.len() == 4 * (w as int * h as int),
        x as int + cw as int <= w as int,
        y as int + ch as int <= h as int,
    ensures
        r@.len() == 4 * (cw as int * ch as int),
        forall|i: int, j: int|
            0 <= i < cw && 0 <= j < ch ==> #[trigger] rgba_at(r@, j * cw + i) == rgba_at(
                raw@,
                (y + j) * w + (x + i),
            ),
{
    let buf = image::RgbaImage::from_raw(w, h, raw).unwrap();
    image::imageops::crop_imm(&buf, x, y, cw, ch).to_image().into_raw()
}

} // verus!

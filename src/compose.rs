use vstd::prelude::*;
use crate::geometry::{Rect, COORD_LIMIT};
use crate::raster::{
    blend_pixel, crop_raw, lemma_index_in, lemma_index_join, lemma_index_split, over_blend,
    nearest_resampled, raw_bytes, resize_raw, rgba_at, RasterImage, Rgba,
};

verus! {

/// An overlay pixel laid over a background pixel: an opaque one replaces it, a transparent one
/// leaves it, any other is blended "over" it.
pub open spec fn composite(bg: Rgba, fg: Rgba) -> Rgba {
    if fg.a == 255 {
        fg
    } else if fg.a != 0 {
        over_blend(bg, fg)
    } else {
        bg
    }
}

/// The pixel at row-major index `k` of a canvas `cw` pixels wide, once an `ow` by `oh` overlay
/// is laid on it with its top-left corner at column `ox`, row `oy`. Overlay pixels that fall
/// outside the canvas are dropped.
pub open spec fn overlaid(
    cw: int,
    canvas: Seq<Rgba>,
    ow: int,
    oh: int,
    over: Seq<Rgba>,
    ox: int,
    oy: int,
    k: int,
) -> Rgba {
    let i = k % cw - ox;
    let j = k / cw - oy;
    if 0 <= i < ow && 0 <= j < oh {
        composite(canvas[k], over[j * ow + i])
    } else {
        canvas[k]
    }
}

/// The pixels that a byte sequence holds, four bytes each.
pub open spec fn pixels_of(raw: Seq<u8>) -> Seq<Rgba> {
    Seq::new(raw.len() / 4, |j: int| rgba_at(raw, j))
}

/// Lays `over` on `canvas` with its top-left corner at column `ox`, row `oy`.
pub fn blend_overlay(canvas: RasterImage, over: &RasterImage, ox: i64, oy: i64) -> (out:
    RasterImage)
    requires
        canvas.wf(),
        over.wf(),
        -(4 * COORD_LIMIT) <= ox <= 4 * COORD_LIMIT,
        -(4 * COORD_LIMIT) <= oy <= 4 * COORD_LIMIT,
    ensures
        out.wf(),
        out.width == canvas.width,
        out.height == canvas.height,
        forall|k: int|
            0 <= k < canvas.pixels@.len() ==> #[trigger] out.pixels@[k] == overlaid(
                canvas.width as int,
                canvas.pixels@,
                over.width as int,
                over.height as int,
                over.pixels@,
                ox as int,
                oy as int,
                k,
            ),
{
    let ghost orig = canvas;
    let mut out = canvas;
    let n = out.pixels.len();
    let on = over.pixels.len();
    let w = out.width as usize;
    let ow = over.width as i64;
    let oh = over.height as i64;
    let mut k: usize = 0;
    while k < n
        invariant
            k <= n,
            n == orig.pixels@.len(),
            on == over.pixels@.len(),
            over.wf(),
            orig.wf(),
            w == orig.width,
            ow == over.width,
            oh == over.height,
            -(4 * COORD_LIMIT) <= ox <= 4 * COORD_LIMIT,
            -(4 * COORD_LIMIT) <= oy <= 4 * COORD_LIMIT,
            out.width == orig.width,
            out.height == orig.height,
            out.pixels@.len() == n,
            forall|i: int|
                0 <= i < k ==> #[trigger] out.pixels@[i] == overlaid(
                    orig.width as int,
                    orig.pixels@,
                    over.width as int,
                    over.height as int,
                    over.pixels@,
                    ox as int,
                    oy as int,
                    i,
                ),
            forall|i: int| k <= i < n ==> #[trigger] out.pixels@[i] == orig.pixels@[i],
        decreases n - k,
    {
        assert(w > 0) by (nonlinear_arith)
            requires
                k < n,
                n == w * orig.height,
        ;
        proof {
            lemma_index_split(k as int, w as int);
        }
        let x = (k % w) as i64;
        let y = (k / w) as i64;
        assert(y <= k) by (nonlinear_arith)
            requires
                k == y * w + x,
                x >= 0,
                w > 0,
                y >= 0,
        ;
        let i = x - ox;
        let j = y - oy;
        if 0 <= i && i < ow && 0 <= j && j < oh {
            proof {
                lemma_index_in(i as int, j as int, ow as int, oh as int);
            }
            let fg = over.pixels[(j as usize) * (ow as usize) + (i as usize)];
            let bg = out.pixels[k];
            if fg.a == 255 {
                out.pixels.set(k, fg);
            } else if fg.a != 0 {
                out.pixels.set(k, blend_pixel(bg, fg));
            }
        }
        k = k + 1;
    }
    out
}

/// What compositing makes of one canvas pixel under the overlay: an opaque overlay pixel is
/// copied as it is, a transparent one leaves the background as it was, and any other gives
/// `image`'s "over" blend of the two.
pub proof fn lemma_compositing_alpha(
    canvas: RasterImage,
    over: RasterImage,
    ox: int,
    oy: int,
    x: int,
    y: int,
)
    requires
        canvas.wf(),
        over.wf(),
        0 <= x < canvas.width,
        0 <= y < canvas.height,
        0 <= x - ox < over.width,
        0 <= y - oy < over.height,
    ensures
        ({
            let k = y * canvas.width + x;
            let bg = canvas.spec_pixel(x, y);
            let fg = over.spec_pixel(x - ox, y - oy);
            let out = overlaid(
                canvas.width as int,
                canvas.pixels@,
                over.width as int,
                over.height as int,
                over.pixels@,
                ox,
                oy,
                k,
            );
            &&& fg.a == 255 ==> out == fg
            &&& fg.a == 0 ==> out == bg
            &&& 0 < fg.a < 255 ==> out == over_blend(bg, fg)
        }),
{
    lemma_index_join(x, y, canvas.width as int);
}

/// Pixels outside the overlay keep the background exactly.
pub proof fn lemma_compositing_outside(
    canvas: RasterImage,
    over: RasterImage,
    ox: int,
    oy: int,
    x: int,
    y: int,
)
    requires
        canvas.wf(),
        0 <= x < canvas.width,
        0 <= y < canvas.height,
        !(0 <= x - ox < over.width && 0 <= y - oy < over.height),
    ensures
        overlaid(
            canvas.width as int,
            canvas.pixels@,
            over.width as int,
            over.height as int,
            over.pixels@,
            ox,
            oy,
            y * canvas.width + x,
        ) == canvas.spec_pixel(x, y),
{
    lemma_index_join(x, y, canvas.width as int);
}

/// `img` scaled to `nw` by `nh`: with the nearest-neighbour filter, which keeps edges crisp, or
/// with Lanczos3, which is smoother.
pub fn resize_image(img: &RasterImage, nw: u32, nh: u32, nearest: bool) -> (out: RasterImage)
    requires
        img.wf(),
        16 * (img.width as int * nh as int) <= usize::MAX,
        16 * (nw as int * nh as int) <= usize::MAX,
    ensures
        out.wf(),
        out.width == nw,
        out.height == nh,
        nearest ==> out.pixels@ == pixels_of(
            nearest_resampled(raw_bytes(img.pixels@), img.width, img.height, nw, nh),
        ),
        nw == img.width && nh == img.height ==> out.pixels@ == img.pixels@,
{
    let raw = img.to_raw();
    let r = resize_raw(raw, img.width, img.height, nw, nh, nearest);
    let out = RasterImage::from_raw(nw, nh, &r);
    let out = out.unwrap();
    proof {
        assert(out.pixels@ =~= pixels_of(r@)) by {
            assert forall|j: int| 0 <= j < out.pixels@.len() implies out.pixels@[j]
                == #[trigger] pixels_of(r@)[j] by {
                assert(rgba_at(r@, j) == out.pixels@[j]);
            }
        }
        if nw == img.width && nh == img.height {
            assert(out.pixels@ =~= img.pixels@) by {
                assert forall|j: int| 0 <= j < out.pixels@.len() implies out.pixels@[j]
                    == img.pixels@[j] by {
                    assert(rgba_at(r@, j) == out.pixels@[j]);
                    assert(rgba_at(raw@, j) == img.pixels@[j]);
                }
            }
        }
    }
    out
}

/// Why a crop was refused.
#[derive(Clone, Copy, Debug, PartialEq, Eq, Structural)]
pub enum CropError {
    /// The rectangle is empty or reaches outside the image.
    OutOfBounds,
}

/// A crop rectangle is usable on a `w` by `h` image: non-empty and inside the image.
pub open spec fn crop_fits(r: Rect, w: int, h: int) -> bool {
    0 <= r.x0 < r.x1 <= w && 0 <= r.y0 < r.y1 <= h
}

/// The part of `img` under `r`, or `OutOfBounds` when `r` does not fit in the image.
pub fn crop_image(img: &RasterImage, r: &Rect) -> (out: Result<RasterImage, CropError>)
    requires
        img.wf(),
    ensures
        out.is_ok() <==> crop_fits(*r, img.width as int, img.height as int),
        out.is_err() ==> out == Err::<RasterImage, CropError>(CropError::OutOfBounds),
        out.is_ok() ==> ({
            let c = out.unwrap();
            &&& c.wf()
            &&& c.width == r.x1 - r.x0
            &&& c.height == r.y1 - r.y0
            &&& forall|i: int, j: int|
                0 <= i < c.width && 0 <= j < c.height ==> #[trigger] c.spec_pixel(i, j)
                    == img.spec_pixel(r.x0 + i, r.y0 + j)
        }),
{
    let w = img.width as i64;
    let h = img.height as i64;
    if !(0 <= r.x0 && r.x0 < r.x1 && r.x1 <= w && 0 <= r.y0 && r.y0 < r.y1 && r.y1 <= h) {
        return Err(CropError::OutOfBounds);
    }
    let x = r.x0 as u32;
    let y = r.y0 as u32;
    let cw = (r.x1 - r.x0) as u32;
    let ch = (r.y1 - r.y0) as u32;
    let raw = img.to_raw();
    let cut = crop_raw(raw, img.width, img.height, x, y, cw, ch);
    proof {
        assert(cw as int * ch as int <= img.width as int * img.height as int) by (nonlinear_arith)
            requires
                cw <= img.width,
                ch <= img.height,
        ;
    }
    let c = RasterImage::from_raw(cw, ch, &cut).unwrap();
    proof {
        assert forall|i: int, j: int|
            0 <= i < c.width && 0 <= j < c.height implies #[trigger] c.spec_pixel(i, j)
            == img.spec_pixel(r.x0 + i, r.y0 + j) by {
            lemma_index_in(i, j, cw as int, ch as int);
            lemma_index_in(x + i, y + j, img.width as int, img.height as int);
            assert(rgba_at(cut@, j * cw + i) == c.pixels@[j * cw + i]);
            assert(rgba_at(raw@, (y + j) * img.width + (x + i)) == img.pixels@[(y + j)
                * img.width + (x + i)]);
        }
    }
    Ok(c)
}

} // verus!

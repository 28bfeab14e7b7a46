use vstd::prelude::*;
use crate::geometry::{Rect, Size, COORD_LIMIT};

verus! {

/// A screen area in the monitor's own pixels.
#[derive(Clone, Copy, Debug, PartialEq, Eq, Structural)]
pub struct CaptureArea {
    pub x: i64,
    pub y: i64,
    pub width: u32,
    pub height: u32,
}

/// `v * num / den` rounded to the nearest whole number, halves up.
pub open spec fn scaled_round(v: int, num: int, den: int) -> int {
    (2 * v * num + den) / (2 * den)
}

fn scaled_round_exec(v: i64, num: i64, den: i64) -> (r: i64)
    requires
        0 <= v <= COORD_LIMIT,
        0 <= num <= COORD_LIMIT,
        0 < den <= COORD_LIMIT,
    ensures
        r == scaled_round(v as int, num as int, den as int),
        0 <= r,
{
    assert(0 <= 2 * v * num <= 2 * COORD_LIMIT * COORD_LIMIT) by (nonlinear_arith)
        requires
            0 <= v <= COORD_LIMIT,
            0 <= num <= COORD_LIMIT,
    ;
    assert(0 <= (2 * v * num + den) / (2 * den)) by (nonlinear_arith)
        requires
            0 <= 2 * v * num,
            0 < den,
    ;
    (2 * v * num + den) / (2 * den)
}

/// The part of a monitor of `monitor` physical pixels that a selection `rect` drawn on a window
/// covers, the window's logical size being the selection's: the selection's origin is scaled by
/// the ratio of the two sizes and the area spans the monitor. `None` when the selection is empty
/// or starts left of or above the window.
pub fn capture_area(rect: &Rect, monitor: Size) -> (a: Option<CaptureArea>)
    requires
        0 <= monitor.width <= u32::MAX,
        0 <= monitor.height <= u32::MAX,
        monitor.width <= COORD_LIMIT,
        monitor.height <= COORD_LIMIT,
        -COORD_LIMIT <= rect.x0 <= COORD_LIMIT,
        -COORD_LIMIT <= rect.y0 <= COORD_LIMIT,
        -COORD_LIMIT <= rect.x1 <= COORD_LIMIT,
        -COORD_LIMIT <= rect.y1 <= COORD_LIMIT,
    ensures
        a.is_some() <==> 0 <= rect.x0 < rect.x1 && 0 <= rect.y0 < rect.y1 && rect.x1 - rect.x0
            <= COORD_LIMIT && rect.y1 - rect.y0 <= COORD_LIMIT,
        a.is_some() ==> a.unwrap() == (CaptureArea {
            x: scaled_round(rect.x0 as int, monitor.width as int, (rect.x1 - rect.x0) as int) as i64,
            y: scaled_round(rect.y0 as int, monitor.height as int, (rect.y1 - rect.y0) as int) as i64,
            width: monitor.width as u32,
            height: monitor.height as u32,
        }),
{
    if !(0 <= rect.x0 && rect.x0 < rect.x1 && 0 <= rect.y0 && rect.y0 < rect.y1) {
        return None;
    }
    let w = rect.x1 - rect.x0;
    let h = rect.y1 - rect.y0;
    if w > COORD_LIMIT || h > COORD_LIMIT {
        return None;
    }
    let x = scaled_round_exec(rect.x0, monitor.width, w);
    let y = scaled_round_exec(rect.y0, monitor.height, h);
    Some(CaptureArea { x, y, width: monitor.width as u32, height: monitor.height as u32 })
}

} // verus!

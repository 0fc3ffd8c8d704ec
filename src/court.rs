//! The dashed line down the middle of the court.
use vstd::prelude::*;

use crate::geometry::Rect;

verus! {

pub const DASH_WIDTH: u32 = 5;

pub const DASH_HEIGHT: u32 = 20;

/// From the top of one dash to the top of the next: dashes and gaps are
/// equally tall.
pub const DASH_STEP: u32 = 40;

/// The `k`-th dash from the top.
pub open spec fn dash(view_width: u32, k: int) -> Rect {
    Rect {
        x: (view_width / 2 - DASH_WIDTH / 2) as i32,
        y: (DASH_STEP * k) as i32,
        width: DASH_WIDTH,
        height: DASH_HEIGHT,
    }
}

/// The dashes of the center line, top to bottom: every dash that ends above
/// the view port's bottom edge (the last one does, the next would not).
pub fn center_line(view_port: (u32, u32)) -> (r: Vec<Rect>)
    requires
        view_port.1 <= i32::MAX,
    ensures
        forall|k: int| 0 <= k < r@.len() ==> r@[k] == dash(view_port.0, k),
        r@.len() > 0 ==> DASH_STEP * (r@.len() - 1) + DASH_HEIGHT < view_port.1,
        DASH_STEP * r@.len() + DASH_HEIGHT >= view_port.1,
{
    let (view_width, view_height) = view_port;
    let x: i32 = ((view_width / 2) as i64 - (DASH_WIDTH / 2) as i64) as i32;
    let mut dashes: Vec<Rect> = Vec::new();
    let mut y: u32 = 0;
    while y + DASH_HEIGHT < view_height
        invariant
            view_height == view_port.1,
            view_width == view_port.0,
            view_height <= i32::MAX,
            x == view_width / 2 - DASH_WIDTH / 2,
            y == DASH_STEP * dashes@.len(),
            y < view_height + DASH_STEP,
            forall|k: int| 0 <= k < dashes@.len() ==> dashes@[k] == dash(view_width, k),
            dashes@.len() > 0 ==> DASH_STEP * (dashes@.len() - 1) + DASH_HEIGHT < view_height,
        decreases view_height + DASH_STEP - y,
    {
        dashes.push(Rect::new(x, y as i32, DASH_WIDTH, DASH_HEIGHT));
        y = y + DASH_STEP;
        proof {
            assert(y == DASH_STEP * dashes@.len()) by (nonlinear_arith)
                requires
                    y == DASH_STEP * (dashes@.len() - 1) + DASH_STEP,
            ;
        }
    }
    dashes
}

} // verus!

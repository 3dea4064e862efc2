//! The render plan: everything one redraw of the chart needs, as plain
//! values.
//!
//! Each redraw shows a prefix of the path as a single line on a fixed-size
//! chart: x range `[0, count)`, y range exactly from the smallest to the
//! largest drawn price. The plan is computed and proved here; the drawing
//! backend only has to copy its values onto a surface. A prefix of one
//! point, or one whose prices are all equal, yields a degenerate y range
//! with its two ends equal, never a failure.

use vstd::prelude::*;

use crate::path::PricePath;
use crate::price::Price;

verus! {

/// Width in pixels of every rendered image.
pub const IMAGE_WIDTH: u32 = 640;

/// Height in pixels of every rendered image.
pub const IMAGE_HEIGHT: u32 = 480;

/// One redraw, fully determined: the image size, the axis spans and the
/// points to draw, point `i` standing at x position `i`.
pub struct RenderPlan {
    /// Image width in pixels.
    pub width: u32,
    /// Image height in pixels.
    pub height: u32,
    /// Exclusive upper bound of the x axis: the number of points drawn.
    pub x_span: usize,
    /// Smallest drawn price: the lower end of the y axis.
    pub y_low: Price,
    /// Largest drawn price: the upper end of the y axis.
    pub y_high: Price,
    /// The drawn prefix of the path, in path order.
    pub points: Vec<Price>,
}

/// Lays out one redraw of the first `count` prices of `path`: a 640 by 480
/// image, x range `[0, count)`, y range exactly from the smallest to the
/// largest of those prices, and the prices themselves in order. A single
/// point gives a y range with both ends equal to it.
pub fn plan_render(path: &PricePath, count: usize) -> (plan: RenderPlan)
    requires
        path.wf(),
        1 <= count <= path@.len(),
    ensures
        plan.width == IMAGE_WIDTH,
        plan.height == IMAGE_HEIGHT,
        plan.x_span == count,
        plan.points@.len() == count,
        forall|i: int| 0 <= i < count ==> (#[trigger] plan.points@[i])@ == path@[i],
        forall|i: int| 0 <= i < count ==> plan.y_low@ <= #[trigger] path@[i] <= plan.y_high@,
        exists|i: int| 0 <= i < count && plan.y_low@ == path@[i],
        exists|i: int| 0 <= i < count && plan.y_high@ == path@[i],
        plan.y_low@ <= plan.y_high@,
        plan.y_low.wf(),
        plan.y_high.wf(),
{
    let mut y_low = path.get(0);
    let mut y_high = path.get(0);
    let mut points: Vec<Price> = Vec::new();
    let mut i: usize = 0;
    while i < count
        invariant
            path.wf(),
            1 <= count <= path@.len(),
            0 <= i <= count,
            points@.len() == i,
            forall|k: int| 0 <= k < i ==> (#[trigger] points@[k])@ == path@[k],
            forall|k: int| 0 <= k < i ==> y_low@ <= #[trigger] path@[k] <= y_high@,
            exists|k: int| 0 <= k < count && y_low@ == path@[k],
            exists|k: int| 0 <= k < count && y_high@ == path@[k],
        decreases count - i,
    {
        let p = path.get(i);
        if p.bits() < y_low.bits() {
            y_low = p;
        }
        if p.bits() > y_high.bits() {
            y_high = p;
        }
        points.push(p);
        i = i + 1;
    }
    RenderPlan { width: IMAGE_WIDTH, height: IMAGE_HEIGHT, x_span: count, y_low, y_high, points }
}

/// Caption of the chart.
pub fn chart_title() -> (r: &'static str)
    ensures
        r@ == "Stock Price Path"@,
{
    "Stock Price Path"
}

/// Label of the x axis.
pub fn x_axis_label() -> (r: &'static str)
    ensures
        r@ == "Time Steps"@,
{
    "Time Steps"
}

/// Label of the y axis.
pub fn y_axis_label() -> (r: &'static str)
    ensures
        r@ == "Price"@,
{
    "Price"
}

/// Legend entry of the drawn line.
pub fn series_label() -> (r: &'static str)
    ensures
        r@ == "Price Path"@,
{
    "Price Path"
}

/// Relative path of the output image, fully overwritten on every redraw.
pub fn output_file() -> (r: &'static str)
    ensures
        r@ == "plot.png"@,
{
    "plot.png"
}

/// The line printed once when a run completes.
pub fn completion_message() -> (r: &'static str)
    ensures
        r@ == "Simulation complete. Check plot.png for the final path."@,
{
    "Simulation complete. Check plot.png for the final path."
}

} // verus!

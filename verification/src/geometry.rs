//! Pure layout geometry: rectangles, the three-band main layout, the footer
//! split, and proportional centering for overlays.
//!
//! Every operation is total over well-formed rectangles: degenerate viewport
//! sizes clip gracefully instead of panicking, and every computed region
//! stays inside the rectangle it was derived from.

use vstd::arithmetic::div_mod::{lemma_div_is_ordered, lemma_div_multiples_vanish_fancy};
use vstd::arithmetic::mul::{lemma_mul_inequality, lemma_mul_nonnegative};
use vstd::prelude::*;

verus! {

/// A rectangle of terminal character cells: origin and size.
#[derive(Clone, Copy, PartialEq, Eq, Structural, Debug)]
pub struct Rect {
    pub x: u16,
    pub y: u16,
    pub width: u16,
    pub height: u16,
}

/// A rectangle is well formed when its right and bottom edges fit in `u16`,
/// as every rectangle handed out by a terminal driver does.
pub open spec fn rect_wf(r: Rect) -> bool {
    &&& r.x + r.width <= u16::MAX
    &&& r.y + r.height <= u16::MAX
}

/// `inner` lies entirely within `outer`.
pub open spec fn rect_contains(outer: Rect, inner: Rect) -> bool {
    &&& outer.x <= inner.x
    &&& outer.y <= inner.y
    &&& inner.x + inner.width <= outer.x + outer.width
    &&& inner.y + inner.height <= outer.y + outer.height
}

/// Cells covered by the span that ends at `percent`% of `total`, with the
/// fractional cell rounded half up. Splits derived from two such boundaries
/// conserve the total: no gap, no overlap.
pub open spec fn chunk(total: int, percent: int) -> int {
    (total * percent + 50) / 100
}

/// `chunk` is monotone in the percentage and never exceeds the total.
proof fn lemma_chunk_bounds(total: int, p1: int, p2: int)
    requires
        0 <= total,
        0 <= p1 <= p2 <= 100,
    ensures
        0 <= chunk(total, p1) <= chunk(total, p2) <= total,
{
    lemma_mul_nonnegative(total, p1);
    lemma_mul_inequality(p1, p2, total);
    lemma_mul_inequality(p2, 100, total);
    lemma_div_is_ordered(total * p1 + 50, total * p2 + 50, 100);
    lemma_div_is_ordered(total * p2 + 50, total * 100 + 50, 100);
    assert(total * 100 == 100 * total);
    lemma_div_multiples_vanish_fancy(total, 50, 100);
    lemma_div_is_ordered(50, total * p1 + 50, 100);
}

/// Executable form of `chunk`.
fn chunk_at(total: u16, percent: u16) -> (res: u16)
    requires
        percent <= 100,
    ensures
        res as int == chunk(total as int, percent as int),
        res <= total,
{
    proof {
        lemma_chunk_bounds(total as int, percent as int, 100);
        lemma_chunk_bounds(total as int, percent as int, percent as int);
    }
    (((total as u32) * (percent as u32) + 50) / 100) as u16
}

/// A percentage request outside [0, 100] is treated as 100.
pub open spec fn clamp_percent(p: u16) -> u16 {
    if p > 100 {
        100u16
    } else {
        p
    }
}

/// Offset and length of the middle band when `total` cells are split into
/// three bands of `(100-percent)/2`%, `percent`%, `(100-percent)/2`%.
pub open spec fn centered_span(total: int, percent: int) -> (int, int) {
    let side = (100 - percent) / 2;
    let lo = chunk(total, side);
    let hi = chunk(total, side + percent);
    (lo, hi - lo)
}

/// The centered sub-rectangle covering `percent_x`% of `r`'s width and
/// `percent_y`% of its height, placed by the two-pass three-band split.
pub open spec fn centered_rect_spec(percent_x: u16, percent_y: u16, r: Rect) -> Rect {
    let (off_y, h) = centered_span(r.height as int, clamp_percent(percent_y) as int);
    let (off_x, w) = centered_span(r.width as int, clamp_percent(percent_x) as int);
    Rect {
        x: (r.x + off_x) as u16,
        y: (r.y + off_y) as u16,
        width: w as u16,
        height: h as u16,
    }
}

/// The middle band of a centered three-band split stays within the total.
proof fn lemma_centered_span_bounds(total: int, percent: int)
    requires
        0 <= total,
        0 <= percent <= 100,
    ensures
        ({
            let (off, len) = centered_span(total, percent);
            0 <= off && 0 <= len && off + len <= total
        }),
{
    let side = (100 - percent) / 2;
    assert(0 <= side && side + percent <= 100);
    lemma_chunk_bounds(total, side, side + percent);
    lemma_chunk_bounds(total, side + percent, 100);
}

/// Centered sub-rectangle of `r`: `percent_x`% of the width by `percent_y`%
/// of the height, centered by splitting each axis into three proportional
/// bands and keeping the middle one. Percentages above 100 are clamped;
/// the result always lies inside `r`.
pub fn centered_rect(percent_x: u16, percent_y: u16, r: Rect) -> (res: Rect)
    requires
        rect_wf(r),
    ensures
        res == centered_rect_spec(percent_x, percent_y, r),
        rect_contains(r, res),
        rect_wf(res),
{
    let py = if percent_y > 100 {
        100
    } else {
        percent_y
    };
    let px = if percent_x > 100 {
        100
    } else {
        percent_x
    };
    let side_y: u16 = (100 - py) / 2;
    let side_x: u16 = (100 - px) / 2;
    proof {
        lemma_centered_span_bounds(r.height as int, py as int);
        lemma_centered_span_bounds(r.width as int, px as int);
    }
    let lo_y = chunk_at(r.height, side_y);
    let hi_y = chunk_at(r.height, side_y + py);
    let lo_x = chunk_at(r.width, side_x);
    let hi_x = chunk_at(r.width, side_x + px);
    Rect { x: r.x + lo_x, y: r.y + lo_y, width: hi_x - lo_x, height: hi_y - lo_y }
}

/// The three vertical bands of the main layout, top to bottom.
#[derive(Clone, Copy, PartialEq, Eq, Structural, Debug)]
pub struct MainLayout {
    pub title: Rect,
    pub list: Rect,
    pub footer: Rect,
}

/// The main layout's band heights: a fixed title band of 3 rows, a fixed
/// footer band of 3 rows, and the list taking whatever remains. When the
/// viewport is too short, the fixed bands are served top to bottom with the
/// rows that exist and the list degrades to zero height.
pub open spec fn main_layout_spec(area: Rect) -> MainLayout {
    let th = if area.height < 3 { area.height as int } else { 3 };
    let fh = if area.height - th < 3 { area.height - th } else { 3 };
    let lh = area.height - th - fh;
    MainLayout {
        title: Rect { x: area.x, y: area.y, width: area.width, height: th as u16 },
        list: Rect {
            x: area.x,
            y: (area.y + th) as u16,
            width: area.width,
            height: lh as u16,
        },
        footer: Rect {
            x: area.x,
            y: (area.y + th + lh) as u16,
            width: area.width,
            height: fh as u16,
        },
    }
}

/// Partition a viewport into the three stacked bands of the main layout:
/// title (3 rows), list (all remaining rows), footer (3 rows). Total over
/// every well-formed viewport, however short.
pub fn create_main_layout(area: Rect) -> (out: MainLayout)
    requires
        rect_wf(area),
    ensures
        out == main_layout_spec(area),
        rect_contains(area, out.title),
        rect_contains(area, out.list),
        rect_contains(area, out.footer),
        rect_wf(out.title) && rect_wf(out.list) && rect_wf(out.footer),
{
    let th: u16 = if area.height < 3 {
        area.height
    } else {
        3
    };
    let rem: u16 = area.height - th;
    let fh: u16 = if rem < 3 {
        rem
    } else {
        3
    };
    let lh: u16 = rem - fh;
    MainLayout {
        title: Rect { x: area.x, y: area.y, width: area.width, height: th },
        list: Rect { x: area.x, y: area.y + th, width: area.width, height: lh },
        footer: Rect { x: area.x, y: area.y + th + lh, width: area.width, height: fh },
    }
}

/// The three bands of the main layout are contiguous, non-overlapping,
/// span the viewport's full width, and their heights sum to the viewport
/// height; for a viewport at least 6 rows tall, the title and footer get
/// exactly 3 rows each and the list the remainder.
pub proof fn lemma_main_layout_partition(area: Rect)
    requires
        rect_wf(area),
    ensures
        ({
            let out = main_layout_spec(area);
            &&& out.title.y == area.y
            &&& out.list.y == out.title.y + out.title.height
            &&& out.footer.y == out.list.y + out.list.height
            &&& out.title.height + out.list.height + out.footer.height == area.height
            &&& out.title.x == area.x && out.title.width == area.width
            &&& out.list.x == area.x && out.list.width == area.width
            &&& out.footer.x == area.x && out.footer.width == area.width
            &&& area.height >= 6 ==> out.title.height == 3 && out.footer.height == 3
                && out.list.height == area.height - 6
        }),
{
}

/// Split of the footer band at 30% of its width: a navigation part on the
/// left and a control-hint part on the right.
pub open spec fn footer_split_spec(r: Rect) -> (Rect, Rect) {
    let lw = chunk(r.width as int, 30);
    (
        Rect { x: r.x, y: r.y, width: lw as u16, height: r.height },
        Rect { x: (r.x + lw) as u16, y: r.y, width: (r.width - lw) as u16, height: r.height },
    )
}

/// Split the footer band horizontally at 30%/70% of its width. The two
/// parts abut with no gap or overlap and conserve the band's total width.
pub fn split_footer(r: Rect) -> (res: (Rect, Rect))
    requires
        rect_wf(r),
    ensures
        res == footer_split_spec(r),
        res.1.x == res.0.x + res.0.width,
        res.0.width + res.1.width == r.width,
        rect_contains(r, res.0),
        rect_contains(r, res.1),
        rect_wf(res.0) && rect_wf(res.1),
{
    let lw = chunk_at(r.width, 30);
    (
        Rect { x: r.x, y: r.y, width: lw, height: r.height },
        Rect { x: r.x + lw, y: r.y, width: r.width - lw, height: r.height },
    )
}

/// The enclosing rectangle contains the centered rectangle, for every
/// percentage pair, and the result is well formed in turn.
pub proof fn lemma_centered_rect_contained(percent_x: u16, percent_y: u16, r: Rect)
    requires
        rect_wf(r),
    ensures
        rect_contains(r, centered_rect_spec(percent_x, percent_y, r)),
        rect_wf(centered_rect_spec(percent_x, percent_y, r)),
{
    lemma_centered_span_bounds(r.height as int, clamp_percent(percent_y) as int);
    lemma_centered_span_bounds(r.width as int, clamp_percent(percent_x) as int);
}

} // verus!


use vstd::prelude::*;

use crate::diagnostics::MonitorRect;

verus! {

pub open spec fn max_int(a: int, b: int) -> int {
    if a >= b {
        a
    } else {
        b
    }
}

pub open spec fn min_int(a: int, b: int) -> int {
    if a <= b {
        a
    } else {
        b
    }
}

/// `v` clamped into `[lo, hi]` the way `Ord::clamp` does it.
pub open spec fn clamp_int(v: int, lo: int, hi: int) -> int {
    if v < lo {
        lo
    } else if v > hi {
        hi
    } else {
        v
    }
}

/// Integer division by two rounding toward zero, as Rust's `/` does.
pub open spec fn half_toward_zero(v: int) -> int {
    if v >= 0 {
        v / 2
    } else {
        -((-v) / 2)
    }
}

/// A monitor's work area (the screen minus task bars) in physical pixels,
/// as `(left, top, right, bottom)`.
#[derive(Clone, Copy, Debug, PartialEq, Eq, Structural)]
pub struct MonitorBounds {
    pub left: i32,
    pub top: i32,
    pub right: i32,
    pub bottom: i32,
}

/// A work area in physical pixels with 64-bit coordinates.
#[derive(Clone, Copy, Debug, PartialEq, Eq, Structural)]
pub struct WorkArea {
    pub left: i64,
    pub top: i64,
    pub right: i64,
    pub bottom: i64,
}

impl MonitorBounds {
    pub fn work_area(&self) -> (w: WorkArea)
        ensures
            w.left == self.left,
            w.top == self.top,
            w.right == self.right,
            w.bottom == self.bottom,
    {
        WorkArea {
            left: self.left as i64,
            top: self.top as i64,
            right: self.right as i64,
            bottom: self.bottom as i64,
        }
    }

    pub open spec fn center_x(self) -> int {
        self.left + half_toward_zero(self.right - self.left)
    }

    pub open spec fn center_y(self) -> int {
        self.top + half_toward_zero(self.bottom - self.top)
    }
}

/// Lengths already scaled to physical pixels for one monitor, before any
/// clamping: the screen margin, the gap kept below the window, and the
/// window size the content asks for.
#[derive(Clone, Copy, Debug, PartialEq, Eq, Structural)]
pub struct ScaledMetrics {
    pub margin: i64,
    pub bottom_gap: i64,
    pub width: i64,
    pub height: i64,
}

/// Where the overlay window goes, in physical pixels.
#[derive(Clone, Copy, Debug, PartialEq, Eq, Structural)]
pub struct OverlayBounds {
    pub x: i64,
    pub y: i64,
    pub width: i64,
    pub height: i64,
}

impl ScaledMetrics {
    /// The margin, at least one pixel.
    pub open spec fn eff_margin(self) -> int {
        max_int(self.margin as int, 1)
    }

    /// The bottom gap, never less than the margin.
    pub open spec fn eff_gap(self) -> int {
        max_int(self.bottom_gap as int, self.eff_margin())
    }
}

impl WorkArea {
    pub open spec fn work_width(self) -> int {
        max_int(self.right - self.left, 1)
    }

    pub open spec fn work_height(self) -> int {
        max_int(self.bottom - self.top, 1)
    }
}

pub open spec fn available_width(work: WorkArea, s: ScaledMetrics) -> int {
    max_int(work.work_width() - 2 * s.eff_margin(), 1)
}

pub open spec fn available_height(work: WorkArea, s: ScaledMetrics) -> int {
    max_int(work.work_height() - 2 * s.eff_margin(), 1)
}

pub open spec fn placed_width(work: WorkArea, s: ScaledMetrics) -> int {
    min_int(max_int(s.width as int, 1), available_width(work, s))
}

pub open spec fn placed_height(work: WorkArea, s: ScaledMetrics) -> int {
    min_int(max_int(s.height as int, 1), available_height(work, s))
}

/// The window's top if nothing pushed it: the bottom gap above the work
/// area's bottom edge.
pub open spec fn anchored_y(work: WorkArea, s: ScaledMetrics) -> int {
    work.bottom - s.eff_gap() - placed_height(work, s)
}

pub open spec fn placed_y(work: WorkArea, s: ScaledMetrics) -> int {
    clamp_int(
        anchored_y(work, s),
        work.top + s.eff_margin(),
        work.bottom - s.eff_margin() - placed_height(work, s),
    )
}

pub open spec fn placed_x(work: WorkArea, s: ScaledMetrics) -> int {
    work.left + (work.work_width() - placed_width(work, s)) / 2
}

/// Bottom-centred placement: the size is capped to the work area less the
/// margin on each side, the window is centred horizontally, and its bottom
/// edge sits the bottom gap above the work area's bottom, moved down or up
/// only as far as needed to keep the margin. In a work area no taller than
/// the two margins the window's top sits at the top margin.
pub open spec fn spec_bounds(work: WorkArea, s: ScaledMetrics) -> OverlayBounds {
    OverlayBounds {
        x: placed_x(work, s) as i64,
        y: placed_y(work, s) as i64,
        width: placed_width(work, s) as i64,
        height: placed_height(work, s) as i64,
    }
}

/// The inputs on which placement is computed without leaving the `i64`
/// range: the work area's width and height, twice the margin, the margin
/// below the top edge, the lowest top edge that keeps the bottom margin, and
/// the anchored top edge all fit.
pub open spec fn placement_defined(work: WorkArea, s: ScaledMetrics) -> bool {
    &&& i64::MIN <= work.right - work.left <= i64::MAX
    &&& i64::MIN <= work.bottom - work.top <= i64::MAX
    &&& 2 * s.eff_margin() <= i64::MAX
    &&& work.top + s.eff_margin() <= i64::MAX
    &&& work.bottom - s.eff_margin() - placed_height(work, s) >= i64::MIN
    &&& i64::MIN <= anchored_y(work, s) <= i64::MAX
}

/// Places the overlay at the bottom centre of a monitor's work area.
///
/// Margin and bottom gap are screen geometry and do not follow the
/// webview's zoom; only the requested size does.
pub fn overlay_bounds_in_work_area(work: WorkArea, scaled: ScaledMetrics) -> (b: OverlayBounds)
    requires
        placement_defined(work, scaled),
    ensures
        b == spec_bounds(work, scaled),
        b.x == placed_x(work, scaled),
        b.y == placed_y(work, scaled),
        b.width == placed_width(work, scaled),
        b.height == placed_height(work, scaled),
{
    let margin: i64 = if scaled.margin > 1 {
        scaled.margin
    } else {
        1
    };
    let gap: i64 = if scaled.bottom_gap > margin {
        scaled.bottom_gap
    } else {
        margin
    };
    let raw_width: i64 = work.right - work.left;
    let raw_height: i64 = work.bottom - work.top;
    let work_width: i64 = if raw_width > 1 {
        raw_width
    } else {
        1
    };
    let work_height: i64 = if raw_height > 1 {
        raw_height
    } else {
        1
    };
    let open_width: i64 = work_width - 2 * margin;
    let open_height: i64 = work_height - 2 * margin;
    let available_w: i64 = if open_width > 1 {
        open_width
    } else {
        1
    };
    let available_h: i64 = if open_height > 1 {
        open_height
    } else {
        1
    };
    let wanted_w: i64 = if scaled.width > 1 {
        scaled.width
    } else {
        1
    };
    let wanted_h: i64 = if scaled.height > 1 {
        scaled.height
    } else {
        1
    };
    let width: i64 = if wanted_w < available_w {
        wanted_w
    } else {
        available_w
    };
    let height: i64 = if wanted_h < available_h {
        wanted_h
    } else {
        available_h
    };
    let x: i64 = work.left + (work_width - width) / 2;
    let min_y: i64 = work.top + margin;
    let max_y: i64 = work.bottom - margin - height;
    let anchored: i64 = work.bottom - gap - height;
    let y: i64 = if anchored < min_y {
        min_y
    } else if anchored > max_y {
        max_y
    } else {
        anchored
    };
    OverlayBounds { x, y, width, height }
}

/// Whether placement stays inside the `i64` range for these inputs, so that
/// `overlay_bounds_in_work_area` may be called.
pub fn placement_in_range(work: WorkArea, scaled: ScaledMetrics) -> (ok: bool)
    ensures
        ok == placement_defined(work, scaled),
{
    let lo: i128 = i64::MIN as i128;
    let hi: i128 = i64::MAX as i128;
    let margin: i128 = if scaled.margin > 1 {
        scaled.margin as i128
    } else {
        1
    };
    let gap: i128 = if scaled.bottom_gap as i128 > margin {
        scaled.bottom_gap as i128
    } else {
        margin
    };
    let raw_width: i128 = work.right as i128 - work.left as i128;
    let raw_height: i128 = work.bottom as i128 - work.top as i128;
    let work_height: i128 = if raw_height > 1 {
        raw_height
    } else {
        1
    };
    let open_height: i128 = work_height - 2 * margin;
    let available_h: i128 = if open_height > 1 {
        open_height
    } else {
        1
    };
    let wanted_h: i128 = if scaled.height > 1 {
        scaled.height as i128
    } else {
        1
    };
    let height: i128 = if wanted_h < available_h {
        wanted_h
    } else {
        available_h
    };
    let lowest_top: i128 = work.bottom as i128 - margin - height;
    let anchored: i128 = work.bottom as i128 - gap - height;
    lo <= raw_width && raw_width <= hi && lo <= raw_height && raw_height <= hi && 2 * margin <= hi
        && work.top as i128 + margin <= hi && lowest_top >= lo && lo <= anchored && anchored <= hi
}

/// Placement that first checks the `i64` range: `None` exactly on the inputs
/// whose arithmetic would overflow.
pub fn try_overlay_bounds_in_work_area(work: WorkArea, scaled: ScaledMetrics) -> (r: Option<
    OverlayBounds,
>)
    ensures
        match r {
            Some(b) => placement_defined(work, scaled) && b == spec_bounds(work, scaled),
            None => !placement_defined(work, scaled),
        },
{
    if placement_in_range(work, scaled) {
        Some(overlay_bounds_in_work_area(work, scaled))
    } else {
        None
    }
}

/// Screen-sized inputs are always placeable: work-area coordinates that fit
/// in `i32` (as monitors report them) and a margin and bottom gap of at most
/// `i32::MAX` pixels, whatever size the content asks for.
pub proof fn lemma_screen_values_are_placeable(work: WorkArea, s: ScaledMetrics)
    requires
        i32::MIN <= work.left <= i32::MAX,
        i32::MIN <= work.top <= i32::MAX,
        i32::MIN <= work.right <= i32::MAX,
        i32::MIN <= work.bottom <= i32::MAX,
        s.margin <= i32::MAX,
        s.bottom_gap <= i32::MAX,
    ensures
        placement_defined(work, s),
{
}

/// The window is at least one pixel in each direction and never above the
/// top margin. In a work area taller than the two margins it lies inside the
/// work area less the margin; in a shorter one its top sits at the top
/// margin. Horizontally it stays inside the work area whenever that is at
/// least one pixel wide, and inside the margins whenever it is wider than
/// the two of them.
pub proof fn lemma_bounds_inside_work_area(work: WorkArea, s: ScaledMetrics)
    requires
        placement_defined(work, s),
    ensures
        spec_bounds(work, s).width >= 1,
        spec_bounds(work, s).height >= 1,
        work.top + s.eff_margin() <= spec_bounds(work, s).y,
        work.bottom - work.top >= 2 * s.eff_margin() + 1 ==> spec_bounds(work, s).y
            + spec_bounds(work, s).height <= work.bottom - s.eff_margin(),
        work.bottom - work.top < 2 * s.eff_margin() + 1 ==> spec_bounds(work, s).y == work.top
            + s.eff_margin(),
        work.right - work.left >= 1 ==> work.left <= spec_bounds(work, s).x
            && spec_bounds(work, s).x + spec_bounds(work, s).width <= work.right,
        work.right - work.left >= 2 * s.eff_margin() + 1 ==> work.left + s.eff_margin()
            <= spec_bounds(work, s).x && spec_bounds(work, s).x + spec_bounds(work, s).width
            <= work.right - s.eff_margin(),
{
}

/// When the window fits above the bottom gap, its bottom edge is exactly
/// the bottom gap above the work area's bottom, whatever its height.
pub proof fn lemma_bottom_edge_anchored(work: WorkArea, s: ScaledMetrics)
    requires
        placement_defined(work, s),
        anchored_y(work, s) >= work.top + s.eff_margin(),
    ensures
        spec_bounds(work, s).y + spec_bounds(work, s).height == work.bottom - s.eff_gap(),
{
}

/// Two windows placed with the same margin and bottom gap, both fitting
/// above the gap, share their bottom edge: growing the content (as a larger
/// webview zoom does) moves the top edge only.
pub proof fn lemma_bottom_edge_independent_of_size(
    work: WorkArea,
    a: ScaledMetrics,
    b: ScaledMetrics,
)
    requires
        placement_defined(work, a),
        placement_defined(work, b),
        a.margin == b.margin,
        a.bottom_gap == b.bottom_gap,
        anchored_y(work, a) >= work.top + a.eff_margin(),
        anchored_y(work, b) >= work.top + b.eff_margin(),
    ensures
        spec_bounds(work, a).y + spec_bounds(work, a).height == spec_bounds(work, b).y
            + spec_bounds(work, b).height,
{
}

/// For monitor-sized work areas the bottom edge does not depend on the
/// requested height (and so not on the webview's CSS zoom): two windows that
/// both fit above the bottom gap end at the same line, the bottom gap above
/// the work area's bottom.
pub proof fn lemma_bottom_edge_ignores_zoom_on_screen(
    work: WorkArea,
    a: ScaledMetrics,
    b: ScaledMetrics,
)
    requires
        i32::MIN <= work.left <= i32::MAX,
        i32::MIN <= work.top <= i32::MAX,
        i32::MIN <= work.right <= i32::MAX,
        i32::MIN <= work.bottom <= i32::MAX,
        a.margin <= i32::MAX,
        a.bottom_gap <= i32::MAX,
        a.margin == b.margin,
        a.bottom_gap == b.bottom_gap,
        anchored_y(work, a) >= work.top + a.eff_margin(),
        anchored_y(work, b) >= work.top + b.eff_margin(),
    ensures
        spec_bounds(work, a).y + spec_bounds(work, a).height == work.bottom - a.eff_gap(),
        spec_bounds(work, b).y + spec_bounds(work, b).height == work.bottom - a.eff_gap(),
{
    lemma_screen_values_are_placeable(work, a);
    lemma_screen_values_are_placeable(work, b);
    lemma_bottom_edge_anchored(work, a);
    lemma_bottom_edge_anchored(work, b);
}

/// The window is as tall as the content asks whenever the work area has
/// room for it, and asking for more never yields a shorter window.
pub proof fn lemma_height_follows_content(work: WorkArea, a: ScaledMetrics, b: ScaledMetrics)
    requires
        placement_defined(work, a),
        placement_defined(work, b),
        a.margin == b.margin,
        a.height <= b.height,
    ensures
        1 <= a.height <= available_height(work, a) ==> spec_bounds(work, a).height == a.height,
        spec_bounds(work, a).height <= spec_bounds(work, b).height,
{
}

pub open spec fn contains_point(m: MonitorRect, px: int, py: int) -> bool {
    &&& m.x <= px < m.x + m.width
    &&& m.y <= py < m.y + m.height
}

/// The first of `monitors` that contains the centre of the target work
/// area, the monitor the overlay is placed on.
pub fn find_target_monitor(target: &MonitorBounds, monitors: &Vec<MonitorRect>) -> (r: Option<usize>)
    ensures
        match r {
            Some(i) => {
                &&& i < monitors@.len()
                &&& contains_point(monitors@[i as int], target.center_x(), target.center_y())
                &&& forall|j: int|
                    0 <= j < i ==> !#[trigger] contains_point(
                        monitors@[j],
                        target.center_x(),
                        target.center_y(),
                    )
            },
            None => forall|j: int|
                0 <= j < monitors@.len() ==> !#[trigger] contains_point(
                    monitors@[j],
                    target.center_x(),
                    target.center_y(),
                ),
        },
{
    let center_x: i64 = target.left as i64 + (target.right as i64 - target.left as i64) / 2;
    let center_y: i64 = target.top as i64 + (target.bottom as i64 - target.top as i64) / 2;
    assert(center_x == target.center_x());
    assert(center_y == target.center_y());
    let mut i: usize = 0;
    while i < monitors.len()
        invariant
            i <= monitors@.len(),
            center_x == target.center_x(),
            center_y == target.center_y(),
            forall|j: int|
                0 <= j < i ==> !#[trigger] contains_point(
                    monitors@[j],
                    target.center_x(),
                    target.center_y(),
                ),
        decreases monitors@.len() - i,
    {
        let m = monitors[i];
        if center_x >= m.x as i64 && center_x < m.x as i64 + m.width as i64 && center_y
            >= m.y as i64 && center_y < m.y as i64 + m.height as i64 {
            return Some(i);
        }
        i = i + 1;
    }
    None
}

} // verus!

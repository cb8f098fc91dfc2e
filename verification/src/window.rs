//! Size and position of the main window: the default size shrunk to the
//! Windows work area (without the taskbar) and centred in it. Sizes are in
//! physical pixels, already multiplied by the display scale.
use vstd::prelude::*;

verus! {

/// Default window width in logical pixels.
pub const DEFAULT_WINDOW_WIDTH: i32 = 1200;

/// Default window height in logical pixels.
pub const DEFAULT_WINDOW_HEIGHT: i32 = 800;

/// Room kept free around the window for the resize borders, in logical
/// pixels.
pub const LARGE_SCREEN_MARGIN: i32 = 24;

/// Where the window goes, in physical pixels.
#[derive(Clone, Copy, Debug, PartialEq, Eq, Structural)]
pub struct WindowPlacement {
    pub x: i32,
    pub y: i32,
    pub width: i32,
    pub height: i32,
}

/// The usable part of the screen, in physical pixels.
#[derive(Clone, Copy, Debug, PartialEq, Eq, Structural)]
pub struct WorkArea {
    pub left: i32,
    pub top: i32,
    pub right: i32,
    pub bottom: i32,
}

/// The area used when Windows reports none.
pub fn fallback_work_area() -> (r: WorkArea)
    ensures
        r == (WorkArea { left: 0, top: 0, right: DEFAULT_WINDOW_WIDTH, bottom: DEFAULT_WINDOW_HEIGHT }),
{
    WorkArea { left: 0, top: 0, right: DEFAULT_WINDOW_WIDTH, bottom: DEFAULT_WINDOW_HEIGHT }
}

/// The work area Windows reported, unless it is empty.
pub fn work_area_from_rect(left: i32, top: i32, right: i32, bottom: i32) -> (r: Option<WorkArea>)
    ensures
        r is None <==> (right <= left || bottom <= top),
        r matches Some(a) ==> a == (WorkArea { left, top, right, bottom }),
{
    if right <= left || bottom <= top {
        None
    } else {
        Some(WorkArea { left, top, right, bottom })
    }
}

pub open spec fn max_int(a: int, b: int) -> int {
    if a >= b {
        a
    } else {
        b
    }
}

pub open spec fn min_int(a: int, b: int) -> int {
    if a <= b {
        a
    } else {
        b
    }
}

/// Extent of one side of the work area, at least 1.
pub open spec fn extent(low: int, high: int) -> int {
    max_int(high - low, 1)
}

/// Window size along one side: the scaled default size, but no more than
/// the extent less a margin on both sides (and at least 1).
pub open spec fn fitted_size(extent: int, scaled: int, margin: int) -> int {
    min_int(scaled, max_int(extent - margin * 2, 1))
}

/// The placement for a work area, given the scaled default width, height
/// and margin: shrunk to fit and centred (rounding down).
pub open spec fn placement_of(area: WorkArea, width: int, height: int, margin: int) -> (
    int,
    int,
    int,
    int,
) {
    let ww = extent(area.left as int, area.right as int);
    let wh = extent(area.top as int, area.bottom as int);
    let w = fitted_size(ww, width, margin);
    let h = fitted_size(wh, height, margin);
    (area.left + (ww - w) / 2, area.top + (wh - h) / 2, w, h)
}

/// A scaled size is a size at a positive display scale: not negative.
pub open spec fn scaled_ok(v: i32) -> bool {
    0 <= v
}

/// A scaled margin is not negative, and twice it still fits in an `i32`
/// (the margin is kept on both sides).
pub open spec fn margin_ok(v: i32) -> bool {
    0 <= v <= i32::MAX / 2
}

/// `fit_window_in_work_area`: the window shrunk to the work area and
/// centred in it. When the area is not empty and the scaled sizes are at
/// least one pixel, the window lies inside the area, is centred to within
/// one pixel, and is no larger than the scaled default size.
pub fn fit_window_in_work_area(
    work_area: WorkArea,
    scaled_width: i32,
    scaled_height: i32,
    scaled_margin: i32,
) -> (p: WindowPlacement)
    requires
        i32::MIN <= work_area.right - work_area.left <= i32::MAX,
        i32::MIN <= work_area.bottom - work_area.top <= i32::MAX,
        scaled_ok(scaled_width),
        scaled_ok(scaled_height),
        margin_ok(scaled_margin),
    ensures
        (p.x as int, p.y as int, p.width as int, p.height as int) == placement_of(
            work_area,
            scaled_width as int,
            scaled_height as int,
            scaled_margin as int,
        ),
        scaled_width >= 1 && scaled_height >= 1 && work_area.right > work_area.left
            && work_area.bottom > work_area.top ==> {
            &&& p.width > 0 && p.height > 0
            &&& p.x >= work_area.left && p.y >= work_area.top
            &&& p.x + p.width <= work_area.right
            &&& p.y + p.height <= work_area.bottom
            &&& -1 <= 2 * (p.x - work_area.left) + p.width - (work_area.right - work_area.left) <= 1
            &&& -1 <= 2 * (p.y - work_area.top) + p.height - (work_area.bottom - work_area.top) <= 1
            &&& p.width <= scaled_width && p.height <= scaled_height
        },
{
    let dw = work_area.right - work_area.left;
    let work_width: i32 = if dw >= 1 {
        dw
    } else {
        1
    };
    let dh = work_area.bottom - work_area.top;
    let work_height: i32 = if dh >= 1 {
        dh
    } else {
        1
    };
    let room_w = work_width - scaled_margin * 2;
    let room_h = work_height - scaled_margin * 2;
    let fit_w: i32 = if room_w >= 1 {
        room_w
    } else {
        1
    };
    let fit_h: i32 = if room_h >= 1 {
        room_h
    } else {
        1
    };
    let width: i32 = if scaled_width <= fit_w {
        scaled_width
    } else {
        fit_w
    };
    let height: i32 = if scaled_height <= fit_h {
        scaled_height
    } else {
        fit_h
    };
    let x = work_area.left + (work_width - width) / 2;
    let y = work_area.top + (work_height - height) / 2;
    WindowPlacement { x, y, width, height }
}

/// `default_window_placement`: the window fitted into the work area
/// Windows reported, or into `fallback_work_area` when it reported none.
pub fn default_window_placement(
    work_area: Option<WorkArea>,
    scaled_width: i32,
    scaled_height: i32,
    scaled_margin: i32,
) -> (p: WindowPlacement)
    requires
        work_area matches Some(a) ==> a.right > a.left && a.bottom > a.top && a.right - a.left
            <= i32::MAX && a.bottom - a.top <= i32::MAX,
        scaled_ok(scaled_width),
        scaled_ok(scaled_height),
        margin_ok(scaled_margin),
    ensures
        (p.x as int, p.y as int, p.width as int, p.height as int) == placement_of(
            match work_area {
                Some(a) => a,
                None => WorkArea { left: 0, top: 0, right: DEFAULT_WINDOW_WIDTH, bottom: DEFAULT_WINDOW_HEIGHT },
            },
            scaled_width as int,
            scaled_height as int,
            scaled_margin as int,
        ),
{
    let area = match work_area {
        Some(a) => a,
        None => fallback_work_area(),
    };
    fit_window_in_work_area(area, scaled_width, scaled_height, scaled_margin)
}

} // verus!

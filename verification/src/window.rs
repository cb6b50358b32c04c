//! Window placement and the window attributes that the window kind asks
//! for; the platform calls that apply them are made by the caller.

use crate::config::{WindowConfig, WindowKind};
use vstd::prelude::*;

verus! {

/// A screen rectangle in pixels, right and bottom exclusive.
#[derive(Debug, Clone, Copy, PartialEq, Eq, Structural)]
pub struct WindowRect {
    pub left: i32,
    pub top: i32,
    pub right: i32,
    pub bottom: i32,
}

pub open spec fn clamp_int(v: int, lo: int, hi: int) -> int {
    if v < lo {
        lo
    } else if v > hi {
        hi
    } else {
        v
    }
}

pub open spec fn work_extent(lo: i32, hi: i32) -> int {
    if hi - lo < 1 {
        1
    } else {
        hi - lo
    }
}

/// The window's extent along one axis, kept between 1 and the work area's.
pub open spec fn fitted_extent(lo: i32, hi: i32, work_lo: i32, work_hi: i32) -> int {
    clamp_int(hi - lo, 1, work_extent(work_lo, work_hi))
}

/// The start of the window along one axis, centred in the work area.
pub open spec fn fitted_start(lo: i32, hi: i32, work_lo: i32, work_hi: i32) -> int {
    work_lo + (work_extent(work_lo, work_hi) - fitted_extent(lo, hi, work_lo, work_hi)) / 2
}

/// Every intermediate value of the fitting fits in an `i32`.
pub open spec fn fitting_in_range(window: WindowRect, work: WindowRect) -> bool {
    &&& i32::MIN <= work.right - work.left <= i32::MAX
    &&& i32::MIN <= work.bottom - work.top <= i32::MAX
    &&& i32::MIN <= window.right - window.left <= i32::MAX
    &&& i32::MIN <= window.bottom - window.top <= i32::MAX
    &&& fitted_start(window.left, window.right, work.left, work.right) + fitted_extent(
        window.left,
        window.right,
        work.left,
        work.right,
    ) <= i32::MAX
    &&& fitted_start(window.top, window.bottom, work.top, work.bottom) + fitted_extent(
        window.top,
        window.bottom,
        work.top,
        work.bottom,
    ) <= i32::MAX
}

fn axis(lo: i32, hi: i32, work_lo: i32, work_hi: i32) -> (r: (i32, i32))
    requires
        i32::MIN <= work_hi - work_lo <= i32::MAX,
        i32::MIN <= hi - lo <= i32::MAX,
        fitted_start(lo, hi, work_lo, work_hi) + fitted_extent(lo, hi, work_lo, work_hi) <= i32::MAX,
    ensures
        r.0 == fitted_start(lo, hi, work_lo, work_hi),
        r.1 == fitted_start(lo, hi, work_lo, work_hi) + fitted_extent(lo, hi, work_lo, work_hi),
{
    let span = work_hi - work_lo;
    let work_len: i32 = if span < 1 {
        1
    } else {
        span
    };
    let len0 = hi - lo;
    let len: i32 = if len0 < 1 {
        1
    } else if len0 > work_len {
        work_len
    } else {
        len0
    };
    let start = work_lo + (work_len - len) / 2;
    (start, start + len)
}

/// Fit a window into a work area: each extent is kept between 1 pixel and
/// the work area's, and the window is centred.
pub fn fitted_window_rect(window: WindowRect, work: WindowRect) -> (r: WindowRect)
    requires
        fitting_in_range(window, work),
    ensures
        r.left == fitted_start(window.left, window.right, work.left, work.right),
        r.top == fitted_start(window.top, window.bottom, work.top, work.bottom),
        r.right - r.left == fitted_extent(window.left, window.right, work.left, work.right),
        r.bottom - r.top == fitted_extent(window.top, window.bottom, work.top, work.bottom),
{
    let (left, right) = axis(window.left, window.right, work.left, work.right);
    let (top, bottom) = axis(window.top, window.bottom, work.top, work.bottom);
    WindowRect { left, top, right, bottom }
}

/// A fitted window lies inside a work area with positive extents, and is
/// no larger than it.
pub proof fn lemma_fitted_inside_work_area(window: WindowRect, work: WindowRect)
    requires
        fitting_in_range(window, work),
        work.right > work.left,
        work.bottom > work.top,
    ensures
        work.left <= fitted_start(window.left, window.right, work.left, work.right),
        fitted_start(window.left, window.right, work.left, work.right) + fitted_extent(
            window.left,
            window.right,
            work.left,
            work.right,
        ) <= work.right,
        work.top <= fitted_start(window.top, window.bottom, work.top, work.bottom),
        fitted_start(window.top, window.bottom, work.top, work.bottom) + fitted_extent(
            window.top,
            window.bottom,
            work.top,
            work.bottom,
        ) <= work.bottom,
{
}

/// What the window kind and settings ask of the platform.
#[derive(Debug, Clone, Copy, PartialEq, Eq, Structural)]
pub struct WindowAttributes {
    /// Pointer input passes through the window.
    pub click_through: bool,
    /// The window sits in the desktop layer behind the icons.
    pub is_wallpaper: bool,
    /// The window is centred and fitted into the monitor's work area.
    pub fit_to_work_area: bool,
}

/// Wallpapers are always click-through; normal windows are fitted into the
/// work area.
pub fn window_attributes(config: &WindowConfig) -> (r: WindowAttributes)
    ensures
        r.click_through == (config.click_through || config.kind == WindowKind::Wallpaper),
        r.is_wallpaper == (config.kind == WindowKind::Wallpaper),
        r.fit_to_work_area == (config.kind == WindowKind::Normal),
{
    let is_wallpaper = config.kind == WindowKind::Wallpaper;
    WindowAttributes {
        click_through: config.click_through || is_wallpaper,
        is_wallpaper,
        fit_to_work_area: config.kind == WindowKind::Normal,
    }
}

} // verus!

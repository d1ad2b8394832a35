//! Sizes and positions of the mirror window.

use vstd::prelude::*;

verus! {

/// A window position in physical pixels.
#[derive(Clone, Copy, Debug, PartialEq, Eq)]
pub struct SavedPosition {
    pub x: i32,
    pub y: i32,
}

/// A window size in physical pixels.
#[derive(Clone, Copy, Debug, PartialEq, Eq)]
pub struct MirrorSize {
    pub width: u32,
    pub height: u32,
}

/// The screen rectangle of the taskbar, as the shell reports it.
#[derive(Clone, Copy, Debug, PartialEq, Eq)]
pub struct TaskbarBounds {
    pub left: i32,
    pub top: i32,
    pub right: i32,
    pub bottom: i32,
}

/// Smallest accepted length of the mirror's long edge.
pub const MIN_LONGEST_EDGE: u32 = 128;

/// Largest accepted length of the mirror's long edge.
pub const MAX_LONGEST_EDGE: u32 = 1600;

/// Mirror size used when the taskbar cannot be measured.
pub const FALLBACK_MIRROR_SIZE: u32 = 192;

/// The mirror is four times as wide as it is high.
pub const ASPECT_RATIO: u32 = 4;

pub open spec fn fits_i32(v: int) -> bool {
    i32::MIN <= v <= i32::MAX
}

pub open spec fn clamp_edge(edge: int) -> int {
    if edge < MIN_LONGEST_EDGE {
        MIN_LONGEST_EDGE as int
    } else if edge > MAX_LONGEST_EDGE {
        MAX_LONGEST_EDGE as int
    } else {
        edge
    }
}

/// `width / 4` rounded to the nearest integer, halves away from zero, for
/// a nonnegative width.
pub open spec fn rounded_quarter(width: int) -> int {
    (width + 2) / 4
}

pub open spec fn abs(v: int) -> int {
    if v < 0 { -v } else { v }
}

pub open spec fn min(a: int, b: int) -> int {
    if a <= b { a } else { b }
}

/// The thinner side of the taskbar.
pub open spec fn thickness(b: TaskbarBounds) -> int {
    min(abs(b.right - b.left), abs(b.bottom - b.top))
}

/// The arithmetic of the taskbar's extent does not leave `i32`.
pub open spec fn bounds_measurable(b: TaskbarBounds) -> bool {
    fits_i32(b.right - b.left) && fits_i32(b.bottom - b.top)
}

/// The taskbar lies horizontally (it is at least as wide as it is high).
pub open spec fn is_horizontal(b: TaskbarBounds) -> bool {
    b.right - b.left >= b.bottom - b.top
}

pub open spec fn spec_mirror_size(longest_edge: int) -> MirrorSize {
    MirrorSize {
        width: clamp_edge(longest_edge) as u32,
        height: rounded_quarter(clamp_edge(longest_edge)) as u32,
    }
}

pub open spec fn spec_taskbar_mirror_size(bounds: Option<TaskbarBounds>) -> int {
    match bounds {
        None => FALLBACK_MIRROR_SIZE as int,
        Some(b) => min(ASPECT_RATIO * thickness(b), u32::MAX as int),
    }
}

/// The placement arithmetic of `taskbar_mirror_position` stays in `i32`.
pub open spec fn placement_fits(width: int, bounds: Option<TaskbarBounds>) -> bool {
    match bounds {
        None => true,
        Some(b) => {
            &&& bounds_measurable(b)
            &&& is_horizontal(b) ==> fits_i32(b.right - clamp_edge(width))
            &&& !is_horizontal(b) ==> fits_i32(b.bottom - rounded_quarter(clamp_edge(width)))
        },
    }
}

pub open spec fn spec_taskbar_mirror_position(width: int, bounds: Option<TaskbarBounds>) -> SavedPosition {
    match bounds {
        None => SavedPosition { x: 0, y: 0 },
        Some(b) => if is_horizontal(b) {
            SavedPosition { x: (b.right - clamp_edge(width)) as i32, y: b.top }
        } else {
            SavedPosition { x: b.left, y: (b.bottom - rounded_quarter(clamp_edge(width))) as i32 }
        },
    }
}

/// The value of a `u32` read as a two's complement `i32`.
pub open spec fn as_signed(v: u32) -> int {
    if v <= i32::MAX { v as int } else { v - 0x1_0000_0000int }
}

/// Division by two rounding toward zero.
pub open spec fn half_toward_zero(v: int) -> int {
    if v >= 0 { v / 2 } else { -((-v) / 2) }
}

pub open spec fn center_fits(position: SavedPosition, size: MirrorSize) -> bool {
    &&& fits_i32(position.x + half_toward_zero(as_signed(size.width)))
    &&& fits_i32(position.y + half_toward_zero(as_signed(size.height)))
}

pub open spec fn spec_mirror_center(position: SavedPosition, size: MirrorSize) -> SavedPosition {
    SavedPosition {
        x: (position.x + half_toward_zero(as_signed(size.width))) as i32,
        y: (position.y + half_toward_zero(as_signed(size.height))) as i32,
    }
}

/// Clamps a requested long edge into the accepted range.
pub fn clamp_longest_edge(longest_edge: u32) -> (w: u32)
    ensures
        w == clamp_edge(longest_edge as int),
        MIN_LONGEST_EDGE <= w <= MAX_LONGEST_EDGE,
{
    if longest_edge < MIN_LONGEST_EDGE {
        MIN_LONGEST_EDGE
    } else if longest_edge > MAX_LONGEST_EDGE {
        MAX_LONGEST_EDGE
    } else {
        longest_edge
    }
}

/// The window size for a requested long edge: the edge clamped to
/// 128..=1600 pixels and a height of a quarter of it, rounded.
pub fn mirror_size(longest_edge: u32) -> (size: MirrorSize)
    ensures
        size == spec_mirror_size(longest_edge as int),
        MIN_LONGEST_EDGE <= size.width <= MAX_LONGEST_EDGE,
{
    let width = clamp_longest_edge(longest_edge);
    MirrorSize { width, height: (width + 2) / 4 }
}

/// The mirror width at which the short side of the 4:1 mirror equals the
/// thickness of the taskbar; 192 when the taskbar cannot be measured.
pub fn taskbar_mirror_size(bounds: Option<TaskbarBounds>) -> (size: u32)
    requires
        bounds matches Some(b) ==> bounds_measurable(b),
    ensures
        size == spec_taskbar_mirror_size(bounds),
{
    match bounds {
        None => FALLBACK_MIRROR_SIZE,
        Some(b) => {
            let w: i64 = b.right as i64 - b.left as i64;
            let h: i64 = b.bottom as i64 - b.top as i64;
            let aw: i64 = if w < 0 { -w } else { w };
            let ah: i64 = if h < 0 { -h } else { h };
            let t: i64 = if aw <= ah { aw } else { ah };
            let scaled: i64 = t * 4;
            if scaled > u32::MAX as i64 {
                u32::MAX
            } else {
                scaled as u32
            }
        },
    }
}

/// Where the mirror of the given width goes to sit inside the taskbar:
/// against the right end of a horizontal taskbar, against the bottom of a
/// vertical one; the origin when the taskbar cannot be measured.
pub fn taskbar_mirror_position(width: u32, bounds: Option<TaskbarBounds>) -> (pos: SavedPosition)
    requires
        placement_fits(width as int, bounds),
    ensures
        pos == spec_taskbar_mirror_position(width as int, bounds),
{
    let w: i32 = clamp_longest_edge(width) as i32;
    let h: i32 = (w + 2) / 4;
    match bounds {
        None => SavedPosition { x: 0, y: 0 },
        Some(b) => {
            let taskbar_width: i32 = b.right - b.left;
            let taskbar_height: i32 = b.bottom - b.top;
            if taskbar_width >= taskbar_height {
                SavedPosition { x: b.right - w, y: b.top }
            } else {
                SavedPosition { x: b.left, y: b.bottom - h }
            }
        },
    }
}

/// Half of a size component, read as a signed pixel count and rounded
/// toward zero.
fn signed_half(v: u32) -> (r: i32)
    ensures
        r == half_toward_zero(as_signed(v)),
{
    if v <= 0x7fff_ffff {
        (v / 2) as i32
    } else {
        let magnitude: u32 = u32::MAX - v + 1;
        let half: u32 = magnitude / 2;
        -(half as i32)
    }
}

/// The screen point at the middle of a window with the given outer
/// position and size.
pub fn mirror_center(position: SavedPosition, size: MirrorSize) -> (center: SavedPosition)
    requires
        center_fits(position, size),
    ensures
        center == spec_mirror_center(position, size),
{
    let dx = signed_half(size.width);
    let dy = signed_half(size.height);
    SavedPosition { x: position.x + dx, y: position.y + dy }
}

/// The mirror keeps its 4:1 shape: the width lies in 128..=1600 and the
/// height is the width divided by four, rounded to the nearest pixel.
pub proof fn lemma_mirror_shape(longest_edge: int)
    ensures
        MIN_LONGEST_EDGE <= spec_mirror_size(longest_edge).width <= MAX_LONGEST_EDGE,
        ({
            let s = spec_mirror_size(longest_edge);
            -1 <= ASPECT_RATIO * s.height - s.width <= 2
        }),
        MIN_LONGEST_EDGE <= longest_edge <= MAX_LONGEST_EDGE
            ==> spec_mirror_size(longest_edge).width == longest_edge,
{
}

/// A mirror sized from the taskbar has its short side equal to the
/// taskbar's thickness, whenever that width lies in the accepted range.
pub proof fn lemma_taskbar_size_matches_thickness(b: TaskbarBounds)
    requires
        MIN_LONGEST_EDGE <= ASPECT_RATIO * thickness(b) <= MAX_LONGEST_EDGE,
    ensures
        spec_mirror_size(spec_taskbar_mirror_size(Some(b))).height == thickness(b),
        spec_mirror_size(spec_taskbar_mirror_size(Some(b))).width == ASPECT_RATIO * thickness(b),
{
}

/// The mirror is placed against the far end of the taskbar: its right edge
/// on the right end of a horizontal taskbar, level with the taskbar's top;
/// its bottom edge on the bottom of a vertical one, level with its left.
pub proof fn lemma_position_against_taskbar_end(width: int, b: TaskbarBounds)
    requires
        placement_fits(width, Some(b)),
    ensures
        ({
            let p = spec_taskbar_mirror_position(width, Some(b));
            let s = spec_mirror_size(width);
            &&& is_horizontal(b) ==> p.x + s.width == b.right && p.y == b.top
            &&& !is_horizontal(b) ==> p.x == b.left && p.y + s.height == b.bottom
        }),
{
}

/// Whenever the taskbar is measured the mirror width is four times its
/// thickness, capped at `u32::MAX`, with no lower or upper range; only an
/// unmeasured taskbar gives the fallback of 192.
pub proof fn lemma_taskbar_size_is_four_thickness(bounds: Option<TaskbarBounds>)
    ensures
        bounds is None ==> spec_taskbar_mirror_size(bounds) == 192,
        (match bounds {
            None => true,
            Some(b) => {
                &&& 4 * thickness(b) <= u32::MAX ==> spec_taskbar_mirror_size(bounds) == 4 * thickness(b)
                &&& 4 * thickness(b) > u32::MAX ==> spec_taskbar_mirror_size(bounds) == u32::MAX
                &&& thickness(b) == (if abs(b.right - b.left) <= abs(b.bottom - b.top) {
                    abs(b.right - b.left)
                } else {
                    abs(b.bottom - b.top)
                })
            },
        }),
{
}

/// A long edge below 128 gives 128, above 1600 gives 1600, and the height
/// is the one multiple of a quarter nearest to the width (halves up).
pub proof fn lemma_mirror_size_clamps(longest_edge: int)
    ensures
        longest_edge < 128 ==> spec_mirror_size(longest_edge).width == 128,
        longest_edge > 1600 ==> spec_mirror_size(longest_edge).width == 1600,
        ({
            let s = spec_mirror_size(longest_edge);
            &&& 4 * s.height <= s.width + 2
            &&& s.width + 2 < 4 * s.height + 4
        }),
{
}

/// The centre lies half the size (read as a signed pixel count, halved
/// toward zero) from the window's corner.
pub proof fn lemma_center_is_half_way(position: SavedPosition, size: MirrorSize)
    requires
        center_fits(position, size),
    ensures
        ({
            let c = spec_mirror_center(position, size);
            let w = if size.width <= i32::MAX { size.width as int } else { size.width - 0x1_0000_0000int };
            let h = if size.height <= i32::MAX { size.height as int } else { size.height - 0x1_0000_0000int };
            &&& w >= 0 ==> 0 <= w - 2 * (c.x - position.x) <= 1
            &&& w < 0 ==> 0 <= 2 * (c.x - position.x) - w <= 1
            &&& h >= 0 ==> 0 <= h - 2 * (c.y - position.y) <= 1
            &&& h < 0 ==> 0 <= 2 * (c.y - position.y) - h <= 1
        }),
{
}

/// Without a measured taskbar the mirror goes to the screen origin.
pub proof fn lemma_unmeasured_position(width: int)
    ensures
        spec_taskbar_mirror_position(width, None) == (SavedPosition { x: 0, y: 0 }),
{
}

} // verus!

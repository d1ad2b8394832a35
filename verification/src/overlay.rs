//! Keeping the mirror above the taskbar: the window style it needs and
//! the periodic refresh of its topmost position.

use vstd::prelude::*;
use windows_sys::Win32::UI::WindowsAndMessaging::{
    SWP_ASYNCWINDOWPOS, SWP_FRAMECHANGED, SWP_NOACTIVATE, SWP_NOMOVE, SWP_NOSIZE, WS_EX_LAYERED,
    WS_EX_NOACTIVATE,
};

verus! {

/// `windows_sys` `WS_EX_LAYERED`: the extended window style bit 0x80000.
#[verifier::external_body]
fn ws_ex_layered() -> (v: u32)
    ensures
        v == 0x8_0000,
{
    WS_EX_LAYERED
}

/// `windows_sys` `WS_EX_NOACTIVATE`: the extended window style bit 0x8000000.
#[verifier::external_body]
fn ws_ex_noactivate() -> (v: u32)
    ensures
        v == 0x800_0000,
{
    WS_EX_NOACTIVATE
}

/// `windows_sys` `SWP_NOMOVE`: the window position flag 0x2.
#[verifier::external_body]
fn swp_nomove() -> (v: u32)
    ensures
        v == 0x2,
{
    SWP_NOMOVE
}

/// `windows_sys` `SWP_NOSIZE`: the window position flag 0x1.
#[verifier::external_body]
fn swp_nosize() -> (v: u32)
    ensures
        v == 0x1,
{
    SWP_NOSIZE
}

/// `windows_sys` `SWP_NOACTIVATE`: the window position flag 0x10.
#[verifier::external_body]
fn swp_noactivate() -> (v: u32)
    ensures
        v == 0x10,
{
    SWP_NOACTIVATE
}

/// `windows_sys` `SWP_ASYNCWINDOWPOS`: the window position flag 0x4000.
#[verifier::external_body]
fn swp_asyncwindowpos() -> (v: u32)
    ensures
        v == 0x4000,
{
    SWP_ASYNCWINDOWPOS
}

/// `windows_sys` `SWP_FRAMECHANGED`: the window position flag 0x20.
#[verifier::external_body]
fn swp_framechanged() -> (v: u32)
    ensures
        v == 0x20,
{
    SWP_FRAMECHANGED
}

/// Position flags of every topmost refresh: keep place and size, do not
/// activate, do not wait for the window's thread.
pub open spec fn base_position_flags() -> u32 {
    0x2u32 | 0x1u32 | 0x10u32 | 0x4000u32
}

pub open spec fn spec_overlay_style(style: isize) -> isize {
    style | 0x8_0000isize | 0x800_0000isize
}

pub open spec fn spec_position_flags(refresh_frame: bool) -> u32 {
    if refresh_frame { base_position_flags() | 0x20u32 } else { base_position_flags() }
}

/// What to do to a window to make it an overlay.
#[derive(Clone, Copy, Debug, PartialEq, Eq)]
pub struct OverlayPlan {
    /// The extended style to write, when it differs from the current one.
    pub new_style: Option<isize>,
    /// Flags for moving the window to the topmost band.
    pub position_flags: u32,
}

pub open spec fn spec_overlay_plan(style: isize, refresh_frame: bool) -> OverlayPlan {
    let overlay = spec_overlay_style(style);
    OverlayPlan {
        new_style: if overlay != style { Some(overlay) } else { None },
        position_flags: spec_position_flags(refresh_frame),
    }
}

/// The overlay plan for a window whose extended style is `style`: add the
/// layered and no-activate bits when missing, and refresh the frame only
/// when asked to (right after the style changed).
pub fn overlay_plan(style: isize, refresh_frame: bool) -> (plan: OverlayPlan)
    ensures
        plan == spec_overlay_plan(style, refresh_frame),
{
    let layered = ws_ex_layered() as isize;
    let noactivate = ws_ex_noactivate() as isize;
    let overlay_style = style | layered | noactivate;
    let mut flags = swp_nomove() | swp_nosize() | swp_noactivate() | swp_asyncwindowpos();
    if refresh_frame {
        flags = flags | swp_framechanged();
    }
    OverlayPlan {
        new_style: if overlay_style != style { Some(overlay_style) } else { None },
        position_flags: flags,
    }
}

/// Making a window an overlay twice changes nothing the second time: once
/// its style has been written, the plan for it writes no style.
pub proof fn lemma_overlay_style_settles(style: isize, refresh_frame: bool)
    ensures
        spec_overlay_plan(spec_overlay_style(style), refresh_frame).new_style is None,
        spec_overlay_style(spec_overlay_style(style)) == spec_overlay_style(style),
{
    assert(((style | 0x8_0000isize) | 0x800_0000isize) | 0x8_0000isize | 0x800_0000isize
        == (style | 0x8_0000isize) | 0x800_0000isize) by (bit_vector);
}

/// A style that already has both overlay bits is left as it is, and any
/// style gets both bits.
pub proof fn lemma_overlay_style_bits(style: isize)
    ensures
        spec_overlay_style(style) & 0x8_0000isize == 0x8_0000isize,
        spec_overlay_style(style) & 0x800_0000isize == 0x800_0000isize,
        (style & 0x8_0000isize == 0x8_0000isize && style & 0x800_0000isize == 0x800_0000isize)
            ==> spec_overlay_plan(style, false).new_style is None,
{
    assert((style | 0x8_0000isize | 0x800_0000isize) & 0x8_0000isize == 0x8_0000isize) by (bit_vector);
    assert((style | 0x8_0000isize | 0x800_0000isize) & 0x800_0000isize == 0x800_0000isize) by (bit_vector);
    assert((style & 0x8_0000isize == 0x8_0000isize && style & 0x800_0000isize == 0x800_0000isize)
        ==> (style | 0x8_0000isize | 0x800_0000isize) == style) by (bit_vector);
}

/// The refresh flags always keep the window's place, size and activation,
/// and ask for a frame refresh exactly when `refresh_frame` is set.
pub proof fn lemma_position_flags(refresh_frame: bool)
    ensures
        spec_position_flags(refresh_frame) & base_position_flags() == base_position_flags(),
        (spec_position_flags(refresh_frame) & 0x20u32 != 0) == refresh_frame,
{
    assert((0x2u32 | 0x1u32 | 0x10u32 | 0x4000u32) & 0x20u32 == 0u32) by (bit_vector);
    assert((0x2u32 | 0x1u32 | 0x10u32 | 0x4000u32 | 0x20u32) & 0x20u32 == 0x20u32) by (bit_vector);
    assert((0x2u32 | 0x1u32 | 0x10u32 | 0x4000u32 | 0x20u32) & (0x2u32 | 0x1u32 | 0x10u32 | 0x4000u32)
        == (0x2u32 | 0x1u32 | 0x10u32 | 0x4000u32)) by (bit_vector);
    assert((0x2u32 | 0x1u32 | 0x10u32 | 0x4000u32) & (0x2u32 | 0x1u32 | 0x10u32 | 0x4000u32)
        == (0x2u32 | 0x1u32 | 0x10u32 | 0x4000u32)) by (bit_vector);
}

/// A window to refresh as an overlay.
#[derive(Clone, Copy, Debug, PartialEq, Eq)]
pub struct OverlayRequest {
    pub hwnd: isize,
    pub refresh_frame: bool,
}

/// The overlay state of the mirror window: its handle (0 while unknown),
/// whether overlay refreshing is wanted, and whether a refresh loop runs.
#[derive(Clone, Copy, Debug, PartialEq, Eq)]
pub struct TaskbarOverlay {
    pub hwnd: isize,
    pub enabled: bool,
    pub refresh_running: bool,
}

/// What starting the overlay asks for.
#[derive(Clone, Copy, Debug, PartialEq, Eq)]
pub struct OverlayStart {
    /// Apply the overlay now.
    pub apply: Option<OverlayRequest>,
    /// Start the refresh loop; false when one already runs.
    pub spawn_refresh: bool,
}

/// What one turn of the refresh loop asks for.
#[derive(Clone, Copy, Debug, PartialEq, Eq)]
pub enum RefreshTick {
    /// End the loop.
    Stop,
    /// Reapply the overlay (when the handle is known) and wait a second.
    Continue(Option<OverlayRequest>),
}

/// The window to refresh, or none for the null handle.
pub open spec fn spec_request(hwnd: isize, refresh_frame: bool) -> Option<OverlayRequest> {
    if hwnd == 0 { None } else { Some(OverlayRequest { hwnd, refresh_frame }) }
}

pub open spec fn spec_start(o: TaskbarOverlay) -> (TaskbarOverlay, OverlayStart) {
    (
        TaskbarOverlay { enabled: true, refresh_running: true, ..o },
        OverlayStart { apply: spec_request(o.hwnd, true), spawn_refresh: !o.refresh_running },
    )
}

pub open spec fn spec_tick(o: TaskbarOverlay) -> (TaskbarOverlay, RefreshTick) {
    if !o.enabled {
        (TaskbarOverlay { refresh_running: false, ..o }, RefreshTick::Stop)
    } else {
        (o, RefreshTick::Continue(spec_request(o.hwnd, false)))
    }
}

/// A request to make window `hwnd` an overlay; the null handle is skipped.
pub fn overlay_request(hwnd: isize, refresh_frame: bool) -> (r: Option<OverlayRequest>)
    ensures
        r == spec_request(hwnd, refresh_frame),
{
    if hwnd == 0 {
        None
    } else {
        Some(OverlayRequest { hwnd, refresh_frame })
    }
}

impl Default for TaskbarOverlay {
    /// No known window, not enabled, no loop.
    fn default() -> (o: Self)
        ensures
            o == (TaskbarOverlay { hwnd: 0, enabled: false, refresh_running: false }),
    {
        TaskbarOverlay { hwnd: 0, enabled: false, refresh_running: false }
    }
}

impl TaskbarOverlay {
    /// The mirror was shown: enable the overlay, apply it at once with a
    /// frame refresh, and start a refresh loop unless one already runs.
    pub fn start(&mut self) -> (r: OverlayStart)
        ensures
            (*final(self), r) == spec_start(*old(self)),
    {
        self.enabled = true;
        let apply = overlay_request(self.hwnd, true);
        let was_running = self.refresh_running;
        self.refresh_running = true;
        OverlayStart { apply, spawn_refresh: !was_running }
    }

    /// One turn of the refresh loop: end it (and mark it ended) once the
    /// overlay is disabled, else reapply the overlay without a frame refresh.
    pub fn tick(&mut self) -> (r: RefreshTick)
        ensures
            (*final(self), r) == spec_tick(*old(self)),
    {
        if !self.enabled {
            self.refresh_running = false;
            RefreshTick::Stop
        } else {
            RefreshTick::Continue(overlay_request(self.hwnd, false))
        }
    }

    /// The mirror was hidden: the refresh loop ends at its next turn.
    pub fn stop(&mut self)
        ensures
            *final(self) == (TaskbarOverlay { enabled: false, ..*old(self) }),
    {
        self.enabled = false;
    }
}

/// At most one refresh loop: starting while a loop runs spawns none, and a
/// loop that has been told to stop ends at its next turn and clears the
/// mark, so that the next start spawns a fresh one.
pub proof fn lemma_single_refresh_loop(o: TaskbarOverlay)
    ensures
        o.refresh_running ==> !spec_start(o).1.spawn_refresh,
        spec_start(o).0.refresh_running,
        spec_start(spec_start(o).0).1.spawn_refresh == false,
        ({
            let stopped = TaskbarOverlay { enabled: false, ..o };
            let (after, tick) = spec_tick(stopped);
            &&& tick == RefreshTick::Stop
            &&& !after.refresh_running
            &&& spec_start(after).1.spawn_refresh
        }),
{
}

/// While the overlay stays enabled the loop keeps running and reapplies
/// the overlay to the known window without touching its frame.
pub proof fn lemma_refresh_continues(o: TaskbarOverlay)
    requires
        o.enabled,
    ensures
        spec_tick(o).0 == o,
        spec_tick(o).1 == RefreshTick::Continue(spec_request(o.hwnd, false)),
{
}

/// Showing the mirror applies the overlay at once, with a frame refresh,
/// to the known window, whether or not a refresh loop is still running;
/// it enables the overlay and leaves a loop marked as running.
pub proof fn lemma_start_applies_at_once(o: TaskbarOverlay)
    ensures
        spec_start(o).1.apply == (if o.hwnd == 0 {
            None
        } else {
            Some(OverlayRequest { hwnd: o.hwnd, refresh_frame: true })
        }),
        spec_start(o).1.spawn_refresh == !o.refresh_running,
        spec_start(o).0 == (TaskbarOverlay { hwnd: o.hwnd, enabled: true, refresh_running: true }),
{
}

/// A refresh turn ends the loop exactly when the overlay is disabled, and
/// otherwise reapplies it to the known window without a frame refresh.
pub proof fn lemma_tick_outcome(o: TaskbarOverlay)
    ensures
        (spec_tick(o).1 == RefreshTick::Stop) == !o.enabled,
        !o.enabled ==> spec_tick(o).0 == (TaskbarOverlay { hwnd: o.hwnd, enabled: false, refresh_running: false }),
        o.enabled ==> spec_tick(o).1 == RefreshTick::Continue(if o.hwnd == 0 {
            None
        } else {
            Some(OverlayRequest { hwnd: o.hwnd, refresh_frame: false })
        }),
{
}

/// The overlay request names the given window and frame choice, and is
/// skipped exactly for the null handle.
pub proof fn lemma_request(hwnd: isize, refresh_frame: bool)
    ensures
        (spec_request(hwnd, refresh_frame) is None) == (hwnd == 0),
        hwnd != 0 ==> spec_request(hwnd, refresh_frame) == Some(OverlayRequest { hwnd, refresh_frame }),
{
}

/// The plan writes a style exactly when one of the two overlay bits is
/// missing, and the style it writes keeps every bit of the old one and adds
/// both; the position flags are SWP_NOMOVE | SWP_NOSIZE | SWP_NOACTIVATE |
/// SWP_ASYNCWINDOWPOS, plus SWP_FRAMECHANGED when the frame is refreshed.
pub proof fn lemma_plan_outcome(style: isize, refresh_frame: bool)
    ensures
        (spec_overlay_plan(style, refresh_frame).new_style is None) == (style & 0x8_0000isize
            == 0x8_0000isize && style & 0x800_0000isize == 0x800_0000isize),
        spec_overlay_plan(style, refresh_frame).new_style matches Some(v) ==> {
            &&& v & style == style
            &&& v & 0x8_0000isize == 0x8_0000isize
            &&& v & 0x800_0000isize == 0x800_0000isize
            &&& v == style | 0x808_0000isize
        },
        spec_overlay_plan(style, refresh_frame).position_flags == (if refresh_frame {
            0x4033u32
        } else {
            0x4013u32
        }),
{
    assert((style | 0x8_0000isize | 0x800_0000isize) == style <==> (style & 0x8_0000isize
        == 0x8_0000isize && style & 0x800_0000isize == 0x800_0000isize)) by (bit_vector);
    assert((style | 0x8_0000isize | 0x800_0000isize) & style == style) by (bit_vector);
    assert((style | 0x8_0000isize | 0x800_0000isize) & 0x8_0000isize == 0x8_0000isize) by (bit_vector);
    assert((style | 0x8_0000isize | 0x800_0000isize) & 0x800_0000isize == 0x800_0000isize) by (bit_vector);
    assert((style | 0x8_0000isize | 0x800_0000isize) == style | 0x808_0000isize) by (bit_vector);
    assert(0x2u32 | 0x1u32 | 0x10u32 | 0x4000u32 == 0x4013u32) by (bit_vector);
    assert(0x2u32 | 0x1u32 | 0x10u32 | 0x4000u32 | 0x20u32 == 0x4033u32) by (bit_vector);
}

} // verus!

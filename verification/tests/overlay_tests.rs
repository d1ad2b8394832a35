use rearview_mirror::overlay::{
    overlay_plan, overlay_request, OverlayPlan, OverlayRequest, OverlayStart, RefreshTick,
    TaskbarOverlay,
};

#[test]
fn plan_adds_missing_style_bits() {
    assert_eq!(
        overlay_plan(0x100, true),
        OverlayPlan { new_style: Some(0x100 | 0x80000 | 0x8000000), position_flags: 0x4000 | 0x10 | 0x2 | 0x1 | 0x20 }
    );
}

#[test]
fn plan_keeps_complete_style() {
    let style: isize = 0x80000 | 0x8000000 | 0x8;
    assert_eq!(overlay_plan(style, false), OverlayPlan { new_style: None, position_flags: 0x4013 });
}

#[test]
fn plan_with_one_bit_present() {
    assert_eq!(overlay_plan(0x80000, false).new_style, Some(0x8080000));
    assert_eq!(overlay_plan(-1, false).new_style, None);
}

#[test]
fn plan_is_idempotent() {
    for style in [0isize, 1, 0x80000, 0x7fff_ffff, -5] {
        let first = overlay_plan(style, true).new_style.unwrap_or(style);
        assert_eq!(overlay_plan(first, true).new_style, None);
    }
}

#[test]
fn null_handle_is_skipped() {
    assert_eq!(overlay_request(0, true), None);
    assert_eq!(overlay_request(42, false), Some(OverlayRequest { hwnd: 42, refresh_frame: false }));
}

#[test]
fn only_one_refresh_loop() {
    let mut o = TaskbarOverlay::default();
    o.hwnd = 7;
    assert_eq!(
        o.start(),
        OverlayStart { apply: Some(OverlayRequest { hwnd: 7, refresh_frame: true }), spawn_refresh: true }
    );
    assert!(!o.start().spawn_refresh);
    assert_eq!(o.tick(), RefreshTick::Continue(Some(OverlayRequest { hwnd: 7, refresh_frame: false })));
    o.stop();
    assert!(!o.enabled);
    assert_eq!(o.tick(), RefreshTick::Stop);
    assert!(!o.refresh_running);
    assert!(o.start().spawn_refresh);
}

#[test]
fn unknown_window_still_runs_loop() {
    let mut o = TaskbarOverlay::default();
    assert_eq!(o, TaskbarOverlay { hwnd: 0, enabled: false, refresh_running: false });
    assert_eq!(o.start(), OverlayStart { apply: None, spawn_refresh: true });
    assert_eq!(o.tick(), RefreshTick::Continue(None));
}

use rearview_mirror::display::{
    DisplayMode, DisplayOptions, MirrorState, Response, TrayOption, TrayOptions, WindowChange,
};

fn shown(change: WindowChange, was: bool) -> bool {
    match change {
        WindowChange::Show => true,
        WindowChange::Hide => false,
        WindowChange::Unchanged => was,
    }
}

#[test]
fn default_state_matches_documented_initial_settings() {
    let s = MirrorState::default();
    assert!(s.mirrored);
    assert!(!s.grayscale);
    assert!(s.move_enabled);
    assert!(s.toggle_mode);
    assert_eq!(s.display_mode, DisplayMode::Hidden);
    assert!(!s.shortcut_held);
    assert!(!s.moved_while_shortcut_held);
    assert!(!s.toggle_press_started_visible);
}

#[test]
fn hold_mode_shows_while_held() {
    let mut s = MirrorState::default();
    s.set_toggle_mode(false);
    let r = s.handle_shortcut(true);
    assert_eq!(r, Response { window: WindowChange::Show, center_cursor: true, start_tracking: true });
    assert_eq!(s.display_mode, DisplayMode::Held);
    assert!(s.shortcut_held);
    let r = s.handle_shortcut(false);
    assert_eq!(r, Response { window: WindowChange::Hide, center_cursor: false, start_tracking: false });
    assert_eq!(s.display_mode, DisplayMode::Hidden);
    assert!(!s.shortcut_held);
}

#[test]
fn hold_mode_without_dragging_does_not_track() {
    let mut s = MirrorState::default();
    s.set_toggle_mode(false);
    s.set_move_enabled(false);
    let r = s.show_held_mirror();
    assert!(!r.start_tracking);
    assert!(r.center_cursor);
}

#[test]
fn hold_does_not_hide_toggled_mirror() {
    let mut s = MirrorState::default();
    s.toggle_mirror();
    assert_eq!(s.display_mode, DisplayMode::Toggled);
    let r = s.show_held_mirror();
    assert_eq!(r.window, WindowChange::Unchanged);
    let r = s.release_held_mirror();
    assert_eq!(r.window, WindowChange::Unchanged);
    assert_eq!(s.display_mode, DisplayMode::Toggled);
}

#[test]
fn toggle_shortcut_short_press_shows_then_hides() {
    let mut s = MirrorState::default();
    let r = s.handle_shortcut(true);
    assert_eq!(r.window, WindowChange::Show);
    assert!(!s.toggle_press_started_visible);
    let r = s.handle_shortcut(false);
    assert_eq!(r.window, WindowChange::Unchanged);
    assert_eq!(s.display_mode, DisplayMode::Toggled);
    let r = s.handle_shortcut(true);
    assert_eq!(r.window, WindowChange::Unchanged);
    assert!(s.toggle_press_started_visible);
    let r = s.handle_shortcut(false);
    assert_eq!(r.window, WindowChange::Hide);
    assert_eq!(s.display_mode, DisplayMode::Hidden);
}

#[test]
fn toggle_shortcut_drag_keeps_mirror() {
    let mut s = MirrorState::default();
    s.handle_shortcut(true);
    s.handle_shortcut(false);
    s.handle_shortcut(true);
    s.note_pointer_moved();
    assert!(s.moved_while_shortcut_held);
    let r = s.handle_shortcut(false);
    assert_eq!(r.window, WindowChange::Unchanged);
    assert_eq!(s.display_mode, DisplayMode::Toggled);
}

#[test]
fn toggle_press_turns_held_into_toggled() {
    let mut s = MirrorState::default();
    s.set_toggle_mode(false);
    s.handle_shortcut(true);
    s.set_toggle_mode(true);
    let r = s.press_toggle_shortcut();
    assert_eq!(r.window, WindowChange::Unchanged);
    assert_eq!(s.display_mode, DisplayMode::Toggled);
    assert!(s.toggle_press_started_visible);
    assert!(!s.moved_while_shortcut_held);
}

#[test]
fn tray_toggle_alternates() {
    let mut s = MirrorState::default();
    let r = s.toggle_mirror();
    assert_eq!(r.window, WindowChange::Show);
    assert_eq!(s.display_mode, DisplayMode::Toggled);
    let r = s.toggle_mirror();
    assert_eq!(r.window, WindowChange::Hide);
    assert_eq!(s.display_mode, DisplayMode::Hidden);
}

#[test]
fn tray_toggle_from_held_shows_and_clears_shortcut() {
    let mut s = MirrorState::default();
    s.set_toggle_mode(false);
    s.show_held_mirror();
    let r = s.toggle_mirror();
    assert_eq!(r.window, WindowChange::Show);
    assert_eq!(s.display_mode, DisplayMode::Toggled);
    assert!(!s.shortcut_held);
}

#[test]
fn every_event_keeps_window_in_step() {
    let modes = [DisplayMode::Hidden, DisplayMode::Held, DisplayMode::Toggled];
    for &mode in modes.iter() {
        for flags in 0..16u32 {
            let base = MirrorState {
                shortcut_held: false,
                moved_while_shortcut_held: flags & 1 != 0,
                toggle_press_started_visible: flags & 2 != 0,
                move_enabled: true,
                toggle_mode: flags & 4 != 0,
                mirrored: true,
                grayscale: false,
                display_mode: mode,
            };
            let ops: [fn(&mut MirrorState) -> Response; 5] = [
                MirrorState::show_held_mirror,
                MirrorState::release_held_mirror,
                MirrorState::toggle_mirror,
                MirrorState::press_toggle_shortcut,
                MirrorState::release_toggle_shortcut,
            ];
            for op in ops.iter() {
                let mut s = base;
                let r = op(&mut s);
                let before = base.display_mode != DisplayMode::Hidden;
                let after = s.display_mode != DisplayMode::Hidden;
                assert_eq!(shown(r.window, before), after);
            }
        }
    }
}

#[test]
fn settings_update_options() {
    let mut s = MirrorState::default();
    s.set_display_options(DisplayOptions { mirrored: false, grayscale: true });
    s.set_move_enabled(false);
    assert_eq!(
        s.tray_options(),
        TrayOptions { mirrored: false, grayscale: true, move_enabled: false, toggle_mode: true }
    );
    assert_eq!(s.display_mode, DisplayMode::Hidden);
}

#[test]
fn flip_option_returns_new_check_state_and_twice_restores() {
    let initial = MirrorState::default();
    let mut s = initial;
    assert!(!s.flip_option(TrayOption::Mirrored));
    assert!(!s.mirrored);
    assert!(s.flip_option(TrayOption::Grayscale));
    assert!(s.grayscale);
    assert!(!s.flip_option(TrayOption::MoveEnabled));
    assert!(!s.flip_option(TrayOption::ToggleMode));
    assert_eq!(
        s.tray_options(),
        TrayOptions { mirrored: false, grayscale: true, move_enabled: false, toggle_mode: false }
    );
    s.flip_option(TrayOption::Mirrored);
    s.flip_option(TrayOption::Grayscale);
    s.flip_option(TrayOption::MoveEnabled);
    s.flip_option(TrayOption::ToggleMode);
    assert_eq!(s, initial);
}

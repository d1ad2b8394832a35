//! The mirror's display state and the shortcut, tray and settings events
//! that change it.

use vstd::prelude::*;

verus! {

/// Why the mirror is on screen, if it is.
#[derive(Clone, Copy, Debug, PartialEq, Eq)]
pub enum DisplayMode {
    /// Not shown.
    Hidden,
    /// Shown while the shortcut is held down.
    Held,
    /// Shown until toggled off.
    Toggled,
}

/// What the window has to do after an event.
#[derive(Clone, Copy, Debug, PartialEq, Eq)]
pub enum WindowChange {
    Show,
    Hide,
    Unchanged,
}

/// The work an event asks of the window layer.
#[derive(Clone, Copy, Debug, PartialEq, Eq)]
pub struct Response {
    /// Show or hide the mirror window.
    pub window: WindowChange,
    /// Put the pointer at the middle of the mirror.
    pub center_cursor: bool,
    /// Start following the pointer while the shortcut stays down.
    pub start_tracking: bool,
}

/// The display options that the settings page sends.
#[derive(Clone, Copy, Debug, PartialEq, Eq)]
pub struct DisplayOptions {
    pub mirrored: bool,
    pub grayscale: bool,
}

/// The check marks of the tray menu.
#[derive(Clone, Copy, Debug, PartialEq, Eq)]
pub struct TrayOptions {
    pub mirrored: bool,
    pub grayscale: bool,
    pub move_enabled: bool,
    pub toggle_mode: bool,
}

/// A check item of the tray menu.
#[derive(Clone, Copy, Debug, PartialEq, Eq)]
pub enum TrayOption {
    Mirrored,
    Grayscale,
    MoveEnabled,
    ToggleMode,
}

/// Everything the mirror remembers between events.
#[derive(Clone, Copy, Debug, PartialEq, Eq)]
pub struct MirrorState {
    /// The global shortcut is down.
    pub shortcut_held: bool,
    /// The pointer dragged the mirror since the shortcut went down.
    pub moved_while_shortcut_held: bool,
    /// The mirror was already on screen when the shortcut went down.
    pub toggle_press_started_visible: bool,
    /// Holding the shortcut lets the pointer drag the mirror.
    pub move_enabled: bool,
    /// The shortcut toggles the mirror rather than showing it while held.
    pub toggle_mode: bool,
    /// The picture is flipped left to right.
    pub mirrored: bool,
    /// The picture is shown in black and white.
    pub grayscale: bool,
    pub display_mode: DisplayMode,
}

pub open spec fn is_visible(mode: DisplayMode) -> bool {
    mode != DisplayMode::Hidden
}

/// Whether the window is shown after applying `change` to a window whose
/// visibility was `was_visible`.
pub open spec fn shown_after(change: WindowChange, was_visible: bool) -> bool {
    match change {
        WindowChange::Show => true,
        WindowChange::Hide => false,
        WindowChange::Unchanged => was_visible,
    }
}

/// A window that was shown exactly when the old mode was visible is shown
/// exactly when the new mode is visible once `change` is applied.
pub open spec fn window_follows(old_mode: DisplayMode, new_mode: DisplayMode, change: WindowChange) -> bool {
    shown_after(change, is_visible(old_mode)) == is_visible(new_mode)
}

pub open spec fn default_state() -> MirrorState {
    MirrorState {
        shortcut_held: false,
        moved_while_shortcut_held: false,
        toggle_press_started_visible: false,
        move_enabled: true,
        toggle_mode: true,
        mirrored: true,
        grayscale: false,
        display_mode: DisplayMode::Hidden,
    }
}

pub open spec fn press_response(show_window: bool, move_enabled: bool) -> Response {
    Response {
        window: if show_window { WindowChange::Show } else { WindowChange::Unchanged },
        center_cursor: true,
        start_tracking: move_enabled,
    }
}

pub open spec fn release_response(hide_window: bool) -> Response {
    Response {
        window: if hide_window { WindowChange::Hide } else { WindowChange::Unchanged },
        center_cursor: false,
        start_tracking: false,
    }
}

pub open spec fn spec_press_hold(s: MirrorState) -> (MirrorState, Response) {
    let show_window = s.display_mode == DisplayMode::Hidden;
    (
        MirrorState {
            display_mode: if show_window { DisplayMode::Held } else { s.display_mode },
            shortcut_held: true,
            ..s
        },
        press_response(show_window, s.move_enabled),
    )
}

pub open spec fn spec_release_hold(s: MirrorState) -> (MirrorState, Response) {
    let hide_window = s.display_mode == DisplayMode::Held;
    (
        MirrorState {
            display_mode: if hide_window { DisplayMode::Hidden } else { s.display_mode },
            shortcut_held: false,
            ..s
        },
        release_response(hide_window),
    )
}

pub open spec fn spec_toggle(s: MirrorState) -> (MirrorState, Response) {
    let show_window = s.display_mode != DisplayMode::Toggled;
    (
        MirrorState {
            display_mode: if show_window { DisplayMode::Toggled } else { DisplayMode::Hidden },
            shortcut_held: false,
            ..s
        },
        Response {
            window: if show_window { WindowChange::Show } else { WindowChange::Hide },
            center_cursor: false,
            start_tracking: false,
        },
    )
}

pub open spec fn spec_press_toggle(s: MirrorState) -> (MirrorState, Response) {
    let show_window = s.display_mode == DisplayMode::Hidden;
    (
        MirrorState {
            display_mode: DisplayMode::Toggled,
            shortcut_held: true,
            moved_while_shortcut_held: false,
            toggle_press_started_visible: !show_window,
            ..s
        },
        press_response(show_window, s.move_enabled),
    )
}

pub open spec fn spec_release_toggle(s: MirrorState) -> (MirrorState, Response) {
    let hide_window = s.toggle_press_started_visible && !s.moved_while_shortcut_held
        && s.display_mode == DisplayMode::Toggled;
    (
        MirrorState {
            display_mode: if hide_window { DisplayMode::Hidden } else { s.display_mode },
            shortcut_held: false,
            ..s
        },
        release_response(hide_window),
    )
}

pub open spec fn spec_shortcut(s: MirrorState, pressed: bool) -> (MirrorState, Response) {
    if s.toggle_mode {
        if pressed { spec_press_toggle(s) } else { spec_release_toggle(s) }
    } else {
        if pressed { spec_press_hold(s) } else { spec_release_hold(s) }
    }
}

pub open spec fn option_value(s: MirrorState, option: TrayOption) -> bool {
    match option {
        TrayOption::Mirrored => s.mirrored,
        TrayOption::Grayscale => s.grayscale,
        TrayOption::MoveEnabled => s.move_enabled,
        TrayOption::ToggleMode => s.toggle_mode,
    }
}

pub open spec fn with_option(s: MirrorState, option: TrayOption, value: bool) -> MirrorState {
    match option {
        TrayOption::Mirrored => MirrorState { mirrored: value, ..s },
        TrayOption::Grayscale => MirrorState { grayscale: value, ..s },
        TrayOption::MoveEnabled => MirrorState { move_enabled: value, ..s },
        TrayOption::ToggleMode => MirrorState { toggle_mode: value, ..s },
    }
}

pub open spec fn spec_tray_options(s: MirrorState) -> TrayOptions {
    TrayOptions {
        mirrored: s.mirrored,
        grayscale: s.grayscale,
        move_enabled: s.move_enabled,
        toggle_mode: s.toggle_mode,
    }
}

impl Default for MirrorState {
    /// Hidden, with the picture flipped, in colour, draggable, and the
    /// shortcut in toggle mode.
    fn default() -> (s: Self)
        ensures
            s == default_state(),
    {
        MirrorState {
            shortcut_held: false,
            moved_while_shortcut_held: false,
            toggle_press_started_visible: false,
            move_enabled: true,
            toggle_mode: true,
            mirrored: true,
            grayscale: false,
            display_mode: DisplayMode::Hidden,
        }
    }
}

impl MirrorState {
    /// The shortcut went down in hold mode: a hidden mirror is shown for as
    /// long as the shortcut is held.
    pub fn show_held_mirror(&mut self) -> (r: Response)
        ensures
            (*final(self), r) == spec_press_hold(*old(self)),
            window_follows(old(self).display_mode, final(self).display_mode, r.window),
    {
        let show_window = match self.display_mode {
            DisplayMode::Hidden => {
                self.display_mode = DisplayMode::Held;
                true
            },
            _ => false,
        };
        self.shortcut_held = true;
        Response {
            window: if show_window { WindowChange::Show } else { WindowChange::Unchanged },
            center_cursor: true,
            start_tracking: self.move_enabled,
        }
    }

    /// The shortcut came up in hold mode: a mirror shown by holding it is
    /// hidden again.
    pub fn release_held_mirror(&mut self) -> (r: Response)
        ensures
            (*final(self), r) == spec_release_hold(*old(self)),
            window_follows(old(self).display_mode, final(self).display_mode, r.window),
    {
        self.shortcut_held = false;
        let hide_window = match self.display_mode {
            DisplayMode::Held => {
                self.display_mode = DisplayMode::Hidden;
                true
            },
            _ => false,
        };
        Response {
            window: if hide_window { WindowChange::Hide } else { WindowChange::Unchanged },
            center_cursor: false,
            start_tracking: false,
        }
    }

    /// The tray's toggle item: a mirror that is not toggled on is turned
    /// on, a toggled one is turned off.
    pub fn toggle_mirror(&mut self) -> (r: Response)
        ensures
            (*final(self), r) == spec_toggle(*old(self)),
            window_follows(old(self).display_mode, final(self).display_mode, r.window),
    {
        self.shortcut_held = false;
        let show_window = match self.display_mode {
            DisplayMode::Hidden | DisplayMode::Held => {
                self.display_mode = DisplayMode::Toggled;
                true
            },
            DisplayMode::Toggled => {
                self.display_mode = DisplayMode::Hidden;
                false
            },
        };
        Response {
            window: if show_window { WindowChange::Show } else { WindowChange::Hide },
            center_cursor: false,
            start_tracking: false,
        }
    }

    /// The shortcut went down in toggle mode: the mirror is turned on, and
    /// the state remembers whether it already was on screen.
    pub fn press_toggle_shortcut(&mut self) -> (r: Response)
        ensures
            (*final(self), r) == spec_press_toggle(*old(self)),
            window_follows(old(self).display_mode, final(self).display_mode, r.window),
    {
        let (show_window, started_visible) = match self.display_mode {
            DisplayMode::Hidden => {
                self.display_mode = DisplayMode::Toggled;
                (true, false)
            },
            DisplayMode::Toggled => (false, true),
            DisplayMode::Held => {
                self.display_mode = DisplayMode::Toggled;
                (false, true)
            },
        };
        self.shortcut_held = true;
        self.moved_while_shortcut_held = false;
        self.toggle_press_started_visible = started_visible;
        Response {
            window: if show_window { WindowChange::Show } else { WindowChange::Unchanged },
            center_cursor: true,
            start_tracking: self.move_enabled,
        }
    }

    /// The shortcut came up in toggle mode: a mirror that was already on
    /// screen when it went down, and was not dragged since, is turned off.
    pub fn release_toggle_shortcut(&mut self) -> (r: Response)
        ensures
            (*final(self), r) == spec_release_toggle(*old(self)),
            window_follows(old(self).display_mode, final(self).display_mode, r.window),
    {
        self.shortcut_held = false;
        let should_hide = self.toggle_press_started_visible && !self.moved_while_shortcut_held;
        let mut hide_window = false;
        if should_hide {
            match self.display_mode {
                DisplayMode::Toggled => {
                    self.display_mode = DisplayMode::Hidden;
                    hide_window = true;
                },
                _ => {},
            }
        }
        Response {
            window: if hide_window { WindowChange::Hide } else { WindowChange::Unchanged },
            center_cursor: false,
            start_tracking: false,
        }
    }

    /// The global shortcut went down (`pressed`) or came up, dispatched by
    /// the current shortcut mode.
    pub fn handle_shortcut(&mut self, pressed: bool) -> (r: Response)
        ensures
            (*final(self), r) == spec_shortcut(*old(self), pressed),
            window_follows(old(self).display_mode, final(self).display_mode, r.window),
    {
        if self.toggle_mode {
            if pressed { self.press_toggle_shortcut() } else { self.release_toggle_shortcut() }
        } else {
            if pressed { self.show_held_mirror() } else { self.release_held_mirror() }
        }
    }

    /// The pointer dragged the mirror while the shortcut was down.
    pub fn note_pointer_moved(&mut self)
        ensures
            *final(self) == (MirrorState { moved_while_shortcut_held: true, ..*old(self) }),
    {
        self.moved_while_shortcut_held = true;
    }

    /// The settings page turned dragging on or off.
    pub fn set_move_enabled(&mut self, enabled: bool)
        ensures
            *final(self) == (MirrorState { move_enabled: enabled, ..*old(self) }),
    {
        self.move_enabled = enabled;
    }

    /// The settings page chose the shortcut mode.
    pub fn set_toggle_mode(&mut self, enabled: bool)
        ensures
            *final(self) == (MirrorState { toggle_mode: enabled, ..*old(self) }),
    {
        self.toggle_mode = enabled;
    }

    /// The settings page sent new display options.
    pub fn set_display_options(&mut self, options: DisplayOptions)
        ensures
            *final(self) == (MirrorState {
                mirrored: options.mirrored,
                grayscale: options.grayscale,
                ..*old(self)
            }),
    {
        self.mirrored = options.mirrored;
        self.grayscale = options.grayscale;
    }

    /// The check marks the tray menu shows for this state.
    pub fn tray_options(&self) -> (t: TrayOptions)
        ensures
            t == spec_tray_options(*self),
    {
        TrayOptions {
            mirrored: self.mirrored,
            grayscale: self.grayscale,
            move_enabled: self.move_enabled,
            toggle_mode: self.toggle_mode,
        }
    }

    /// A tray check item was clicked: its option is inverted, and the new
    /// value, which its check mark shows, is returned.
    pub fn flip_option(&mut self, option: TrayOption) -> (checked: bool)
        ensures
            checked == !option_value(*old(self), option),
            *final(self) == with_option(*old(self), option, checked),
    {
        match option {
            TrayOption::Mirrored => {
                self.mirrored = !self.mirrored;
                self.mirrored
            },
            TrayOption::Grayscale => {
                self.grayscale = !self.grayscale;
                self.grayscale
            },
            TrayOption::MoveEnabled => {
                self.move_enabled = !self.move_enabled;
                self.move_enabled
            },
            TrayOption::ToggleMode => {
                self.toggle_mode = !self.toggle_mode;
                self.toggle_mode
            },
        }
    }
}

/// In hold mode the mirror is on screen exactly while the shortcut is
/// held: pressing shows a hidden mirror, releasing hides it again, and the
/// state ends hidden with the shortcut up. A mirror toggled on stays on.
pub proof fn lemma_hold_shows_only_while_held(s: MirrorState)
    ensures
        ({
            let (s1, r1) = spec_press_hold(s);
            let (s2, r2) = spec_release_hold(s1);
            &&& s.display_mode == DisplayMode::Hidden ==> {
                &&& r1.window == WindowChange::Show
                &&& s1.display_mode == DisplayMode::Held
                &&& r2.window == WindowChange::Hide
            }
            &&& s.display_mode != DisplayMode::Toggled ==> s2.display_mode == DisplayMode::Hidden
            &&& s.display_mode == DisplayMode::Toggled ==> {
                &&& s2.display_mode == DisplayMode::Toggled
                &&& r1.window == WindowChange::Unchanged
                &&& r2.window == WindowChange::Unchanged
            }
            &&& s1.shortcut_held && !s2.shortcut_held
        }),
{
}

/// The tray's toggle item alternates: after it the mirror is on screen
/// exactly when it was not toggled on before, and using it twice brings a
/// toggled mirror back on and leaves any other one hidden.
pub proof fn lemma_toggle_alternates(s: MirrorState)
    ensures
        is_visible(spec_toggle(s).0.display_mode) == (s.display_mode != DisplayMode::Toggled),
        spec_toggle(spec_toggle(s).0).0.display_mode == (if s.display_mode == DisplayMode::Toggled {
            DisplayMode::Toggled
        } else {
            DisplayMode::Hidden
        }),
{
}

/// In toggle mode a short press on a hidden mirror shows it and leaves it
/// on screen after the release; a short press on a shown mirror hides it
/// on release; a press during which the pointer dragged the mirror leaves
/// it on screen.
pub proof fn lemma_toggle_shortcut_press_release(s: MirrorState)
    ensures
        ({
            let (s1, r1) = spec_press_toggle(s);
            let (s2, r2) = spec_release_toggle(s1);
            &&& s.display_mode == DisplayMode::Hidden ==> {
                &&& r1.window == WindowChange::Show
                &&& r2.window == WindowChange::Unchanged
                &&& s2.display_mode == DisplayMode::Toggled
            }
            &&& s.display_mode != DisplayMode::Hidden ==> {
                &&& r1.window == WindowChange::Unchanged
                &&& r2.window == WindowChange::Hide
                &&& s2.display_mode == DisplayMode::Hidden
            }
        }),
        ({
            let (s1, _r1) = spec_press_toggle(s);
            let moved = MirrorState { moved_while_shortcut_held: true, ..s1 };
            let (s2, r2) = spec_release_toggle(moved);
            &&& r2.window == WindowChange::Unchanged
            &&& s2.display_mode == DisplayMode::Toggled
        }),
{
}

/// Clicking the same tray check item twice restores the state.
pub proof fn lemma_flip_option_twice(s: MirrorState, option: TrayOption)
    ensures
        ({
            let once = with_option(s, option, !option_value(s, option));
            with_option(once, option, !option_value(once, option)) == s
        }),
{
}

/// The tray check marks always show the options of the state, and
/// clicking an item changes its own mark alone.
pub proof fn lemma_flip_changes_one_mark(s: MirrorState, option: TrayOption)
    ensures
        ({
            let after = with_option(s, option, !option_value(s, option));
            let (t0, t1) = (spec_tray_options(s), spec_tray_options(after));
            &&& option_value(after, option) == !option_value(s, option)
            &&& (option != TrayOption::Mirrored ==> t1.mirrored == t0.mirrored)
            &&& (option != TrayOption::Grayscale ==> t1.grayscale == t0.grayscale)
            &&& (option != TrayOption::MoveEnabled ==> t1.move_enabled == t0.move_enabled)
            &&& (option != TrayOption::ToggleMode ==> t1.toggle_mode == t0.toggle_mode)
            &&& after.display_mode == s.display_mode
        }),
{
}

/// A shortcut press puts the pointer at the middle of the mirror and lets
/// the pointer drag the mirror exactly when dragging is enabled, in either
/// shortcut mode; a release and the tray's toggle item do neither.
pub proof fn lemma_pointer_work_only_on_press(s: MirrorState)
    ensures
        spec_press_toggle(s).1.center_cursor,
        spec_press_toggle(s).1.start_tracking == s.move_enabled,
        spec_press_hold(s).1.center_cursor,
        spec_press_hold(s).1.start_tracking == s.move_enabled,
        !spec_release_toggle(s).1.center_cursor && !spec_release_toggle(s).1.start_tracking,
        !spec_release_hold(s).1.center_cursor && !spec_release_hold(s).1.start_tracking,
        !spec_toggle(s).1.center_cursor && !spec_toggle(s).1.start_tracking,
        spec_shortcut(s, true).1.center_cursor,
        spec_shortcut(s, true).1.start_tracking == s.move_enabled,
        !spec_shortcut(s, false).1.center_cursor && !spec_shortcut(s, false).1.start_tracking,
{
}

/// Shortcut and toggle events never change the user's settings: the
/// picture options, dragging and the shortcut mode stay as they were.
pub proof fn lemma_events_keep_settings(s: MirrorState, pressed: bool)
    ensures
        spec_tray_options(spec_press_hold(s).0) == spec_tray_options(s),
        spec_tray_options(spec_release_hold(s).0) == spec_tray_options(s),
        spec_tray_options(spec_toggle(s).0) == spec_tray_options(s),
        spec_tray_options(spec_press_toggle(s).0) == spec_tray_options(s),
        spec_tray_options(spec_release_toggle(s).0) == spec_tray_options(s),
        spec_tray_options(spec_shortcut(s, pressed).0) == spec_tray_options(s),
{
}

/// The shortcut is marked down after a press and up after a release or a
/// tray toggle.
pub proof fn lemma_shortcut_held_tracks_key(s: MirrorState)
    ensures
        spec_press_hold(s).0.shortcut_held,
        spec_press_toggle(s).0.shortcut_held,
        !spec_release_hold(s).0.shortcut_held,
        !spec_release_toggle(s).0.shortcut_held,
        !spec_toggle(s).0.shortcut_held,
{
}

/// When each event shows or hides the mirror, and the mode it leaves.
pub proof fn lemma_event_outcomes(s: MirrorState)
    ensures
        (spec_press_hold(s).1.window == WindowChange::Show) == (s.display_mode == DisplayMode::Hidden),
        spec_press_hold(s).1.window != WindowChange::Hide,
        spec_press_hold(s).0.display_mode == (if s.display_mode == DisplayMode::Hidden {
            DisplayMode::Held
        } else {
            s.display_mode
        }),
        (spec_release_hold(s).1.window == WindowChange::Hide) == (s.display_mode == DisplayMode::Held),
        spec_release_hold(s).1.window != WindowChange::Show,
        spec_release_hold(s).0.display_mode == (if s.display_mode == DisplayMode::Held {
            DisplayMode::Hidden
        } else {
            s.display_mode
        }),
        spec_toggle(s).1.window == (if s.display_mode == DisplayMode::Toggled {
            WindowChange::Hide
        } else {
            WindowChange::Show
        }),
        spec_toggle(s).0.display_mode == (if s.display_mode == DisplayMode::Toggled {
            DisplayMode::Hidden
        } else {
            DisplayMode::Toggled
        }),
        (spec_press_toggle(s).1.window == WindowChange::Show) == (s.display_mode == DisplayMode::Hidden),
        spec_press_toggle(s).1.window != WindowChange::Hide,
        spec_press_toggle(s).0.display_mode == DisplayMode::Toggled,
        spec_press_toggle(s).0.toggle_press_started_visible == (s.display_mode != DisplayMode::Hidden),
        !spec_press_toggle(s).0.moved_while_shortcut_held,
        (spec_release_toggle(s).1.window == WindowChange::Hide) == (s.toggle_press_started_visible
            && !s.moved_while_shortcut_held && s.display_mode == DisplayMode::Toggled),
        spec_release_toggle(s).1.window != WindowChange::Show,
        spec_release_toggle(s).0.display_mode == (if spec_release_toggle(s).1.window == WindowChange::Hide {
            DisplayMode::Hidden
        } else {
            s.display_mode
        }),
{
}

/// The shortcut handler goes by the shortcut mode alone: in hold mode a
/// press and a release act as the hold handlers, so they never hide a
/// mirror that was toggled on; in toggle mode they act as the toggle
/// handlers.
pub proof fn lemma_shortcut_dispatch(s: MirrorState, pressed: bool)
    ensures
        !s.toggle_mode && pressed ==> spec_shortcut(s, pressed) == spec_press_hold(s),
        !s.toggle_mode && !pressed ==> spec_shortcut(s, pressed) == spec_release_hold(s),
        s.toggle_mode && pressed ==> spec_shortcut(s, pressed) == spec_press_toggle(s),
        s.toggle_mode && !pressed ==> spec_shortcut(s, pressed) == spec_release_toggle(s),
        ({
            let (s1, r1) = spec_shortcut(s, true);
            let (s2, r2) = spec_shortcut(s1, false);
            (!s.toggle_mode && s.display_mode == DisplayMode::Toggled) ==> {
                &&& r1.window == WindowChange::Unchanged
                &&& r2.window == WindowChange::Unchanged
                &&& s1.display_mode == DisplayMode::Toggled
                &&& s2.display_mode == DisplayMode::Toggled
            }
        }),
        ({
            let (s1, r1) = spec_shortcut(s, true);
            let (s2, r2) = spec_shortcut(s1, false);
            (!s.toggle_mode && s.display_mode == DisplayMode::Hidden) ==> {
                &&& r1.window == WindowChange::Show
                &&& r2.window == WindowChange::Hide
                &&& s2.display_mode == DisplayMode::Hidden
            }
        }),
{
}

/// The initial state: hidden, shortcut up, picture flipped left to right,
/// in colour, dragging on, shortcut in toggle mode.
pub proof fn lemma_initial_settings()
    ensures
        default_state().display_mode == DisplayMode::Hidden,
        !default_state().shortcut_held,
        !default_state().moved_while_shortcut_held,
        !default_state().toggle_press_started_visible,
        default_state().mirrored,
        !default_state().grayscale,
        default_state().move_enabled,
        default_state().toggle_mode,
{
}

/// The tray marks are the state's four options, and clicking an item
/// inverts the option it names and leaves everything else alone.
pub proof fn lemma_marks_and_flips(s: MirrorState)
    ensures
        spec_tray_options(s).mirrored == s.mirrored,
        spec_tray_options(s).grayscale == s.grayscale,
        spec_tray_options(s).move_enabled == s.move_enabled,
        spec_tray_options(s).toggle_mode == s.toggle_mode,
        option_value(s, TrayOption::Mirrored) == s.mirrored,
        option_value(s, TrayOption::Grayscale) == s.grayscale,
        option_value(s, TrayOption::MoveEnabled) == s.move_enabled,
        option_value(s, TrayOption::ToggleMode) == s.toggle_mode,
        with_option(s, TrayOption::Mirrored, !s.mirrored) == (MirrorState { mirrored: !s.mirrored, ..s }),
        with_option(s, TrayOption::Grayscale, !s.grayscale) == (MirrorState { grayscale: !s.grayscale, ..s }),
        with_option(s, TrayOption::MoveEnabled, !s.move_enabled) == (MirrorState {
            move_enabled: !s.move_enabled,
            ..s
        }),
        with_option(s, TrayOption::ToggleMode, !s.toggle_mode) == (MirrorState {
            toggle_mode: !s.toggle_mode,
            ..s
        }),
{
}

} // verus!

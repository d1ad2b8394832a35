//! Dragging the mirror with the pointer while the shortcut is held.

use vstd::prelude::*;
use crate::geometry::{SavedPosition, fits_i32};

verus! {

/// Squared distance, in pixels, that the pointer has to travel before the
/// mirror starts to follow it.
pub const DEAD_ZONE_SQUARED: i32 = 16;

/// Follows the pointer from where it was when the shortcut went down.
#[derive(Clone, Copy, Debug, PartialEq, Eq)]
pub struct PointerTracker {
    /// The pointer when tracking began.
    pub start_cursor: SavedPosition,
    /// The mirror's outer position when tracking began.
    pub start_window: SavedPosition,
    /// The pointer has left the dead zone at least once.
    pub moved_past_dead_zone: bool,
}

pub open spec fn delta_x(t: PointerTracker, cursor: SavedPosition) -> int {
    cursor.x - t.start_cursor.x
}

pub open spec fn delta_y(t: PointerTracker, cursor: SavedPosition) -> int {
    cursor.y - t.start_cursor.y
}

pub open spec fn squared_distance(t: PointerTracker, cursor: SavedPosition) -> int {
    delta_x(t, cursor) * delta_x(t, cursor) + delta_y(t, cursor) * delta_y(t, cursor)
}

/// The mirror follows the pointer for this sample.
pub open spec fn follows(t: PointerTracker, cursor: SavedPosition) -> bool {
    t.moved_past_dead_zone || squared_distance(t, cursor) >= DEAD_ZONE_SQUARED
}

/// The pixel arithmetic of one sample stays in `i32`.
pub open spec fn sample_fits(t: PointerTracker, cursor: SavedPosition) -> bool {
    let dx = delta_x(t, cursor);
    let dy = delta_y(t, cursor);
    &&& fits_i32(dx)
    &&& fits_i32(dy)
    &&& !t.moved_past_dead_zone ==> {
        &&& fits_i32(dx * dx)
        &&& fits_i32(dy * dy)
        &&& fits_i32(dx * dx + dy * dy)
    }
    &&& follows(t, cursor) ==> {
        &&& fits_i32(t.start_window.x + dx)
        &&& fits_i32(t.start_window.y + dy)
    }
}

pub open spec fn spec_step(t: PointerTracker, cursor: Option<SavedPosition>) -> (PointerTracker, Option<SavedPosition>) {
    match cursor {
        None => (t, None),
        Some(c) => if follows(t, c) {
            (
                PointerTracker { moved_past_dead_zone: true, ..t },
                Some(SavedPosition {
                    x: (t.start_window.x + delta_x(t, c)) as i32,
                    y: (t.start_window.y + delta_y(t, c)) as i32,
                }),
            )
        } else {
            (t, None)
        },
    }
}

pub open spec fn step_fits(t: PointerTracker, cursor: Option<SavedPosition>) -> bool {
    cursor matches Some(c) ==> sample_fits(t, c)
}

impl PointerTracker {
    /// Starts tracking from the pointer and window positions at the moment
    /// the shortcut went down.
    pub fn new(start_cursor: SavedPosition, start_window: SavedPosition) -> (t: Self)
        ensures
            t == (PointerTracker { start_cursor, start_window, moved_past_dead_zone: false }),
    {
        PointerTracker { start_cursor, start_window, moved_past_dead_zone: false }
    }

    /// One pointer sample (`None` when the pointer could not be read).
    /// Returns where to put the mirror when it follows the pointer: the
    /// starting window position shifted by how far the pointer moved.
    pub fn step(&mut self, cursor: Option<SavedPosition>) -> (target: Option<SavedPosition>)
        requires
            step_fits(*old(self), cursor),
        ensures
            (*final(self), target) == spec_step(*old(self), cursor),
    {
        match cursor {
            None => None,
            Some(c) => {
                let dx: i32 = c.x - self.start_cursor.x;
                let dy: i32 = c.y - self.start_cursor.y;
                if self.moved_past_dead_zone || dx * dx + dy * dy >= DEAD_ZONE_SQUARED {
                    self.moved_past_dead_zone = true;
                    Some(SavedPosition { x: self.start_window.x + dx, y: self.start_window.y + dy })
                } else {
                    None
                }
            },
        }
    }
}

/// Once the mirror has followed the pointer it keeps following it for the
/// rest of the drag, and a sample that it follows puts it where it started
/// plus the pointer's offset.
pub proof fn lemma_follow_is_sticky(t: PointerTracker, first: SavedPosition, later: SavedPosition)
    requires
        follows(t, first),
    ensures
        spec_step(t, Some(first)).0.moved_past_dead_zone,
        follows(spec_step(t, Some(first)).0, later),
        sample_fits(t, first) ==> spec_step(t, Some(first)).1 == Some(SavedPosition {
            x: (t.start_window.x + (first.x - t.start_cursor.x)) as i32,
            y: (t.start_window.y + (first.y - t.start_cursor.y)) as i32,
        }),
{
}

/// A pointer still within four pixels of where it started leaves a fresh
/// drag alone.
pub proof fn lemma_dead_zone(t: PointerTracker, cursor: SavedPosition)
    requires
        !t.moved_past_dead_zone,
        squared_distance(t, cursor) < DEAD_ZONE_SQUARED,
    ensures
        spec_step(t, Some(cursor)) == (t, None::<SavedPosition>),
{
}

/// A sample at least four pixels away (squared distance 16 or more)
/// starts the drag and puts the mirror at its starting position plus the
/// pointer's offset; a missing sample, or one inside the dead zone of a
/// fresh drag, leaves the tracker and the mirror alone.
pub proof fn lemma_step_outcome(t: PointerTracker, cursor: SavedPosition)
    requires
        sample_fits(t, cursor),
    ensures
        spec_step(t, None) == (t, None::<SavedPosition>),
        (cursor.x - t.start_cursor.x) * (cursor.x - t.start_cursor.x) + (cursor.y - t.start_cursor.y) * (
        cursor.y - t.start_cursor.y) >= 16 || t.moved_past_dead_zone ==> {
            &&& spec_step(t, Some(cursor)).0 == (PointerTracker { moved_past_dead_zone: true, ..t })
            &&& spec_step(t, Some(cursor)).1 == Some(SavedPosition {
                x: (t.start_window.x + cursor.x - t.start_cursor.x) as i32,
                y: (t.start_window.y + cursor.y - t.start_cursor.y) as i32,
            })
        },
        (cursor.x - t.start_cursor.x) * (cursor.x - t.start_cursor.x) + (cursor.y - t.start_cursor.y) * (
        cursor.y - t.start_cursor.y) < 16 && !t.moved_past_dead_zone ==> spec_step(t, Some(cursor)) == (
        t, None::<SavedPosition>),
{
}

} // verus!

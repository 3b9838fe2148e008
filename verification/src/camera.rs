//! The camera that tracks the player, and the per-frame mouse position
//! in its three coordinate frames.

use vstd::prelude::*;
use crate::geometry::{Vec2i, Vec3i};

verus! {

/// One frame of camera tracking: the camera takes the player's horizontal
/// position and keeps its own height and depth.
pub fn camera_follow(camera: &mut Vec3i, player: Vec3i)
    ensures
        final(camera).x == player.x,
        final(camera).y == old(camera).y,
        final(camera).z == old(camera).z,
{
    camera.x = player.x;
}

/// The cursor's world position under the default 2D camera: the window
/// centre maps to the camera's translation, and window coordinates grow in
/// the same direction as world coordinates. Half window sizes round down.
pub open spec fn spec_cursor_to_world(
    cursor: Vec2i,
    window_width: i64,
    window_height: i64,
    camera: Vec3i,
) -> Vec2i {
    Vec2i {
        x: (camera.x + cursor.x - window_width / 2) as i64,
        y: (camera.y + cursor.y - window_height / 2) as i64,
    }
}

/// Whether `spec_cursor_to_world` stays within `i64` on these arguments.
pub open spec fn cursor_to_world_fits(
    cursor: Vec2i,
    window_width: i64,
    window_height: i64,
    camera: Vec3i,
) -> bool {
    &&& i64::MIN <= camera.x + cursor.x - window_width / 2 <= i64::MAX
    &&& i64::MIN <= camera.y + cursor.y - window_height / 2 <= i64::MAX
    &&& i64::MIN <= camera.x + cursor.x <= i64::MAX
    &&& i64::MIN <= camera.y + cursor.y <= i64::MAX
}

pub fn cursor_to_world(
    cursor: Vec2i,
    window_width: i64,
    window_height: i64,
    camera: Vec3i,
) -> (r: Vec2i)
    requires
        0 <= window_width,
        0 <= window_height,
        cursor_to_world_fits(cursor, window_width, window_height, camera),
    ensures
        r == spec_cursor_to_world(cursor, window_width, window_height, camera),
{
    Vec2i { x: camera.x + cursor.x - window_width / 2, y: camera.y + cursor.y - window_height / 2 }
}

/// Where the mouse was last seen: in window coordinates (origin at the
/// bottom left), in overlay-UI coordinates (origin at the top left), and in
/// world coordinates.
#[derive(Clone, Copy, PartialEq, Eq, Structural, Debug)]
pub struct MousePosition {
    pub screen_position: Option<Vec2i>,
    pub egui_screen_position: Option<Vec2i>,
    pub world_position: Option<Vec2i>,
}

impl MousePosition {
    /// Before any frame has run, no position is known.
    pub fn new() -> (r: MousePosition)
        ensures
            r == (MousePosition {
                screen_position: None::<Vec2i>,
                egui_screen_position: None::<Vec2i>,
                world_position: None::<Vec2i>,
            }),
    {
        MousePosition { screen_position: None, egui_screen_position: None, world_position: None }
    }

    /// One frame's refresh. With the cursor over the window, all three
    /// positions are set: the window position as given, the overlay
    /// position with its vertical axis measured from the window's top, and
    /// the world position by `spec_cursor_to_world`. With the cursor away,
    /// the window and world positions are cleared; the overlay position
    /// keeps its last value.
    pub fn update(
        &mut self,
        cursor: Option<Vec2i>,
        window_width: i64,
        window_height: i64,
        camera: Vec3i,
    )
        requires
            0 <= window_width,
            0 <= window_height,
            cursor matches Some(c) ==> {
                &&& cursor_to_world_fits(c, window_width, window_height, camera)
                &&& i64::MIN <= window_height - c.y <= i64::MAX
            },
        ensures
            cursor matches Some(c) ==> *final(self) == (MousePosition {
                screen_position: Some(c),
                egui_screen_position: Some(Vec2i { x: c.x, y: (window_height - c.y) as i64 }),
                world_position: Some(
                    spec_cursor_to_world(c, window_width, window_height, camera),
                ),
            }),
            cursor is None ==> *final(self) == (MousePosition {
                screen_position: None::<Vec2i>,
                egui_screen_position: old(self).egui_screen_position,
                world_position: None::<Vec2i>,
            }),
    {
        match cursor {
            Some(c) => {
                self.screen_position = Some(c);
                self.egui_screen_position = Some(Vec2i { x: c.x, y: window_height - c.y });
                self.world_position = Some(
                    cursor_to_world(c, window_width, window_height, camera),
                );
            },
            None => {
                self.screen_position = None;
                self.world_position = None;
            },
        }
    }
}

} // verus!

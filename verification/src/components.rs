//! The component types attached to entities, and the geometry of the scene.

use vstd::prelude::*;

verus! {

/// Logical width of the viewport, in whole units: how much of the game world
/// the camera shows, not the window size.
pub const VIEW_WIDTH: u32 = 100;
/// Logical height of the viewport, in whole units.
pub const VIEW_HEIGHT: u32 = 100;
/// Width of the ship sprite, in whole units.
pub const SHIP_WIDTH: u32 = 32;
/// Height of the ship sprite, in whole units.
pub const SHIP_HEIGHT: u32 = 32;
/// Number of lives a new ship starts with.
pub const INITIAL_LIVES: i32 = 3;
/// Depth (z) of the camera, in half-units: 2 half-units is a depth of 1.
pub const CAMERA_DEPTH_HALF: u64 = 2;
/// Depth (z) of the ship, in half-units.
pub const SHIP_DEPTH_HALF: u64 = 0;

/// A placement in the scene: x, y and z-depth, each in half-units (a value of
/// `n` stands for the logical coordinate `n / 2`).
#[derive(Clone, Copy, Debug, PartialEq, Eq, Structural)]
pub struct Transform {
    pub x_half: u64,
    pub y_half: u64,
    pub z_half: u64,
}

/// A standard two-dimensional camera that maps a viewport of the given
/// logical size onto the visible window area.
#[derive(Clone, Copy, Debug, PartialEq, Eq, Structural)]
pub struct Camera2d {
    /// Viewport width shown by the camera, in whole units.
    pub width: u32,
    /// Viewport height shown by the camera, in whole units.
    pub height: u32,
}

/// The player's avatar.
#[derive(Clone, Copy, Debug, PartialEq, Eq, Structural)]
pub struct Ship {
    /// Width of the ship, in whole units.
    pub width: u32,
    /// Height of the ship, in whole units.
    pub height: u32,
    /// Remaining lives.
    pub lives: i32,
}

/// A reference from an entity to one decoded image region of a sprite sheet.
/// The sheet itself lives in the engine's asset store; here it is named by a
/// plain identifier that the embedding application maps to the real asset.
#[derive(Clone, Copy, Debug, PartialEq, Eq, Structural)]
pub struct SpriteRender {
    /// Identifier of the loaded sprite sheet.
    pub sprite_sheet: u64,
    /// Index of the region within the sheet.
    pub sprite_number: usize,
}

/// The camera for a `w × h` viewport sits at the viewport's centre at depth 1:
/// `(w / 2, h / 2, 1)`, which in half-units is exactly `(w, h, 2)`.
pub open spec fn camera_transform(w: u32, h: u32) -> Transform {
    Transform { x_half: w as u64, y_half: h as u64, z_half: CAMERA_DEPTH_HALF }
}

/// The ship starts at the viewport's centre at depth 0: `(w / 2, h / 2, 0)`,
/// which in half-units is exactly `(w, h, 0)`.
pub open spec fn ship_transform(w: u32, h: u32) -> Transform {
    Transform { x_half: w as u64, y_half: h as u64, z_half: SHIP_DEPTH_HALF }
}

/// The camera component for a `w × h` viewport.
pub open spec fn camera_for(w: u32, h: u32) -> Camera2d {
    Camera2d { width: w, height: h }
}

/// A newly made ship: fixed sprite size, the given number of lives.
pub open spec fn ship_with_lives(lives: i32) -> Ship {
    Ship { width: SHIP_WIDTH, height: SHIP_HEIGHT, lives }
}

impl Ship {
    /// Make a new ship with the given number of lives and the fixed sprite
    /// size of `SHIP_WIDTH × SHIP_HEIGHT`.
    pub fn new(lives: i32) -> (s: Ship)
        ensures
            s == ship_with_lives(lives),
    {
        Ship { width: SHIP_WIDTH, height: SHIP_HEIGHT, lives }
    }
}

/// Build the camera's transform for a `w × h` viewport.
pub fn make_camera_transform(w: u32, h: u32) -> (t: Transform)
    ensures
        t == camera_transform(w, h),
{
    Transform { x_half: w as u64, y_half: h as u64, z_half: CAMERA_DEPTH_HALF }
}

/// Build the ship's initial transform for a `w × h` viewport.
pub fn make_ship_transform(w: u32, h: u32) -> (t: Transform)
    ensures
        t == ship_transform(w, h),
{
    Transform { x_half: w as u64, y_half: h as u64, z_half: SHIP_DEPTH_HALF }
}

/// Build the standard two-dimensional camera for a `w × h` viewport.
pub fn make_camera(w: u32, h: u32) -> (c: Camera2d)
    ensures
        c == camera_for(w, h),
{
    Camera2d { width: w, height: h }
}

/// Law: for a viewport of width `w` and height `h`, the camera's computed
/// position is always exactly `(w / 2, h / 2, 1)` — in half-units `(w, h, 2)`,
/// with no rounding for any `w` and `h`.
pub proof fn lemma_camera_centered(w: u32, h: u32)
    ensures
        camera_transform(w, h).x_half == w,
        camera_transform(w, h).y_half == h,
        camera_transform(w, h).z_half == CAMERA_DEPTH_HALF,
{
}

/// Law: for the same viewport, the ship's initial position is always exactly
/// `(w / 2, h / 2, 0)`: camera and ship share the same x and y, and their
/// depths differ by exactly 1 (2 half-units), the camera in front.
pub proof fn lemma_ship_centered_under_camera(w: u32, h: u32)
    ensures
        ship_transform(w, h).x_half == camera_transform(w, h).x_half,
        ship_transform(w, h).y_half == camera_transform(w, h).y_half,
        ship_transform(w, h).z_half == SHIP_DEPTH_HALF,
        camera_transform(w, h).z_half - ship_transform(w, h).z_half == 2,
{
}

} // verus!

use vstd::prelude::*;

use crate::geometry::Vec2;

verus! {

/// Width of the window, in pixels.
pub const SCREEN_WIDTH: i32 = 800;

/// Height of the window, in pixels.
pub const SCREEN_HEIGHT: i32 = 450;

/// How many units of length make one pixel.
pub const UNITS_PER_PIXEL: i64 = 100;

/// Width of the field, in units (the window's width).
pub const FIELD_WIDTH: i64 = 80_000;

/// Height of the field, in units (the window's height).
pub const FIELD_HEIGHT: i64 = 45_000;

/// The ship is a square of this side, in units.
pub const STARSHIP_SIZE: i64 = 10_000;

/// Where a new ship stands, in units.
pub const STARSHIP_START_X: i64 = 40_000;

/// The ship's top edge, in units; it never moves vertically.
pub const STARSHIP_Y: i64 = 40_000;

/// Speed of a new ship, in units per frame.
pub const STARSHIP_SPEED: i64 = 5;

/// What the ship gains in speed each time the field is cleared.
pub const STARSHIP_SPEED_STEP: i64 = 1;

/// The fastest the library lets a ship become, in units per frame.
pub const MAX_STARSHIP_SPEED: i64 = 1_000_000_000_000;

/// Lives of a new ship.
pub const STARTING_LIVES: u32 = 3;

/// A meteorite is a square of this side, in units.
pub const METEORITE_SIZE: i64 = 15_000;

/// Speed of a new meteorite, in units per frame.
pub const METEORITE_SPEED: i64 = 5;

/// What the meteorites on the field gain in speed each time it is cleared.
pub const METEORITE_SPEED_STEP: i64 = 2;

/// New meteorites appear at a whole pixel column below this one, so that all
/// of them start at least 300 pixels left of the right edge.
pub const SPAWN_X_RANGE: u32 = 500;

/// The ship the player steers.
#[derive(Clone, Copy, Debug, PartialEq, Eq, Structural)]
pub struct Starship {
    /// Top-left corner, in units.
    pub position: Vec2,
    /// Width and height, in units.
    pub size: Vec2,
    /// Horizontal distance covered in one frame while a key is held, in units.
    pub speed: i64,
    pub lives: u32,
}

/// A falling obstacle.
#[derive(Clone, Copy, Debug, PartialEq, Eq, Structural)]
pub struct Meteorite {
    /// Top-left corner, in units.
    pub position: Vec2,
    /// Width and height, in units.
    pub size: Vec2,
    /// Vertical distance covered in one frame, in units.
    pub speed: i64,
}

/// The ship at the start of a game.
pub open spec fn fresh_starship() -> Starship {
    Starship {
        position: Vec2 { x: STARSHIP_START_X, y: STARSHIP_Y },
        size: Vec2 { x: STARSHIP_SIZE, y: STARSHIP_SIZE },
        speed: STARSHIP_SPEED,
        lives: STARTING_LIVES,
    }
}

/// A new meteorite at `position`.
pub open spec fn fresh_meteorite(position: Vec2) -> Meteorite {
    Meteorite { position, size: Vec2 { x: METEORITE_SIZE, y: METEORITE_SIZE }, speed: METEORITE_SPEED }
}

/// A new meteorite at the top of the field, `column` pixels from its left edge.
pub open spec fn spawned(column: u32) -> Meteorite {
    fresh_meteorite(Vec2 { x: (column * UNITS_PER_PIXEL) as i64, y: 0 })
}

/// The ship stands on the bottom row, whole, with the size, speed and lives
/// that the game can give it.
pub open spec fn starship_ok(s: Starship) -> bool {
    &&& s.size == Vec2 { x: STARSHIP_SIZE, y: STARSHIP_SIZE }
    &&& s.position.y == STARSHIP_Y
    &&& 0 <= s.position.x <= FIELD_WIDTH - STARSHIP_SIZE
    &&& STARSHIP_SPEED <= s.speed <= MAX_STARSHIP_SPEED
    &&& s.lives <= STARTING_LIVES
}

/// The meteorite is one the game can hold between frames: on the field, at a
/// spawning column, and no faster than one that has been sped up once.
pub open spec fn meteorite_ok(m: Meteorite) -> bool {
    &&& m.size == Vec2 { x: METEORITE_SIZE, y: METEORITE_SIZE }
    &&& 0 <= m.position.x < SPAWN_X_RANGE * UNITS_PER_PIXEL
    &&& 0 <= m.position.y < FIELD_HEIGHT
    &&& 0 <= m.speed <= METEORITE_SPEED + METEORITE_SPEED_STEP
}

impl Starship {
    pub fn new() -> (r: Starship)
        ensures
            r == fresh_starship(),
    {
        Starship {
            position: Vec2::new(STARSHIP_START_X, STARSHIP_Y),
            size: Vec2::new(STARSHIP_SIZE, STARSHIP_SIZE),
            speed: STARSHIP_SPEED,
            lives: STARTING_LIVES,
        }
    }
}

impl Meteorite {
    pub fn new(position: Vec2) -> (r: Meteorite)
        ensures
            r == fresh_meteorite(position),
    {
        Meteorite { position, size: Vec2::new(METEORITE_SIZE, METEORITE_SIZE), speed: METEORITE_SPEED }
    }
}

} // verus!

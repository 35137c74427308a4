//! A small arcade game: a ship slides along the bottom of the field and dodges
//! meteorites that fall from the top. The state and every rule of a frame live
//! here; reading keys, drawing and loading images are left to the caller.
//!
//! Lengths are counted in units of one hundredth of a pixel, so that positions
//! and speeds are exact integers.

mod entities;
mod game;
mod geometry;
mod laws;
mod random;

pub use entities::{
    fresh_meteorite, fresh_starship, meteorite_ok, spawned, starship_ok, Meteorite, Starship,
    FIELD_HEIGHT, FIELD_WIDTH, MAX_STARSHIP_SPEED, METEORITE_SIZE, METEORITE_SPEED,
    METEORITE_SPEED_STEP, SCREEN_HEIGHT, SCREEN_WIDTH, SPAWN_X_RANGE, STARSHIP_SIZE,
    STARSHIP_SPEED, STARSHIP_SPEED_STEP, STARSHIP_START_X, STARSHIP_Y, STARTING_LIVES,
    UNITS_PER_PIXEL,
};
pub use game::{
    fallen, falling, hastened, hastening, hits, on_field, restarted, steered, struck, survivors,
    Game, GameView, Input, Phase,
};
pub use geometry::{in_plane, overlap, rects_overlap, Vec2};
pub use laws::{
    lemma_hit_leaves_one_meteorite, lemma_lives_only_fall, lemma_restart_resets, lemma_score,
    lemma_ship_stays_on_field,
};

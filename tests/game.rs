use starship::{
    rects_overlap, Game, Input, Meteorite, Phase, Starship, Vec2, FIELD_HEIGHT, FIELD_WIDTH,
    METEORITE_SIZE, METEORITE_SPEED, METEORITE_SPEED_STEP, SPAWN_X_RANGE, STARSHIP_SIZE,
    STARSHIP_SPEED, STARSHIP_SPEED_STEP, STARSHIP_START_X, STARSHIP_Y, STARTING_LIVES,
};

const IDLE: Input = Input { pause: false, left: false, right: false, restart: false };
const RIGHT: Input = Input { pause: false, left: false, right: true, restart: false };
const LEFT: Input = Input { pause: false, left: true, right: false, restart: false };
const PAUSE: Input = Input { pause: true, left: false, right: false, restart: false };
const RESTART: Input = Input { pause: false, left: false, right: false, restart: true };

fn started(column: u32) -> Game {
    let mut g = Game::new();
    g.spawn_meteorite_at(column);
    g
}

fn meteorite_at(x: i64, y: i64) -> Meteorite {
    Meteorite::new(Vec2::new(x, y))
}

/// A game whose only meteorite sits just above the ship, so that the next
/// frame is a hit.
fn about_to_hit() -> Game {
    let mut g = Game::new();
    g.meteorites.push(meteorite_at(STARSHIP_START_X, STARSHIP_Y - METEORITE_SIZE));
    g
}

#[test]
fn new_game_has_fresh_ship_and_empty_field() {
    let g = Game::new();
    assert_eq!(g.starship.position, Vec2::new(40_000, 40_000));
    assert_eq!(g.starship.size, Vec2::new(10_000, 10_000));
    assert_eq!(g.starship.speed, 5);
    assert_eq!(g.starship.lives, 3);
    assert!(g.meteorites.is_empty());
    assert_eq!(g.score, 0);
    assert!(!g.over);
    assert!(!g.pause);
    assert_eq!(g.phase(), Phase::Playing);
}

#[test]
fn new_meteorite_has_fixed_size_and_speed() {
    let m = Meteorite::new(Vec2::new(1_200, 0));
    assert_eq!(m.position, Vec2::new(1_200, 0));
    assert_eq!(m.size, Vec2::new(15_000, 15_000));
    assert_eq!(m.speed, 5);
    assert_eq!(Starship::new().lives, STARTING_LIVES);
}

#[test]
fn spawn_at_column_places_meteorite_at_top() {
    let g = started(250);
    assert_eq!(g.meteorites.len(), 1);
    assert_eq!(g.meteorites[0].position, Vec2::new(25_000, 0));
    assert_eq!(g.meteorites[0].speed, METEORITE_SPEED);
}

#[test]
fn random_spawn_stays_left_of_the_last_column() {
    for _ in 0..200 {
        let mut g = Game::new();
        g.start();
        assert_eq!(g.meteorites.len(), 1);
        let x = g.meteorites[0].position.x;
        assert!(x >= 0);
        assert!(x < (SPAWN_X_RANGE as i64) * 100);
        assert_eq!(x % 100, 0);
        assert_eq!(g.meteorites[0].position.y, 0);
    }
}

#[test]
fn rects_overlap_exact_values() {
    let a = Vec2::new(0, 0);
    let s = Vec2::new(10, 10);
    assert!(rects_overlap(a, s, Vec2::new(5, 5), s));
    assert!(rects_overlap(a, s, Vec2::new(-9, 9), s));
    // Touching edges do not overlap.
    assert!(!rects_overlap(a, s, Vec2::new(10, 0), s));
    assert!(!rects_overlap(a, s, Vec2::new(0, 10), s));
    assert!(!rects_overlap(a, s, Vec2::new(-10, 0), s));
    assert!(!rects_overlap(a, s, Vec2::new(20, 20), s));
}

#[test]
fn right_arrow_moves_ship_by_its_speed() {
    let mut g = started(10);
    g.step(RIGHT, 0);
    assert_eq!(g.starship.position.x, STARSHIP_START_X + STARSHIP_SPEED);
    g.step(LEFT, 0);
    g.step(LEFT, 0);
    assert_eq!(g.starship.position.x, STARSHIP_START_X - STARSHIP_SPEED);
    let both = Input { pause: false, left: true, right: true, restart: false };
    g.step(both, 0);
    assert_eq!(g.starship.position.x, STARSHIP_START_X - STARSHIP_SPEED);
}

#[test]
fn ship_is_clamped_at_both_edges() {
    let mut g = started(10);
    g.starship.position.x = 2;
    g.step(LEFT, 0);
    assert_eq!(g.starship.position.x, 0);
    g.starship.position.x = FIELD_WIDTH - STARSHIP_SIZE - 1;
    g.step(RIGHT, 0);
    assert_eq!(g.starship.position.x, FIELD_WIDTH - STARSHIP_SIZE);
}

#[test]
fn ship_never_leaves_field_over_many_frames() {
    let mut g = started(0);
    for i in 0..40_000u32 {
        let input = if (i / 9_000) % 2 == 0 { RIGHT } else { LEFT };
        g.update(input);
        assert!(g.starship.position.x >= 0);
        assert!(g.starship.position.x <= FIELD_WIDTH - STARSHIP_SIZE);
        if g.over {
            break;
        }
    }
}

#[test]
fn meteorites_fall_by_their_speed() {
    let mut g = started(10);
    g.step(IDLE, 0);
    assert_eq!(g.meteorites[0].position.y, 5);
    g.step(IDLE, 0);
    assert_eq!(g.meteorites[0].position.y, 10);
    assert_eq!(g.score, 0);
}

#[test]
fn hit_costs_a_life_and_resets_field_and_score() {
    let mut g = about_to_hit();
    g.meteorites.push(meteorite_at(0, 100));
    g.score = 2;
    g.step(IDLE, 123);
    assert_eq!(g.starship.lives, 2);
    assert!(!g.over);
    assert_eq!(g.score, 0);
    assert_eq!(g.meteorites.len(), 1);
    assert_eq!(g.meteorites[0].position, Vec2::new(12_300, 0));
    assert_eq!(g.meteorites[0].speed, METEORITE_SPEED);
}

#[test]
fn hit_checks_falling_position() {
    // One unit above touching: after falling by its speed it overlaps.
    let mut g = Game::new();
    g.meteorites.push(meteorite_at(STARSHIP_START_X, STARSHIP_Y - METEORITE_SIZE - 4));
    g.step(IDLE, 0);
    assert_eq!(g.starship.lives, 2);
    // Far enough that the fall leaves it exactly touching: no hit.
    let mut h = Game::new();
    h.meteorites.push(meteorite_at(STARSHIP_START_X, STARSHIP_Y - METEORITE_SIZE - 5));
    h.step(IDLE, 0);
    assert_eq!(h.starship.lives, 3);
    assert_eq!(h.meteorites[0].position.y, STARSHIP_Y - METEORITE_SIZE);
}

#[test]
fn losing_last_life_ends_game() {
    let mut g = about_to_hit();
    g.starship.lives = 1;
    g.step(IDLE, 0);
    assert_eq!(g.starship.lives, 0);
    assert!(g.over);
    assert_eq!(g.phase(), Phase::Over);
}

#[test]
fn lives_never_grow_and_stop_at_zero() {
    let mut g = Game::new();
    let mut last = g.starship.lives;
    for _ in 0..10 {
        g.meteorites.clear();
        g.meteorites.push(meteorite_at(STARSHIP_START_X, STARSHIP_Y - METEORITE_SIZE));
        g.step(IDLE, 0);
        assert!(g.starship.lives <= last);
        last = g.starship.lives;
    }
    assert_eq!(g.starship.lives, 0);
    assert!(g.over);
}

#[test]
fn clearing_field_scores_and_speeds_up() {
    let mut g = Game::new();
    g.meteorites.push(meteorite_at(0, FIELD_HEIGHT - 1));
    g.step(IDLE, 77);
    assert_eq!(g.score, 1);
    assert_eq!(g.starship.speed, STARSHIP_SPEED + STARSHIP_SPEED_STEP);
    assert_eq!(g.meteorites.len(), 1);
    assert_eq!(g.meteorites[0].position, Vec2::new(7_700, 0));
    assert_eq!(g.meteorites[0].speed, METEORITE_SPEED + METEORITE_SPEED_STEP);
    assert_eq!(g.starship.lives, 3);
}

#[test]
fn only_passed_meteorites_are_removed() {
    let mut g = Game::new();
    g.meteorites.push(meteorite_at(0, FIELD_HEIGHT - 1));
    g.meteorites.push(meteorite_at(100, 10));
    g.meteorites.push(meteorite_at(200, FIELD_HEIGHT - 5));
    g.step(IDLE, 0);
    assert_eq!(g.meteorites.len(), 1);
    assert_eq!(g.meteorites[0].position, Vec2::new(100, 15));
    assert_eq!(g.score, 0);
    assert_eq!(g.starship.speed, STARSHIP_SPEED);
}

#[test]
fn score_counts_clears_and_drops_on_hit() {
    let mut g = Game::new();
    for k in 1..=3u64 {
        g.meteorites.clear();
        g.meteorites.push(meteorite_at(0, FIELD_HEIGHT - 1));
        g.step(IDLE, 0);
        assert_eq!(g.score, k);
    }
    g.meteorites.clear();
    g.meteorites.push(meteorite_at(STARSHIP_START_X, STARSHIP_Y - METEORITE_SIZE));
    g.step(IDLE, 0);
    assert_eq!(g.score, 0);
    assert_eq!(g.starship.speed, STARSHIP_SPEED + 3 * STARSHIP_SPEED_STEP);
}

#[test]
fn pause_key_toggles_and_freezes() {
    let mut g = started(10);
    g.step(PAUSE, 0);
    assert!(g.pause);
    assert_eq!(g.phase(), Phase::Paused);
    g.step(RIGHT, 0);
    g.step(IDLE, 0);
    assert_eq!(g.starship.position.x, STARSHIP_START_X);
    assert_eq!(g.meteorites[0].position.y, 0);
    g.step(PAUSE, 0);
    assert!(!g.pause);
    // The unpausing frame already moves things.
    assert_eq!(g.meteorites[0].position.y, 5);
}

#[test]
fn finished_game_waits_for_restart() {
    let mut g = about_to_hit();
    g.starship.lives = 1;
    g.step(IDLE, 0);
    assert!(g.over);
    let y = g.meteorites[0].position.y;
    g.step(RIGHT, 0);
    g.step(PAUSE, 0);
    assert!(g.over);
    assert!(!g.pause);
    assert_eq!(g.starship.position.x, STARSHIP_START_X);
    assert_eq!(g.meteorites[0].position.y, y);
}

#[test]
fn restart_after_game_over_resets_everything() {
    let mut g = about_to_hit();
    g.starship.lives = 1;
    g.starship.speed = 9;
    g.meteorites.push(meteorite_at(0, 0));
    g.step(RIGHT, 0);
    assert!(g.over);
    g.step(RESTART, 42);
    assert_eq!(g.starship, Starship::new());
    assert_eq!(g.starship.lives, 3);
    assert_eq!(g.score, 0);
    assert!(!g.over);
    assert!(!g.pause);
    assert_eq!(g.meteorites.len(), 1);
    assert_eq!(g.meteorites[0].position, Vec2::new(4_200, 0));
    assert_eq!(g.phase(), Phase::Playing);
}

#[test]
fn restart_key_ignored_while_playing() {
    let mut g = started(10);
    g.score = 1;
    g.starship.speed = 6;
    g.step(RESTART, 0);
    assert_eq!(g.score, 1);
    assert_eq!(g.meteorites[0].position.y, 5);
}

#[test]
fn random_reset_gives_fresh_game() {
    let mut g = about_to_hit();
    g.score = 3;
    g.reset();
    assert_eq!(g.starship, Starship::new());
    assert_eq!(g.score, 0);
    assert_eq!(g.meteorites.len(), 1);
    assert!(g.meteorites[0].position.x < (SPAWN_X_RANGE as i64) * 100);
    assert_eq!(g.meteorites[0].position.y, 0);
}

//! Facts about a frame of play, proved from the model that `Game::step` and
//! `Game::update` follow.
use vstd::prelude::*;

use crate::entities::{fresh_starship, spawned, FIELD_WIDTH, STARSHIP_SIZE, STARTING_LIVES};
use crate::game::{GameView, Input};

verus! {

/// Whatever the input, after a frame the ship lies wholly inside the field:
/// its left edge is between zero and the field's width less its own.
pub proof fn lemma_ship_stays_on_field(g: GameView, input: Input, column: u32)
    requires
        g.wf(),
    ensures
        0 <= g.next(input, column).starship.position.x <= FIELD_WIDTH - STARSHIP_SIZE,
        g.next(input, column).starship.size == g.starship.size,
{
}

/// Lives never grow during play: a frame takes one away on a hit and none
/// otherwise. Only a restart of a finished game gives them back. The game is
/// over exactly when none are left.
pub proof fn lemma_lives_only_fall(g: GameView, input: Input, column: u32)
    requires
        g.wf(),
    ensures
        !(g.over && input.restart) ==> g.next(input, column).starship.lives <= g.starship.lives,
        g.collides(input) ==> g.next(input, column).starship.lives == g.starship.lives - 1,
        !g.collides(input) && !(g.over && input.restart) ==> g.next(input, column).starship.lives
            == g.starship.lives,
        g.next(input, column).over <==> g.next(input, column).starship.lives == 0,
{
}

/// A hit empties the field of every meteorite and puts exactly one new one
/// at its top.
pub proof fn lemma_hit_leaves_one_meteorite(g: GameView, input: Input, column: u32)
    requires
        g.wf(),
        g.collides(input),
    ensures
        g.next(input, column).meteorites == seq![spawned(column)],
        g.next(input, column).meteorites.len() == 1,
{
}

/// The score drops to zero on a hit, grows by one when the field empties
/// without a hit, and stays as it is on every other frame.
pub proof fn lemma_score(g: GameView, input: Input, column: u32)
    requires
        g.wf(),
    ensures
        g.collides(input) ==> g.next(input, column).score == 0,
        g.clears(input) ==> g.next(input, column).score == g.score + 1,
        !g.collides(input) && !g.clears(input) && !(g.over && input.restart) ==> g.next(
            input,
            column,
        ).score == g.score,
{
}

/// Restarting a finished game gives a new ship with all its lives, a score of
/// zero, no pause and one new meteorite.
pub proof fn lemma_restart_resets(g: GameView, input: Input, column: u32)
    requires
        g.over,
        input.restart,
    ensures
        g.next(input, column).starship == fresh_starship(),
        g.next(input, column).starship.lives == STARTING_LIVES,
        g.next(input, column).score == 0,
        !g.next(input, column).over,
        !g.next(input, column).pause,
        g.next(input, column).meteorites == seq![spawned(column)],
{
}

} // verus!

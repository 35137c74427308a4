use vstd::prelude::*;

use crate::entities::{
    fresh_starship, meteorite_ok, spawned, starship_ok, Meteorite, Starship, FIELD_HEIGHT,
    FIELD_WIDTH, MAX_STARSHIP_SPEED, METEORITE_SPEED_STEP, SPAWN_X_RANGE, STARSHIP_SPEED,
    STARSHIP_SPEED_STEP, UNITS_PER_PIXEL,
};
use crate::geometry::{in_plane, overlap, rects_overlap, Vec2};
use crate::random::random_below;

verus! {

/// What the player did during one frame.
#[derive(Clone, Copy, Debug, PartialEq, Eq, Structural)]
pub struct Input {
    /// The pause key went down.
    pub pause: bool,
    /// The left arrow is held.
    pub left: bool,
    /// The right arrow is held.
    pub right: bool,
    /// The restart key went down.
    pub restart: bool,
}

/// The three states of a game.
#[derive(Clone, Copy, Debug, PartialEq, Eq, Structural)]
pub enum Phase {
    Playing,
    Paused,
    Over,
}

/// The whole state of a game.
pub struct Game {
    pub starship: Starship,
    /// The meteorites on the field, oldest first.
    pub meteorites: Vec<Meteorite>,
    /// Fields cleared since the last hit.
    pub score: u64,
    pub over: bool,
    pub pause: bool,
}

/// A game as a mathematical value.
pub struct GameView {
    pub starship: Starship,
    pub meteorites: Seq<Meteorite>,
    pub score: u64,
    pub over: bool,
    pub pause: bool,
}

impl View for Game {
    type V = GameView;

    open spec fn view(&self) -> GameView {
        GameView {
            starship: self.starship,
            meteorites: self.meteorites@,
            score: self.score,
            over: self.over,
            pause: self.pause,
        }
    }
}

/// The ship after one frame of steering: moved by its speed for each arrow
/// held, then pushed back inside the field.
pub open spec fn steered(s: Starship, input: Input) -> Starship {
    let moved = s.position.x + (if input.right { s.speed as int } else { 0 }) - (if input.left {
        s.speed as int
    } else {
        0
    });
    let x = if moved < 0 { 0 } else { moved };
    let x = if x + s.size.x > FIELD_WIDTH { FIELD_WIDTH - s.size.x } else { x };
    Starship { position: Vec2 { x: x as i64, y: s.position.y }, ..s }
}

/// The meteorite after one frame of falling.
pub open spec fn fallen(m: Meteorite) -> Meteorite {
    Meteorite { position: Vec2 { x: m.position.x, y: (m.position.y + m.speed) as i64 }, ..m }
}

/// The meteorite after the field has been cleared once more.
pub open spec fn hastened(m: Meteorite) -> Meteorite {
    Meteorite { speed: (m.speed + METEORITE_SPEED_STEP) as i64, ..m }
}

/// Every meteorite after one frame of falling.
pub open spec fn falling(ms: Seq<Meteorite>) -> Seq<Meteorite> {
    ms.map_values(|m: Meteorite| fallen(m))
}

/// Every meteorite sped up.
pub open spec fn hastening(ms: Seq<Meteorite>) -> Seq<Meteorite> {
    ms.map_values(|m: Meteorite| hastened(m))
}

/// The meteorite has not yet passed the bottom edge.
pub open spec fn on_field(m: Meteorite) -> bool {
    m.position.y < FIELD_HEIGHT
}

/// The meteorites that have not passed the bottom edge, in their order.
pub open spec fn survivors(ms: Seq<Meteorite>) -> Seq<Meteorite> {
    ms.filter(|m: Meteorite| on_field(m))
}

/// The ship and the meteorite overlap.
pub open spec fn hits(s: Starship, m: Meteorite) -> bool {
    overlap(s.position, s.size, m.position, m.size)
}

/// Some meteorite of `ms` overlaps the ship.
pub open spec fn struck(s: Starship, ms: Seq<Meteorite>) -> bool {
    exists|i: int| 0 <= i < ms.len() && hits(s, #[trigger] ms[i])
}

/// A new game, once its first meteorite has appeared at `column`.
pub open spec fn restarted(column: u32) -> GameView {
    GameView {
        starship: fresh_starship(),
        meteorites: seq![spawned(column)],
        score: 0,
        over: false,
        pause: false,
    }
}

impl GameView {
    /// What holds of every game between frames. The score is at most the
    /// number of fields cleared since the ship was new, which the ship's
    /// speed counts, so bounding the speed bounds the score too.
    pub open spec fn wf(self) -> bool {
        &&& starship_ok(self.starship)
        &&& forall|i: int| 0 <= i < self.meteorites.len() ==> meteorite_ok(#[trigger] self.meteorites[i])
        &&& self.over <==> self.starship.lives == 0
        &&& self.score + STARSHIP_SPEED <= self.starship.speed
    }

    /// The game is neither over nor paused once `input` has been applied, so
    /// the frame moves things.
    pub open spec fn runs(self, input: Input) -> bool {
        !self.over && self.pause == input.pause
    }

    /// The frame runs and the moved ship meets a falling meteorite.
    pub open spec fn collides(self, input: Input) -> bool {
        self.runs(input) && struck(steered(self.starship, input), falling(self.meteorites))
    }

    /// The frame runs without a hit and every meteorite leaves the field.
    pub open spec fn clears(self, input: Input) -> bool {
        self.runs(input) && !self.collides(input) && survivors(falling(self.meteorites)).len() == 0
    }

    /// A frame that moves things. On a hit, the ship loses a life, the field
    /// holds just one new meteorite and the score drops to zero. Otherwise
    /// the meteorites that passed the bottom edge go; if none is left, a new
    /// one appears, the score grows by one, and the ship and the meteorites
    /// on the field speed up.
    pub open spec fn played(self, input: Input, column: u32) -> GameView {
        let ship = steered(self.starship, input);
        let fell = falling(self.meteorites);
        if struck(ship, fell) {
            let lives = (ship.lives - 1) as u32;
            GameView {
                starship: Starship { lives, ..ship },
                meteorites: seq![spawned(column)],
                score: 0,
                over: lives == 0,
                pause: false,
            }
        } else if survivors(fell).len() == 0 {
            GameView {
                starship: Starship { speed: (ship.speed + STARSHIP_SPEED_STEP) as i64, ..ship },
                meteorites: hastening(seq![spawned(column)]),
                score: (self.score + 1) as u64,
                over: false,
                pause: false,
            }
        } else {
            GameView { starship: ship, meteorites: survivors(fell), pause: false, ..self }
        }
    }

    /// The game after one frame with `input`, where a meteorite that appears
    /// does so at `column`. A game that is over only waits for the restart
    /// key; otherwise the pause key toggles the pause, and a paused game
    /// stands still.
    pub open spec fn next(self, input: Input, column: u32) -> GameView {
        if self.over {
            if input.restart {
                restarted(column)
            } else {
                self
            }
        } else if self.pause != input.pause {
            GameView { pause: true, ..self }
        } else {
            self.played(input, column)
        }
    }

    /// The game with one more meteorite, new, at the top of the field and
    /// `column` pixels from its left edge.
    pub open spec fn with_spawn(self, column: u32) -> GameView {
        GameView { meteorites: self.meteorites.push(spawned(column)), ..self }
    }

    /// The phase that the flags give.
    pub open spec fn phase(self) -> Phase {
        if self.over {
            Phase::Over
        } else if self.pause {
            Phase::Paused
        } else {
            Phase::Playing
        }
    }
}

/// Moves the ship by one frame of `input`.
fn steer(s: &mut Starship, input: Input)
    requires
        starship_ok(*old(s)),
    ensures
        *final(s) == steered(*old(s), input),
{
    if input.right {
        s.position.x = s.position.x + s.speed;
    }
    if input.left {
        s.position.x = s.position.x - s.speed;
    }
    if s.position.x < 0 {
        s.position.x = 0;
    }
    if s.position.x + s.size.x > FIELD_WIDTH {
        s.position.x = FIELD_WIDTH - s.size.x;
    }
}

/// Lets the meteorites fall one by one and stops at the first that meets the
/// ship. Returns whether one did; if none did, every meteorite has fallen.
fn fall_and_check(ms: &mut Vec<Meteorite>, ship: Starship) -> (hit: bool)
    requires
        starship_ok(ship),
        forall|i: int| 0 <= i < old(ms).len() ==> meteorite_ok(#[trigger] old(ms)[i]),
    ensures
        hit == struck(ship, falling(old(ms)@)),
        !hit ==> final(ms)@ == falling(old(ms)@),
{
    let ghost orig = ms@;
    let mut i: usize = 0;
    while i < ms.len()
        invariant
            orig == old(ms)@,
            starship_ok(ship),
            i <= ms.len(),
            ms.len() == orig.len(),
            forall|j: int| 0 <= j < orig.len() ==> meteorite_ok(#[trigger] orig[j]),
            forall|j: int| 0 <= j < i ==> ms@[j] == fallen(orig[j]),
            forall|j: int| 0 <= j < i ==> !hits(ship, #[trigger] falling(orig)[j]),
            forall|j: int| i <= j < orig.len() ==> ms@[j] == orig[j],
        decreases orig.len() - i,
    {
        let mut m = ms[i];
        assert(meteorite_ok(orig[i as int]));
        m.position.y = m.position.y + m.speed;
        ms[i] = m;
        assert(falling(orig)[i as int] == m);
        if rects_overlap(ship.position, ship.size, m.position, m.size) {
            assert(hits(ship, falling(orig)[i as int]));
            return true;
        }
        i = i + 1;
    }
    assert(ms@ =~= falling(orig));
    false
}

/// Removes the meteorites that passed the bottom edge, keeping the order of
/// the others.
fn remove_fallen(ms: &mut Vec<Meteorite>)
    ensures
        final(ms)@ == survivors(old(ms)@),
{
    let mut kept: Vec<Meteorite> = Vec::new();
    let mut i: usize = 0;
    while i < ms.len()
        invariant
            i <= ms.len(),
            kept@ == survivors(ms@.subrange(0, i as int)),
        decreases ms.len() - i,
    {
        let m = ms[i];
        proof {
            let next = ms@.subrange(0, i + 1);
            assert(next.drop_last() =~= ms@.subrange(0, i as int));
            assert(next.last() == m);
            reveal(Seq::filter);
        }
        if m.position.y < FIELD_HEIGHT {
            kept.push(m);
        }
        i = i + 1;
    }
    assert(ms@.subrange(0, ms.len() as int) =~= ms@);
    *ms = kept;
}

/// Speeds up every meteorite.
fn speed_up(ms: &mut Vec<Meteorite>)
    requires
        forall|i: int| 0 <= i < old(ms).len() ==> meteorite_ok(#[trigger] old(ms)[i]),
    ensures
        final(ms)@ == hastening(old(ms)@),
{
    let ghost orig = ms@;
    let mut i: usize = 0;
    while i < ms.len()
        invariant
            i <= ms.len(),
            ms.len() == orig.len(),
            forall|j: int| 0 <= j < orig.len() ==> meteorite_ok(#[trigger] orig[j]),
            forall|j: int| 0 <= j < i ==> ms@[j] == hastened(orig[j]),
            forall|j: int| i <= j < orig.len() ==> ms@[j] == orig[j],
        decreases orig.len() - i,
    {
        let mut m = ms[i];
        assert(meteorite_ok(orig[i as int]));
        m.speed = m.speed + METEORITE_SPEED_STEP;
        ms[i] = m;
        i = i + 1;
    }
    assert(ms@ =~= hastening(orig));
}

impl Game {
    /// A game with a new ship and an empty field.
    pub fn new() -> (r: Game)
        ensures
            r@ == (GameView {
                starship: fresh_starship(),
                meteorites: Seq::empty(),
                score: 0,
                over: false,
                pause: false,
            }),
            r@.wf(),
    {
        Game { starship: Starship::new(), meteorites: Vec::new(), score: 0, over: false, pause: false }
    }

    /// Begins play: the first meteorite appears at a random column.
    pub fn start(&mut self)
        ensures
            exists|column: u32|
                column < SPAWN_X_RANGE && final(self)@ == #[trigger] old(self)@.with_spawn(column),
    {
        self.spawn_meteorite();
    }

    /// Adds a new meteorite at the top of the field, `column` pixels from its
    /// left edge.
    pub fn spawn_meteorite_at(&mut self, column: u32)
        ensures
            final(self)@ == old(self)@.with_spawn(column),
    {
        let x: i64 = column as i64 * UNITS_PER_PIXEL;
        self.meteorites.push(Meteorite::new(Vec2::new(x, 0)));
    }

    /// Adds a new meteorite at the top of the field, at a random column.
    pub fn spawn_meteorite(&mut self)
        ensures
            exists|column: u32|
                column < SPAWN_X_RANGE && final(self)@ == #[trigger] old(self)@.with_spawn(column),
    {
        let column = random_below(SPAWN_X_RANGE);
        self.spawn_meteorite_at(column);
    }

    /// Runs one frame with `input`; a meteorite that appears during it does
    /// so `column` pixels from the left edge.
    pub fn step(&mut self, input: Input, column: u32)
        requires
            old(self)@.wf(),
            column < SPAWN_X_RANGE,
            old(self).starship.speed < MAX_STARSHIP_SPEED,
        ensures
            final(self)@ == old(self)@.next(input, column),
            final(self)@.wf(),
    {
        proof {
            lemma_next_wf(self@, input, column);
        }
        if self.over {
            if input.restart {
                self.reset_with(column);
            }
            return;
        }
        if input.pause {
            self.pause = !self.pause;
        }
        if self.pause {
            return;
        }
        steer(&mut self.starship, input);
        if fall_and_check(&mut self.meteorites, self.starship) {
            self.starship.lives = self.starship.lives - 1;
            if self.starship.lives == 0 {
                self.over = true;
            }
            self.meteorites.clear();
            self.spawn_meteorite_at(column);
            assert(self.meteorites@ =~= seq![spawned(column)]);
            self.score = 0;
        } else {
            remove_fallen(&mut self.meteorites);
            if self.meteorites.len() == 0 {
                self.spawn_meteorite_at(column);
                assert(self.meteorites@ =~= seq![spawned(column)]);
                self.score = self.score + 1;
                self.starship.speed = self.starship.speed + STARSHIP_SPEED_STEP;
                speed_up(&mut self.meteorites);
            }
        }
    }

    /// Runs one frame with `input`; a meteorite that appears during it does
    /// so at a random column.
    pub fn update(&mut self, input: Input)
        requires
            old(self)@.wf(),
            old(self).starship.speed < MAX_STARSHIP_SPEED,
        ensures
            exists|column: u32|
                column < SPAWN_X_RANGE && final(self)@ == #[trigger] old(self)@.next(input, column),
            final(self)@.wf(),
    {
        let column = random_below(SPAWN_X_RANGE);
        self.step(input, column);
    }

    /// Starts a new game whose first meteorite is `column` pixels from the
    /// left edge.
    pub fn reset_with(&mut self, column: u32)
        ensures
            final(self)@ == restarted(column),
    {
        self.starship = Starship::new();
        self.meteorites.clear();
        self.score = 0;
        self.over = false;
        self.pause = false;
        self.spawn_meteorite_at(column);
    }

    /// Starts a new game whose first meteorite is at a random column.
    pub fn reset(&mut self)
        ensures
            exists|column: u32| column < SPAWN_X_RANGE && final(self)@ == #[trigger] restarted(column),
    {
        let column = random_below(SPAWN_X_RANGE);
        self.reset_with(column);
    }

    /// Whether the game is being played, is paused, or is over.
    pub fn phase(&self) -> (r: Phase)
        ensures
            r == self@.phase(),
    {
        if self.over {
            Phase::Over
        } else if self.pause {
            Phase::Paused
        } else {
            Phase::Playing
        }
    }
}

/// A frame keeps a game well formed, as long as the ship can still speed up.
pub proof fn lemma_next_wf(g: GameView, input: Input, column: u32)
    requires
        g.wf(),
        column < SPAWN_X_RANGE,
        g.starship.speed < MAX_STARSHIP_SPEED,
    ensures
        g.next(input, column).wf(),
{
    let fell = falling(g.meteorites);
    let kept = survivors(fell);
    assert forall|i: int| 0 <= i < kept.len() implies meteorite_ok(#[trigger] kept[i]) by {
        lemma_survivor_ok(g, i);
    }
    let r = hastening(seq![spawned(column)]);
    assert(r[0] == hastened(spawned(column)));
}

proof fn lemma_survivor_ok(g: GameView, i: int)
    requires
        g.wf(),
        0 <= i < survivors(falling(g.meteorites)).len(),
    ensures
        meteorite_ok(survivors(falling(g.meteorites))[i]),
{
    let fell = falling(g.meteorites);
    let pred = |m: Meteorite| on_field(m);
    fell.lemma_filter_pred(pred, i);
    let m = fell.filter(pred)[i];
    assert(fell.filter(pred).contains(m));
    fell.lemma_filter_contains_rev(pred, m);
    let j = choose|j: int| 0 <= j < fell.len() && fell[j] == m;
    assert(meteorite_ok(g.meteorites[j]));
}

} // verus!

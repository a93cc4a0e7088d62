//! The game state machine: one round of snake.
//!
//! A `Game` owns a level map, a snake, a fruit set, a score, and a
//! lifecycle state.  It applies player direction changes, advances the
//! snake one cell per tick, resolves fruit-eating and collisions, and
//! finalizes the score when the round ends.  The surrounding application
//! drives it: it waits for input with a tick deadline, calls
//! [`Game::advance`] when the deadline passes, hands every input event to
//! [`Game::handle_event`], and persists high scores when a round ends.
use vstd::prelude::*;
use crate::command::{spec_from_key_event, Command, InputEvent};
use crate::direction::Direction;
use crate::geom::{contains_pos, Position};
use crate::highscores::HighScores;
use crate::level::LevelMap;
use crate::options::Options;
use crate::paused::{spec_pause_choice, spec_pause_selection, PauseOpt, Paused};
use crate::rng::GameRng;
use crate::snake::Snake;
use crate::warning::{spec_offset_after, spec_warning_like, Warning, WarningOutcome};
use crate::{INITIAL_SNAKE_LENGTH, MAX_SCORE, SNAKE_GROWTH};

verus! {

/// Data that outlives a single round: the gameplay options and the high
/// score records.
#[derive(Clone, Debug, PartialEq, Eq)]
pub struct Globals {
    /// Gameplay options.
    pub options: Options,
    /// High score records.
    pub high_scores: HighScores,
}

impl Globals {
    pub open spec fn wf(self) -> bool {
        self.options.wf() && self.high_scores.wf()
    }
}

impl Default for Globals {
    /// Default options and no recorded high scores.
    fn default() -> (r: Globals)
        ensures
            r.options.wraparound == false,
            r.options.obstacles == false,
            r.options.fruits.spec_get() == 1,
            r.options.level_size is Large,
            r.high_scores.spec_entries() == Seq::<crate::highscores::HighScoreEntry>::empty(),
            r.wf(),
    {
        Globals { options: Options::default(), high_scores: HighScores::default() }
    }
}

/// End-of-round report.
#[derive(Clone, Debug, PartialEq, Eq)]
pub struct PostMortem {
    /// True if this round set a new high score.
    pub new_high_score: bool,
    /// A warning to display about an error, if any, that occurred while
    /// persisting the high score.
    pub warning: Option<Warning>,
}

/// An enum of the states that a game can be in.
#[derive(Clone, Debug, PartialEq, Eq)]
pub enum GameState {
    /// The game is currently running.
    Running,
    /// The game is currently paused, showing the pause menu.
    Paused(Paused),
    /// The round ended because the snake collided with something.
    Dead(PostMortem),
    /// The snake has filled the board and there is no free cell left to
    /// place a fruit in.
    Exhausted(PostMortem),
}

/// What the application should do in response to an input event, beyond
/// what the game handled itself.
#[derive(Clone, Copy, Debug, PartialEq, Eq, Structural)]
pub enum GameRequest {
    /// Quit the application.
    Quit,
    /// Start a fresh round with the same options.
    Restart,
    /// Return to the main menu.
    MainMenu,
}

/// The new high score set by ending a round at `score`, if any: the score
/// must be positive and beat the stored high score, if one exists.
pub open spec fn spec_new_high_score(score: u32, high_score: Option<u32>) -> Option<u32> {
    if score == 0 {
        None
    } else {
        match high_score {
            None => Some(score),
            Some(h) => if h < score {
                Some(score)
            } else {
                None
            },
        }
    }
}

/// If the score exceeds the stored high score, return the new high score.
pub fn new_high_score(score: u32, high_score: Option<u32>) -> (r: Option<u32>)
    ensures
        r == spec_new_high_score(score, high_score),
{
    match high_score {
        None => if score > 0 {
            Some(score)
        } else {
            None
        },
        Some(h) => if h < score {
            Some(score)
        } else {
            None
        },
    }
}

/// What an end-of-round report holds when the round ended at `score`
/// against the stored high score `high`: the new-high-score flag is set
/// exactly when the score beats the stored one, and no persistence
/// warning is attached yet.
pub open spec fn spec_post_mortem(pm: PostMortem, score: u32, high: Option<u32>) -> bool {
    &&& pm.new_high_score == (spec_new_high_score(score, high) is Some)
    &&& pm.warning is None
}

/// How the high score records look after finalizing a round of game `g`
/// that ended at `score`: if the score sets a new high score, the record
/// for the current options is updated to it and no other record changes;
/// otherwise the records are untouched.
pub open spec fn spec_finalized(g: Game, hs: HighScores, score: u32) -> bool {
    match spec_new_high_score(score, g.spec_high_score()) {
        Some(s) => {
            &&& hs.spec_get(g.spec_globals().options) == Some(s)
            &&& forall|o: Options|
                o != g.spec_globals().options ==> #[trigger] hs.spec_get(o)
                    == g.spec_globals().high_scores.spec_get(o)
            &&& hs.wf()
        },
        None => hs == g.spec_globals().high_scores,
    }
}

/// Is `q` a cell where a replacement fruit may land just after the snake
/// of game `g` ate the fruit at `h` and its body became `body2`: on the
/// board, not an obstacle, not the snake's new head or body, and not one
/// of the remaining fruits.
pub open spec fn spec_replacement_ok(g: Game, h: Position, body2: Seq<Position>, q: Position) -> bool {
    &&& g.spec_map().spec_bounds().spec_contains(q)
    &&& !g.spec_map().has_obstacle(q)
    &&& q != h
    &&& !body2.contains(q)
    &&& !g.spec_fruits().contains(q)
}

/// The transition relation of one tick: what [`Game::advance`] does.
///
/// When the game is not running, nothing happens.  Otherwise the snake
/// takes one step.  A failed step (a non-wrapping edge) ends the round as
/// `Dead` with everything else untouched.  A successful step moves the
/// head and trims the body; landing on a fruit eats it — the score rises
/// by one, the snake's target length grows, and one replacement fruit is
/// placed if any cell is free — while landing on the body or an obstacle
/// ends the round as `Dead`.  If no fruit remains after all that, the
/// round ends as `Exhausted` instead.  Every transition into `Dead` or
/// `Exhausted` carries a fresh end-of-round report and updates the high
/// score records.
pub open spec fn spec_advance_rel(g: Game, g2: Game) -> bool {
    &&& g2.spec_map() == g.spec_map()
    &&& g2.spec_high_score() == g.spec_high_score()
    &&& g2.spec_globals().options == g.spec_globals().options
    &&& if !(g.spec_state() is Running) {
        g2 == g
    } else {
        match g.spec_snake().spec_direction().spec_advance(
            g.spec_snake().spec_head(),
            g.spec_map().spec_bounds(),
        ) {
            None => {
                &&& g2.spec_snake() == g.spec_snake()
                &&& g2.spec_fruits() == g.spec_fruits()
                &&& g2.spec_score() == g.spec_score()
                &&& (g2.spec_state() matches GameState::Dead(pm) && spec_post_mortem(
                    pm,
                    g.spec_score(),
                    g.spec_high_score(),
                ))
                &&& spec_finalized(g, g2.spec_globals().high_scores, g.spec_score())
            },
            Some(h) => {
                let body2 = Snake::spec_trimmed(
                    g.spec_snake().spec_body().push(g.spec_snake().spec_head()),
                    g.spec_snake().spec_max_len(),
                );
                let ate = g.spec_fruits().contains(h);
                let collided = !ate && (body2.contains(h) || g.spec_map().has_obstacle(h));
                &&& g2.spec_snake().spec_head() == h
                &&& g2.spec_snake().spec_direction() == g.spec_snake().spec_direction()
                &&& g2.spec_snake().spec_body() == body2
                &&& (if ate {
                    &&& g2.spec_score() == (if g.spec_score() < MAX_SCORE {
                        (g.spec_score() + 1) as u32
                    } else {
                        g.spec_score()
                    })
                    &&& g2.spec_snake().spec_max_len() == (if g.spec_score() < MAX_SCORE {
                        g.spec_snake().spec_max_len() + SNAKE_GROWTH
                    } else {
                        g.spec_snake().spec_max_len() as int
                    })
                    &&& !g2.spec_fruits().contains(h)
                    &&& (forall|q: Position|
                        q != h && g.spec_fruits().contains(q) ==> g2.spec_fruits().contains(q))
                    &&& (forall|q: Position|
                        g2.spec_fruits().contains(q) ==> (q != h && g.spec_fruits().contains(q))
                            || spec_replacement_ok(g, h, body2, q))
                    &&& ((exists|q: Position| spec_replacement_ok(g, h, body2, q))
                        ==> g2.spec_fruits().len() == g.spec_fruits().len())
                    &&& g2.spec_fruits().len() >= g.spec_fruits().len() - 1
                    &&& g2.spec_fruits().len() <= g.spec_fruits().len()
                } else {
                    &&& g2.spec_score() == g.spec_score()
                    &&& g2.spec_snake().spec_max_len() == g.spec_snake().spec_max_len()
                    &&& g2.spec_fruits() == g.spec_fruits()
                })
                &&& (if g2.spec_fruits().len() == 0 {
                    g2.spec_state() matches GameState::Exhausted(pm) && spec_post_mortem(
                        pm,
                        g2.spec_score(),
                        g.spec_high_score(),
                    )
                } else if collided {
                    g2.spec_state() matches GameState::Dead(pm) && spec_post_mortem(
                        pm,
                        g2.spec_score(),
                        g.spec_high_score(),
                    )
                } else {
                    g2.spec_state() is Running
                })
                &&& (if collided || g2.spec_fruits().len() == 0 {
                    spec_finalized(g, g2.spec_globals().high_scores, g2.spec_score())
                } else {
                    g2.spec_globals() == g.spec_globals()
                })
            },
        }
    }
}

/// One round of snake.
pub struct Game {
    /// The random-number generator used for generating obstacles and
    /// fruit.
    rng: GameRng,
    /// The current score, equal to the number of fruits eaten.
    score: u32,
    /// The stored high score for the current gameplay options, read once
    /// at construction.
    high_score: Option<u32>,
    /// The state of the snake itself.
    snake: Snake,
    /// The positions of the fruits in the level.
    fruits: Vec<Position>,
    /// The state that the game is currently in.
    state: GameState,
    /// The map of the game level.
    map: LevelMap,
    /// Options and high scores, carried through the round.
    globals: Globals,
}

impl Game {
    pub closed spec fn spec_score(self) -> u32 {
        self.score
    }

    pub closed spec fn spec_high_score(self) -> Option<u32> {
        self.high_score
    }

    pub closed spec fn spec_snake(self) -> Snake {
        self.snake
    }

    pub closed spec fn spec_fruits(self) -> Seq<Position> {
        self.fruits@
    }

    pub closed spec fn spec_state(self) -> GameState {
        self.state
    }

    pub closed spec fn spec_map(self) -> LevelMap {
        self.map
    }

    pub closed spec fn spec_globals(self) -> Globals {
        self.globals
    }

    /// Is the cell `p` taken by a fruit, an obstacle, or the snake?
    pub open spec fn spec_occupied(self, p: Position) -> bool {
        ||| self.spec_fruits().contains(p)
        ||| self.spec_map().has_obstacle(p)
        ||| self.spec_snake().occupies(p)
    }

    /// Everything a reachable game state guarantees:
    /// the map, the options, and the high score records are well formed;
    /// the snake is well formed and entirely on the board;
    /// fruits lie on the board, are pairwise distinct, and are disjoint
    /// from the obstacles and from the snake (head and body alike);
    /// the fruit count never exceeds the configured quantity;
    /// the score is capped, and the snake's target length is exactly the
    /// initial length plus the growth increment for every fruit eaten;
    /// a stored high score is positive; and an attached warning pop-up is
    /// well formed.
    pub open spec fn wf(self) -> bool {
        &&& self.spec_map().wf()
        &&& self.spec_globals().wf()
        &&& self.spec_snake().wf()
        &&& self.spec_map().spec_bounds().spec_contains(self.spec_snake().spec_head())
        &&& forall|i: int|
            0 <= i < self.spec_snake().spec_body().len()
                ==> self.spec_map().spec_bounds().spec_contains(
                #[trigger] self.spec_snake().spec_body()[i],
            )
        &&& forall|p: Position|
            #[trigger] self.spec_fruits().contains(p) ==> self.spec_map().spec_bounds()
                .spec_contains(p) && !self.spec_map().has_obstacle(p) && !self.spec_snake()
                .occupies(p)
        &&& forall|i: int, j: int|
            0 <= i < j < self.spec_fruits().len() ==> self.spec_fruits()[i]
                != self.spec_fruits()[j]
        &&& self.spec_fruits().len() <= self.spec_globals().options.fruits.spec_get()
        &&& self.spec_score() <= MAX_SCORE
        &&& self.spec_snake().spec_max_len() == INITIAL_SNAKE_LENGTH + SNAKE_GROWTH
            * self.spec_score()
        &&& (self.spec_high_score() matches Some(h) ==> h >= 1)
        &&& (match self.spec_state() {
            GameState::Dead(pm) | GameState::Exhausted(pm) => pm.warning matches Some(w)
                ==> w.wf(),
            _ => true,
        })
    }

    /// Create a new game from the given globals and random source.  The
    /// level is generated (with obstacles if the options ask for them),
    /// the snake is placed at the level's starting cell, the stored high
    /// score for these options is looked up, and the configured number of
    /// fruits is placed, as far as free cells allow.
    pub fn new_with_rng(globals: Globals, rng: GameRng) -> (game: Game)
        requires
            globals.wf(),
        ensures
            game.wf(),
            game.spec_score() == 0,
            game.spec_state() is Running,
            game.spec_globals() == globals,
            game.spec_high_score() == globals.high_scores.spec_get(globals.options),
            game.spec_snake().spec_body() == Seq::<Position>::empty(),
            game.spec_snake().spec_max_len() == INITIAL_SNAKE_LENGTH,
            game.spec_snake().spec_direction() == Direction::North,
            game.spec_snake().spec_head() == game.spec_map().spec_start_pos(),
            game.spec_map().spec_bounds().width == globals.options.level_size.spec_width(),
            game.spec_map().spec_bounds().height == globals.options.level_size.spec_height(),
            game.spec_map().spec_bounds().wrap == globals.options.wraparound,
            !globals.options.obstacles ==> game.spec_map().spec_obstacles() == Seq::<
                Position,
            >::empty(),
            game.spec_fruits().len() <= globals.options.fruits.spec_get(),
    {
        let mut rng = rng;
        let mut map = LevelMap::new(globals.options.level_bounds());
        if globals.options.obstacles {
            map.set_obstacles(&mut rng);
        }
        let snake = map.new_snake();
        let fruit_qty = globals.options.fruits.get();
        let high_score = globals.high_scores.get(globals.options);
        let mut game = Game {
            rng,
            score: 0,
            high_score,
            snake,
            fruits: Vec::new(),
            state: GameState::Running,
            map,
            globals,
        };
        let mut i: usize = 0;
        while i < fruit_qty
            invariant
                game.wf(),
                i <= fruit_qty,
                fruit_qty == game.spec_globals().options.fruits.spec_get(),
                game.spec_fruits().len() <= i,
                game.spec_score() == 0,
                game.spec_state() is Running,
                game.spec_globals() == globals,
                game.spec_high_score() == globals.high_scores.spec_get(globals.options),
                game.spec_snake() == snake,
                game.spec_map() == map,
            decreases fruit_qty - i,
        {
            game.place_fruit();
            i = i + 1;
        }
        game
    }

    /// Is the cell `p` taken by a fruit, an obstacle, or the snake?
    fn is_occupied(&self, p: Position) -> (r: bool)
        ensures
            r == self.spec_occupied(p),
    {
        contains_pos(&self.fruits, p) || self.map.contains_obstacle(p)
            || self.snake.occupies_cell(p)
    }

    /// Place a fruit at a uniformly chosen free cell of the level, if any
    /// cell is free.  If the board is full, nothing changes.
    fn place_fruit(&mut self)
        requires
            old(self).wf(),
            old(self).spec_fruits().len() < old(self).spec_globals().options.fruits.spec_get(),
        ensures
            final(self).wf(),
            final(self).spec_score() == old(self).spec_score(),
            final(self).spec_high_score() == old(self).spec_high_score(),
            final(self).spec_snake() == old(self).spec_snake(),
            final(self).spec_state() == old(self).spec_state(),
            final(self).spec_map() == old(self).spec_map(),
            final(self).spec_globals() == old(self).spec_globals(),
            // every old fruit is kept
            forall|p: Position|
                old(self).spec_fruits().contains(p) ==> final(self).spec_fruits().contains(p),
            // anything new is a previously free cell
            forall|p: Position|
                final(self).spec_fruits().contains(p) ==> old(self).spec_fruits().contains(p)
                    || (old(self).spec_map().spec_bounds().spec_contains(p) && !old(
                    self,
                ).spec_occupied(p)),
            // if a free cell exists, exactly one fruit is placed
            (exists|p: Position|
                old(self).spec_map().spec_bounds().spec_contains(p) && !old(self).spec_occupied(
                    p,
                )) ==> final(self).spec_fruits().len() == old(self).spec_fruits().len() + 1,
            // if no cell is free, nothing changes
            (forall|p: Position|
                old(self).spec_map().spec_bounds().spec_contains(p) ==> old(self).spec_occupied(
                    p,
                )) ==> final(self).spec_fruits() == old(self).spec_fruits(),
            final(self).spec_fruits().len() <= old(self).spec_fruits().len() + 1,
    {
        let bounds = self.map.bounds();
        let cells = bounds.positions();
        let mut free: Vec<Position> = Vec::new();
        let mut i: usize = 0;
        while i < cells.len()
            invariant
                *self == *old(self),
                i <= cells@.len(),
                forall|q: Position|
                    free@.contains(q) ==> self.spec_map().spec_bounds().spec_contains(q)
                        && !self.spec_occupied(q),
                forall|j: int|
                    0 <= j < i ==> self.spec_occupied(#[trigger] cells@[j]) || free@.contains(
                        cells@[j],
                    ),
                forall|j: int| 0 <= j < cells@.len() ==> self.spec_map().spec_bounds()
                    .spec_contains(#[trigger] cells@[j]),
            decreases cells@.len() - i,
        {
            let p = cells[i];
            if !self.is_occupied(p) {
                let ghost prev = free@;
                free.push(p);
                proof {
                    assert forall|q: Position| free@.contains(q)
                        implies self.spec_map().spec_bounds().spec_contains(q)
                        && !self.spec_occupied(q) by {
                        let j = choose|j: int| 0 <= j < free@.len() && free@[j] == q;
                        if j < prev.len() {
                            assert(prev[j] == q);
                            assert(prev.contains(q));
                        } else {
                            assert(q == p);
                        }
                    }
                    assert forall|j: int|
                        0 <= j < i + 1 implies self.spec_occupied(#[trigger] cells@[j])
                        || free@.contains(cells@[j]) by {
                        if j < i {
                            if prev.contains(cells@[j]) {
                                let k = choose|k: int|
                                    0 <= k < prev.len() && prev[k] == cells@[j];
                                assert(free@[k] == cells@[j]);
                            }
                        } else {
                            assert(free@[free@.len() - 1] == cells@[j]);
                        }
                    }
                }
            }
            i = i + 1;
        }
        if free.len() == 0 {
            proof {
                assert forall|p: Position|
                    self.spec_map().spec_bounds().spec_contains(p)
                    implies self.spec_occupied(p) by {
                    assert(cells@.contains(p));
                    let j = choose|j: int| 0 <= j < cells@.len() && cells@[j] == p;
                    assert(self.spec_occupied(cells@[j]) || free@.contains(cells@[j]));
                }
            }
            return;
        }
        let idx = self.rng.random_below(free.len() as u64);
        let p = free[idx as usize];
        let ghost before = self.fruits@;
        self.fruits.push(p);
        proof {
            assert(free@.contains(p));
            assert(self.fruits@ == before.push(p));
            assert forall|q: Position| self.spec_fruits().contains(q)
                implies before.contains(q) || (self.spec_map().spec_bounds().spec_contains(q)
                && !old(self).spec_occupied(q)) by {
                let j = choose|j: int|
                    0 <= j < self.fruits@.len() && self.fruits@[j] == q;
                if j < before.len() {
                    assert(before[j] == q);
                } else {
                    assert(q == p);
                }
            }
            assert forall|q: Position| before.contains(q)
                implies self.spec_fruits().contains(q) by {
                let j = choose|j: int| 0 <= j < before.len() && before[j] == q;
                assert(self.fruits@[j] == q);
            }
            assert(before == old(self).spec_fruits());
            assert(!old(self).spec_occupied(p));
            assert forall|q: Position| #[trigger] self.spec_fruits().contains(q)
                implies self.spec_map().spec_bounds().spec_contains(q)
                && !self.spec_map().has_obstacle(q) && !self.spec_snake().occupies(q) by {
                let j = choose|j: int|
                    0 <= j < self.fruits@.len() && self.fruits@[j] == q;
                if j < before.len() {
                    assert(before[j] == q);
                    assert(old(self).spec_fruits().contains(q));
                } else {
                    assert(q == p);
                }
            }
            // distinctness: the new fruit was not a fruit before
            assert(!before.contains(p));
            assert forall|a: int, b: int| 0 <= a < b < self.fruits@.len()
                implies self.fruits@[a] != self.fruits@[b] by {
                if b < before.len() {
                    assert(before[a] != before[b]);
                } else {
                    assert(self.fruits@[b] == p);
                    if self.fruits@[a] == p {
                        assert(before[a] == p);
                        assert(before.contains(p));
                    }
                }
            }
        }
    }

    /// Is the game currently running (and not paused or over)?
    pub fn running(&self) -> (r: bool)
        ensures
            r == (self.spec_state() is Running),
    {
        matches!(self.state, GameState::Running)
    }

    /// Remove the fruit at `p`, if one is there.  Returns whether a fruit
    /// was removed.
    fn remove_fruit(&mut self, p: Position) -> (ate: bool)
        requires
            forall|i: int, j: int|
                0 <= i < j < old(self).spec_fruits().len() ==> old(self).spec_fruits()[i]
                    != old(self).spec_fruits()[j],
        ensures
            ate == old(self).spec_fruits().contains(p),
            !ate ==> final(self).spec_fruits() == old(self).spec_fruits(),
            !final(self).spec_fruits().contains(p),
            forall|q: Position|
                q != p ==> (final(self).spec_fruits().contains(q) <==> old(
                    self,
                ).spec_fruits().contains(q)),
            final(self).spec_fruits().len() == if ate {
                old(self).spec_fruits().len() - 1
            } else {
                old(self).spec_fruits().len() as int
            },
            forall|i: int, j: int|
                0 <= i < j < final(self).spec_fruits().len() ==> final(self).spec_fruits()[i]
                    != final(self).spec_fruits()[j],
            final(self).spec_score() == old(self).spec_score(),
            final(self).spec_high_score() == old(self).spec_high_score(),
            final(self).spec_snake() == old(self).spec_snake(),
            final(self).spec_state() == old(self).spec_state(),
            final(self).spec_map() == old(self).spec_map(),
            final(self).spec_globals() == old(self).spec_globals(),
    {
        let mut i: usize = 0;
        while i < self.fruits.len()
            invariant
                *self == *old(self),
                i <= self.fruits@.len(),
                forall|j: int| 0 <= j < i ==> self.fruits@[j] != p,
                forall|a: int, b: int|
                    0 <= a < b < old(self).spec_fruits().len() ==> old(self).spec_fruits()[a]
                        != old(self).spec_fruits()[b],
            decreases self.fruits@.len() - i,
        {
            if self.fruits[i] == p {
                let ghost before = self.fruits@;
                let _ = self.fruits.remove(i);
                proof {
                    assert(before == old(self).spec_fruits());
                    assert forall|a: int, b: int| 0 <= a < b < before.len()
                        implies before[a] != before[b] by {}
                    assert(self.fruits@ == before.remove(i as int));
                    assert(before.contains(p));
                    assert forall|q: Position|
                        q != p implies (self.spec_fruits().contains(q) <==> before.contains(
                        q,
                    )) by {
                        if self.spec_fruits().contains(q) {
                            let j = choose|j: int|
                                0 <= j < self.fruits@.len() && self.fruits@[j] == q;
                            if j < i {
                                assert(before[j] == q);
                            } else {
                                assert(before[j + 1] == q);
                            }
                        }
                        if before.contains(q) {
                            let j = choose|j: int|
                                0 <= j < before.len() && before[j] == q;
                            assert(j != i);
                            if j < i {
                                assert(self.fruits@[j] == q);
                            } else {
                                assert(self.fruits@[j - 1] == q);
                            }
                        }
                    }
                    assert forall|j: int|
                        0 <= j < self.fruits@.len() implies self.fruits@[j] != p by {
                        if j < i {
                            assert(before[j] != before[i as int]);
                        } else {
                            assert(before[j + 1] != before[i as int]);
                        }
                    }
                    assert(!self.spec_fruits().contains(p));
                    assert forall|a: int, b: int|
                        0 <= a < b < self.fruits@.len() implies self.fruits@[a]
                        != self.fruits@[b] by {
                        let a2 = if a < i { a } else { a + 1 };
                        let b2 = if b < i { b } else { b + 1 };
                        assert(self.fruits@[a] == before[a2]);
                        assert(self.fruits@[b] == before[b2]);
                    }
                }
                return true;
            }
            i = i + 1;
        }
        false
    }

    /// Check for a new high score and, if there is one, update the high
    /// score records.  Returns the end-of-round report; the caller is the
    /// one to persist the records and attach a warning if that fails.
    fn finalize_score(&mut self) -> (pm: PostMortem)
        requires
            old(self).spec_globals().wf(),
        ensures
            final(self).spec_globals().wf(),
            final(self).spec_score() == old(self).spec_score(),
            final(self).spec_high_score() == old(self).spec_high_score(),
            final(self).spec_snake() == old(self).spec_snake(),
            final(self).spec_fruits() == old(self).spec_fruits(),
            final(self).spec_state() == old(self).spec_state(),
            final(self).spec_map() == old(self).spec_map(),
            final(self).spec_globals().options == old(self).spec_globals().options,
            spec_post_mortem(pm, old(self).spec_score(), old(self).spec_high_score()),
            spec_finalized(
                *old(self),
                final(self).spec_globals().high_scores,
                old(self).spec_score(),
            ),
    {
        match new_high_score(self.score, self.high_score) {
            Some(s) => {
                self.globals.high_scores.set(self.globals.options, s);
                PostMortem { new_high_score: true, warning: None }
            },
            None => PostMortem { new_high_score: false, warning: None },
        }
    }

    /// Move the snake forwards one cell and respond to any fruit,
    /// obstacle, body cell, or edge it came into contact with, exactly as
    /// [`spec_advance_rel`] describes.  Called once per tick while the
    /// game is running; does nothing otherwise.
    pub fn advance(&mut self)
        requires
            old(self).wf(),
        ensures
            final(self).wf(),
            spec_advance_rel(*old(self), *final(self)),
    {
        if !self.running() {
            return;
        }
        let ghost g = *old(self);
        let bounds = self.map.bounds();
        let moved = self.snake.advance(bounds);
        if !moved {
            let pm = self.finalize_score();
            self.state = GameState::Dead(pm);
            return;
        }
        let head = self.snake.head();
        let ghost body2 = self.snake.spec_body();
        proof {
            // every cell of the new body was a cell of the old snake
            assert forall|q: Position| body2.contains(q) implies g.spec_snake().occupies(q) by {
                lemma_trimmed_elems(
                    g.spec_snake().spec_body().push(g.spec_snake().spec_head()),
                    g.spec_snake().spec_max_len(),
                    q,
                );
            }
            assert forall|i: int| 0 <= i < body2.len()
                implies g.spec_map().spec_bounds().spec_contains(#[trigger] body2[i]) by {
                assert(body2.contains(body2[i]));
                assert(g.spec_snake().occupies(body2[i]));
            }
        }
        let ate = self.remove_fruit(head);
        if ate {
            if self.score < MAX_SCORE {
                self.score = self.score + 1;
                self.snake.grow();
            }
            proof {
                // the game is well formed again: the eaten fruit is gone
                // from the board, so the remaining fruits avoid the new
                // snake, and the growth rule ties the new score to the
                // new target length
                assert forall|p: Position| #[trigger] self.spec_fruits().contains(p)
                    implies self.spec_map().spec_bounds().spec_contains(p)
                    && !self.spec_map().has_obstacle(p) && !self.spec_snake().occupies(p) by {
                    assert(p != head);
                    assert(g.spec_fruits().contains(p));
                    assert(!g.spec_snake().occupies(p));
                    assert(!body2.contains(p));
                }
                assert(self.wf());
                assert(g.spec_fruits().len() >= 1);
            }
            let ghost mid = *self;
            self.place_fruit();
            proof {
                // a cell is free in the intermediate state exactly when it
                // is a legitimate replacement cell of the original state
                assert forall|q: Position|
                    (mid.spec_map().spec_bounds().spec_contains(q) && !mid.spec_occupied(q))
                        == spec_replacement_ok(g, head, body2, q) by {
                    if spec_replacement_ok(g, head, body2, q) {
                        assert(!mid.spec_fruits().contains(q));
                        assert(!mid.spec_snake().occupies(q));
                    } else if mid.spec_map().spec_bounds().spec_contains(q) && !mid.spec_occupied(
                        q,
                    ) {
                        assert(q != head);
                        assert(!body2.contains(q));
                        if g.spec_fruits().contains(q) {
                            assert(mid.spec_fruits().contains(q));
                        }
                    }
                }
                assert forall|q: Position| #[trigger] self.spec_fruits().contains(q)
                    implies (q != head && g.spec_fruits().contains(q)) || spec_replacement_ok(
                    g,
                    head,
                    body2,
                    q,
                ) by {
                    if mid.spec_fruits().contains(q) {
                        assert(q != head && g.spec_fruits().contains(q));
                    }
                }
                assert(!self.spec_fruits().contains(head));
                if exists|q: Position| spec_replacement_ok(g, head, body2, q) {
                    let q = choose|q: Position| spec_replacement_ok(g, head, body2, q);
                    assert(mid.spec_map().spec_bounds().spec_contains(q) && !mid.spec_occupied(
                        q,
                    ));
                    assert(self.spec_fruits().len() == mid.spec_fruits().len() + 1);
                }
                assert forall|q: Position|
                    q != head && g.spec_fruits().contains(q)
                    implies self.spec_fruits().contains(q) by {
                    assert(mid.spec_fruits().contains(q));
                }
            }
        } else {
            let collided = self.snake.body_contains(head) || self.map.contains_obstacle(head);
            if collided {
                let pm = self.finalize_score();
                self.state = GameState::Dead(pm);
            }
            proof {
                assert forall|p: Position| #[trigger] self.spec_fruits().contains(p)
                    implies self.spec_map().spec_bounds().spec_contains(p)
                    && !self.spec_map().has_obstacle(p) && !self.spec_snake().occupies(p) by {
                    assert(g.spec_fruits().contains(p));
                    assert(p != head);
                    assert(!g.spec_snake().occupies(p));
                    assert(!body2.contains(p));
                }
            }
        }
        if self.fruits.len() == 0 {
            let pm = self.finalize_score();
            self.state = GameState::Exhausted(pm);
        }
    }

    /// Pause the game, opening the pause menu at its first choice.
    fn pause(&mut self)
        ensures
            final(self).spec_state() matches GameState::Paused(p) && p.spec_selection()
                == PauseOpt::Resume,
            final(self).spec_score() == old(self).spec_score(),
            final(self).spec_high_score() == old(self).spec_high_score(),
            final(self).spec_snake() == old(self).spec_snake(),
            final(self).spec_fruits() == old(self).spec_fruits(),
            final(self).spec_map() == old(self).spec_map(),
            final(self).spec_globals() == old(self).spec_globals(),
    {
        self.state = GameState::Paused(Paused::new());
    }

    /// Drive the end-of-round screen with one command, as
    /// [`spec_terminal_event`] describes.
    fn terminal_event(pm: PostMortem, event: InputEvent) -> (res: (
        PostMortem,
        Option<GameRequest>,
    ))
        requires
            pm.warning matches Some(w) ==> w.wf(),
        ensures
            spec_terminal_event(pm, event, res.0, res.1),
            res.0.warning matches Some(w2) ==> w2.wf(),
    {
        let cmd = match event {
            InputEvent::Key(k) => match Command::from_key_event(k) {
                Some(c) => c,
                None => return (pm, None),
            },
            _ => return (pm, None),
        };
        let PostMortem { new_high_score, warning } = pm;
        match warning {
            Some(mut w) => match w.handle_command(cmd) {
                Some(WarningOutcome::Dismissed) => (
                    PostMortem { new_high_score, warning: None },
                    None,
                ),
                Some(WarningOutcome::Quit) => (
                    PostMortem { new_high_score, warning: Some(w) },
                    Some(GameRequest::Quit),
                ),
                None => (PostMortem { new_high_score, warning: Some(w) }, None),
            },
            None => {
                let req = match cmd {
                    Command::R => Some(GameRequest::Restart),
                    Command::M => Some(GameRequest::MainMenu),
                    Command::Quit | Command::Q => Some(GameRequest::Quit),
                    _ => None,
                };
                (PostMortem { new_high_score, warning: None }, req)
            },
        }
    }

    /// Handle one input event, as the application hands them over while
    /// waiting for the next tick.  Returns `Some(request)` if the
    /// application should switch screens or quit; see [`spec_event_rel`]
    /// for what each event does in each state.
    pub fn handle_event(&mut self, event: InputEvent) -> (r: Option<GameRequest>)
        requires
            old(self).wf(),
        ensures
            final(self).wf(),
            final(self).spec_map() == old(self).spec_map(),
            final(self).spec_fruits() == old(self).spec_fruits(),
            final(self).spec_score() == old(self).spec_score(),
            final(self).spec_high_score() == old(self).spec_high_score(),
            final(self).spec_globals() == old(self).spec_globals(),
            final(self).spec_snake().spec_head() == old(self).spec_snake().spec_head(),
            final(self).spec_snake().spec_body() == old(self).spec_snake().spec_body(),
            final(self).spec_snake().spec_max_len() == old(self).spec_snake().spec_max_len(),
            spec_event_rel(*old(self), event, *final(self), r),
    {
        let mut st = GameState::Running;
        core::mem::swap(&mut st, &mut self.state);
        match st {
            GameState::Running => {
                match event {
                    InputEvent::FocusLost => {
                        self.pause();
                        None
                    },
                    InputEvent::Key(k) => match Command::from_key_event(k) {
                        Some(Command::Quit) => Some(GameRequest::Quit),
                        Some(Command::Up) => {
                            self.snake.turn(Direction::North);
                            None
                        },
                        Some(Command::Left) => {
                            self.snake.turn(Direction::West);
                            None
                        },
                        Some(Command::Down) => {
                            self.snake.turn(Direction::South);
                            None
                        },
                        Some(Command::Right) => {
                            self.snake.turn(Direction::East);
                            None
                        },
                        Some(Command::Esc) => {
                            self.pause();
                            None
                        },
                        _ => None,
                    },
                    InputEvent::Other => None,
                }
            },
            GameState::Paused(menu) => {
                let mut menu = menu;
                match event {
                    InputEvent::Key(k) => match Command::from_key_event(k) {
                        Some(cmd) => match menu.handle_command(cmd) {
                            Some(PauseOpt::Resume) => {
                                self.state = GameState::Running;
                                None
                            },
                            Some(PauseOpt::Restart) => {
                                self.state = GameState::Paused(menu);
                                Some(GameRequest::Restart)
                            },
                            Some(PauseOpt::MainMenu) => {
                                self.state = GameState::Paused(menu);
                                Some(GameRequest::MainMenu)
                            },
                            Some(PauseOpt::Quit) => {
                                self.state = GameState::Paused(menu);
                                Some(GameRequest::Quit)
                            },
                            None => {
                                self.state = GameState::Paused(menu);
                                None
                            },
                        },
                        None => {
                            self.state = GameState::Paused(menu);
                            None
                        },
                    },
                    _ => {
                        self.state = GameState::Paused(menu);
                        None
                    },
                }
            },
            GameState::Dead(pm) => {
                let (pm2, req) = Self::terminal_event(pm, event);
                self.state = GameState::Dead(pm2);
                req
            },
            GameState::Exhausted(pm) => {
                let (pm2, req) = Self::terminal_event(pm, event);
                self.state = GameState::Exhausted(pm2);
                req
            },
        }
    }

    /// Attach a warning pop-up to the end-of-round report, for the
    /// application to call when persisting the high scores failed.  Does
    /// nothing unless the round has ended.
    pub fn attach_warning(&mut self, w: Warning)
        requires
            old(self).wf(),
            w.wf(),
        ensures
            final(self).wf(),
            final(self).spec_map() == old(self).spec_map(),
            final(self).spec_fruits() == old(self).spec_fruits(),
            final(self).spec_score() == old(self).spec_score(),
            final(self).spec_high_score() == old(self).spec_high_score(),
            final(self).spec_globals() == old(self).spec_globals(),
            final(self).spec_snake() == old(self).spec_snake(),
            match old(self).spec_state() {
                GameState::Dead(pm) => final(self).spec_state() matches GameState::Dead(pm2)
                    && pm2.new_high_score == pm.new_high_score && pm2.warning == Some(w),
                GameState::Exhausted(pm) => final(self).spec_state()
                    matches GameState::Exhausted(pm2) && pm2.new_high_score
                    == pm.new_high_score && pm2.warning == Some(w),
                _ => final(self).spec_state() == old(self).spec_state(),
            },
    {
        let mut st = GameState::Running;
        core::mem::swap(&mut st, &mut self.state);
        match st {
            GameState::Dead(pm) => {
                self.state = GameState::Dead(
                    PostMortem { new_high_score: pm.new_high_score, warning: Some(w) },
                );
            },
            GameState::Exhausted(pm) => {
                self.state = GameState::Exhausted(
                    PostMortem { new_high_score: pm.new_high_score, warning: Some(w) },
                );
            },
            other => {
                self.state = other;
            },
        }
    }

    /// The current score.
    pub fn score(&self) -> (r: u32)
        ensures
            r == self.spec_score(),
    {
        self.score
    }

    /// The stored high score for the current options, as read when the
    /// round began.
    pub fn high_score(&self) -> (r: Option<u32>)
        ensures
            r == self.spec_high_score(),
    {
        self.high_score
    }

    /// The snake.
    pub fn snake(&self) -> (r: &Snake)
        ensures
            *r == self.spec_snake(),
    {
        &self.snake
    }

    /// The positions of the fruits in the level.
    pub fn fruits(&self) -> (r: &Vec<Position>)
        ensures
            r@ == self.spec_fruits(),
    {
        &self.fruits
    }

    /// The state the game is currently in.
    pub fn state(&self) -> (r: &GameState)
        ensures
            *r == self.spec_state(),
    {
        &self.state
    }

    /// The map of the game level.
    pub fn map(&self) -> (r: &LevelMap)
        ensures
            *r == self.spec_map(),
    {
        &self.map
    }

    /// The options and high scores carried through the round.
    pub fn globals(&self) -> (r: &Globals)
        ensures
            *r == self.spec_globals(),
    {
        &self.globals
    }
}

/// Law: in every reachable game state, the snake's body trail is no
/// longer than its target length.
pub proof fn lemma_body_within_target(g: Game)
    requires
        g.wf(),
    ensures
        g.spec_snake().spec_body().len() <= g.spec_snake().spec_max_len(),
{
}

/// Law: in every reachable game state, no fruit lies on an obstacle or on
/// any cell of the snake.
pub proof fn lemma_fruits_disjoint(g: Game, p: Position)
    requires
        g.wf(),
        g.spec_fruits().contains(p),
    ensures
        !g.spec_map().has_obstacle(p),
        !g.spec_snake().occupies(p),
{
}

/// Law: in every reachable game state, the snake's target length is the
/// initial length plus the growth increment for every fruit eaten.
pub proof fn lemma_growth(g: Game)
    requires
        g.wf(),
    ensures
        g.spec_snake().spec_max_len() == INITIAL_SNAKE_LENGTH + SNAKE_GROWTH * g.spec_score(),
{
}

/// Law: a tick on which the snake eats a fruit raises the score by one
/// and the target length by exactly the growth increment (while the
/// score cap is out of reach).
pub proof fn lemma_eating_grows(g: Game, g2: Game)
    requires
        g.wf(),
        spec_advance_rel(g, g2),
        g.spec_state() is Running,
        g.spec_score() < MAX_SCORE,
        match g.spec_snake().spec_direction().spec_advance(
            g.spec_snake().spec_head(),
            g.spec_map().spec_bounds(),
        ) {
            Some(h) => g.spec_fruits().contains(h),
            None => false,
        },
    ensures
        g2.spec_score() == g.spec_score() + 1,
        g2.spec_snake().spec_max_len() == g.spec_snake().spec_max_len() + SNAKE_GROWTH,
{
}

/// Law: a tick that leaves no fruit on the board — because the last one
/// was eaten with no free cell for a replacement, or none could ever be
/// placed — ends the round as `Exhausted`, never as `Running`.
pub proof fn lemma_exhaustion(g: Game, g2: Game)
    requires
        g.wf(),
        spec_advance_rel(g, g2),
        g.spec_state() is Running,
        g.spec_snake().spec_direction().spec_advance(
            g.spec_snake().spec_head(),
            g.spec_map().spec_bounds(),
        ) is Some,
        g2.spec_fruits().len() == 0,
    ensures
        g2.spec_state() is Exhausted,
{
}

/// Every cell of a trimmed body trail was a cell of the untrimmed one.

/// How an input event is handled in a terminal (`Dead` or `Exhausted`)
/// state: while a warning pop-up is attached, the event drives the
/// pop-up; afterwards `r` restarts the round, returns to the main menu,
/// or quits.
pub open spec fn spec_terminal_event(
    pm: PostMortem,
    event: InputEvent,
    pm2: PostMortem,
    r: Option<GameRequest>,
) -> bool {
    match event {
        InputEvent::Key(k) => match spec_from_key_event(k) {
            Some(cmd) => match pm.warning {
                Some(w) => {
                    &&& pm2.new_high_score == pm.new_high_score
                    &&& match cmd {
                        Command::Enter => pm2.warning is None && r is None,
                        Command::Quit => r == Some(GameRequest::Quit) && (pm2.warning
                            matches Some(w2) && spec_warning_like(w2, w, w.spec_offset())),
                        _ => r is None && (pm2.warning matches Some(w2) && spec_warning_like(
                            w2,
                            w,
                            spec_offset_after(w, cmd),
                        )),
                    }
                },
                None => pm2 == pm && r == (match cmd {
                    Command::R => Some(GameRequest::Restart),
                    Command::M => Some(GameRequest::MainMenu),
                    Command::Quit | Command::Q => Some(GameRequest::Quit),
                    _ => None::<GameRequest>,
                }),
            },
            None => pm2 == pm && r is None,
        },
        _ => pm2 == pm && r is None,
    }
}

/// What [`Game::handle_event`] does, given the state the game was in.
///
/// While running, direction keys steer the snake, Escape or losing focus
/// pauses, and Ctrl-C asks to quit.  While paused, the event drives the
/// pause menu, whose choice resumes, restarts, returns to the main menu,
/// or quits.  In a terminal state the event drives the end-of-round
/// screen, see [`spec_terminal_event`].  Nothing else about the game ever
/// changes on input.
pub open spec fn spec_event_rel(
    g: Game,
    event: InputEvent,
    g2: Game,
    r: Option<GameRequest>,
) -> bool {
    match g.spec_state() {
        GameState::Running => match event {
            InputEvent::FocusLost => r is None && (g2.spec_state() matches GameState::Paused(p)
                && p.spec_selection() == PauseOpt::Resume) && g2.spec_snake().spec_direction()
                == g.spec_snake().spec_direction(),
            InputEvent::Key(k) => match spec_from_key_event(k) {
                Some(Command::Quit) => r == Some(GameRequest::Quit) && g2 == g,
                Some(Command::Up) => r is None && g2.spec_state() is Running
                    && g2.spec_snake().spec_direction() == Direction::North,
                Some(Command::Down) => r is None && g2.spec_state() is Running
                    && g2.spec_snake().spec_direction() == Direction::South,
                Some(Command::Left) => r is None && g2.spec_state() is Running
                    && g2.spec_snake().spec_direction() == Direction::West,
                Some(Command::Right) => r is None && g2.spec_state() is Running
                    && g2.spec_snake().spec_direction() == Direction::East,
                Some(Command::Esc) => r is None && (g2.spec_state()
                    matches GameState::Paused(p) && p.spec_selection() == PauseOpt::Resume)
                    && g2.spec_snake().spec_direction() == g.spec_snake().spec_direction(),
                _ => r is None && g2 == g,
            },
            InputEvent::Other => r is None && g2 == g,
        },
        GameState::Paused(p) => {
            &&& g2.spec_snake().spec_direction() == g.spec_snake().spec_direction()
            &&& match event {
                InputEvent::Key(k) => match spec_from_key_event(k) {
                    Some(cmd) => match spec_pause_choice(p.spec_selection(), cmd) {
                        Some(PauseOpt::Resume) => r is None && g2.spec_state() is Running,
                        Some(PauseOpt::Restart) => r == Some(GameRequest::Restart) && g2 == g,
                        Some(PauseOpt::MainMenu) => r == Some(GameRequest::MainMenu) && g2
                            == g,
                        Some(PauseOpt::Quit) => r == Some(GameRequest::Quit) && g2 == g,
                        None => r is None && (g2.spec_state() matches GameState::Paused(p2)
                            && p2.spec_selection() == spec_pause_selection(
                            p.spec_selection(),
                            cmd,
                        )),
                    },
                    None => r is None && g2 == g,
                },
                _ => r is None && g2 == g,
            }
        },
        GameState::Dead(pm) => {
            &&& g2.spec_snake().spec_direction() == g.spec_snake().spec_direction()
            &&& (g2.spec_state() matches GameState::Dead(pm2) && spec_terminal_event(
                pm,
                event,
                pm2,
                r,
            ))
        },
        GameState::Exhausted(pm) => {
            &&& g2.spec_snake().spec_direction() == g.spec_snake().spec_direction()
            &&& (g2.spec_state() matches GameState::Exhausted(pm2) && spec_terminal_event(
                pm,
                event,
                pm2,
                r,
            ))
        },
    }
}

/// Every cell of a trimmed body trail was a cell of the untrimmed one.
proof fn lemma_trimmed_elems(s: Seq<Position>, m: nat, q: Position)
    requires
        Snake::spec_trimmed(s, m).contains(q),
    ensures
        s.contains(q),
{
    let t = Snake::spec_trimmed(s, m);
    let i = choose|i: int| 0 <= i < t.len() && t[i] == q;
    if s.len() <= m {
    } else {
        assert(s[i + (s.len() - m)] == q);
    }
}

} // verus!

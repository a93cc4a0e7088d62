//! A game level: bounds, randomly generated obstacles, and the snake's
//! starting cell.
use vstd::prelude::*;
use crate::direction::Direction;
use crate::geom::{contains_pos, Bounds, Position};
use crate::rng::GameRng;
use crate::snake::Snake;
use crate::{BACKWARDS_CLEARANCE, FORWARDS_CLEARANCE, INITIAL_SNAKE_LENGTH, OBSTACLE_CHANCE_PERCENT};

verus! {

/// The straight run of up to `n` cells that starts at `pos` and walks in
/// direction `dir`, stopping early at a non-wrapping edge.
pub open spec fn spec_lane(pos: Position, dir: Direction, bounds: Bounds, n: nat) -> Seq<
    Position,
>
    decreases n,
{
    if n == 0 {
        Seq::empty()
    } else {
        seq![pos] + (match dir.spec_advance(pos, bounds) {
            Some(q) => spec_lane(q, dir, bounds, (n - 1) as nat),
            None => Seq::empty(),
        })
    }
}

/// A map of a game level.
///
/// Obstacles are generated once, before the snake exists, and never change
/// for the rest of the round.
#[derive(Clone, Debug, PartialEq, Eq)]
pub struct LevelMap {
    /// The level's bounds (size and wraparound).
    bounds: Bounds,
    /// The locations of any obstacles in the level.
    obstacles: Vec<Position>,
    /// The snake's starting position.
    start_pos: Position,
    /// The direction the snake starts out facing.
    start_dir: Direction,
}

impl LevelMap {
    pub closed spec fn spec_bounds(self) -> Bounds {
        self.bounds
    }

    pub closed spec fn spec_obstacles(self) -> Seq<Position> {
        self.obstacles@
    }

    pub closed spec fn spec_start_pos(self) -> Position {
        self.start_pos
    }

    pub closed spec fn spec_start_dir(self) -> Direction {
        self.start_dir
    }

    /// Does the level have an obstacle at `p`?
    pub open spec fn has_obstacle(self, p: Position) -> bool {
        self.spec_obstacles().contains(p)
    }

    /// The bounds are meaningful, every obstacle lies inside them, and so
    /// does the snake's starting cell.
    pub open spec fn wf(self) -> bool {
        &&& self.spec_bounds().wf()
        &&& forall|p: Position| self.has_obstacle(p) ==> self.spec_bounds().spec_contains(p)
        &&& self.spec_bounds().spec_contains(self.spec_start_pos())
    }

    /// A new level with the given bounds, no obstacles, and the snake
    /// starting in the center facing north.
    pub fn new(bounds: Bounds) -> (m: LevelMap)
        requires
            bounds.wf(),
        ensures
            m.spec_bounds() == bounds,
            m.spec_obstacles() == Seq::<Position>::empty(),
            m.spec_start_pos() == (Position { x: bounds.width / 2, y: bounds.height / 2 }),
            m.spec_start_dir() == Direction::North,
            m.wf(),
    {
        let snake_head = Position::new(bounds.width / 2, bounds.height / 2);
        LevelMap { bounds, obstacles: Vec::new(), start_pos: snake_head, start_dir: Direction::North }
    }

    /// Populate the level with randomly generated obstacles, discarding
    /// any previous ones.  Each cell independently becomes an obstacle
    /// with a fixed small chance; afterwards two clearance lanes are
    /// carved from the snake's start, one forwards and one backwards, so
    /// that the snake never starts boxed in or instantly dead.
    pub fn set_obstacles(&mut self, rng: &mut GameRng)
        requires
            old(self).wf(),
        ensures
            final(self).wf(),
            final(self).spec_bounds() == old(self).spec_bounds(),
            final(self).spec_start_pos() == old(self).spec_start_pos(),
            final(self).spec_start_dir() == old(self).spec_start_dir(),
            forall|p: Position|
                spec_lane(
                    final(self).spec_start_pos(),
                    final(self).spec_start_dir(),
                    final(self).spec_bounds(),
                    FORWARDS_CLEARANCE as nat,
                ).contains(p) ==> !final(self).has_obstacle(p),
            forall|p: Position|
                spec_lane(
                    final(self).spec_start_pos(),
                    final(self).spec_start_dir().spec_reverse(),
                    final(self).spec_bounds(),
                    BACKWARDS_CLEARANCE as nat,
                ).contains(p) ==> !final(self).has_obstacle(p),
    {
        let cells = self.bounds.positions();
        let mut obstacles: Vec<Position> = Vec::new();
        let mut i: usize = 0;
        while i < cells.len()
            invariant
                i <= cells@.len(),
                forall|p: Position|
                    obstacles@.contains(p) ==> self.bounds.spec_contains(p),
                forall|j: int| 0 <= j < cells@.len() ==> self.bounds.spec_contains(
                    #[trigger] cells@[j],
                ),
            decreases cells@.len() - i,
        {
            let draw = rng.random_below(100);
            if draw < OBSTACLE_CHANCE_PERCENT as u64 {
                let ghost prev = obstacles@;
                obstacles.push(cells[i]);
                proof {
                    assert(obstacles@ == prev.push(cells@[i as int]));
                    assert(self.bounds.spec_contains(cells@[i as int]));
                    assert forall|p: Position| obstacles@.contains(p)
                        implies self.bounds.spec_contains(p) by {
                        let j = choose|j: int|
                            0 <= j < obstacles@.len() && obstacles@[j] == p;
                        if j < prev.len() {
                            assert(prev[j] == p);
                            assert(prev.contains(p));
                        } else {
                            assert(p == cells@[i as int]);
                        }
                    }
                }
            }
            i = i + 1;
        }
        self.obstacles = obstacles;
        let start = self.start_pos;
        let dir = self.start_dir;
        self.carve_from(start, dir, FORWARDS_CLEARANCE);
        let backwards = dir.reverse();
        self.carve_from(start, backwards, BACKWARDS_CLEARANCE);
    }

    /// Remove every obstacle on the lane of up to `n` cells that starts at
    /// `pos` and runs in direction `dir`.
    fn carve_from(&mut self, pos: Position, dir: Direction, n: usize)
        requires
            old(self).wf(),
            old(self).spec_bounds().spec_contains(pos),
        ensures
            final(self).wf(),
            final(self).spec_bounds() == old(self).spec_bounds(),
            final(self).spec_start_pos() == old(self).spec_start_pos(),
            final(self).spec_start_dir() == old(self).spec_start_dir(),
            forall|p: Position|
                spec_lane(pos, dir, final(self).spec_bounds(), n as nat).contains(p)
                    ==> !final(self).has_obstacle(p),
            forall|p: Position|
                !old(self).has_obstacle(p) ==> !final(self).has_obstacle(p),
        decreases n,
    {
        if n == 0 {
            return;
        }
        self.remove_obstacle(pos);
        match dir.advance(pos, self.bounds) {
            Some(q) => {
                self.carve_from(q, dir, n - 1);
                proof {
                    assert(spec_lane(pos, dir, self.spec_bounds(), n as nat) == seq![pos]
                        + spec_lane(q, dir, self.spec_bounds(), (n - 1) as nat));
                    assert forall|p: Position|
                        spec_lane(pos, dir, self.spec_bounds(), n as nat).contains(p)
                        implies !self.has_obstacle(p) by {
                        if p != pos {
                            let lane = spec_lane(pos, dir, self.spec_bounds(), n as nat);
                            let j = choose|j: int| 0 <= j < lane.len() && lane[j] == p;
                            assert(spec_lane(q, dir, self.spec_bounds(), (n - 1) as nat)[j - 1]
                                == p);
                        }
                    }
                }
            }
            None => {
                proof {
                    assert forall|p: Position|
                        spec_lane(pos, dir, self.spec_bounds(), n as nat).contains(p)
                        implies !self.has_obstacle(p) by {
                        let lane = spec_lane(pos, dir, self.spec_bounds(), n as nat);
                        assert(lane =~= seq![pos]);
                    }
                }
            }
        }
    }

    /// Remove any obstacle at `p`.
    fn remove_obstacle(&mut self, p: Position)
        requires
            old(self).wf(),
        ensures
            final(self).wf(),
            final(self).spec_bounds() == old(self).spec_bounds(),
            final(self).spec_start_pos() == old(self).spec_start_pos(),
            final(self).spec_start_dir() == old(self).spec_start_dir(),
            forall|q: Position|
                final(self).has_obstacle(q) <==> (old(self).has_obstacle(q) && q != p),
    {
        let mut kept: Vec<Position> = Vec::new();
        let mut i: usize = 0;
        while i < self.obstacles.len()
            invariant
                i <= self.obstacles@.len(),
                forall|q: Position|
                    kept@.contains(q) <==> (self.obstacles@.take(i as int).contains(q) && q
                        != p),
            decreases self.obstacles@.len() - i,
        {
            let ghost prev = kept@;
            let ghost taken = self.obstacles@.take(i as int);
            let cur = self.obstacles[i];
            if cur != p {
                kept.push(cur);
            }
            proof {
                assert(self.obstacles@.take(i + 1) =~= taken.push(self.obstacles@[i as int]));
                assert forall|q: Position|
                    kept@.contains(q) <==> (self.obstacles@.take(i + 1).contains(q) && q != p)
                by {
                    let next = self.obstacles@.take(i + 1);
                    if kept@.contains(q) {
                        if prev.contains(q) {
                            let j = choose|j: int| 0 <= j < taken.len() && taken[j] == q;
                            assert(next[j] == q);
                        } else {
                            assert(q == cur && q != p);
                            assert(next[next.len() - 1] == q);
                        }
                    } else {
                        if next.contains(q) && q != p {
                            let j = choose|j: int| 0 <= j < next.len() && next[j] == q;
                            if j < taken.len() {
                                assert(taken[j] == q);
                                assert(prev.contains(q));
                                let k = choose|k: int| 0 <= k < prev.len() && prev[k] == q;
                                assert(kept@[k] == q);
                            } else {
                                assert(q == cur);
                                assert(kept@[kept@.len() - 1] == q);
                            }
                        }
                    }
                }
            }
            i = i + 1;
        }
        proof {
            assert(self.obstacles@.take(self.obstacles@.len() as int) =~= self.obstacles@);
        }
        self.obstacles = kept;
        proof {
            assert forall|q: Position| self.has_obstacle(q)
                implies self.spec_bounds().spec_contains(q) by {
                assert(old(self).has_obstacle(q));
            }
        }
    }

    /// A new snake at this level's starting cell, facing the starting
    /// direction.
    pub fn new_snake(&self) -> (s: Snake)
        ensures
            s.spec_head() == self.spec_start_pos(),
            s.spec_direction() == self.spec_start_dir(),
            s.spec_body() == Seq::<Position>::empty(),
            s.spec_max_len() == INITIAL_SNAKE_LENGTH,
            s.wf(),
    {
        Snake::new(self.start_pos, self.start_dir)
    }

    /// The level's bounds.
    pub fn bounds(&self) -> (b: Bounds)
        ensures
            b == self.spec_bounds(),
    {
        self.bounds
    }

    /// The locations of any obstacles in the level.
    pub fn obstacles(&self) -> (v: &Vec<Position>)
        ensures
            v@ == self.spec_obstacles(),
    {
        &self.obstacles
    }

    /// Does the level have an obstacle at `p`?
    pub fn contains_obstacle(&self, p: Position) -> (r: bool)
        ensures
            r == self.has_obstacle(p),
    {
        contains_pos(&self.obstacles, p)
    }

    /// Is wraparound enabled for the level?
    pub fn wrap(&self) -> (r: bool)
        ensures
            r == self.spec_bounds().wrap,
    {
        self.bounds.wrap
    }
}

} // verus!

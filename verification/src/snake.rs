//! The snake: head position, bounded-length body trail, current heading.
use vstd::prelude::*;
use std::collections::VecDeque;
use crate::direction::Direction;
use crate::geom::{Bounds, Position};
use crate::{INITIAL_SNAKE_LENGTH, SNAKE_GROWTH};

verus! {

/// Snake state.
///
/// All positions are relative to the top-left corner of the level the
/// snake is on.  The body trail holds the cells behind the head,
/// oldest first, and is trimmed after every step so that it never grows
/// past the target length `max_len`.
#[derive(Clone, Debug, PartialEq, Eq)]
pub struct Snake {
    /// The position of the snake's head.
    head: Position,
    /// The cells of the snake's body, with the most recent at the end.
    body: VecDeque<Position>,
    /// The target length of the body.
    max_len: usize,
    /// The direction in which the snake is currently facing.
    direction: Direction,
}

impl Snake {
    pub closed spec fn spec_head(self) -> Position {
        self.head
    }

    pub closed spec fn spec_body(self) -> Seq<Position> {
        self.body@
    }

    pub closed spec fn spec_max_len(self) -> nat {
        self.max_len as nat
    }

    pub closed spec fn spec_direction(self) -> Direction {
        self.direction
    }

    /// The body trail never exceeds the target length.
    pub open spec fn wf(self) -> bool {
        self.spec_body().len() <= self.spec_max_len()
    }

    /// Does the snake occupy `p`, either with its head or with a body
    /// cell?
    pub open spec fn occupies(self, p: Position) -> bool {
        p == self.spec_head() || self.spec_body().contains(p)
    }

    /// A new snake with its head at `head`, facing `direction`, with an
    /// empty body and the initial target length.
    pub fn new(head: Position, direction: Direction) -> (s: Snake)
        ensures
            s.spec_head() == head,
            s.spec_direction() == direction,
            s.spec_body() == Seq::<Position>::empty(),
            s.spec_max_len() == INITIAL_SNAKE_LENGTH,
            s.wf(),
    {
        Snake { head, body: VecDeque::new(), max_len: INITIAL_SNAKE_LENGTH, direction }
    }

    /// The position of the snake's head.
    pub fn head(&self) -> (p: Position)
        ensures
            p == self.spec_head(),
    {
        self.head
    }

    /// The direction in which the snake is currently facing.
    pub fn direction(&self) -> (d: Direction)
        ensures
            d == self.spec_direction(),
    {
        self.direction
    }

    /// The target length of the body.
    pub fn max_len(&self) -> (n: usize)
        ensures
            n == self.spec_max_len(),
    {
        self.max_len
    }

    /// The cells of the snake's body, oldest first.
    pub fn body(&self) -> (b: &VecDeque<Position>)
        ensures
            b@ == self.spec_body(),
    {
        &self.body
    }

    /// Is `p` one of the snake's body cells?
    pub fn body_contains(&self, p: Position) -> (r: bool)
        ensures
            r == self.spec_body().contains(p),
    {
        let mut i: usize = 0;
        while i < self.body.len()
            invariant
                i <= self.body@.len(),
                forall|j: int| 0 <= j < i ==> self.body@[j] != p,
            decreases self.body@.len() - i,
        {
            if self.body[i] == p {
                return true;
            }
            i = i + 1;
        }
        false
    }

    /// Does the snake occupy `p`, either with its head or with a body
    /// cell?
    pub fn occupies_cell(&self, p: Position) -> (r: bool)
        ensures
            r == self.occupies(p),
    {
        if self.head == p {
            true
        } else {
            self.body_contains(p)
        }
    }

    /// The glyph used to draw the snake's head, pointing the way it faces.
    pub fn head_symbol(&self) -> (c: char)
        ensures
            c == (match self.spec_direction() {
                Direction::North => 'v',
                Direction::South => '^',
                Direction::East => '<',
                Direction::West => '>',
            }),
    {
        match self.direction {
            Direction::North => 'v',
            Direction::South => '^',
            Direction::East => '<',
            Direction::West => '>',
        }
    }

    /// Change the snake's heading to `direction`.  Reversal into the
    /// snake's own neck is a legal (if fatal) input, so no validation is
    /// performed.
    pub fn turn(&mut self, direction: Direction)
        ensures
            final(self).spec_direction() == direction,
            final(self).spec_head() == old(self).spec_head(),
            final(self).spec_body() == old(self).spec_body(),
            final(self).spec_max_len() == old(self).spec_max_len(),
    {
        self.direction = direction;
    }

    /// What the body trail holds after a step: the old trail with the
    /// vacated head cell appended, trimmed from the front down to the
    /// target length.
    pub open spec fn spec_trimmed(s: Seq<Position>, max: nat) -> Seq<Position> {
        if s.len() <= max {
            s
        } else {
            s.skip(s.len() - max)
        }
    }

    /// Move the snake forwards one cell in its current direction within
    /// `bounds`.  Returns `false`, without mutating anything, if the snake
    /// was unable to advance because it hit a non-wraparound edge.
    /// Otherwise the vacated head cell joins the back of the body, and the
    /// body is trimmed from the front to the target length.
    pub fn advance(&mut self, bounds: Bounds) -> (moved: bool)
        requires
            old(self).wf(),
            bounds.wf(),
            bounds.spec_contains(old(self).spec_head()),
        ensures
            moved == (old(self).spec_direction().spec_advance(old(self).spec_head(), bounds)
                is Some),
            !moved ==> *final(self) == *old(self),
            moved ==> Some(final(self).spec_head())
                == old(self).spec_direction().spec_advance(old(self).spec_head(), bounds),
            moved ==> final(self).spec_body() == Self::spec_trimmed(
                old(self).spec_body().push(old(self).spec_head()),
                old(self).spec_max_len(),
            ),
            final(self).spec_direction() == old(self).spec_direction(),
            final(self).spec_max_len() == old(self).spec_max_len(),
            final(self).wf(),
            bounds.spec_contains(final(self).spec_head()),
    {
        let next = self.direction.advance(self.head, bounds);
        match next {
            None => false,
            Some(pos) => {
                let ghost pushed = self.body@.push(self.head);
                let ghost dir0 = self.direction;
                let ghost max0 = self.max_len;
                self.body.push_back(self.head);
                self.head = pos;
                while self.body.len() > self.max_len
                    invariant
                        self.head == pos,
                        self.direction == dir0,
                        self.max_len == max0,
                        Self::spec_trimmed(self.body@, self.max_len as nat)
                            == Self::spec_trimmed(pushed, self.max_len as nat),
                        self.body@.len() <= pushed.len(),
                    decreases self.body@.len(),
                {
                    let ghost before = self.body@;
                    let _ = self.body.pop_front();
                    proof {
                        let max = self.max_len as nat;
                        assert(self.body@ == before.subrange(1, before.len() as int));
                        assert(self.body@ =~= before.skip(1));
                        if self.body@.len() > max {
                            assert(before.skip(1).skip(self.body@.len() - max)
                                =~= before.skip(before.len() - max));
                        }
                    }
                }
                true
            }
        }
    }

    /// Extend the snake's target length in response to eating a fruit.
    /// The body itself grows lazily: trimming simply stops removing cells
    /// until the trail catches up with the new target.
    pub fn grow(&mut self)
        requires
            old(self).spec_max_len() + SNAKE_GROWTH <= usize::MAX,
        ensures
            final(self).spec_max_len() == old(self).spec_max_len() + SNAKE_GROWTH,
            final(self).spec_head() == old(self).spec_head(),
            final(self).spec_body() == old(self).spec_body(),
            final(self).spec_direction() == old(self).spec_direction(),
    {
        self.max_len = self.max_len + SNAKE_GROWTH;
    }
}

} // verus!

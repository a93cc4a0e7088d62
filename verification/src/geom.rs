//! Grid cells and level bounds.
use vstd::prelude::*;

verus! {

/// A grid cell, addressed from the top-left corner of a level.
#[derive(Clone, Copy, Debug, PartialEq, Eq, Structural)]
pub struct Position {
    pub x: u16,
    pub y: u16,
}

impl Position {
    pub fn new(x: u16, y: u16) -> (p: Position)
        ensures
            p == (Position { x, y }),
    {
        Position { x, y }
    }
}

/// Does the vector hold the position?
pub fn contains_pos(v: &Vec<Position>, p: Position) -> (r: bool)
    ensures
        r == v@.contains(p),
{
    let mut i: usize = 0;
    while i < v.len()
        invariant
            i <= v@.len(),
            forall|j: int| 0 <= j < i ==> v@[j] != p,
        decreases v@.len() - i,
    {
        if v[i] == p {
            return true;
        }
        i = i + 1;
    }
    false
}

/// The bounds of a game level: its size in cells and whether movement past
/// an edge re-enters from the opposite edge.
#[derive(Clone, Copy, Debug, PartialEq, Eq, Structural)]
pub struct Bounds {
    /// The width of the level in cells.
    pub width: u16,
    /// The height of the level in cells.
    pub height: u16,
    /// If `true`, the level's boundaries wrap around toroidally.
    pub wrap: bool,
}

impl Bounds {
    /// A meaningful level is at least one cell wide and one cell tall.
    pub open spec fn wf(self) -> bool {
        self.width >= 1 && self.height >= 1
    }

    /// Does `p` lie inside the level?
    pub open spec fn spec_contains(self, p: Position) -> bool {
        p.x < self.width && p.y < self.height
    }

    /// Number of cells in the level.
    pub open spec fn spec_cell_count(self) -> int {
        self.width * self.height
    }

    pub fn new(width: u16, height: u16, wrap: bool) -> (b: Bounds)
        requires
            width >= 1,
            height >= 1,
        ensures
            b == (Bounds { width, height, wrap }),
            b.wf(),
    {
        Bounds { width, height, wrap }
    }

    pub fn contains(self, p: Position) -> (r: bool)
        ensures
            r == self.spec_contains(p),
    {
        p.x < self.width && p.y < self.height
    }

    /// Every cell of the level, row by row from the top-left corner.
    pub fn positions(self) -> (v: Vec<Position>)
        ensures
            v@.len() == self.spec_cell_count(),
            forall|i: int| 0 <= i < v@.len() ==> self.spec_contains(#[trigger] v@[i]),
            forall|p: Position| self.spec_contains(p) ==> v@.contains(p),
    {
        let mut v: Vec<Position> = Vec::new();
        let mut y: u16 = 0;
        while y < self.height
            invariant
                y <= self.height,
                v@.len() == y * self.width,
                forall|i: int| 0 <= i < v@.len() ==> self.spec_contains(#[trigger] v@[i]),
                forall|p: Position|
                    self.spec_contains(p) && p.y < y ==> v@.contains(p),
            decreases self.height - y,
        {
            let mut x: u16 = 0;
            while x < self.width
                invariant
                    x <= self.width,
                    y < self.height,
                    v@.len() == y * self.width + x,
                    forall|i: int| 0 <= i < v@.len() ==> self.spec_contains(#[trigger] v@[i]),
                    forall|p: Position|
                        self.spec_contains(p) && (p.y < y || (p.y == y && p.x < x))
                            ==> v@.contains(p),
                decreases self.width - x,
            {
                let ghost prev = v@;
                v.push(Position { x, y });
                proof {
                    assert forall|p: Position|
                        self.spec_contains(p) && (p.y < y || (p.y == y && p.x < x + 1))
                        implies v@.contains(p) by {
                        if p.y == y && p.x == x {
                            assert(v@[v@.len() - 1] == p);
                        } else {
                            assert(prev.contains(p));
                            let i = choose|i: int| 0 <= i < prev.len() && prev[i] == p;
                            assert(v@[i] == p);
                        }
                    }
                }
                x = x + 1;
            }
            proof {
                assert(y * self.width + self.width == (y + 1) * self.width) by (nonlinear_arith);
            }
            y = y + 1;
        }
        proof {
            assert(self.height * self.width == self.width * self.height) by (nonlinear_arith);
        }
        v
    }
}

} // verus!

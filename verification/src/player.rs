//! The snake itself: its segments, the pending heading and whether it lives.

use vstd::prelude::*;
use crate::grid::Grid;
use crate::heading::Direction;

verus! {

/// One segment of the snake.
#[derive(PartialEq, Eq, Debug, Copy, Clone, Structural)]
pub struct BodyPart {
    /// The handle by which the segment is told from the others.
    pub part: usize,
    /// The column of the segment's cell.
    pub x: i32,
    /// The row of the segment's cell.
    pub y: i32,
    /// The heading of the segment.
    pub dir: Direction,
    /// Set on the last segment of the chain and on no other.
    pub is_tail: bool,
}

impl BodyPart {
    /// Whether the two segments lie on one cell.
    pub open spec fn spec_same_cell(self, other: BodyPart) -> bool {
        self.x == other.x && self.y == other.y
    }

    #[verifier::when_used_as_spec(spec_same_cell)]
    pub fn same_cell(self, other: BodyPart) -> (r: bool)
        ensures
            r == self.spec_same_cell(other),
    {
        self.x == other.x && self.y == other.y
    }
}

/// The heading that a velocity stands for: the four unit steps are headings,
/// every other pair is no heading.
pub open spec fn spec_heading_of(vel: (i32, i32)) -> Option<Direction> {
    if vel == (1i32, 0i32) {
        Some(Direction::Right)
    } else if vel == (-1i32, 0i32) {
        Some(Direction::Left)
    } else if vel == (0i32, 1i32) {
        Some(Direction::Up)
    } else if vel == (0i32, -1i32) {
        Some(Direction::Down)
    } else {
        None
    }
}

#[verifier::when_used_as_spec(spec_heading_of)]
pub fn heading_of(vel: (i32, i32)) -> (r: Option<Direction>)
    ensures
        r == spec_heading_of(vel),
{
    if vel.0 == 1 && vel.1 == 0 {
        Some(Direction::Right)
    } else if vel.0 == -1 && vel.1 == 0 {
        Some(Direction::Left)
    } else if vel.0 == 0 && vel.1 == 1 {
        Some(Direction::Up)
    } else if vel.0 == 0 && vel.1 == -1 {
        Some(Direction::Down)
    } else {
        None
    }
}

/// Only the last segment of the chain is marked as the tail.
pub open spec fn tail_marked(s: Seq<BodyPart>) -> bool {
    forall|i: int| 0 <= i < s.len() ==> ((#[trigger] s[i]).is_tail <==> i == s.len() - 1)
}

/// Every handle is below the length of the chain.
pub open spec fn handles_in_range(s: Seq<BodyPart>) -> bool {
    forall|i: int| 0 <= i < s.len() ==> (#[trigger] s[i]).part < s.len()
}

/// No two segments share a handle.
pub open spec fn handles_distinct(s: Seq<BodyPart>) -> bool {
    forall|i: int, j: int|
        0 <= i < j < s.len() ==> (#[trigger] s[i]).part != (#[trigger] s[j]).part
}

/// Whether a segment of the chain has the handle `part`.
pub open spec fn has_part(s: Seq<BodyPart>, part: usize) -> bool {
    exists|i: int| 0 <= i < s.len() && (#[trigger] s[i]).part == part
}

/// The snake: the chain from the head (index 0) to the tail, the pending
/// heading as a velocity, and whether the snake is alive.
pub struct Player {
    pub snake: Vec<BodyPart>,
    pub vel: (i32, i32),
    pub is_alive: bool,
}

/// A `Player` as a mathematical value.
pub struct PlayerView {
    pub snake: Seq<BodyPart>,
    pub vel: (i32, i32),
    pub is_alive: bool,
}

impl View for Player {
    type V = PlayerView;

    open spec fn view(&self) -> PlayerView {
        PlayerView { snake: self.snake@, vel: self.vel, is_alive: self.is_alive }
    }
}

impl PlayerView {
    /// What holds of a player at all times.
    ///
    /// The chain is empty (before a session and after it) or has at least
    /// three segments, and a living snake has a chain. The head's heading is
    /// cardinal, and the pending heading never points against it. The tail
    /// flag marks the last segment only, and the handles are the numbers
    /// below the chain's length, each used once.
    pub open spec fn wf(self) -> bool {
        &&& self.snake.len() == 0 || self.snake.len() >= 3
        &&& self.is_alive ==> self.snake.len() >= 3
        &&& self.snake.len() > 0 ==> self.snake[0].dir.is_cardinal()
        &&& self.never_reverses()
        &&& tail_marked(self.snake)
        &&& handles_in_range(self.snake)
        &&& handles_distinct(self.snake)
    }

    /// The pending heading does not point against the head: where the
    /// velocity stands for a heading, it is not the opposite of the head's.
    pub open spec fn never_reverses(self) -> bool {
        self.snake.len() > 0 ==> heading_of(self.vel) != Some(self.snake[0].dir.opposite())
    }

    /// A living snake has its head on a cell of the grid.
    pub open spec fn within(self, grid: Grid) -> bool {
        self.is_alive ==> self.snake.len() > 0 && grid.contains(self.snake[0].x, self.snake[0].y)
    }

    /// The snake at the start of a session: three segments in a row, heading
    /// right and moving right, alive.
    pub open spec fn fresh(head: (i32, i32), body: (i32, i32), tail: (i32, i32)) -> PlayerView {
        PlayerView {
            snake: seq![
                BodyPart { part: 0, x: head.0, y: head.1, dir: Direction::Right, is_tail: false },
                BodyPart { part: 1, x: body.0, y: body.1, dir: Direction::Right, is_tail: false },
                BodyPart { part: 2, x: tail.0, y: tail.1, dir: Direction::Right, is_tail: true },
            ],
            vel: (1i32, 0i32),
            is_alive: true,
        }
    }

    /// The snake that `initialise_snake` lays out on `grid`: the head on the
    /// middle cell, the body and the tail to its left.
    pub open spec fn initial(grid: Grid) -> PlayerView {
        let x = grid.width / 2;
        let y = grid.height / 2;
        PlayerView::fresh((x as i32, y as i32), ((x - 1) as i32, y as i32), ((x - 2) as i32, y as i32))
    }
}

impl Player {
    /// A snake of three segments on the given cells, heading right.
    pub fn new(head: (i32, i32), body: (i32, i32), tail: (i32, i32)) -> (p: Player)
        ensures
            p@ == PlayerView::fresh(head, body, tail),
            p@.wf(),
    {
        let mut snake: Vec<BodyPart> = Vec::new();
        snake.push(BodyPart { part: 0, x: head.0, y: head.1, dir: Direction::Right, is_tail: false });
        snake.push(BodyPart { part: 1, x: body.0, y: body.1, dir: Direction::Right, is_tail: false });
        snake.push(BodyPart { part: 2, x: tail.0, y: tail.1, dir: Direction::Right, is_tail: true });
        let p = Player { snake, vel: (1, 0), is_alive: true };
        assert(p@.snake =~= PlayerView::fresh(head, body, tail).snake);
        p
    }
}

impl Player {
    /// Whether the tail flag marks the last segment only, and the handles are
    /// the numbers below the chain's length, each used once.
    fn chain_is_valid(&self) -> (ok: bool)
        ensures
            ok == (tail_marked(self@.snake) && handles_in_range(self@.snake) && handles_distinct(
                self@.snake,
            )),
    {
        let n = self.snake.len();
        let mut seen: Vec<bool> = Vec::new();
        let mut k: usize = 0;
        while k < n
            invariant
                k <= n,
                seen@.len() == k,
                forall|h: int| 0 <= h < k ==> !seen@[h],
            decreases n - k,
        {
            seen.push(false);
            k += 1;
        }
        let mut i: usize = 0;
        while i < n
            invariant
                i <= n,
                n == self@.snake.len(),
                seen@.len() == n,
                forall|j: int| 0 <= j < i ==> ((#[trigger] self@.snake[j]).is_tail <==> j == n - 1),
                forall|j: int| 0 <= j < i ==> (#[trigger] self@.snake[j]).part < n,
                forall|j: int, l: int|
                    0 <= j < l < i ==> (#[trigger] self@.snake[j]).part != (
                    #[trigger] self@.snake[l]).part,
                forall|h: int|
                    0 <= h < n ==> (#[trigger] seen@[h] <==> exists|j: int|
                        0 <= j < i && (#[trigger] self@.snake[j]).part == h),
            decreases n - i,
        {
            let part = self.snake[i];
            if part.is_tail != (i == n - 1) || part.part >= n {
                return false;
            }
            if seen[part.part] {
                return false;
            }
            seen.set(part.part, true);
            proof {
                assert forall|h: int| 0 <= h < n implies (#[trigger] seen@[h] <==> exists|j: int|
                    0 <= j < i + 1 && (#[trigger] self@.snake[j]).part == h) by {
                    if h == part.part {
                        assert(self@.snake[i as int].part == h);
                    }
                }
            }
            i += 1;
        }
        true
    }

    /// Whether the player is well formed.
    pub fn is_valid(&self) -> (ok: bool)
        ensures
            ok == self@.wf(),
    {
        let n = self.snake.len();
        if n == 1 || n == 2 || (self.is_alive && n == 0) {
            return false;
        }
        if n > 0 {
            let head = self.snake[0];
            if !head.dir.is_cardinal() {
                return false;
            }
            match heading_of(self.vel) {
                Some(d) => {
                    if d == head.dir.opposite() {
                        return false;
                    }
                },
                None => {},
            }
        }
        self.chain_is_valid()
    }

    /// The place in the chain of the segment with the handle `part`: the
    /// first such place, or `None` where no segment has that handle.
    pub fn find(&self, part: usize) -> (r: Option<usize>)
        ensures
            r is None <==> !has_part(self@.snake, part),
            r matches Some(i) ==> i < self@.snake.len() && self@.snake[i as int].part == part
                && forall|j: int| 0 <= j < i ==> (#[trigger] self@.snake[j]).part != part,
    {
        let n = self.snake.len();
        let mut i: usize = 0;
        while i < n
            invariant
                i <= n,
                n == self@.snake.len(),
                forall|j: int| 0 <= j < i ==> (#[trigger] self@.snake[j]).part != part,
            decreases n - i,
        {
            if self.snake[i].part == part {
                return Some(i);
            }
            i += 1;
        }
        None
    }

    /// The segment with the handle `part`. To ask for a handle that no
    /// segment of the chain has is a fault of the caller. Where no two
    /// segments share a handle, this is the only segment that has it.
    pub fn segment(&self, part: usize) -> (seg: BodyPart)
        requires
            has_part(self@.snake, part),
        ensures
            seg.part == part,
            self@.snake.contains(seg),
            handles_distinct(self@.snake) ==> forall|i: int|
                0 <= i < self@.snake.len() && (#[trigger] self@.snake[i]).part == part
                    ==> self@.snake[i] == seg,
    {
        let i = self.find(part).unwrap();
        self.snake[i]
    }

    /// Whether a living snake has its head on a cell of the grid.
    pub fn is_within(&self, grid: &Grid) -> (ok: bool)
        ensures
            ok == self@.within(*grid),
    {
        if self.is_alive {
            self.snake.len() > 0 && grid.contains(self.snake[0].x, self.snake[0].y)
        } else {
            true
        }
    }
}

impl Default for Player {
    /// The player outside a session: no chain, no movement, not alive.
    fn default() -> (p: Player)
        ensures
            p@ == (PlayerView { snake: Seq::empty(), vel: (0i32, 0i32), is_alive: false }),
            p@.wf(),
    {
        Player { snake: Vec::new(), vel: (0, 0), is_alive: false }
    }
}

/// Lays the snake out for the start of a session on `grid`.
pub fn initialise_snake(grid: &Grid) -> (p: Player)
    requires
        grid.wf(),
    ensures
        p@ == PlayerView::initial(*grid),
        p@.wf(),
        p@.within(*grid),
{
    let x: i32 = grid.width / 2;
    let y: i32 = grid.height / 2;
    Player::new((x, y), (x - 1, y), (x - 2, y))
}

} // verus!

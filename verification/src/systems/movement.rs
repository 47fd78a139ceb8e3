//! The movement stepper: at a fixed cadence the head moves one cell and the
//! rest of the chain follows it.

use vstd::prelude::*;
use crate::grid::{BoundaryPolicy, Grid};
use crate::heading::Direction;
use crate::player::{heading_of, BodyPart, Player, PlayerView};

verus! {

/// The heading that a segment takes when the segment ahead of it has just
/// taken `prev` and its own heading was `cur`: it came in the way it was
/// facing and will leave the way the segment ahead came into its new cell.
pub open spec fn spec_get_new_dir(prev: Direction, cur: Direction) -> Direction {
    Direction::join(cur, prev.arrival())
}

/// The heading that the tail takes in the same place: the tail has no
/// segment behind it to join with, so its turns collapse to the direction in
/// which it will leave.
pub open spec fn spec_get_tail_dir(prev: Direction, cur: Direction) -> Direction {
    spec_get_new_dir(prev, cur).facing()
}

#[verifier::when_used_as_spec(spec_get_new_dir)]
pub fn get_new_dir(prev: Direction, cur: Direction) -> (r: Direction)
    ensures
        r == spec_get_new_dir(prev, cur),
{
    match cur {
        Direction::Up | Direction::LeftUp | Direction::RightUp => match prev {
            Direction::Right | Direction::RightDown | Direction::RightUp => Direction::UpRight,
            Direction::Left | Direction::LeftDown | Direction::LeftUp => Direction::UpLeft,
            _ => Direction::Up,
        },
        Direction::Down | Direction::LeftDown | Direction::RightDown => match prev {
            Direction::Right | Direction::RightDown | Direction::RightUp => Direction::DownRight,
            Direction::Left | Direction::LeftDown | Direction::LeftUp => Direction::DownLeft,
            _ => Direction::Down,
        },
        Direction::Right | Direction::DownRight | Direction::UpRight => match prev {
            Direction::Up | Direction::UpRight | Direction::UpLeft => Direction::RightUp,
            Direction::Down | Direction::DownRight | Direction::DownLeft => Direction::RightDown,
            _ => Direction::Right,
        },
        Direction::Left | Direction::UpLeft | Direction::DownLeft => match prev {
            Direction::Up | Direction::UpLeft | Direction::UpRight => Direction::LeftUp,
            Direction::Down | Direction::DownLeft | Direction::DownRight => Direction::LeftDown,
            _ => Direction::Left,
        },
    }
}

#[verifier::when_used_as_spec(spec_get_tail_dir)]
pub fn get_tail_dir(prev: Direction, cur: Direction) -> (r: Direction)
    ensures
        r == spec_get_tail_dir(prev, cur),
{
    match cur {
        Direction::Up | Direction::LeftUp | Direction::RightUp
        | Direction::Down | Direction::LeftDown | Direction::RightDown => match prev {
            Direction::Right | Direction::RightDown | Direction::RightUp => Direction::Right,
            Direction::Left | Direction::LeftDown | Direction::LeftUp => Direction::Left,
            _ => cur.facing(),
        },
        _ => match prev {
            Direction::Up | Direction::UpRight | Direction::UpLeft => Direction::Up,
            Direction::Down | Direction::DownRight | Direction::DownLeft => Direction::Down,
            _ => cur.facing(),
        },
    }
}

/// Applies the grid's boundary policy to a segment that has just moved, and
/// says whether the segment is on the grid afterwards. On a wrapping grid it
/// always is; on a lethal grid the segment stays where it went.
pub fn check_bounds(part: &mut BodyPart, grid: &Grid) -> (inside: bool)
    requires
        grid.wf(),
    ensures
        (final(part).x, final(part).y) == grid.settle(old(part).x, old(part).y),
        final(part).part == old(part).part,
        final(part).dir == old(part).dir,
        final(part).is_tail == old(part).is_tail,
        inside == grid.contains(final(part).x, final(part).y),
        grid.policy is Wrap ==> inside,
{
    match grid.policy {
        BoundaryPolicy::Wrap => {
            if part.x >= grid.width {
                part.x = 0;
            } else if part.x < 0 {
                part.x = grid.width - 1;
            }
            if part.y >= grid.height {
                part.y = 0;
            } else if part.y < 0 {
                part.y = grid.height - 1;
            }
        },
        BoundaryPolicy::Lethal => {},
    }
    grid.contains(part.x, part.y)
}

/// The heading that the head takes at the next step: the pending one where
/// the velocity stands for a heading, else the one it has.
pub open spec fn resolved_heading(p: PlayerView) -> Direction
    recommends
        p.snake.len() > 0,
{
    match heading_of(p.vel) {
        Some(d) => d,
        None => p.snake[0].dir.facing(),
    }
}

/// The direction in which the segment ahead of segment `i` travels during
/// the step: the head travels along its new heading, every other segment the
/// way it was facing.
pub open spec fn lead(chain: Seq<BodyPart>, heading: Direction, i: int) -> Direction
    recommends
        1 <= i < chain.len(),
{
    if i == 1 {
        heading
    } else {
        chain[i - 1].dir.facing()
    }
}

/// Segment `i` of the chain after a step in which the head took `heading`:
/// it lies where the segment ahead of it lay, and its heading joins the way
/// it was facing with the way the segment ahead has travelled.
pub open spec fn follow(chain: Seq<BodyPart>, heading: Direction, i: int) -> BodyPart
    recommends
        1 <= i < chain.len(),
{
    let turned = Direction::join(chain[i].dir, lead(chain, heading, i));
    BodyPart {
        part: chain[i].part,
        x: chain[i - 1].x,
        y: chain[i - 1].y,
        dir: if i == chain.len() - 1 {
            turned.facing()
        } else {
            turned
        },
        is_tail: chain[i].is_tail,
    }
}

/// The head after a step: one cell further along `heading`, put where the
/// grid's boundary policy has it.
pub open spec fn moved_head(head: BodyPart, heading: Direction, grid: Grid) -> BodyPart {
    let u = heading.unit();
    let to = grid.settle((head.x + u.0) as i32, (head.y + u.1) as i32);
    BodyPart { part: head.part, x: to.0, y: to.1, dir: heading, is_tail: head.is_tail }
}

/// The player after one movement step on `grid`. The snake dies where the
/// head has left the grid.
pub open spec fn advance(p: PlayerView, grid: Grid) -> PlayerView
    recommends
        p.snake.len() > 0,
{
    let heading = resolved_heading(p);
    let head = moved_head(p.snake[0], heading, grid);
    PlayerView {
        snake: Seq::new(
            p.snake.len(),
            |i: int|
                if i == 0 {
                    head
                } else {
                    follow(p.snake, heading, i)
                },
        ),
        vel: p.vel,
        is_alive: p.is_alive && grid.contains(head.x, head.y),
    }
}

/// The movement system: the stepper and the timer that paces it.
///
/// The timer counts the milliseconds that have passed since the last step.
/// The snake moves in the frame in which they reach the interval, however far
/// they have gone beyond it, and the count starts again from zero.
#[derive(Debug, Clone, Copy)]
pub struct MoveSystem {
    max_elapsed_time: u64,
    elapsed_time: u64,
}

impl MoveSystem {
    /// The milliseconds between two steps.
    pub closed spec fn spec_interval(&self) -> u64 {
        self.max_elapsed_time
    }

    /// The milliseconds counted since the last step.
    pub closed spec fn spec_elapsed(&self) -> u64 {
        self.elapsed_time
    }

    /// Whether a frame that comes `delta_ms` after the last one brings the
    /// count up to the interval.
    pub open spec fn due(&self, delta_ms: u64) -> bool {
        self.spec_elapsed() + delta_ms >= self.spec_interval()
    }

    /// A movement system that steps every `interval_ms` milliseconds.
    pub fn new(interval_ms: u64) -> (m: MoveSystem)
        ensures
            m.spec_interval() == interval_ms,
            m.spec_elapsed() == 0,
    {
        MoveSystem { max_elapsed_time: interval_ms, elapsed_time: 0 }
    }

    #[verifier::when_used_as_spec(spec_interval)]
    pub fn interval(&self) -> (r: u64)
        ensures
            r == self.spec_interval(),
    {
        self.max_elapsed_time
    }

    #[verifier::when_used_as_spec(spec_elapsed)]
    pub fn elapsed(&self) -> (r: u64)
        ensures
            r == self.spec_elapsed(),
    {
        self.elapsed_time
    }

    /// Starts the count from zero.
    pub fn setup(&mut self)
        ensures
            final(self).interval() == old(self).interval(),
            final(self).elapsed() == 0,
    {
        self.elapsed_time = 0;
    }

    /// Moves the snake by one cell.
    ///
    /// The head takes the pending heading and moves one cell along it, the
    /// boundary policy is applied to the head, and every other segment moves to
    /// where the segment ahead of it was.
    pub fn step(player: &mut Player, grid: &Grid)
        requires
            grid.wf(),
            old(player)@.wf(),
            old(player)@.within(*grid),
            old(player).is_alive,
        ensures
            final(player)@ == advance(old(player)@, *grid),
            final(player)@.snake.len() == old(player)@.snake.len(),
            forall|i: int|
                1 <= i < old(player)@.snake.len() ==> (#[trigger] final(player)@.snake[i]).x == old(
                    player,
                )@.snake[i - 1].x && final(player)@.snake[i].y == old(player)@.snake[i - 1].y,
            final(player)@.snake[0].dir != old(player)@.snake[0].dir.opposite(),
            final(player)@.wf(),
            final(player)@.within(*grid),
    {
        let ghost before = player@;
        let ghost after = advance(before, *grid);
        let n = player.snake.len();
        let mut head = player.snake[0];
        let heading = match heading_of(player.vel) {
            Some(d) => d,
            None => head.dir.facing(),
        };
        let u = heading.unit();
        let mut prev_x: i32 = head.x;
        let mut prev_y: i32 = head.y;
        let mut prev_dir = heading;
        head.x = head.x + u.0;
        head.y = head.y + u.1;
        head.dir = heading;
        let inside = check_bounds(&mut head, grid);
        player.snake.set(0, head);
        if !inside {
            player.is_alive = false;
        }
        let mut i: usize = 1;
        while i < n
            invariant
                1 <= i <= n,
                n == before.snake.len(),
                player.snake@.len() == n,
                player.vel == before.vel,
                player.is_alive == after.is_alive,
                after == advance(before, *grid),
                heading == resolved_heading(before),
                forall|j: int| 0 <= j < i ==> player.snake@[j] == after.snake[j],
                forall|j: int| i <= j < n ==> player.snake@[j] == before.snake[j],
                prev_x == before.snake[i - 1].x,
                prev_y == before.snake[i - 1].y,
                i < n ==> prev_dir.arrival() == lead(before.snake, heading, i as int),
            decreases n - i,
        {
            let mut cur = player.snake[i];
            let cur_x: i32 = cur.x;
            let cur_y: i32 = cur.y;
            cur.dir = if i == n - 1 {
                get_tail_dir(prev_dir, cur.dir)
            } else {
                get_new_dir(prev_dir, cur.dir)
            };
            cur.x = prev_x;
            cur.y = prev_y;
            player.snake.set(i, cur);
            prev_x = cur_x;
            prev_y = cur_y;
            prev_dir = cur.dir;
            i += 1;
        }
        assert(player@.snake =~= after.snake);
    }

    /// One frame of the movement system, `delta_ms` milliseconds after the
    /// last one. A living snake moves one cell when the step is due, and the
    /// count starts again; else the frame's time is added to the count. For a
    /// dead snake nothing changes. Says whether the snake has moved.
    pub fn run(&mut self, player: &mut Player, grid: &Grid, delta_ms: u64) -> (moved: bool)
        requires
            grid.wf(),
            old(player)@.wf(),
            old(player)@.within(*grid),
        ensures
            moved == (old(player).is_alive && old(self).due(delta_ms)),
            final(player)@ == if moved {
                advance(old(player)@, *grid)
            } else {
                old(player)@
            },
            final(self).interval() == old(self).interval(),
            final(self).elapsed() == if !old(player).is_alive {
                old(self).elapsed() as int
            } else if moved {
                0
            } else {
                old(self).elapsed() + delta_ms
            },
            final(player)@.wf(),
            final(player)@.within(*grid),
    {
        if !player.is_alive {
            return false;
        }
        match self.elapsed_time.checked_add(delta_ms) {
            Some(total) => {
                if total < self.max_elapsed_time {
                    self.elapsed_time = total;
                    return false;
                }
            },
            None => {},
        }
        MoveSystem::step(player, grid);
        self.elapsed_time = 0;
        true
    }
}

impl Default for MoveSystem {
    /// A step every 80 milliseconds.
    fn default() -> (m: MoveSystem)
        ensures
            m.interval() == 80,
            m.elapsed() == 0,
    {
        MoveSystem { max_elapsed_time: 80, elapsed_time: 0 }
    }
}

} // verus!

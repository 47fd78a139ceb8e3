//! The direction resolver: from the keys that are held to the pending
//! heading. It also says which sprite shows each segment.

use vstd::prelude::*;
use crate::heading::Direction;
use crate::player::{BodyPart, Player, PlayerView};

verus! {

/// The directional keys that are held in a frame.
#[derive(PartialEq, Eq, Debug, Copy, Clone, Default, Structural)]
pub struct Input {
    pub up: bool,
    pub down: bool,
    pub left: bool,
    pub right: bool,
}

/// The heading that the held keys ask for while the head has heading `head`.
///
/// A key counts where it is held and does not point against the head. Of the
/// keys that count the first of right, left, up, down wins.
pub open spec fn spec_chosen(input: Input, head: Direction) -> Option<Direction> {
    if input.right && head.opposite() != Direction::Right {
        Some(Direction::Right)
    } else if input.left && head.opposite() != Direction::Left {
        Some(Direction::Left)
    } else if input.up && head.opposite() != Direction::Up {
        Some(Direction::Up)
    } else if input.down && head.opposite() != Direction::Down {
        Some(Direction::Down)
    } else {
        None
    }
}

#[verifier::when_used_as_spec(spec_chosen)]
pub fn chosen(input: Input, head: Direction) -> (r: Option<Direction>)
    ensures
        r == spec_chosen(input, head),
        r matches Some(d) ==> d.is_cardinal() && d != head.opposite(),
{
    let against = head.opposite();
    if input.right && against != Direction::Right {
        Some(Direction::Right)
    } else if input.left && against != Direction::Left {
        Some(Direction::Left)
    } else if input.up && against != Direction::Up {
        Some(Direction::Up)
    } else if input.down && against != Direction::Down {
        Some(Direction::Down)
    } else {
        None
    }
}

/// The player after the direction resolver has seen `input`: the velocity is
/// the unit step of the chosen heading, and stays as it is where none was
/// chosen or there is no snake. Nothing else changes.
pub open spec fn steer(p: PlayerView, input: Input) -> PlayerView {
    if p.snake.len() == 0 {
        p
    } else {
        match chosen(input, p.snake[0].dir) {
            Some(d) => PlayerView { snake: p.snake, vel: d.unit(), is_alive: p.is_alive },
            None => p,
        }
    }
}

/// The sprite of a head with heading `dir`.
pub open spec fn spec_head_sprite(dir: Direction) -> usize {
    match dir.facing() {
        Direction::Up => 3,
        Direction::Down => 11,
        Direction::Right => 4,
        _ => 10,
    }
}

/// The sprite of a tail with heading `dir`.
pub open spec fn spec_tail_sprite(dir: Direction) -> usize {
    match dir.facing() {
        Direction::Up => 17,
        Direction::Down => 25,
        Direction::Right => 18,
        _ => 24,
    }
}

/// The sprite of a segment between head and tail: a straight piece for a
/// cardinal heading, a corner piece for a turn. A turn and the same turn
/// walked the other way round share their corner.
pub open spec fn spec_body_sprite(dir: Direction) -> usize {
    match dir {
        Direction::Right | Direction::Left => 1,
        Direction::Up | Direction::Down => 9,
        Direction::LeftUp | Direction::DownRight => 7,
        Direction::LeftDown | Direction::UpRight => 0,
        Direction::RightUp | Direction::DownLeft => 16,
        Direction::RightDown | Direction::UpLeft => 2,
    }
}

/// The sprite of segment `i` of the chain.
pub open spec fn sprite_at(chain: Seq<BodyPart>, i: int) -> usize
    recommends
        0 <= i < chain.len(),
{
    if i == 0 {
        spec_head_sprite(chain[i].dir)
    } else if chain[i].is_tail {
        spec_tail_sprite(chain[i].dir)
    } else {
        spec_body_sprite(chain[i].dir)
    }
}

#[verifier::when_used_as_spec(spec_head_sprite)]
pub fn head_sprite(dir: Direction) -> (r: usize)
    ensures
        r == spec_head_sprite(dir),
{
    match dir.facing() {
        Direction::Up => 3,
        Direction::Down => 11,
        Direction::Right => 4,
        _ => 10,
    }
}

#[verifier::when_used_as_spec(spec_tail_sprite)]
pub fn tail_sprite(dir: Direction) -> (r: usize)
    ensures
        r == spec_tail_sprite(dir),
{
    match dir.facing() {
        Direction::Up => 17,
        Direction::Down => 25,
        Direction::Right => 18,
        _ => 24,
    }
}

#[verifier::when_used_as_spec(spec_body_sprite)]
pub fn body_sprite(dir: Direction) -> (r: usize)
    ensures
        r == spec_body_sprite(dir),
{
    match dir {
        Direction::Right | Direction::Left => 1,
        Direction::Up | Direction::Down => 9,
        Direction::LeftUp | Direction::DownRight => 7,
        Direction::LeftDown | Direction::UpRight => 0,
        Direction::RightUp | Direction::DownLeft => 16,
        Direction::RightDown | Direction::UpLeft => 2,
    }
}

/// The sprites of the chain, head first.
pub fn handle_sprites(player: &Player) -> (sprites: Vec<usize>)
    ensures
        sprites@.len() == player@.snake.len(),
        forall|i: int| 0 <= i < sprites@.len() ==> sprites@[i] == sprite_at(player@.snake, i),
{
    let mut sprites: Vec<usize> = Vec::new();
    let n = player.snake.len();
    let mut i: usize = 0;
    while i < n
        invariant
            i <= n,
            n == player@.snake.len(),
            sprites@.len() == i,
            forall|j: int| 0 <= j < i ==> sprites@[j] == sprite_at(player@.snake, j),
        decreases n - i,
    {
        let part = player.snake[i];
        let sprite = if i == 0 {
            head_sprite(part.dir)
        } else if part.is_tail {
            tail_sprite(part.dir)
        } else {
            body_sprite(part.dir)
        };
        sprites.push(sprite);
        i += 1;
    }
    sprites
}

/// The direction resolver.
#[derive(Debug, Clone, Copy, Default)]
pub struct DirectionSystem;

impl DirectionSystem {
    /// One frame of the direction resolver. The pending heading becomes the
    /// one that the held keys ask for, if they ask for one; the snake itself
    /// does not move or turn. The pending heading never comes to point
    /// against the head.
    pub fn run(&self, player: &mut Player, input: &Input)
        ensures
            final(player)@ == steer(old(player)@, *input),
            final(player)@.snake == old(player)@.snake,
            old(player)@.never_reverses() || chosen(*input, old(player)@.snake[0].dir) is Some
                ==> final(player)@.never_reverses(),
            old(player)@.wf() ==> final(player)@.wf(),
    {
        if player.snake.len() > 0 {
            let head = player.snake[0];
            match chosen(*input, head.dir) {
                Some(d) => {
                    player.vel = d.unit();
                },
                None => {},
            }
        }
    }
}

} // verus!

//! Eating and growing: the check of the head against the food, the new
//! segment, the score, and the next piece of food.

use vstd::prelude::*;
use crate::player::{BodyPart, Player, PlayerView};
use crate::random::choose_from;
use crate::session::{random_cell, Food, Snake, SnakeView};

verus! {

/// Whether a head on this cell eats this food: the two lie on one cell.
pub open spec fn spec_can_eat(head: BodyPart, food: Food) -> bool {
    head.x == food.x && head.y == food.y
}

/// Whether the snake eats in this state: it is alive and its head lies on
/// the food.
pub open spec fn eats(s: SnakeView) -> bool {
    &&& s.player.is_alive
    &&& s.player.snake.len() > 0
    &&& s.food matches Some(food)
    &&& spec_can_eat(s.player.snake[0], food)
}

/// The segment by which a chain grows: it lies one cell behind the head,
/// against the head's heading, takes its heading from the segment that was
/// second until now, and gets the first handle that is not in use.
pub open spec fn new_part(chain: Seq<BodyPart>) -> BodyPart
    recommends
        chain.len() >= 2,
{
    let head = chain[0];
    let u = head.dir.unit();
    BodyPart {
        part: chain.len() as usize,
        x: (head.x - u.0) as i32,
        y: (head.y - u.1) as i32,
        dir: chain[1].dir,
        is_tail: false,
    }
}

/// The chain after it has grown: the new segment stands right behind the
/// head, and every other segment is as it was.
pub open spec fn grown(chain: Seq<BodyPart>) -> Seq<BodyPart>
    recommends
        chain.len() >= 2,
{
    chain.insert(1, new_part(chain))
}

/// The session after the food system has run, where `fresh` is the food that
/// it would put out. A snake that eats grows and scores a point, and `fresh`
/// takes the place of the food; else nothing changes.
pub open spec fn feed(s: SnakeView, fresh: Food) -> SnakeView {
    if eats(s) {
        SnakeView {
            grid: s.grid,
            player: PlayerView {
                snake: grown(s.player.snake),
                vel: s.player.vel,
                is_alive: s.player.is_alive,
            },
            food: Some(fresh),
            score: s.score + 1,
        }
    } else {
        s
    }
}

/// A well-formed player is well formed after its chain has grown: the tail
/// is still the last segment and the only one marked, and the new handle is
/// none of the old ones.
pub proof fn lemma_grown_wf(p: PlayerView)
    requires
        p.wf(),
        2 <= p.snake.len() < usize::MAX,
    ensures
        (PlayerView { snake: grown(p.snake), vel: p.vel, is_alive: p.is_alive }).wf(),
{
    let after = grown(p.snake);
    assert(after[0] == p.snake[0]);
    assert forall|i: int| 2 <= i < after.len() implies after[i] == p.snake[i - 1] by {}
}

/// A well-formed session is well formed after the food system has run.
pub proof fn lemma_feed_wf(s: SnakeView, fresh: Food)
    requires
        s.wf(),
        s.player.snake.len() < usize::MAX,
        fresh.fits(s.grid),
    ensures
        feed(s, fresh).wf(),
{
    if eats(s) {
        lemma_grown_wf(s.player);
        assert(grown(s.player.snake)[0] == s.player.snake[0]);
    }
}

#[verifier::when_used_as_spec(spec_can_eat)]
pub fn can_eat(head: BodyPart, food: Food) -> (r: bool)
    ensures
        r == spec_can_eat(head, food),
{
    head.x == food.x && head.y == food.y
}

/// The food system.
#[derive(Debug, Clone, Copy, Default)]
pub struct FoodSystem;

impl FoodSystem {
    /// Whether the snake eats in this frame.
    pub fn eats(game: &Snake) -> (r: bool)
        ensures
            r == eats(game@),
    {
        if game.player.is_alive && game.player.snake.len() > 0 {
            match game.food {
                Some(food) => can_eat(game.player.snake[0], food),
                None => false,
            }
        } else {
            false
        }
    }

    /// Puts a new segment into the chain, right behind the head: one cell
    /// back from the head, with the heading of the segment that was second
    /// and a handle that no other segment has.
    pub fn grow(player: &mut Player)
        requires
            old(player)@.snake.len() >= 2,
            i32::MIN < old(player)@.snake[0].x < i32::MAX,
            i32::MIN < old(player)@.snake[0].y < i32::MAX,
        ensures
            final(player)@.snake == grown(old(player)@.snake),
            final(player)@.snake.len() == old(player)@.snake.len() + 1,
            final(player).vel == old(player).vel,
            final(player).is_alive == old(player).is_alive,
            old(player)@.wf() ==> final(player)@.wf(),
    {
        let head = player.snake[0];
        let u = head.dir.unit();
        let part = BodyPart {
            part: player.snake.len(),
            x: head.x - u.0,
            y: head.y - u.1,
            dir: player.snake[1].dir,
            is_tail: false,
        };
        player.snake.insert(1, part);
        proof {
            if old(player)@.wf() {
                assert(player.snake.len() == old(player)@.snake.len() + 1);
                lemma_grown_wf(old(player)@);
            }
        }
    }

    /// The food system's frame with the next food given: where the snake
    /// eats, it grows by one segment, the score goes up by one and `fresh`
    /// becomes the food. Says whether the snake has eaten.
    pub fn feed(game: &mut Snake, fresh: Food) -> (ate: bool)
        requires
            old(game)@.wf(),
            fresh.fits(old(game)@.grid),
        ensures
            ate == eats(old(game)@),
            final(game)@ == feed(old(game)@, fresh),
            final(game)@.wf(),
    {
        if FoodSystem::eats(game) {
            FoodSystem::grow(&mut game.player);
            assert(game.player.snake.len() == old(game)@.player.snake.len() + 1);
            game.score_text.score = game.score_text.score + 1;
            game.food = Some(fresh);
            proof {
                lemma_feed_wf(old(game)@, fresh);
            }
            true
        } else {
            false
        }
    }

    /// One frame of the food system. Where the snake eats, it grows by one
    /// segment, the score goes up by one, and the food moves to a cell of the
    /// grid and takes a sprite, both chosen at random; where the food turns
    /// up is all that chance decides. The cell is not held against the
    /// snake: the food may come to lie under it. Says whether the snake has
    /// eaten.
    pub fn run(&self, game: &mut Snake) -> (ate: bool)
        requires
            old(game)@.wf(),
        ensures
            ate == eats(old(game)@),
            !ate ==> final(game)@ == old(game)@,
            ate ==> exists|fresh: Food|
                fresh.fits(old(game)@.grid) && final(game)@ == #[trigger] feed(old(game)@, fresh),
            final(game)@.wf(),
    {
        if !FoodSystem::eats(game) {
            return false;
        }
        let food_ids: [usize; 3] = [21, 22, 23];
        let mut rng = rand::thread_rng();
        let cell = random_cell(&mut rng, &game.grid);
        let sprite = choose_from(&mut rng, food_ids.as_slice()).unwrap();
        let fresh = Food { x: cell.0, y: cell.1, sprite };
        FoodSystem::feed(game, fresh)
    }
}

} // verus!

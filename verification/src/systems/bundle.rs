//! One frame of the game: the four systems, run in their fixed order.

use vstd::prelude::*;
use crate::session::{Food, Snake, SnakeView, FIRST_FOOD_SPRITE};
use crate::systems::death::{judge, DeathSystem};
use crate::systems::direction::{steer, DirectionSystem, Input};
use crate::systems::food::{eats, feed, FoodSystem};
use crate::systems::movement::{advance, MoveSystem};

verus! {

/// The session after the direction resolver has seen `input` and the
/// movement system has had its turn: a living snake moves where the step is
/// due.
pub open spec fn after_move(s: SnakeView, input: Input, due: bool) -> SnakeView {
    let steered = steer(s.player, input);
    SnakeView {
        player: if steered.is_alive && due {
            advance(steered, s.grid)
        } else {
            steered
        },
        ..s
    }
}

/// The session after a whole frame, where `fresh` is the food that the food
/// system would put out: direction, movement, food, death.
pub open spec fn frame(s: SnakeView, input: Input, due: bool, fresh: Food) -> SnakeView {
    let fed = feed(after_move(s, input, due), fresh);
    SnakeView { player: judge(fed.player), ..fed }
}

/// What has happened in a frame.
#[derive(PartialEq, Eq, Debug, Copy, Clone, Structural)]
pub struct FrameReport {
    /// The snake has moved one cell.
    pub moved: bool,
    /// The snake has eaten and grown.
    pub ate: bool,
    /// The snake was alive before the frame and is dead after it.
    pub died: bool,
}

/// The systems of the game.
#[derive(Debug, Clone, Copy)]
pub struct GameplaySystemBundle {
    pub direction: DirectionSystem,
    pub movement: MoveSystem,
    pub food: FoodSystem,
    pub death: DeathSystem,
}

impl GameplaySystemBundle {
    /// The four systems, with the movement system at its default pace and
    /// its count at zero.
    pub fn build() -> (bundle: GameplaySystemBundle)
        ensures
            bundle.movement.interval() == 80,
            bundle.movement.elapsed() == 0,
    {
        let mut movement = MoveSystem::default();
        movement.setup();
        GameplaySystemBundle {
            direction: DirectionSystem,
            movement,
            food: FoodSystem,
            death: DeathSystem,
        }
    }

    /// Runs one frame, `delta_ms` milliseconds after the last one, with the
    /// keys of `input` held: the direction resolver, the movement system, the
    /// food system and the death system, in this order.
    ///
    /// The chain never gets shorter, and gets longer by exactly one segment
    /// where the snake has eaten.
    pub fn dispatch(&mut self, game: &mut Snake, input: &Input, delta_ms: u64) -> (report:
        FrameReport)
        requires
            old(game)@.wf(),
        ensures
            report.moved == (old(game)@.player.is_alive && old(self).movement.due(delta_ms)),
            report.ate == eats(after_move(old(game)@, *input, report.moved)),
            report.died == (old(game)@.player.is_alive && !final(game)@.player.is_alive),
            exists|fresh: Food|
                fresh.fits(old(game)@.grid) && final(game)@ == #[trigger] frame(
                    old(game)@,
                    *input,
                    report.moved,
                    fresh,
                ),
            !report.ate ==> forall|fresh: Food|
                final(game)@ == #[trigger] frame(old(game)@, *input, report.moved, fresh),
            final(game)@.player.snake.len() == old(game)@.player.snake.len() + if report.ate {
                1int
            } else {
                0int
            },
            final(game)@.wf(),
            final(self).movement.interval() == old(self).movement.interval(),
            final(self).movement.elapsed() == if !old(game)@.player.is_alive {
                old(self).movement.elapsed() as int
            } else if report.moved {
                0
            } else {
                old(self).movement.elapsed() + delta_ms
            },
    {
        let was_alive = game.player.is_alive;
        let grid = game.grid;
        self.direction.run(&mut game.player, input);
        let moved = self.movement.run(&mut game.player, &grid, delta_ms);
        let ghost stepped = game@;
        let ate = self.food.run(game);
        let ghost fed = game@;
        self.death.run(&mut game.player);
        proof {
            if ate {
                let fresh = choose|fresh: Food|
                    fresh.fits(stepped.grid) && fed == #[trigger] feed(stepped, fresh);
                assert(game@ == frame(old(game)@, *input, moved, fresh));
            } else {
                let fresh = Food { x: 0, y: 0, sprite: FIRST_FOOD_SPRITE };
                assert(game@ == frame(old(game)@, *input, moved, fresh));
            }
        }
        FrameReport { moved, ate, died: was_alive && !game.player.is_alive }
    }
}

} // verus!

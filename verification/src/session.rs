//! The game session: the grid, the snake, the food and the score.

use vstd::prelude::*;
use crate::grid::Grid;
use crate::player::{initialise_snake, Player, PlayerView};
use crate::random::gen_range;
use rand::rngs::ThreadRng;

verus! {

/// The sprite of the food at the start of a session.
pub const FIRST_FOOD_SPRITE: usize = 21;

/// Whether `sprite` is one of the sprites that food can have.
pub open spec fn spec_is_food_sprite(sprite: usize) -> bool {
    sprite == 21 || sprite == 22 || sprite == 23
}

#[verifier::when_used_as_spec(spec_is_food_sprite)]
pub fn is_food_sprite(sprite: usize) -> (r: bool)
    ensures
        r == spec_is_food_sprite(sprite),
{
    sprite == 21 || sprite == 22 || sprite == 23
}

/// The one piece of food on the grid: its cell and the sprite that shows it.
#[derive(PartialEq, Eq, Debug, Copy, Clone, Structural)]
pub struct Food {
    /// The column of the food's cell.
    pub x: i32,
    /// The row of the food's cell.
    pub y: i32,
    /// The sprite that shows the food.
    pub sprite: usize,
}

impl Food {
    /// Food lies on a cell of the grid and has one of the food sprites.
    pub open spec fn spec_fits(self, grid: Grid) -> bool {
        grid.contains(self.x, self.y) && is_food_sprite(self.sprite)
    }

    #[verifier::when_used_as_spec(spec_fits)]
    pub fn fits(self, grid: Grid) -> (r: bool)
        ensures
            r == self.spec_fits(grid),
    {
        grid.contains(self.x, self.y) && is_food_sprite(self.sprite)
    }
}

/// The score of the session.
#[derive(PartialEq, Eq, Debug, Copy, Clone, Default, Structural)]
pub struct ScoreText {
    /// The number of times the snake has eaten.
    pub score: u64,
}

/// What the game asks of whoever runs it, after a frame.
#[derive(PartialEq, Eq, Debug, Copy, Clone, Structural)]
pub enum Trans {
    /// The session goes on.
    Stay,
    /// The session has ended: the snake is dead.
    Pop,
}

/// A session of the game. It is played while the snake is alive and over
/// once the snake is dead: nothing moves, feeds or revives a dead snake.
pub struct Snake {
    pub grid: Grid,
    pub player: Player,
    pub food: Option<Food>,
    pub score_text: ScoreText,
}

/// A `Snake` as a mathematical value.
pub struct SnakeView {
    pub grid: Grid,
    pub player: PlayerView,
    pub food: Option<Food>,
    pub score: nat,
}

impl View for Snake {
    type V = SnakeView;

    open spec fn view(&self) -> SnakeView {
        SnakeView {
            grid: self.grid,
            player: self.player@,
            food: self.food,
            score: self.score_text.score as nat,
        }
    }
}

impl SnakeView {
    /// What holds of a session at all times: the grid has a cell, the player
    /// is well formed and, while alive, has its head on the grid, the food
    /// lies on the grid, and the chain has grown by one segment for each
    /// point of the score.
    pub open spec fn wf(self) -> bool {
        &&& self.grid.wf()
        &&& self.player.wf()
        &&& self.player.within(self.grid)
        &&& self.food matches Some(f) ==> f.fits(self.grid)
        &&& self.player.snake.len() > 0 ==> self.score + 3 == self.player.snake.len()
    }

    /// The session as it starts on `grid` with the food at `food`.
    pub open spec fn start(grid: Grid, food: Food) -> SnakeView {
        SnakeView { grid, player: PlayerView::initial(grid), food: Some(food), score: 0 }
    }
}

/// Draws a cell of the grid. Every cell can come, those at the edge and
/// those on which the snake lies too.
pub(crate) fn random_cell(rng: &mut ThreadRng, grid: &Grid) -> (cell: (i32, i32))
    requires
        grid.wf(),
    ensures
        grid.contains(cell.0, cell.1),
{
    let x = gen_range(rng, 0, grid.width);
    let y = gen_range(rng, 0, grid.height);
    (x, y)
}

/// Puts the first food of a session on a cell of the grid, chosen at random.
pub fn initialise_food(grid: &Grid) -> (food: Food)
    requires
        grid.wf(),
    ensures
        food.fits(*grid),
        food.sprite == FIRST_FOOD_SPRITE,
{
    let mut rng = rand::thread_rng();
    let cell = random_cell(&mut rng, grid);
    Food { x: cell.0, y: cell.1, sprite: FIRST_FOOD_SPRITE }
}

impl Snake {
    /// The session that starts on `grid` with the food at `food`: the snake
    /// laid out in the middle, alive, the score at zero.
    pub fn with_food(grid: Grid, food: Food) -> (s: Snake)
        requires
            grid.wf(),
            food.fits(grid),
        ensures
            s@ == SnakeView::start(grid, food),
            s@.wf(),
    {
        Snake {
            grid,
            player: initialise_snake(&grid),
            food: Some(food),
            score_text: ScoreText { score: 0 },
        }
    }

    /// Starts a session on `grid`, with the food on a cell chosen at random.
    pub fn on_start(grid: Grid) -> (s: Snake)
        requires
            grid.wf(),
        ensures
            s@.food matches Some(food) && food.sprite == FIRST_FOOD_SPRITE && s@
                == SnakeView::start(grid, food),
            s@.wf(),
    {
        let food = initialise_food(&grid);
        Snake::with_food(grid, food)
    }

    /// Whether the session is well formed.
    pub fn is_valid(&self) -> (ok: bool)
        ensures
            ok == self@.wf(),
    {
        if !self.grid.is_valid() {
            return false;
        }
        if !self.player.is_valid() || !self.player.is_within(&self.grid) {
            return false;
        }
        match self.food {
            Some(food) => {
                if !food.fits(self.grid) {
                    return false;
                }
            },
            None => {},
        }
        let n = self.player.snake.len();
        n == 0 || self.score_text.score == (n - 3) as u64
    }

    /// Whether the session goes on: it ends when the snake is dead.
    pub fn update(&self) -> (t: Trans)
        ensures
            t == if self@.player.is_alive {
                Trans::Stay
            } else {
                Trans::Pop
            },
    {
        if self.player.is_alive {
            Trans::Stay
        } else {
            Trans::Pop
        }
    }
}

} // verus!

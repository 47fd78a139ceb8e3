//! What holds of the game whatever is played: the laws of the headings, of a
//! step, of a frame and of a whole session.

use vstd::prelude::*;
use crate::grid::Grid;
use crate::heading::Direction;
use crate::player::{heading_of, BodyPart, PlayerView};
use crate::session::{Food, SnakeView};
use crate::systems::bundle::{after_move, frame};
use crate::systems::death::{judge, self_collision};
use crate::systems::direction::{steer, Input};
use crate::systems::food::{eats, feed, lemma_feed_wf};
use crate::systems::movement::{
    advance, follow, get_new_dir, get_tail_dir, lead, resolved_heading,
};

verus! {

/// A heading is told by the way it comes in and the way it leaves.
pub proof fn lemma_heading_from_its_parts(d: Direction)
    ensures
        Direction::join(d.arrival(), d.facing()) == d,
        d.is_cardinal() <==> d.arrival() == d.facing(),
{
}

/// The turn-propagation rule has an answer for every pair of headings, and
/// this is it: the segment comes in the way it was facing; it leaves that
/// same way, on a straight heading, where the segment ahead came in along the
/// same axis, and else it turns to leave the way the segment ahead came in.
/// The tail's heading is the way it leaves.
pub proof fn lemma_new_dir(prev: Direction, cur: Direction)
    ensures
        get_new_dir(prev, cur).arrival() == cur.facing(),
        get_new_dir(prev, cur).facing() == if cur.is_horizontal() == prev.arrival().is_horizontal() {
            cur.facing()
        } else {
            prev.arrival()
        },
        get_new_dir(prev, cur).is_cardinal() <==> cur.is_horizontal()
            == prev.arrival().is_horizontal(),
        get_tail_dir(prev, cur) == get_new_dir(prev, cur).facing(),
        get_tail_dir(prev, cur).is_cardinal(),
{
}

/// Between two cardinal headings the rule gives the segment's own heading
/// where the two lie on one axis, and else the turn from its own heading to
/// that of the segment ahead.
pub proof fn lemma_new_dir_of_cardinals(prev: Direction, cur: Direction)
    requires
        prev.is_cardinal(),
        cur.is_cardinal(),
    ensures
        get_new_dir(prev, cur) == Direction::join(cur, prev),
        prev.is_horizontal() == cur.is_horizontal() ==> get_new_dir(prev, cur) == cur,
        prev.is_horizontal() != cur.is_horizontal() ==> !get_new_dir(prev, cur).is_cardinal()
            && get_new_dir(prev, cur).arrival() == cur && get_new_dir(prev, cur).facing() == prev,
{
}

/// The player after the direction resolver has seen each of `inputs` in
/// turn, with no step in between.
pub open spec fn steer_all(p: PlayerView, inputs: Seq<Input>) -> PlayerView
    decreases inputs.len(),
{
    if inputs.len() == 0 {
        p
    } else {
        steer(steer_all(p, inputs.drop_last()), inputs.last())
    }
}

/// Whatever keys are held, frame after frame, the direction resolver leaves
/// the snake as it is, and the heading that it has pending never points
/// against the head.
pub proof fn lemma_never_reverses(p: PlayerView, inputs: Seq<Input>)
    requires
        p.wf(),
        p.snake.len() > 0,
    ensures
        steer_all(p, inputs).snake == p.snake,
        steer_all(p, inputs).is_alive == p.is_alive,
        heading_of(steer_all(p, inputs).vel) != Some(p.snake[0].dir.opposite()),
        steer_all(p, inputs).wf(),
    decreases inputs.len(),
{
    if inputs.len() > 0 {
        lemma_never_reverses(p, inputs.drop_last());
    }
}

/// Whatever keys were held since the last step, the heading that the head
/// takes at a step never points against the heading that it had.
pub proof fn lemma_step_never_reverses(p: PlayerView, inputs: Seq<Input>, grid: Grid)
    requires
        p.wf(),
        p.snake.len() > 0,
    ensures
        advance(steer_all(p, inputs), grid).snake[0].dir != p.snake[0].dir.opposite(),
        advance(steer_all(p, inputs), grid).snake[0].dir.is_cardinal(),
{
    lemma_never_reverses(p, inputs);
}

/// Follow the leader: a step keeps the length of the chain, and after it
/// every segment but the head lies where the segment ahead of it lay before.
pub proof fn lemma_follow_the_leader(p: PlayerView, grid: Grid)
    ensures
        advance(p, grid).snake.len() == p.snake.len(),
        forall|i: int|
            1 <= i < p.snake.len() ==> (#[trigger] advance(p, grid).snake[i]).x == p.snake[i - 1].x
                && advance(p, grid).snake[i].y == p.snake[i - 1].y,
        forall|i: int|
            0 <= i < p.snake.len() ==> (#[trigger] advance(p, grid).snake[i]).part
                == p.snake[i].part && advance(p, grid).snake[i].is_tail == p.snake[i].is_tail,
{
}

/// A joined heading comes in the way its first part leaves, and a heading
/// joined with a cardinal one leaves that way or, on one axis with it, the
/// way its first part leaves.
pub proof fn lemma_join(from: Direction, to: Direction)
    ensures
        Direction::join(from, to).arrival() == from.facing(),
        Direction::join(from, to).facing() == if from.is_horizontal() == to.is_horizontal() {
            from.facing()
        } else {
            to.facing()
        },
        Direction::join(from, to) == Direction::join(from.facing(), to.facing()),
{
}

/// A step hands the headings down the chain by the turn-propagation rule:
/// every segment between head and tail takes the heading that the rule gives
/// for the heading that the segment ahead of it has just taken and its own
/// heading before the step, and the tail takes the tail's form of it.
pub proof fn lemma_headings_propagate(p: PlayerView, grid: Grid, i: int)
    requires
        1 <= i < p.snake.len(),
    ensures
        advance(p, grid).snake[0].dir == resolved_heading(p),
        advance(p, grid).snake[i].dir == if i == p.snake.len() - 1 {
            get_tail_dir(advance(p, grid).snake[i - 1].dir, p.snake[i].dir)
        } else {
            get_new_dir(advance(p, grid).snake[i - 1].dir, p.snake[i].dir)
        },
{
    let heading = resolved_heading(p);
    let ahead = advance(p, grid).snake[i - 1].dir;
    if i > 1 {
        lemma_join(p.snake[i - 1].dir, lead(p.snake, heading, i - 1));
    }
    assert(ahead.arrival() == lead(p.snake, heading, i));
    lemma_join(p.snake[i].dir, lead(p.snake, heading, i));
}

/// A step leaves a well-formed player well formed, and a snake that is
/// alive after it has its head on the grid.
pub proof fn lemma_advance_wf(p: PlayerView, grid: Grid)
    requires
        p.wf(),
        p.snake.len() > 0,
        grid.wf(),
    ensures
        advance(p, grid).wf(),
        advance(p, grid).within(grid),
{
}

/// In a frame in which a living snake's step is due, whatever keys are held,
/// every segment but the head comes to lie where the segment ahead of it lay
/// before the frame's step.
pub proof fn lemma_due_frame_follows_the_leader(s: SnakeView, input: Input)
    requires
        s.player.is_alive,
    ensures
        after_move(s, input, true).player.snake.len() == s.player.snake.len(),
        forall|i: int|
            1 <= i < s.player.snake.len() ==> (#[trigger] after_move(
                s,
                input,
                true,
            ).player.snake[i]).same_cell(s.player.snake[i - 1]),
{
    lemma_follow_the_leader(steer(s.player, input), s.grid);
}

/// A head that lies on the cell of a segment behind it is fatal, whatever
/// the headings of the segments are.
pub proof fn lemma_collision_is_fatal(p: PlayerView, i: int)
    requires
        1 <= i < p.snake.len(),
        p.snake[i].same_cell(p.snake[0]),
    ensures
        !judge(p).is_alive,
{
}

/// Whether the head has run into the body is a matter of where the segments
/// lie alone.
pub proof fn lemma_collision_ignores_headings(a: Seq<BodyPart>, b: Seq<BodyPart>)
    requires
        a.len() == b.len(),
        forall|i: int| 0 <= i < a.len() ==> (#[trigger] a[i]).same_cell(b[i]),
    ensures
        self_collision(a) == self_collision(b),
{
    if self_collision(a) {
        let i = choose|i: int| 1 <= i < a.len() && (#[trigger] a[i]).same_cell(a[0]);
        assert(b[i].same_cell(b[0]));
    }
    if self_collision(b) {
        let i = choose|i: int| 1 <= i < b.len() && (#[trigger] b[i]).same_cell(b[0]);
        assert(a[i].same_cell(a[0]));
    }
}

/// Growing does not bear on whether the head has run into the body: the new
/// segment never lies on the head's cell. So it makes no difference to a
/// frame whether the snake is fed before or after the check of the head
/// against the body.
pub proof fn lemma_growth_keeps_collision(s: SnakeView, fresh: Food)
    requires
        s.wf(),
    ensures
        self_collision(feed(s, fresh).player.snake) == self_collision(s.player.snake),
        judge(feed(s, fresh).player).is_alive == judge(s.player).is_alive,
{
    if eats(s) {
        let before = s.player.snake;
        let after = feed(s, fresh).player.snake;
        if self_collision(before) {
            let i = choose|i: int|
                1 <= i < before.len() && (#[trigger] before[i]).same_cell(before[0]);
            assert(after[i + 1].same_cell(after[0]));
        }
        if self_collision(after) {
            let i = choose|i: int| 1 <= i < after.len() && (#[trigger] after[i]).same_cell(after[0]);
            assert(i >= 2);
            assert(before[i - 1].same_cell(before[0]));
        }
    }
}

/// A frame never shortens the chain: it gets longer by one segment where the
/// snake eats, and keeps its length where it does not.
pub proof fn lemma_frame_length(s: SnakeView, input: Input, due: bool, fresh: Food)
    ensures
        frame(s, input, due, fresh).player.snake.len() == s.player.snake.len() + if eats(
            after_move(s, input, due),
        ) {
            1int
        } else {
            0int
        },
        frame(s, input, due, fresh).score == s.score + if eats(after_move(s, input, due)) {
            1int
        } else {
            0int
        },
{
}

/// A frame leaves a well-formed session well formed.
pub proof fn lemma_frame_wf(s: SnakeView, input: Input, due: bool, fresh: Food)
    requires
        s.wf(),
        s.player.snake.len() < usize::MAX,
        fresh.fits(s.grid),
    ensures
        frame(s, input, due, fresh).wf(),
        frame(s, input, due, fresh).grid == s.grid,
{
    let steered = steer(s.player, input);
    if steered.is_alive && due {
        lemma_advance_wf(steered, s.grid);
        lemma_follow_the_leader(steered, s.grid);
    }
    lemma_feed_wf(after_move(s, input, due), fresh);
}

/// What a frame is given: the keys that are held, whether the step is due,
/// and the food that is put out if the snake eats.
pub struct Tick {
    pub input: Input,
    pub due: bool,
    pub fresh: Food,
}

/// The session after the frames of `ticks`, one after the other.
pub open spec fn play(s: SnakeView, ticks: Seq<Tick>) -> SnakeView
    decreases ticks.len(),
{
    if ticks.len() == 0 {
        s
    } else {
        let t = ticks.last();
        frame(play(s, ticks.drop_last()), t.input, t.due, t.fresh)
    }
}

/// However a session is played, the session stays well formed, the chain
/// never gets shorter, and it has grown by as many segments as the score
/// has gone up.
pub proof fn lemma_play(s: SnakeView, ticks: Seq<Tick>)
    requires
        s.wf(),
        s.player.snake.len() + ticks.len() <= usize::MAX,
        forall|k: int| 0 <= k < ticks.len() ==> (#[trigger] ticks[k]).fresh.fits(s.grid),
    ensures
        play(s, ticks).wf(),
        play(s, ticks).grid == s.grid,
        s.player.snake.len() <= play(s, ticks).player.snake.len() <= s.player.snake.len()
            + ticks.len(),
        play(s, ticks).player.snake.len() - s.player.snake.len() == play(s, ticks).score - s.score,
    decreases ticks.len(),
{
    if ticks.len() > 0 {
        let t = ticks.last();
        let before = play(s, ticks.drop_last());
        lemma_play(s, ticks.drop_last());
        lemma_frame_wf(before, t.input, t.due, t.fresh);
        lemma_frame_length(before, t.input, t.due, t.fresh);
    }
}

/// A dead snake stays dead, and nothing moves it or feeds it any more.
pub proof fn lemma_dead_is_final(s: SnakeView, input: Input, due: bool, fresh: Food)
    requires
        !s.player.is_alive,
    ensures
        frame(s, input, due, fresh).player.snake == s.player.snake,
        !frame(s, input, due, fresh).player.is_alive,
        frame(s, input, due, fresh).food == s.food,
        frame(s, input, due, fresh).score == s.score,
{
}

} // verus!

//! The collision detector's check of the head against the body.

use vstd::prelude::*;
use crate::player::{BodyPart, Player, PlayerView};

verus! {

/// Whether the head lies on the cell of a segment behind it.
pub open spec fn self_collision(chain: Seq<BodyPart>) -> bool {
    exists|i: int| 1 <= i < chain.len() && (#[trigger] chain[i]).same_cell(chain[0])
}

/// The player after the check: a living snake whose head lies on its body is
/// dead. Nothing else changes.
pub open spec fn judge(p: PlayerView) -> PlayerView {
    PlayerView { snake: p.snake, vel: p.vel, is_alive: p.is_alive && !self_collision(p.snake) }
}

/// Whether the head has run into this segment: the two lie on one cell.
pub fn check_collision(head: &BodyPart, body: &BodyPart) -> (hit: bool)
    ensures
        hit == body.same_cell(*head),
{
    body.same_cell(*head)
}

/// The death system.
#[derive(Debug, Clone, Copy, Default)]
pub struct DeathSystem;

impl DeathSystem {
    /// One frame of the death system. A living snake dies if its head lies on
    /// the cell of any segment behind it, whatever their headings; a dead one
    /// stays dead.
    pub fn run(&self, player: &mut Player)
        ensures
            final(player)@ == judge(old(player)@),
            old(player)@.wf() ==> final(player)@.wf(),
    {
        if player.is_alive && player.snake.len() > 0 {
            let head = player.snake[0];
            let n = player.snake.len();
            let mut hit = false;
            let mut i: usize = 1;
            while i < n
                invariant
                    1 <= i <= n,
                    n == player.snake@.len(),
                    head == player.snake@[0],
                    hit == exists|j: int| 1 <= j < i && (#[trigger] player.snake@[j]).same_cell(head),
                decreases n - i,
            {
                if check_collision(&head, &player.snake[i]) {
                    hit = true;
                }
                i += 1;
            }
            if hit {
                player.is_alive = false;
            }
        }
    }
}

} // verus!

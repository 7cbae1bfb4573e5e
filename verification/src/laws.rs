//! Properties of the game that relate several operations, stated and proved
//! over the same spec functions the operations' contracts use.

use vstd::prelude::*;

use crate::board::{game_over_post, next_heading, pos_in_bounds, retried, running_post, BoardView,
    Input, State};
use crate::geom::{opposite, Direction, Vec2};
use crate::snake::{advanced, grown, self_colliding};

verus! {

/// Advancing a snake body never changes its length.
pub proof fn lemma_advance_preserves_len(segs: Seq<Vec2>, d: Direction)
    requires
        segs.len() >= 1,
    ensures
        advanced(segs, d).len() == segs.len(),
{
}

/// Growing and then advancing adds exactly one segment, and after that
/// advance the added segment sits on the cell the old tail has just vacated.
pub proof fn lemma_grow_then_advance(segs: Seq<Vec2>, d: Direction)
    requires
        segs.len() >= 1,
    ensures
        advanced(grown(segs), d).len() == segs.len() + 1,
        advanced(grown(segs), d).last() == segs.last(),
{
    assert(grown(segs)[segs.len() as int - 1] == segs[segs.len() as int - 1]);
}

/// A move that leaves the head off the grid always ends the game, whether or
/// not the body also collides with itself.
pub proof fn lemma_out_of_bounds_is_game_over(
    pre: BoardView,
    input: Option<Input>,
    post: BoardView,
)
    requires
        running_post(pre, input, post),
        !pos_in_bounds(pre.width, pre.height, advanced(pre.segs, next_heading(pre.heading, input))[0]),
    ensures
        post.state == State::GameOver,
{
}

/// After a running tick the game is over exactly when the move left the head
/// off the grid or put some non-head segment on the head's cell.
pub proof fn lemma_game_over_iff_dead(pre: BoardView, input: Option<Input>, post: BoardView)
    requires
        running_post(pre, input, post),
    ensures
        post.state == State::GameOver <==> (!pos_in_bounds(
            pre.width,
            pre.height,
            advanced(pre.segs, next_heading(pre.heading, input))[0],
        ) || self_colliding(advanced(pre.segs, next_heading(pre.heading, input)))),
{
}

/// Retry from a game over always restores a one-segment snake at the recorded
/// initial cell and heading, the recorded food cell, and the running state.
pub proof fn lemma_retry_restores(pre: BoardView, post: BoardView)
    requires
        game_over_post(pre, Some(Input::Retry), post),
    ensures
        retried(pre, post),
        post.segs.len() == 1,
        post.segs[0] == pre.init_pos,
        post.heading == pre.init_heading,
        post.food == pre.init_food,
        post.state == State::Running,
{
}

/// Asking the snake to face the exact reverse of its heading leaves the
/// heading unchanged: the snake continues straight.
pub proof fn lemma_reverse_input_ignored(cur: Direction, d: Direction)
    requires
        d == opposite(cur),
    ensures
        next_heading(cur, Some(Input::Face(d))) == cur,
{
}

} // verus!

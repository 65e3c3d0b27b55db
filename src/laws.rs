use vstd::prelude::*;
use crate::grid::{has_complete_line, all_filled, on_complete_line, GridView};
use crate::square::{opposite, SquareChoice};

verus! {

/// A placement that completes a line ends the game at the next evaluation,
/// and that evaluation flags exactly the squares of all complete lines.
pub proof fn lemma_completing_placement_ends_game(v: GridView, i: int, m: SquareChoice, now: u64)
    requires
        v.wf(),
        0 <= i < 9,
        v.accepts(i, m),
        has_complete_line(v.placed(i, m).marks()),
    ensures
        v.placed(i, m).evaluated(now).game_over_time == Some(now),
        forall|j: int|
            0 <= j < 9 ==> (#[trigger] v.placed(i, m).evaluated(now).squares[j]).is_part_of_solution
                == on_complete_line(v.placed(i, m).marks(), j),
{
}

/// Evaluating a full board that has no complete line ends the game as a
/// draw: the end time is set and no square is flagged.
pub proof fn lemma_full_board_without_line_is_draw(v: GridView, now: u64)
    requires
        v.wf(),
        v.game_over_time is None,
        all_filled(v.marks()),
        !has_complete_line(v.marks()),
    ensures
        v.evaluated(now).game_over_time == Some(now),
        forall|j: int|
            0 <= j < 9 ==> !(#[trigger] v.evaluated(now).squares[j]).is_part_of_solution,
{
}

/// A placement keeps the board well formed and hands the turn to the mark
/// that did not move; a second placement by the same mark is refused.
pub proof fn lemma_placement_alternates_turn(v: GridView, i: int, m: SquareChoice, j: int)
    requires
        v.wf(),
        0 <= i < 9,
        0 <= j < 9,
        v.accepts(i, m),
    ensures
        v.placed(i, m).wf(),
        v.placed(i, m).turn == opposite(m),
        v.placed(i, m).turn != m,
        !v.placed(i, m).accepts(j, m),
{
}

/// The board after the placements of `moves` in order, each a square and a mark.
pub open spec fn after_moves(v: GridView, moves: Seq<(int, SquareChoice)>) -> GridView
    decreases moves.len(),
{
    if moves.len() == 0 {
        v
    } else {
        after_moves(v, moves.drop_last()).placed(moves.last().0, moves.last().1)
    }
}

/// Each placement of `moves` is on a square of the board and is accepted on
/// the board that the placements before it left.
pub open spec fn all_accepted(v: GridView, moves: Seq<(int, SquareChoice)>) -> bool {
    forall|n: int|
        0 <= n < moves.len() ==> 0 <= (#[trigger] moves[n]).0 < 9 && after_moves(
            v,
            moves.take(n),
        ).accepts(moves[n].0, moves[n].1)
}

/// Every prefix of an accepted run is an accepted run.
proof fn lemma_accepted_prefix(v: GridView, moves: Seq<(int, SquareChoice)>, k: int)
    requires
        all_accepted(v, moves),
        0 <= k <= moves.len(),
    ensures
        all_accepted(v, moves.take(k)),
{
    let p = moves.take(k);
    assert forall|n: int| 0 <= n < p.len() implies 0 <= (#[trigger] p[n]).0 < 9 && after_moves(
        v,
        p.take(n),
    ).accepts(p[n].0, p[n].1) by {
        assert(p.take(n) =~= moves.take(n));
        assert(p[n] == moves[n]);
    }
}

/// Dropping the last placement of an accepted run leaves an accepted run,
/// and the last placement is accepted on the board the others left.
proof fn lemma_accepted_front(v: GridView, moves: Seq<(int, SquareChoice)>)
    requires
        all_accepted(v, moves),
        moves.len() > 0,
    ensures
        all_accepted(v, moves.drop_last()),
        0 <= moves.last().0 < 9,
        after_moves(v, moves.drop_last()).accepts(moves.last().0, moves.last().1),
{
    let last = moves.len() - 1;
    lemma_accepted_prefix(v, moves, last);
    assert(moves.take(last) =~= moves.drop_last());
    assert(moves[last] == moves.last());
}

/// Over any run of accepted placements the board stays well formed and the
/// turn afterwards is the mark that did not make the last placement.
pub proof fn lemma_turn_is_mark_that_did_not_move(v: GridView, moves: Seq<(int, SquareChoice)>)
    requires
        v.wf(),
        all_accepted(v, moves),
    ensures
        after_moves(v, moves).wf(),
        moves.len() > 0 ==> after_moves(v, moves).turn == opposite(moves.last().1),
        moves.len() > 0 ==> after_moves(v, moves).turn != moves.last().1,
    decreases moves.len(),
{
    if moves.len() > 0 {
        lemma_accepted_front(v, moves);
        lemma_turn_is_mark_that_did_not_move(v, moves.drop_last());
        lemma_placement_alternates_turn(
            after_moves(v, moves.drop_last()),
            moves.last().0,
            moves.last().1,
            0,
        );
    }
}

/// In any run of accepted placements the marks alternate, X first on a
/// fresh game.
pub proof fn lemma_accepted_moves_alternate(v: GridView, moves: Seq<(int, SquareChoice)>)
    requires
        v.wf(),
        all_accepted(v, moves),
    ensures
        moves.len() > 0 && v.turn == SquareChoice::Empty ==> moves[0].1 == SquareChoice::X,
        forall|n: int|
            0 < n < moves.len() ==> (#[trigger] moves[n]).1 == opposite(moves[n - 1].1),
{
    if moves.len() > 0 {
        assert(moves.take(0) =~= Seq::<(int, SquareChoice)>::empty());
        assert(0 <= moves[0].0 < 9);
    }
    assert forall|n: int| 0 < n < moves.len() implies (#[trigger] moves[n]).1 == opposite(
        moves[n - 1].1,
    ) by {
        let p = moves.take(n);
        lemma_accepted_prefix(v, moves, n);
        lemma_turn_is_mark_that_did_not_move(v, p);
        assert(p.last() == moves[n - 1]);
        assert(0 <= moves[n].0 < 9);
        assert(0 <= moves[n - 1].0 < 9);
    }
}

} // verus!

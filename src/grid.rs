use vstd::prelude::*;
use crate::square::{empty_square, may_move, opposite, SquareChoice, TicTacToeSquare};

verus! {

/// How long a finished game stays on the board before it clears, in milliseconds.
pub const RESET_DELAY_MS: u64 = 1000;

/// Distance between the centres of neighbouring squares.
pub const SQUARE_SIZE: i32 = 16;

/// The mouse button of a click: the left one plays X, the right one plays O.
#[derive(Clone, Copy, PartialEq, Eq, Debug, Structural)]
pub enum MouseButton {
    Left,
    Right,
}

/// A pointer event delivered to one square of the board.
#[derive(Clone, Copy, PartialEq, Eq, Debug, Structural)]
pub enum PointerEvent {
    Enter,
    Exit,
    Click(MouseButton),
}

/// The mark that a click with `b` asks to place.
pub open spec fn button_mark(b: MouseButton) -> SquareChoice {
    match b {
        MouseButton::Left => SquareChoice::X,
        MouseButton::Right => SquareChoice::O,
    }
}

/// Position of the square at (`row`, `col`) in the row-major sequence of squares.
pub open spec fn square_index(row: int, col: int) -> int {
    3 * row + col
}

/// The `j`-th square (`0 <= j < 3`) of line `k` (`0 <= k < 8`): lines 0 to 2
/// are the rows, 3 to 5 the columns, 6 the main diagonal and 7 the other one.
pub open spec fn line_square(k: int, j: int) -> int {
    if k < 3 {
        3 * k + j
    } else if k < 6 {
        3 * j + (k - 3)
    } else if k == 6 {
        4 * j
    } else {
        2 + 2 * j
    }
}

/// Whether square `i` lies on line `k`.
pub open spec fn in_line(k: int, i: int) -> bool {
    line_square(k, 0) == i || line_square(k, 1) == i || line_square(k, 2) == i
}

/// Line `k` holds three equal marks that are not `Empty`.
pub open spec fn line_complete(marks: Seq<SquareChoice>, k: int) -> bool {
    marks[line_square(k, 0)] != SquareChoice::Empty && marks[line_square(k, 0)] == marks[line_square(
        k,
        1,
    )] && marks[line_square(k, 1)] == marks[line_square(k, 2)]
}

/// Square `i` lies on some complete line.
pub open spec fn on_complete_line(marks: Seq<SquareChoice>, i: int) -> bool {
    exists|k: int| 0 <= k < 8 && #[trigger] line_complete(marks, k) && in_line(k, i)
}

/// Some line of the board is complete.
pub open spec fn has_complete_line(marks: Seq<SquareChoice>) -> bool {
    exists|k: int| 0 <= k < 8 && #[trigger] line_complete(marks, k)
}

/// Every square holds a mark.
pub open spec fn all_filled(marks: Seq<SquareChoice>) -> bool {
    forall|i: int| 0 <= i < 9 ==> marks[i] != SquareChoice::Empty
}

/// The game has ended, by a win or by a draw.
pub open spec fn is_over(marks: Seq<SquareChoice>) -> bool {
    has_complete_line(marks) || all_filled(marks)
}

/// The state of a board as plain values.
pub ghost struct GridView {
    pub squares: Seq<TicTacToeSquare>,
    pub turn: SquareChoice,
    pub game_over_time: Option<u64>,
    pub dirty: bool,
}

/// The board of a fresh game.
pub open spec fn initial_view() -> GridView {
    GridView {
        squares: Seq::new(9, |i: int| empty_square()),
        turn: SquareChoice::Empty,
        game_over_time: None,
        dirty: false,
    }
}

impl GridView {
    /// The marks of the squares, row by row.
    pub open spec fn marks(self) -> Seq<SquareChoice> {
        self.squares.map_values(|s: TicTacToeSquare| s.choice)
    }

    /// The board is well formed: nine squares; no mark before the first move;
    /// winning-line flags only on a finished game, and there exactly on the
    /// squares of complete lines; a finished game has a win or a full board;
    /// and a board with no pending change that is in play has neither.
    pub open spec fn wf(self) -> bool {
        &&& self.squares.len() == 9
        &&& self.turn == SquareChoice::Empty ==> forall|i: int|
            0 <= i < 9 ==> (#[trigger] self.squares[i]).choice == SquareChoice::Empty
        &&& self.game_over_time is None ==> forall|i: int|
            0 <= i < 9 ==> !(#[trigger] self.squares[i]).is_part_of_solution
        &&& self.game_over_time is Some ==> is_over(self.marks())
        &&& self.game_over_time is Some ==> forall|i: int|
            0 <= i < 9 ==> (#[trigger] self.squares[i]).is_part_of_solution == on_complete_line(
                self.marks(),
                i,
            )
        &&& !self.dirty && self.game_over_time is None ==> !is_over(self.marks())
    }

    /// A placement of `m` on square `i` is accepted: the game is in play, the
    /// square is empty and it is `m`'s turn.
    pub open spec fn accepts(self, i: int, m: SquareChoice) -> bool {
        self.game_over_time is None && self.squares[i].choice == SquareChoice::Empty && may_move(
            m,
            self.turn,
        )
    }

    /// The board after `m` is placed on square `i`: the turn passes to the
    /// other mark and a change is pending.
    pub open spec fn placed(self, i: int, m: SquareChoice) -> GridView {
        GridView {
            squares: self.squares.update(i, TicTacToeSquare { choice: m, ..self.squares[i] }),
            turn: opposite(m),
            dirty: true,
            ..self
        }
    }

    /// The board after the hover flag of square `i` is set to `h`.
    pub open spec fn hovered(self, i: int, h: bool) -> GridView {
        GridView {
            squares: self.squares.update(i, TicTacToeSquare { is_hovered_over: h, ..self.squares[i] }),
            ..self
        }
    }

    /// The board after an evaluation at time `now`: every square on a complete
    /// line is flagged, and a win or a full board ends the game at `now`.
    pub open spec fn evaluated(self, now: u64) -> GridView {
        GridView {
            squares: Seq::new(
                9,
                |i: int|
                    TicTacToeSquare {
                        is_part_of_solution: self.squares[i].is_part_of_solution
                            || on_complete_line(self.marks(), i),
                        ..self.squares[i]
                    },
            ),
            game_over_time: if is_over(self.marks()) {
                Some(now)
            } else {
                self.game_over_time
            },
            ..self
        }
    }

    /// The game ended at least `RESET_DELAY_MS` before `now`.
    pub open spec fn reset_due(self, now: u64) -> bool {
        match self.game_over_time {
            Some(t) => now >= t && now - t >= RESET_DELAY_MS,
            None => false,
        }
    }

    /// The board cleared for a new game; hover flags stay.
    pub open spec fn cleared(self) -> GridView {
        GridView {
            squares: Seq::new(
                9,
                |i: int|
                    TicTacToeSquare {
                        choice: SquareChoice::Empty,
                        is_part_of_solution: false,
                        ..self.squares[i]
                    },
            ),
            turn: SquareChoice::Empty,
            game_over_time: None,
            ..self
        }
    }

    /// The board after a reset check at `now`.
    pub open spec fn reset_checked(self, now: u64) -> GridView {
        if self.reset_due(now) {
            self.cleared()
        } else {
            self
        }
    }

    /// The board after one frame at `now`: a pending change is evaluated,
    /// then a due reset is made.
    pub open spec fn ticked(self, now: u64) -> GridView {
        let e = if self.dirty {
            GridView { dirty: false, ..self }.evaluated(now)
        } else {
            self
        };
        e.reset_checked(now)
    }
}


fn line_square_index(k: usize, j: usize) -> (r: usize)
    requires
        k < 8,
        j < 3,
    ensures
        r == line_square(k as int, j as int),
        r < 9,
{
    if k < 3 {
        3 * k + j
    } else if k < 6 {
        3 * j + (k - 3)
    } else if k == 6 {
        4 * j
    } else {
        2 + 2 * j
    }
}

/// A 3x3 tic-tac-toe board: its squares, whose turn it is, when the
/// current game ended, and whether a placement awaits evaluation.
pub struct TicTacToeGrid {
    squares: Vec<TicTacToeSquare>,
    turn: SquareChoice,
    game_over_time: Option<u64>,
    dirty: bool,
}

impl View for TicTacToeGrid {
    type V = GridView;

    closed spec fn view(&self) -> GridView {
        GridView {
            squares: self.squares@,
            turn: self.turn,
            game_over_time: self.game_over_time,
            dirty: self.dirty,
        }
    }
}

impl TicTacToeGrid {
    /// The board is well formed.
    pub open spec fn wf(&self) -> bool {
        self@.wf()
    }

    /// A board of nine empty squares with no move made yet.
    pub fn new() -> (r: TicTacToeGrid)
        ensures
            r@ == initial_view(),
            r.wf(),
    {
        let mut squares: Vec<TicTacToeSquare> = Vec::new();
        let mut i: usize = 0;
        while i < 9
            invariant
                i <= 9,
                squares@.len() == i,
                forall|j: int| 0 <= j < i ==> squares@[j] == empty_square(),
            decreases 9 - i,
        {
            squares.push(TicTacToeSquare::new());
            i += 1;
        }
        let r = TicTacToeGrid { squares, turn: SquareChoice::Empty, game_over_time: None, dirty: false };
        proof {
            assert(r@.squares =~= initial_view().squares);
            let marks = r@.marks();
            assert forall|k: int| 0 <= k < 8 implies !#[trigger] line_complete(marks, k) by {
                assert(0 <= line_square(k, 0) < 9);
            }
            assert(marks[0] == SquareChoice::Empty);
        }
        r
    }

    /// Flags the squares of line `k` when it is complete, and says whether it is.
    fn check_specific_game_over_case(&mut self, k: usize) -> (r: bool)
        requires
            k < 8,
            old(self)@.squares.len() == 9,
        ensures
            r == line_complete(old(self)@.marks(), k as int),
            final(self)@.squares.len() == 9,
            final(self)@.turn == old(self)@.turn,
            final(self)@.game_over_time == old(self)@.game_over_time,
            final(self)@.dirty == old(self)@.dirty,
            forall|i: int|
                0 <= i < 9 ==> #[trigger] final(self)@.squares[i] == (TicTacToeSquare {
                    is_part_of_solution: old(self)@.squares[i].is_part_of_solution || (r && in_line(
                        k as int,
                        i,
                    )),
                    ..old(self)@.squares[i]
                }),
    {
        let a = line_square_index(k, 0);
        let b = line_square_index(k, 1);
        let c = line_square_index(k, 2);
        let ma = self.squares[a].choice;
        let mb = self.squares[b].choice;
        let mc = self.squares[c].choice;
        if ma != SquareChoice::Empty && ma == mb && mb == mc {
            self.squares[a].is_part_of_solution = true;
            self.squares[b].is_part_of_solution = true;
            self.squares[c].is_part_of_solution = true;
            true
        } else {
            false
        }
    }

    /// Whether every square holds a mark.
    pub fn all_are_filled(&self) -> (r: bool)
        requires
            self@.squares.len() == 9,
        ensures
            r == all_filled(self@.marks()),
    {
        let mut i: usize = 0;
        while i < 9
            invariant
                i <= 9,
                self@.squares.len() == 9,
                forall|j: int| 0 <= j < i ==> self@.marks()[j] != SquareChoice::Empty,
            decreases 9 - i,
        {
            if self.squares[i].choice == SquareChoice::Empty {
                assert(self@.marks()[i as int] == SquareChoice::Empty);
                return false;
            }
            i += 1;
        }
        true
    }

    /// Evaluates the board at time `now`: flags every square on a complete
    /// line (all eight lines are checked, so crossing lines are all flagged)
    /// and, on a win or a full board, records `now` as the end of the game.
    /// Returns whether the game is over.
    pub fn check_game_over(&mut self, now: u64) -> (r: bool)
        requires
            old(self).wf(),
        ensures
            final(self).wf(),
            final(self)@ == old(self)@.evaluated(now),
            r == is_over(old(self)@.marks()),
            final(self)@.marks() == old(self)@.marks(),
            has_complete_line(old(self)@.marks()) ==> final(self)@.game_over_time == Some(now),
            all_filled(old(self)@.marks()) ==> final(self)@.game_over_time == Some(now),
            old(self)@.game_over_time is None ==> forall|i: int|
                0 <= i < 9 ==> #[trigger] final(self)@.squares[i].is_part_of_solution
                    == on_complete_line(old(self)@.marks(), i),
    {
        let ghost v0 = self@;
        let ghost marks = v0.marks();
        let mut game_over = false;
        let mut k: usize = 0;
        while k < 8
            invariant
                k <= 8,
                v0.wf(),
                marks == v0.marks(),
                self@.squares.len() == 9,
                self@.marks() == marks,
                self@.turn == v0.turn,
                self@.game_over_time == v0.game_over_time,
                self@.dirty == v0.dirty,
                game_over == exists|k2: int| 0 <= k2 < k && #[trigger] line_complete(marks, k2),
                forall|i: int|
                    0 <= i < 9 ==> #[trigger] self@.squares[i] == (TicTacToeSquare {
                        is_part_of_solution: v0.squares[i].is_part_of_solution || exists|k2: int|
                            0 <= k2 < k && #[trigger] line_complete(marks, k2) && in_line(k2, i),
                        ..v0.squares[i]
                    }),
            decreases 8 - k,
        {
            let ghost before = self@;
            let found = self.check_specific_game_over_case(k);
            proof {
                assert(self@.marks() =~= before.marks());
            }
            game_over = game_over || found;
            k += 1;
        }
        let filled = self.all_are_filled();
        let over = game_over || filled;
        if over {
            self.game_over_time = Some(now);
        }
        proof {
            assert(self@.squares =~= v0.evaluated(now).squares);
        }
        over
    }

    /// Clears the board for a new game once `RESET_DELAY_MS` have passed
    /// since the game ended: every mark and winning-line flag is removed, the
    /// turn goes back to `Empty` and the end time is dropped. Before that, and
    /// while a game is in play, nothing changes. `now` and the end time are
    /// read on one monotonic clock; a `now` before the end time counts as no
    /// time passed.
    pub fn check_game_reset(&mut self, now: u64)
        requires
            old(self).wf(),
        ensures
            final(self).wf(),
            final(self)@ == old(self)@.reset_checked(now),
            !old(self)@.reset_due(now) ==> final(self)@ == old(self)@,
            old(self)@.reset_due(now) ==> {
                &&& final(self)@.turn == SquareChoice::Empty
                &&& final(self)@.game_over_time is None
                &&& forall|i: int|
                    0 <= i < 9 ==> (#[trigger] final(self)@.squares[i]).choice
                        == SquareChoice::Empty && !final(self)@.squares[i].is_part_of_solution
            },
    {
        let due = match self.game_over_time {
            Some(t) => now >= t && now - t >= RESET_DELAY_MS,
            None => false,
        };
        if !due {
            return;
        }
        let ghost v0 = self@;
        let mut i: usize = 0;
        while i < 9
            invariant
                i <= 9,
                v0.squares.len() == 9,
                self@.squares.len() == 9,
                self@.turn == v0.turn,
                self@.game_over_time == v0.game_over_time,
                self@.dirty == v0.dirty,
                forall|j: int| 0 <= j < i ==> #[trigger] self@.squares[j] == v0.cleared().squares[j],
                forall|j: int| i <= j < 9 ==> #[trigger] self@.squares[j] == v0.squares[j],
            decreases 9 - i,
        {
            self.squares[i].choice = SquareChoice::Empty;
            self.squares[i].is_part_of_solution = false;
            i += 1;
        }
        self.game_over_time = None;
        self.turn = SquareChoice::Empty;
        proof {
            assert(self@.squares =~= v0.cleared().squares);
            let marks = self@.marks();
            assert forall|k: int| 0 <= k < 8 implies !#[trigger] line_complete(marks, k) by {
                assert(0 <= line_square(k, 0) < 9);
            }
            assert(marks[0] == SquareChoice::Empty);
        }
    }

    /// A click with `button` on the square at (`row`, `col`): left places X,
    /// right places O. The placement is made exactly when the game is in play,
    /// the square is empty and it is that mark's turn; then the turn passes to
    /// the other mark and a change is marked pending. Otherwise nothing changes,
    /// the pending flag included. Returns whether the placement was made.
    pub fn on_input_event(&mut self, row: usize, col: usize, button: MouseButton) -> (r: bool)
        requires
            old(self).wf(),
            row < 3,
            col < 3,
        ensures
            final(self).wf(),
            r == old(self)@.accepts(square_index(row as int, col as int), button_mark(button)),
            r ==> final(self)@ == old(self)@.placed(
                square_index(row as int, col as int),
                button_mark(button),
            ),
            r ==> final(self)@.turn == opposite(button_mark(button)),
            !r ==> final(self)@ == old(self)@,
            old(self)@.squares[square_index(row as int, col as int)].choice
                != SquareChoice::Empty ==> !r,
            !may_move(button_mark(button), old(self)@.turn) ==> !r,
    {
        if self.game_over_time.is_some() {
            return false;
        }
        let i = 3 * row + col;
        let requested = match button {
            MouseButton::Left => SquareChoice::X,
            MouseButton::Right => SquareChoice::O,
        };
        let mut square = self.squares[i];
        let placement = square.attempt_place(requested, self.turn);
        if placement.accepted {
            let ghost v0 = self@;
            self.squares.set(i, square);
            self.turn = placement.new_turn;
            self.dirty = true;
            proof {
                assert(self@.squares =~= v0.placed(i as int, requested).squares);
            }
        }
        placement.accepted
    }

    /// Sets the hover flag of the square at (`row`, `col`); nothing else changes.
    pub fn set_hovered(&mut self, row: usize, col: usize, hovered: bool)
        requires
            old(self).wf(),
            row < 3,
            col < 3,
        ensures
            final(self).wf(),
            final(self)@ == old(self)@.hovered(square_index(row as int, col as int), hovered),
    {
        let i = 3 * row + col;
        let ghost v0 = self@;
        if hovered {
            self.squares[i].on_mouse_entered();
        } else {
            self.squares[i].on_mouse_exited();
        }
        proof {
            assert(self@.squares =~= v0.hovered(i as int, hovered).squares);
            assert(self@.marks() =~= v0.marks());
        }
    }

    /// Hands a pointer event on the square at (`row`, `col`) to the square:
    /// entering and leaving set its hover flag, a click attempts a placement.
    /// Returns whether a placement was made.
    pub fn route_input(&mut self, row: usize, col: usize, event: PointerEvent) -> (r: bool)
        requires
            old(self).wf(),
            row < 3,
            col < 3,
        ensures
            final(self).wf(),
            event == PointerEvent::Enter ==> !r && final(self)@ == old(self)@.hovered(
                square_index(row as int, col as int),
                true,
            ),
            event == PointerEvent::Exit ==> !r && final(self)@ == old(self)@.hovered(
                square_index(row as int, col as int),
                false,
            ),
            forall|b: MouseButton|
                event == PointerEvent::Click(b) ==> {
                    &&& r == old(self)@.accepts(
                        square_index(row as int, col as int),
                        button_mark(b),
                    )
                    &&& r ==> final(self)@ == old(self)@.placed(
                        square_index(row as int, col as int),
                        button_mark(b),
                    )
                    &&& !r ==> final(self)@ == old(self)@
                },
    {
        match event {
            PointerEvent::Enter => {
                self.set_hovered(row, col, true);
                false
            },
            PointerEvent::Exit => {
                self.set_hovered(row, col, false);
                false
            },
            PointerEvent::Click(button) => self.on_input_event(row, col, button),
        }
    }

    /// One frame at time `now`: when a placement is pending the flag is
    /// cleared and the board evaluated, then a due reset is made.
    pub fn process(&mut self, now: u64)
        requires
            old(self).wf(),
        ensures
            final(self).wf(),
            final(self)@ == old(self)@.ticked(now),
    {
        if self.dirty {
            self.check_game_over(now);
            self.dirty = false;
        }
        if self.game_over_time.is_some() {
            self.check_game_reset(now);
        }
    }

    /// The square at (`row`, `col`).
    pub fn square(&self, row: usize, col: usize) -> (r: TicTacToeSquare)
        requires
            self.wf(),
            row < 3,
            col < 3,
        ensures
            r == self@.squares[square_index(row as int, col as int)],
    {
        self.squares[3 * row + col]
    }

    /// The mark that moves next; `Empty` before the first move.
    pub fn turn(&self) -> (r: SquareChoice)
        ensures
            r == self@.turn,
    {
        self.turn
    }

    /// When the current game ended, if it has.
    pub fn game_over_time(&self) -> (r: Option<u64>)
        ensures
            r == self@.game_over_time,
    {
        self.game_over_time
    }

    /// Whether a placement awaits evaluation.
    pub fn is_dirty(&self) -> (r: bool)
        ensures
            r == self@.dirty,
    {
        self.dirty
    }
}

/// Offset of the centre of the square at (`row`, `col`) from the centre of
/// the board: columns run along x and rows along y, `SQUARE_SIZE` apart.
pub fn square_position(row: usize, col: usize) -> (r: (i32, i32))
    requires
        row < 3,
        col < 3,
    ensures
        r.0 == (col as int - 1) * SQUARE_SIZE,
        r.1 == (row as int - 1) * SQUARE_SIZE,
{
    ((col as i32 - 1) * SQUARE_SIZE, (row as i32 - 1) * SQUARE_SIZE)
}

} // verus!

use vstd::prelude::*;

verus! {

/// The mark held by one square of the board, or whose turn it is
/// (`Empty` before the first move of a game).
#[derive(Clone, Copy, PartialEq, Eq, Debug, Structural)]
pub enum SquareChoice {
    Empty,
    X,
    O,
}

/// The mark that plays after `m`; `Empty` has no opponent.
pub open spec fn opposite(m: SquareChoice) -> SquareChoice {
    match m {
        SquareChoice::X => SquareChoice::O,
        SquareChoice::O => SquareChoice::X,
        SquareChoice::Empty => SquareChoice::Empty,
    }
}

/// Whether the player holding `requested` may move when the turn is `turn`.
/// Before the first move (`turn == Empty`) only X may play.
pub open spec fn may_move(requested: SquareChoice, turn: SquareChoice) -> bool {
    requested != SquareChoice::Empty && (turn == requested || (turn == SquareChoice::Empty
        && requested == SquareChoice::X))
}

/// The sprite row that shows a mark: 0, 1 and 2 for empty, X and O.
pub open spec fn symbol_frame(m: SquareChoice) -> u8 {
    match m {
        SquareChoice::Empty => 0,
        SquareChoice::X => 1,
        SquareChoice::O => 2,
    }
}

/// A square with no mark that is neither hovered nor on a winning line.
pub open spec fn empty_square() -> TicTacToeSquare {
    TicTacToeSquare { is_hovered_over: false, is_part_of_solution: false, choice: SquareChoice::Empty }
}

/// The outcome of a placement attempt on one square.
#[derive(Clone, Copy, PartialEq, Eq, Debug, Structural)]
pub struct PlacementResult {
    pub accepted: bool,
    pub new_turn: SquareChoice,
}

/// One square of the board: its mark and its two visual flags.
#[derive(Clone, Copy, PartialEq, Eq, Debug, Structural)]
pub struct TicTacToeSquare {
    pub is_hovered_over: bool,
    pub is_part_of_solution: bool,
    pub choice: SquareChoice,
}

impl TicTacToeSquare {
    /// An empty square, neither hovered nor on a winning line.
    pub fn new() -> (r: TicTacToeSquare)
        ensures
            r == empty_square(),
    {
        TicTacToeSquare { is_hovered_over: false, is_part_of_solution: false, choice: SquareChoice::Empty }
    }

    /// The pointer entered the square.
    pub fn on_mouse_entered(&mut self)
        ensures
            *final(self) == (TicTacToeSquare { is_hovered_over: true, ..*old(self) }),
    {
        self.is_hovered_over = true;
    }

    /// The pointer left the square.
    pub fn on_mouse_exited(&mut self)
        ensures
            *final(self) == (TicTacToeSquare { is_hovered_over: false, ..*old(self) }),
    {
        self.is_hovered_over = false;
    }

    /// Tries to place `requested` on this square while the turn is `turn`.
    /// The placement is accepted exactly when the square is empty and it is
    /// this player's turn; then the square takes the mark and the turn passes
    /// to the other player. A rejected placement changes nothing.
    pub fn attempt_place(&mut self, requested: SquareChoice, turn: SquareChoice) -> (r:
        PlacementResult)
        requires
            requested != SquareChoice::Empty,
        ensures
            r.accepted == (old(self).choice == SquareChoice::Empty && may_move(requested, turn)),
            r.accepted ==> *final(self) == (TicTacToeSquare { choice: requested, ..*old(self) })
                && r.new_turn == opposite(requested),
            !r.accepted ==> *final(self) == *old(self) && r.new_turn == turn,
    {
        let legal = match (self.choice, turn, requested) {
            (SquareChoice::Empty, SquareChoice::Empty, SquareChoice::X) => true,
            (SquareChoice::Empty, SquareChoice::X, SquareChoice::X) => true,
            (SquareChoice::Empty, SquareChoice::O, SquareChoice::O) => true,
            _ => false,
        };
        if legal {
            self.choice = requested;
            let new_turn = match requested {
                SquareChoice::O => SquareChoice::X,
                _ => SquareChoice::O,
            };
            PlacementResult { accepted: true, new_turn }
        } else {
            PlacementResult { accepted: false, new_turn: turn }
        }
    }

    /// The sprite frame that shows this square: the column is 1 when the
    /// square is hovered or on a winning line, the row gives its mark.
    pub fn process_sprite(&self) -> (r: (u8, u8))
        ensures
            r.0 == (if self.is_hovered_over || self.is_part_of_solution { 1u8 } else { 0u8 }),
            r.1 == symbol_frame(self.choice),
    {
        let x: u8 = if self.is_hovered_over || self.is_part_of_solution { 1 } else { 0 };
        let y: u8 = match self.choice {
            SquareChoice::Empty => 0,
            SquareChoice::X => 1,
            SquareChoice::O => 2,
        };
        (x, y)
    }
}

} // verus!

//! The mathematical model of a game: which cell holds which piece, whose
//! turn it is and how many moves were played, with the rules stated over it.

use vstd::prelude::*;
use crate::board::{Coordinate, GamePiece, Move, PieceColor};

verus! {

/// A game as a plain value.
///
/// `board` maps each occupied cell to its piece; a cell outside its domain
/// is empty.
pub struct GameState {
    pub board: Map<Coordinate, GamePiece>,
    pub current_turn: PieceColor,
    pub move_count: nat,
}

/// The cell between `(fx, fy)` and `(tx, ty)` when the two lie exactly two
/// columns and two rows apart, and nothing otherwise.
pub open spec fn midpoint(fx: usize, fy: usize, tx: usize, ty: usize) -> Option<Coordinate> {
    if (fx - tx == 2 || tx - fx == 2) && (fy - ty == 2 || ty - fy == 2) {
        Some(Coordinate(((fx + tx) / 2) as usize, ((fy + ty) / 2) as usize))
    } else {
        None
    }
}

/// Whether `mv` ends one column and one row away from where it starts.
pub open spec fn is_diagonal_step(mv: Move) -> bool {
    (mv.from.0 - mv.to.0 == 1 || mv.to.0 - mv.from.0 == 1) && (mv.from.1 - mv.to.1 == 1 || mv.to.1
        - mv.from.1 == 1)
}

/// Whether a piece of side `color` that arrives on `to` is crowned there.
pub open spec fn reaches_crown_row(color: PieceColor, to: Coordinate) -> bool {
    to.1 == color.spec_crown_row()
}

/// The `index`-th cell in scanning order: column by column, and within a
/// column from row 0 upwards.
pub open spec fn scan_cell(index: nat) -> Coordinate {
    Coordinate((index / 8) as usize, (index % 8) as usize)
}

/// The piece that the opening position has on `c`, if any: on the cells
/// whose column and row add up to an odd number, White on rows 0 to 2 and
/// Black on rows 5 to 7, none of them crowned.
pub open spec fn opening_piece(c: Coordinate) -> Option<GamePiece> {
    if c.spec_on_board() && (c.0 + c.1) % 2 == 1 && c.1 < 3 {
        Some(GamePiece { color: PieceColor::White, crowned: false })
    } else if c.spec_on_board() && (c.0 + c.1) % 2 == 1 && c.1 >= 5 {
        Some(GamePiece { color: PieceColor::Black, crowned: false })
    } else {
        None
    }
}

/// The 24 pieces of the opening position, each on its cell.
pub open spec fn opening_board() -> Map<Coordinate, GamePiece> {
    Map::new(|c: Coordinate| opening_piece(c) is Some, |c: Coordinate| opening_piece(c).unwrap())
}

impl GameState {
    /// The opening position: the 24 pieces, Black to move, no move played.
    pub open spec fn opening() -> GameState {
        GameState { board: opening_board(), current_turn: PieceColor::Black, move_count: 0 }
    }

    /// Every occupied cell lies on the 8×8 board.
    pub open spec fn well_formed(self) -> bool {
        forall|c: Coordinate| #[trigger] self.board.contains_key(c) ==> c.spec_on_board()
    }

    /// The piece on `c`, if any.
    pub open spec fn piece_at(self, c: Coordinate) -> Option<GamePiece> {
        if self.board.contains_key(c) {
            Some(self.board[c])
        } else {
            None
        }
    }

    /// The cells that hold a piece of side `color`.
    pub open spec fn cells_of(self, color: PieceColor) -> Set<Coordinate> {
        Set::new(|c: Coordinate| self.board.contains_key(c) && self.board[c].color == color)
    }

    /// A step to `to` is valid when `to` lies on the board and is empty.
    pub open spec fn valid_move(self, to: Coordinate) -> bool {
        to.spec_on_board() && !self.board.contains_key(to)
    }

    /// A jump of `piece` from `from` to `to` is valid when the two cells lie
    /// two columns and two rows apart and the cell between them holds a
    /// piece of the other side.
    pub open spec fn valid_jump(self, piece: GamePiece, from: Coordinate, to: Coordinate) -> bool {
        match midpoint(from.0, from.1, to.0, to.1) {
            Some(mid) => self.board.contains_key(mid) && self.board[mid].color != piece.color,
            None => false,
        }
    }

    /// The test that keeps the valid jumps of `piece` from `from`.
    pub open spec fn jump_filter(self, piece: GamePiece, from: Coordinate) -> spec_fn(
        Coordinate,
    ) -> bool {
        |to: Coordinate| self.valid_jump(piece, from, to)
    }

    /// The test that keeps the valid steps.
    pub open spec fn move_filter(self) -> spec_fn(Coordinate) -> bool {
        |to: Coordinate| self.valid_move(to)
    }

    /// The valid jumps of the piece on `from`, in the order of the jump
    /// targets of `from`.
    pub open spec fn jumps_from(self, from: Coordinate) -> Seq<Move> {
        from.spec_jump_targets().filter(self.jump_filter(self.board[from], from)).map_values(
            move_starting_at(from),
        )
    }

    /// The valid steps of the piece on `from`, in the order of the step
    /// targets of `from`.
    pub open spec fn steps_from(self, from: Coordinate) -> Seq<Move> {
        from.spec_move_targets().filter(self.move_filter()).map_values(move_starting_at(from))
    }

    /// The moves of the piece on `from`: its valid jumps, then its valid
    /// steps. Empty when `from` holds no piece.
    pub open spec fn moves_from(self, from: Coordinate) -> Seq<Move> {
        if self.board.contains_key(from) {
            self.jumps_from(from) + self.steps_from(from)
        } else {
            Seq::empty()
        }
    }

    /// Whether `c` holds a piece of the side to move.
    pub open spec fn holds_mover(self, c: Coordinate) -> bool {
        self.board.contains_key(c) && self.board[c].color == self.current_turn
    }

    /// What the cell `c` adds to the legal moves: the moves of its piece
    /// when that piece belongs to the side to move, and nothing otherwise.
    pub open spec fn moves_of_cell(self, c: Coordinate) -> Seq<Move> {
        if self.holds_mover(c) {
            self.moves_from(c)
        } else {
            Seq::empty()
        }
    }

    /// The legal moves found on the first `n` cells in scanning order.
    pub open spec fn moves_of_cells(self, n: nat) -> Seq<Move>
        decreases n,
    {
        if n == 0 {
            Seq::empty()
        } else {
            self.moves_of_cells((n - 1) as nat) + self.moves_of_cell(scan_cell((n - 1) as nat))
        }
    }

    /// The legal moves of the side to move, in scanning order of the cells
    /// they start from.
    pub open spec fn legal_moves(self) -> Seq<Move> {
        self.moves_of_cells(64)
    }

    /// Whether `mv` is legal: it starts on a piece of the side to move and
    /// ends on the board, and it is either a valid jump of that piece or a
    /// step to a diagonal neighbour that is empty.
    pub open spec fn is_legal(self, mv: Move) -> bool {
        &&& mv.from.spec_on_board()
        &&& mv.to.spec_on_board()
        &&& self.holds_mover(mv.from)
        &&& self.valid_jump(self.board[mv.from], mv.from, mv.to) || (is_diagonal_step(mv)
            && self.valid_move(mv.to))
    }

    /// Whether the piece that `mv` moves is crowned on arrival.
    pub open spec fn promotes(self, mv: Move) -> bool {
        reaches_crown_row(self.board[mv.from].color, mv.to)
    }

    /// The piece that stands on `mv.to` once `mv` is played.
    pub open spec fn arriving_piece(self, mv: Move) -> GamePiece {
        if self.promotes(mv) {
            GamePiece::spec_crowned(self.board[mv.from])
        } else {
            self.board[mv.from]
        }
    }

    /// The board once the piece jumped over by `mv`, if there is one, is
    /// taken off.
    pub open spec fn after_capture(self, mv: Move) -> Map<Coordinate, GamePiece> {
        match midpoint(mv.from.0, mv.from.1, mv.to.0, mv.to.1) {
            Some(mid) => self.board.remove(mid),
            None => self.board,
        }
    }

    /// The game once `mv` is played: the jumped piece is taken off, the
    /// moving piece stands on `mv.to`, crowned if it reached its crown row,
    /// `mv.from` is empty, the other side is to move and one more move is
    /// counted.
    pub open spec fn apply(self, mv: Move) -> GameState {
        GameState {
            board: self.after_capture(mv).insert(mv.to, self.arriving_piece(mv)).remove(mv.from),
            current_turn: self.current_turn.spec_opponent(),
            move_count: self.move_count + 1,
        }
    }
}

/// The function that turns a target into the move from `from` to it.
pub open spec fn move_starting_at(from: Coordinate) -> spec_fn(Coordinate) -> Move {
    |to: Coordinate| Move { from, to }
}

} // verus!

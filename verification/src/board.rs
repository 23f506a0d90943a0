//! Coordinates, pieces and moves.

use vstd::prelude::*;

verus! {

/// Number of columns, and of rows, of the board.
pub const BOARD_SIZE: usize = 8;

/// The two sides.
///
/// White advances towards higher rows and is crowned on row 7; Black
/// advances towards lower rows and is crowned on row 0.
#[derive(Debug, Clone, Copy, PartialEq, Eq, Structural)]
pub enum PieceColor {
    White,
    Black,
}

impl PieceColor {
    /// The other side.
    pub open spec fn spec_opponent(self) -> PieceColor {
        match self {
            PieceColor::White => PieceColor::Black,
            PieceColor::Black => PieceColor::White,
        }
    }

    /// The other side.
    pub fn opponent(self) -> (other: PieceColor)
        ensures
            other == self.spec_opponent(),
    {
        match self {
            PieceColor::White => PieceColor::Black,
            PieceColor::Black => PieceColor::White,
        }
    }

    /// The row on which a piece of this side is crowned.
    pub open spec fn spec_crown_row(self) -> usize {
        match self {
            PieceColor::White => 7,
            PieceColor::Black => 0,
        }
    }
}

/// A piece: its side, and whether it has been crowned.
#[derive(Debug, Clone, Copy, PartialEq, Eq, Structural)]
pub struct GamePiece {
    pub color: PieceColor,
    pub crowned: bool,
}

impl GamePiece {
    /// An uncrowned piece of the given side.
    pub fn new(color: PieceColor) -> (piece: GamePiece)
        ensures
            piece == (GamePiece { color, crowned: false }),
    {
        GamePiece { color, crowned: false }
    }

    /// The crowned piece of the same side as `piece`.
    pub open spec fn spec_crowned(piece: GamePiece) -> GamePiece {
        GamePiece { color: piece.color, crowned: true }
    }

    /// The crowned piece of the same side as `piece`.
    pub fn crowned(piece: GamePiece) -> (king: GamePiece)
        ensures
            king == Self::spec_crowned(piece),
    {
        GamePiece { color: piece.color, crowned: true }
    }
}

/// A cell of the grid: column first, then row.
#[derive(Debug, Clone, Copy, PartialEq, Eq, Structural)]
pub struct Coordinate(pub usize, pub usize);

impl Coordinate {
    /// Whether the cell lies on the 8×8 board.
    pub open spec fn spec_on_board(self) -> bool {
        self.0 < 8 && self.1 < 8
    }

    /// Whether the cell lies on the 8×8 board.
    pub fn on_board(self) -> (inside: bool)
        ensures
            inside == self.spec_on_board(),
    {
        self.0 < BOARD_SIZE && self.1 < BOARD_SIZE
    }

    /// The cell `dx` columns and `dy` rows away, as a sequence of one cell
    /// when both this cell and that one lie on the board, and as the empty
    /// sequence otherwise.
    pub open spec fn spec_shifted(self, dx: int, dy: int) -> Seq<Coordinate> {
        if self.spec_on_board() && 0 <= self.0 + dx < 8 && 0 <= self.1 + dy < 8 {
            seq![Coordinate((self.0 + dx) as usize, (self.1 + dy) as usize)]
        } else {
            Seq::empty()
        }
    }

    /// The diagonal two-step targets that lie on the board, in the order
    /// right-down, right-up, left-down, left-up (right is the higher
    /// column, up the higher row).
    pub open spec fn spec_jump_targets(self) -> Seq<Coordinate> {
        self.spec_shifted(2, -2) + self.spec_shifted(2, 2) + self.spec_shifted(-2, -2)
            + self.spec_shifted(-2, 2)
    }

    /// The diagonal one-step targets that lie on the board, in the order
    /// left-up, right-up, right-down, left-down.
    pub open spec fn spec_move_targets(self) -> Seq<Coordinate> {
        self.spec_shifted(-1, 1) + self.spec_shifted(1, 1) + self.spec_shifted(1, -1)
            + self.spec_shifted(-1, -1)
    }

    /// The cells a piece on this cell could jump to: two steps along each
    /// diagonal, as far as they lie on the board.
    pub fn jump_targets_from(&self) -> (targets: Vec<Coordinate>)
        ensures
            targets@ == self.spec_jump_targets(),
    {
        let mut targets: Vec<Coordinate> = Vec::new();
        let x: usize = self.0;
        let y: usize = self.1;
        if x < BOARD_SIZE && y < BOARD_SIZE {
            if x + 2 < BOARD_SIZE && y >= 2 {
                targets.push(Coordinate(x + 2, y - 2));
            }
            if x + 2 < BOARD_SIZE && y + 2 < BOARD_SIZE {
                targets.push(Coordinate(x + 2, y + 2));
            }
            if x >= 2 && y >= 2 {
                targets.push(Coordinate(x - 2, y - 2));
            }
            if x >= 2 && y + 2 < BOARD_SIZE {
                targets.push(Coordinate(x - 2, y + 2));
            }
        }
        assert(targets@ =~= self.spec_jump_targets());
        targets
    }

    /// The cells a piece on this cell could step to: one step along each
    /// diagonal, as far as they lie on the board.
    pub fn move_targets_from(&self) -> (targets: Vec<Coordinate>)
        ensures
            targets@ == self.spec_move_targets(),
    {
        let mut targets: Vec<Coordinate> = Vec::new();
        let x: usize = self.0;
        let y: usize = self.1;
        if x < BOARD_SIZE && y < BOARD_SIZE {
            if x >= 1 && y + 1 < BOARD_SIZE {
                targets.push(Coordinate(x - 1, y + 1));
            }
            if x + 1 < BOARD_SIZE && y + 1 < BOARD_SIZE {
                targets.push(Coordinate(x + 1, y + 1));
            }
            if x + 1 < BOARD_SIZE && y >= 1 {
                targets.push(Coordinate(x + 1, y - 1));
            }
            if x >= 1 && y >= 1 {
                targets.push(Coordinate(x - 1, y - 1));
            }
        }
        assert(targets@ =~= self.spec_move_targets());
        targets
    }
}

/// A step of one piece from one cell to another.
#[derive(Debug, Clone, Copy, PartialEq, Eq, Structural)]
pub struct Move {
    pub from: Coordinate,
    pub to: Coordinate,
}

impl Move {
    /// The move from `from` to `to`, each given as (column, row).
    pub fn new(from: (usize, usize), to: (usize, usize)) -> (mv: Move)
        ensures
            mv == (Move { from: Coordinate(from.0, from.1), to: Coordinate(to.0, to.1) }),
    {
        Move { from: Coordinate(from.0, from.1), to: Coordinate(to.0, to.1) }
    }
}

} // verus!

//! The engine: it owns the board, the side to move and the move counter,
//! lists the legal moves and plays one.

use vstd::prelude::*;
use crate::board::{Coordinate, GamePiece, Move, PieceColor, BOARD_SIZE};
use crate::laws::lemma_legal_moves_contains;
use crate::state::{
    midpoint, move_starting_at, opening_board, opening_piece, reaches_crown_row, scan_cell,
    GameState,
};

verus! {

/// The cells of a board: `cells[x][y]` is the cell in column `x`, row `y`.
pub type Cells = [[Option<GamePiece>; 8]; 8];

/// The occupied cells of `cells`, each with its piece.
pub open spec fn board_of(cells: Cells) -> Map<Coordinate, GamePiece> {
    Map::new(
        |c: Coordinate| c.spec_on_board() && cells[c.0 as int][c.1 as int] is Some,
        |c: Coordinate| cells[c.0 as int][c.1 as int].unwrap(),
    )
}

/// A move was refused: it is not among the legal moves.
#[derive(Debug, Clone, Copy, PartialEq, Eq, Structural)]
pub struct InvalidMove;

/// A coordinate lies outside the 8×8 board.
#[derive(Debug, Clone, Copy, PartialEq, Eq, Structural)]
pub struct OutOfBounds;

/// What a played move did.
#[derive(Debug, Clone, Copy, PartialEq, Eq, Structural)]
pub struct MoveResult {
    /// The move that was played.
    pub mv: Move,
    /// Whether the piece arrived on its crown row.
    pub crowned: bool,
}

/// A game of checkers: board, side to move and number of moves played.
pub struct GameEngine {
    board: Cells,
    current_turn: PieceColor,
    move_count: u32,
}

impl View for GameEngine {
    type V = GameState;

    closed spec fn view(&self) -> GameState {
        GameState {
            board: board_of(self.board),
            current_turn: self.current_turn,
            move_count: self.move_count as nat,
        }
    }
}

/// The piece that the opening position has on column `x`, row `y`.
fn opening_piece_at(x: usize, y: usize) -> (piece: Option<GamePiece>)
    requires
        x < 8,
        y < 8,
    ensures
        piece == opening_piece(Coordinate(x, y)),
{
    if (x + y) % 2 == 1 && y < 3 {
        Some(GamePiece::new(PieceColor::White))
    } else if (x + y) % 2 == 1 && y >= 5 {
        Some(GamePiece::new(PieceColor::Black))
    } else {
        None
    }
}

/// Whether `mv` is one of `moves`.
fn contains_move(moves: &Vec<Move>, mv: &Move) -> (found: bool)
    ensures
        found == moves@.contains(*mv),
{
    for i in 0..moves.len()
        invariant
            forall|j: int| 0 <= j < i ==> moves@[j] != *mv,
    {
        if moves[i] == *mv {
            return true;
        }
    }
    false
}

impl GameEngine {
    /// A game in the opening position, with Black to move.
    pub fn new() -> (engine: GameEngine)
        ensures
            engine@ == GameState::opening(),
    {
        let mut engine = GameEngine {
            board: [[None; 8]; 8],
            current_turn: PieceColor::Black,
            move_count: 0,
        };
        assert(board_of(engine.board) =~= Map::empty());
        engine.initialize_pieces();
        assert(engine@.board =~= opening_board());
        engine
    }

    /// A game in the position `cells`, with `current_turn` to move and
    /// `move_count` moves played.
    pub fn with_position(cells: Cells, current_turn: PieceColor, move_count: u32) -> (engine:
        GameEngine)
        ensures
            engine@ == (GameState {
                board: board_of(cells),
                current_turn,
                move_count: move_count as nat,
            }),
    {
        GameEngine { board: cells, current_turn, move_count }
    }

    /// Sets up the 24 pieces of the opening position. Cells that the
    /// opening position leaves empty keep what they hold; the side to move
    /// and the move counter stay.
    pub fn initialize_pieces(&mut self)
        ensures
            final(self)@ == (GameState {
                board: old(self)@.board.union_prefer_right(opening_board()),
                ..old(self)@
            }),
    {
        let ghost before = self.board;
        for x in 0..BOARD_SIZE
            invariant
                self.current_turn == old(self).current_turn,
                self.move_count == old(self).move_count,
                before == old(self).board,
                forall|a: int, b: int|
                    0 <= a < 8 && 0 <= b < 8 ==> #[trigger] self.board[a][b] == if a < x
                        && opening_piece(Coordinate(a as usize, b as usize)) is Some {
                        opening_piece(Coordinate(a as usize, b as usize))
                    } else {
                        before[a][b]
                    },
        {
            for y in 0..BOARD_SIZE
                invariant
                    x < 8,
                    self.current_turn == old(self).current_turn,
                    self.move_count == old(self).move_count,
                    before == old(self).board,
                    forall|a: int, b: int|
                        0 <= a < 8 && 0 <= b < 8 ==> #[trigger] self.board[a][b] == if (a < x || (a
                            == x && b < y)) && opening_piece(Coordinate(a as usize, b as usize))
                            is Some {
                            opening_piece(Coordinate(a as usize, b as usize))
                        } else {
                            before[a][b]
                        },
            {
                let piece = opening_piece_at(x, y);
                if piece.is_some() {
                    self.board[x][y] = piece;
                }
            }
        }
        assert(self@.board =~= old(self)@.board.union_prefer_right(opening_board()));
    }

    /// Every piece of a game stands on the board.
    pub proof fn lemma_view_well_formed(&self)
        ensures
            self@.well_formed(),
    {
    }

    /// The side to move.
    pub fn current_turn(&self) -> (turn: PieceColor)
        ensures
            turn == self@.current_turn,
    {
        self.current_turn
    }

    /// The number of moves played.
    pub fn move_count(&self) -> (count: u32)
        ensures
            count == self@.move_count,
    {
        self.move_count
    }

    /// The piece on `coord`, if any; fails when `coord` lies off the board.
    pub fn get_piece(&self, coord: Coordinate) -> (found: Result<Option<GamePiece>, OutOfBounds>)
        ensures
            coord.spec_on_board() ==> found == Ok::<Option<GamePiece>, OutOfBounds>(
                self@.piece_at(coord),
            ),
            !coord.spec_on_board() ==> found == Err::<Option<GamePiece>, OutOfBounds>(OutOfBounds),
    {
        if coord.on_board() {
            Ok(self.board[coord.0][coord.1])
        } else {
            Err(OutOfBounds)
        }
    }

    /// The cell between `(fx, fy)` and `(tx, ty)` when the two lie exactly
    /// two columns and two rows apart, and nothing otherwise.
    pub fn midpiece_coordinate(&self, fx: usize, fy: usize, tx: usize, ty: usize) -> (mid: Option<
        Coordinate,
    >)
        ensures
            mid == midpoint(fx, fy, tx, ty),
    {
        let columns_apart = (fx >= 2 && fx - 2 == tx) || (tx >= 2 && tx - 2 == fx);
        let rows_apart = (fy >= 2 && fy - 2 == ty) || (ty >= 2 && ty - 2 == fy);
        if columns_apart && rows_apart {
            let mx: usize = if fx < tx {
                fx + 1
            } else {
                tx + 1
            };
            let my: usize = if fy < ty {
                fy + 1
            } else {
                ty + 1
            };
            Some(Coordinate(mx, my))
        } else {
            None
        }
    }

    /// Whether `piece` is crowned when it arrives on `to`: White on row 7,
    /// Black on row 0.
    pub fn should_crown(&self, piece: GamePiece, to: Coordinate) -> (crown: bool)
        ensures
            crown == reaches_crown_row(piece.color, to),
    {
        match piece.color {
            PieceColor::White => to.1 == 7,
            PieceColor::Black => to.1 == 0,
        }
    }

    /// Whether a step to `to` is valid: `to` lies on the board and is
    /// empty. Neither the piece nor the cell it comes from is looked at.
    pub fn valid_move(&self, piece: &GamePiece, from: Coordinate, to: &Coordinate) -> (valid: bool)
        ensures
            valid == self@.valid_move(*to),
    {
        if to.0 < BOARD_SIZE && to.1 < BOARD_SIZE {
            self.board[to.0][to.1].is_none()
        } else {
            false
        }
    }

    /// Whether `piece` may jump from `from` to `to`: the two cells lie two
    /// columns and two rows apart and the cell between them holds a piece
    /// of the other side. What `to` holds is not looked at.
    pub fn valid_jump(&self, piece: &GamePiece, from: Coordinate, to: &Coordinate) -> (valid: bool)
        ensures
            valid == self@.valid_jump(*piece, from, *to),
    {
        match self.midpiece_coordinate(from.0, from.1, to.0, to.1) {
            Some(mid) => {
                if mid.on_board() {
                    match self.board[mid.0][mid.1] {
                        Some(mid_piece) => mid_piece.color != piece.color,
                        None => false,
                    }
                } else {
                    false
                }
            },
            None => false,
        }
    }

    /// The moves of the piece on `loc`: its valid jumps, then its valid
    /// steps. Empty when `loc` holds no piece or lies off the board.
    pub fn valid_moves_from(&self, loc: Coordinate) -> (moves: Vec<Move>)
        ensures
            moves@ == self@.moves_from(loc),
    {
        if !loc.on_board() {
            return Vec::new();
        }
        match self.board[loc.0][loc.1] {
            Some(piece) => {
                let ghost keep_jump = self@.jump_filter(piece, loc);
                let ghost keep_step = self@.move_filter();
                let ghost make = move_starting_at(loc);
                let jump_targets = loc.jump_targets_from();
                let mut jumps: Vec<Move> = Vec::new();
                for i in 0..jump_targets.len()
                    invariant
                        keep_jump == self@.jump_filter(piece, loc),
                        make == move_starting_at(loc),
                        jumps@ == jump_targets@.take(i as int).filter(keep_jump).map_values(make),
                {
                    let target = jump_targets[i];
                    proof {
                        let seen = jump_targets@.take(i as int);
                        jump_targets@.lemma_take_succ_push(i as int);
                        seen.lemma_filter_push(target, keep_jump);
                        seen.filter(keep_jump).lemma_push_map_commute(make, target);
                    }
                    if self.valid_jump(&piece, loc, &target) {
                        jumps.push(Move { from: loc, to: target });
                    }
                }
                let step_targets = loc.move_targets_from();
                let mut steps: Vec<Move> = Vec::new();
                for i in 0..step_targets.len()
                    invariant
                        keep_step == self@.move_filter(),
                        make == move_starting_at(loc),
                        steps@ == step_targets@.take(i as int).filter(keep_step).map_values(make),
                {
                    let target = step_targets[i];
                    proof {
                        let seen = step_targets@.take(i as int);
                        step_targets@.lemma_take_succ_push(i as int);
                        seen.lemma_filter_push(target, keep_step);
                        seen.filter(keep_step).lemma_push_map_commute(make, target);
                    }
                    if self.valid_move(&piece, loc, &target) {
                        steps.push(Move { from: loc, to: target });
                    }
                }
                proof {
                    jump_targets@.lemma_take_len();
                    step_targets@.lemma_take_len();
                }
                jumps.append(&mut steps);
                jumps
            },
            None => Vec::new(),
        }
    }

    /// The legal moves of the side to move: for each cell, column by column
    /// and row by row, that holds one of its pieces, the moves of that
    /// piece. Empty when the side to move has no piece or none can move.
    pub fn legal_moves(&self) -> (moves: Vec<Move>)
        ensures
            moves@ == self@.legal_moves(),
    {
        let mut moves: Vec<Move> = Vec::new();
        for col in 0..BOARD_SIZE
            invariant
                moves@ == self@.moves_of_cells((col * 8) as nat),
        {
            for row in 0..BOARD_SIZE
                invariant
                    col < 8,
                    moves@ == self@.moves_of_cells((col * 8 + row) as nat),
            {
                let loc = Coordinate(col, row);
                assert(scan_cell((col * 8 + row) as nat) == loc);
                assert(self@.moves_of_cells((col * 8 + row + 1) as nat) == self@.moves_of_cells(
                    (col * 8 + row) as nat,
                ) + self@.moves_of_cell(loc));
                if let Some(piece) = self.board[col][row] {
                    if piece.color == self.current_turn {
                        let mut found = self.valid_moves_from(loc);
                        moves.append(&mut found);
                    }
                }
                assert(moves@ =~= self@.moves_of_cells((col * 8 + row + 1) as nat));
            }
        }
        moves
    }

    /// Plays `mv` if it is among the legal moves, and refuses it otherwise.
    ///
    /// A move that is played takes off the piece it jumps over, if any,
    /// carries its piece from `mv.from` to `mv.to`, crowns it there when it
    /// reached its crown row, hands the turn to the other side and counts
    /// one more move. A move that is refused changes nothing.
    pub fn move_piece(&mut self, mv: &Move) -> (outcome: Result<MoveResult, InvalidMove>)
        requires
            old(self)@.legal_moves().contains(*mv) ==> old(self)@.move_count < u32::MAX,
        ensures
            old(self)@.legal_moves().contains(*mv) ==> outcome == Ok::<MoveResult, InvalidMove>(
                MoveResult { mv: *mv, crowned: old(self)@.promotes(*mv) },
            ) && final(self)@ == old(self)@.apply(*mv),
            !old(self)@.legal_moves().contains(*mv) ==> outcome == Err::<MoveResult, InvalidMove>(
                InvalidMove,
            ) && final(self)@ == old(self)@,
            outcome is Ok ==> final(self)@.move_count == old(self)@.move_count + 1,
            outcome is Ok ==> final(self)@.current_turn == old(self)@.current_turn.spec_opponent(),
    {
        let legal = self.legal_moves();
        if !contains_move(&legal, mv) {
            return Err(InvalidMove);
        }
        proof {
            lemma_legal_moves_contains(self@, *mv);
        }
        let Coordinate(fx, fy) = mv.from;
        let Coordinate(tx, ty) = mv.to;
        let piece = self.board[fx][fy].unwrap();
        if let Some(mid) = self.midpiece_coordinate(fx, fy, tx, ty) {
            self.board[mid.0][mid.1] = None;
        }
        assert(self@.board =~= old(self)@.after_capture(*mv));
        self.board[tx][ty] = Some(piece);
        self.board[fx][fy] = None;
        assert(self@.board =~= old(self)@.after_capture(*mv).insert(mv.to, piece).remove(mv.from));
        let crowned = if self.should_crown(piece, mv.to) {
            self.crown_piece(mv.to);
            true
        } else {
            false
        };
        assert(self@.board =~= old(self)@.apply(*mv).board);
        self.advance_turn();
        Ok(MoveResult { mv: *mv, crowned })
    }

    /// Crowns the piece on `coord`, if there is one.
    fn crown_piece(&mut self, coord: Coordinate)
        requires
            coord.spec_on_board(),
        ensures
            final(self)@ == (GameState {
                board: if old(self)@.board.contains_key(coord) {
                    old(self)@.board.insert(coord, GamePiece::spec_crowned(old(self)@.board[coord]))
                } else {
                    old(self)@.board
                },
                ..old(self)@
            }),
    {
        match self.board[coord.0][coord.1] {
            Some(piece) => {
                self.board[coord.0][coord.1] = Some(GamePiece::crowned(piece));
                assert(self@.board =~= old(self)@.board.insert(
                    coord,
                    GamePiece::spec_crowned(old(self)@.board[coord]),
                ));
            },
            None => {},
        }
    }

    /// Hands the turn to the other side and counts one more move.
    fn advance_turn(&mut self)
        requires
            old(self)@.move_count < u32::MAX,
        ensures
            final(self)@ == (GameState {
                current_turn: old(self)@.current_turn.spec_opponent(),
                move_count: old(self)@.move_count + 1,
                ..old(self)@
            }),
    {
        self.current_turn = self.current_turn.opponent();
        self.move_count += 1;
    }
}

} // verus!

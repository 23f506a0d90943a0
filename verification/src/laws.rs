//! What holds of the rules, proved over the model of a game.

use vstd::prelude::*;
use crate::board::{Coordinate, GamePiece, Move, PieceColor};
use crate::state::{is_diagonal_step, midpoint, move_starting_at, scan_cell, GameState};

verus! {

/// A shifted cell is listed exactly when it and the cell it is taken from
/// both lie on the board, and then it is the only one listed.
pub proof fn lemma_shifted_contains(c: Coordinate, dx: int, dy: int, t: Coordinate)
    ensures
        c.spec_shifted(dx, dy).contains(t) <==> c.spec_on_board() && t.spec_on_board() && t.0
            == c.0 + dx && t.1 == c.1 + dy,
{
    let listed = c.spec_shifted(dx, dy);
    if c.spec_on_board() && 0 <= c.0 + dx < 8 && 0 <= c.1 + dy < 8 {
        assert(listed[0] == Coordinate((c.0 + dx) as usize, (c.1 + dy) as usize));
    }
}

/// The jump targets of a cell are the cells of the board that lie two
/// columns and two rows away from it.
pub proof fn lemma_jump_targets_contains(c: Coordinate, t: Coordinate)
    ensures
        c.spec_jump_targets().contains(t) <==> c.spec_on_board() && t.spec_on_board() && midpoint(
            c.0,
            c.1,
            t.0,
            t.1,
        ) is Some,
{
    broadcast use vstd::seq_lib::lemma_seq_concat_contains_all_elements;

    lemma_shifted_contains(c, 2, -2, t);
    lemma_shifted_contains(c, 2, 2, t);
    lemma_shifted_contains(c, -2, -2, t);
    lemma_shifted_contains(c, -2, 2, t);
}

/// The step targets of a cell are the cells of the board that lie one
/// column and one row away from it.
pub proof fn lemma_move_targets_contains(c: Coordinate, t: Coordinate)
    ensures
        c.spec_move_targets().contains(t) <==> c.spec_on_board() && t.spec_on_board()
            && is_diagonal_step(Move { from: c, to: t }),
{
    broadcast use vstd::seq_lib::lemma_seq_concat_contains_all_elements;

    lemma_shifted_contains(c, -1, 1, t);
    lemma_shifted_contains(c, 1, 1, t);
    lemma_shifted_contains(c, 1, -1, t);
    lemma_shifted_contains(c, -1, -1, t);
}

/// Filtering targets and turning each into a move from `from` gives the
/// moves from `from` to the targets that pass the filter.
proof fn lemma_kept_targets_contains(
    targets: Seq<Coordinate>,
    keep: spec_fn(Coordinate) -> bool,
    from: Coordinate,
    mv: Move,
)
    ensures
        targets.filter(keep).map_values(move_starting_at(from)).contains(mv) <==> mv.from == from
            && targets.contains(mv.to) && keep(mv.to),
{
    let kept = targets.filter(keep);
    let moves = kept.map_values(move_starting_at(from));
    if moves.contains(mv) {
        let i = choose|i: int| 0 <= i < moves.len() && moves[i] == mv;
        assert(kept[i] == mv.to);
        targets.lemma_filter_pred(keep, i);
        assert(kept.contains(mv.to));
        targets.lemma_filter_contains_rev(keep, mv.to);
    }
    if mv.from == from && targets.contains(mv.to) && keep(mv.to) {
        let j = choose|j: int| 0 <= j < targets.len() && targets[j] == mv.to;
        targets.lemma_filter_contains(keep, j);
        let k = choose|k: int| 0 <= k < kept.len() && kept[k] == mv.to;
        assert(moves[k] == mv);
    }
}

/// The moves of the piece on `from` are its valid jumps to the board and
/// the steps to its empty diagonal neighbours on the board, all of them
/// starting at `from`.
pub proof fn lemma_moves_from_contains(s: GameState, from: Coordinate, mv: Move)
    ensures
        s.moves_from(from).contains(mv) <==> {
            &&& mv.from == from
            &&& from.spec_on_board()
            &&& mv.to.spec_on_board()
            &&& s.board.contains_key(from)
            &&& s.valid_jump(s.board[from], from, mv.to) || (is_diagonal_step(mv) && s.valid_move(
                mv.to,
            ))
        },
{
    broadcast use vstd::seq_lib::lemma_seq_concat_contains_all_elements;

    lemma_kept_targets_contains(
        from.spec_jump_targets(),
        s.jump_filter(s.board[from], from),
        from,
        mv,
    );
    lemma_kept_targets_contains(from.spec_move_targets(), s.move_filter(), from, mv);
    lemma_jump_targets_contains(from, mv.to);
    lemma_move_targets_contains(from, mv.to);
}

/// A move is found on the first `n` cells exactly when it is legal and
/// starts on one of them.
pub proof fn lemma_moves_of_cells_contains(s: GameState, n: nat, mv: Move)
    requires
        n <= 64,
    ensures
        s.moves_of_cells(n).contains(mv) <==> s.is_legal(mv) && mv.from.0 * 8 + mv.from.1 < n,
    decreases n,
{
    broadcast use vstd::seq_lib::lemma_seq_concat_contains_all_elements;

    if n > 0 {
        let cell = scan_cell((n - 1) as nat);
        lemma_moves_of_cells_contains(s, (n - 1) as nat, mv);
        lemma_moves_from_contains(s, cell, mv);
        assert(cell.spec_on_board());
        assert(cell.0 * 8 + cell.1 == n - 1);
        assert(mv.from.spec_on_board() && mv.from.0 * 8 + mv.from.1 == n - 1 ==> mv.from == cell);
    }
}

/// The legal moves are the moves that `is_legal` accepts.
pub proof fn lemma_legal_moves_contains(s: GameState, mv: Move)
    ensures
        s.legal_moves().contains(mv) <==> s.is_legal(mv),
{
    lemma_moves_of_cells_contains(s, 64, mv);
}

/// Every legal move starts on a cell that holds a piece of the side to
/// move.
pub proof fn lemma_legal_move_starts_on_mover(s: GameState, mv: Move)
    requires
        s.legal_moves().contains(mv),
    ensures
        s.board.contains_key(mv.from),
        s.board[mv.from].color == s.current_turn,
{
    lemma_legal_moves_contains(s, mv);
}

/// A legal jump leaves the cell it starts from and the cell it jumps over
/// empty and puts the moving piece on the cell it ends on; every other
/// cell holds what it held.
pub proof fn lemma_jump_effect(s: GameState, mv: Move, mid: Coordinate)
    requires
        s.legal_moves().contains(mv),
        midpoint(mv.from.0, mv.from.1, mv.to.0, mv.to.1) == Some(mid),
    ensures
        s.apply(mv).piece_at(mv.from) is None,
        s.apply(mv).piece_at(mid) is None,
        s.apply(mv).piece_at(mv.to) == Some(s.arriving_piece(mv)),
        s.arriving_piece(mv).color == s.board[mv.from].color,
        forall|c: Coordinate|
            c != mv.from && c != mid && c != mv.to ==> #[trigger] s.apply(mv).piece_at(c)
                == s.piece_at(c),
{
    lemma_legal_moves_contains(s, mv);
}

/// A legal move that is no jump leaves the cell it starts from empty and
/// puts the moving piece on the cell it ends on, which was empty; every
/// other cell holds what it held.
pub proof fn lemma_step_effect(s: GameState, mv: Move)
    requires
        s.legal_moves().contains(mv),
        midpoint(mv.from.0, mv.from.1, mv.to.0, mv.to.1) is None,
    ensures
        s.piece_at(mv.to) is None,
        s.apply(mv).piece_at(mv.from) is None,
        s.apply(mv).piece_at(mv.to) == Some(s.arriving_piece(mv)),
        s.arriving_piece(mv).color == s.board[mv.from].color,
        forall|c: Coordinate|
            c != mv.from && c != mv.to ==> #[trigger] s.apply(mv).piece_at(c) == s.piece_at(c),
{
    lemma_legal_moves_contains(s, mv);
}

/// A White piece that a legal move brings to row 7, and a Black piece that
/// one brings to row 0, stands there crowned.
pub proof fn lemma_crowned_on_crown_row(s: GameState, mv: Move)
    requires
        s.legal_moves().contains(mv),
        (s.board[mv.from].color == PieceColor::White && mv.to.1 == 7) || (s.board[mv.from].color
            == PieceColor::Black && mv.to.1 == 0),
    ensures
        s.promotes(mv),
        s.apply(mv).piece_at(mv.to) == Some(GamePiece::spec_crowned(s.board[mv.from])),
{
    lemma_legal_moves_contains(s, mv);
}

/// No legal move takes a crown away: the moving piece arrives crowned if
/// it left crowned, and every other piece that is on the board afterwards
/// is the piece that stood on its cell before.
pub proof fn lemma_crown_is_kept(s: GameState, mv: Move, c: Coordinate)
    requires
        s.legal_moves().contains(mv),
        s.apply(mv).board.contains_key(c),
    ensures
        c == mv.to ==> s.apply(mv).board[c].color == s.board[mv.from].color && (s.board[mv.from].crowned
            ==> s.apply(mv).board[c].crowned),
        c != mv.to ==> s.board.contains_key(c) && s.apply(mv).board[c] == s.board[c],
{
    lemma_legal_moves_contains(s, mv);
}

/// A legal move hands the turn to the other side and adds one to the
/// number of moves played.
pub proof fn lemma_move_advances_turn(s: GameState, mv: Move)
    requires
        s.legal_moves().contains(mv),
    ensures
        s.apply(mv).move_count == s.move_count + 1,
        s.apply(mv).current_turn != s.current_turn,
        s.apply(mv).current_turn == s.current_turn.spec_opponent(),
{
}

/// A legal move keeps every piece on the board.
pub proof fn lemma_move_keeps_well_formed(s: GameState, mv: Move)
    requires
        s.well_formed(),
        s.legal_moves().contains(mv),
    ensures
        s.apply(mv).well_formed(),
{
    lemma_legal_moves_contains(s, mv);
}

/// The opening position has exactly 12 White pieces, all on rows 0 to 2,
/// and exactly 12 Black pieces, all on rows 5 to 7; none is crowned, Black
/// is to move and no move has been played.
pub proof fn lemma_opening_position()
    ensures
        GameState::opening().well_formed(),
        GameState::opening().cells_of(PieceColor::White).finite(),
        GameState::opening().cells_of(PieceColor::White).len() == 12,
        GameState::opening().cells_of(PieceColor::Black).finite(),
        GameState::opening().cells_of(PieceColor::Black).len() == 12,
        forall|c: Coordinate| #[trigger]
            GameState::opening().board.contains_key(c) ==> !GameState::opening().board[c].crowned,
        forall|c: Coordinate| #[trigger]
            GameState::opening().cells_of(PieceColor::White).contains(c) ==> c.1 <= 2,
        forall|c: Coordinate| #[trigger]
            GameState::opening().cells_of(PieceColor::Black).contains(c) ==> 5 <= c.1 <= 7,
        GameState::opening().current_turn == PieceColor::Black,
        GameState::opening().move_count == 0,
{
    broadcast use vstd::set::group_set_axioms;

    let white = set![
        Coordinate(1, 0),
        Coordinate(3, 0),
        Coordinate(5, 0),
        Coordinate(7, 0),
        Coordinate(0, 1),
        Coordinate(2, 1),
        Coordinate(4, 1),
        Coordinate(6, 1),
        Coordinate(1, 2),
        Coordinate(3, 2),
        Coordinate(5, 2),
        Coordinate(7, 2),
    ];
    let black = set![
        Coordinate(0, 5),
        Coordinate(2, 5),
        Coordinate(4, 5),
        Coordinate(6, 5),
        Coordinate(1, 6),
        Coordinate(3, 6),
        Coordinate(5, 6),
        Coordinate(7, 6),
        Coordinate(0, 7),
        Coordinate(2, 7),
        Coordinate(4, 7),
        Coordinate(6, 7),
    ];
    assert(GameState::opening().cells_of(PieceColor::White) =~= white);
    assert(GameState::opening().cells_of(PieceColor::Black) =~= black);
    assert(white.len() == 12);
    assert(black.len() == 12);
}

} // verus!

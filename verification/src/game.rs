//! The board model and the rule engine: a 3x3 grid of optional marks, move
//! validation and application, and the derivation of the game status from a
//! board snapshot.

use vstd::prelude::*;

use crate::player::Player;

verus! {

/// The derived outcome of a board: play goes on, one player has a complete
/// line, or the board is full with no winner.
#[derive(Clone, Copy, PartialEq, Eq, Structural, Debug)]
pub enum GameState {
    Playing,
    Won(Player),
    Draw,
}

/// A 3x3 grid of cells, row-major; `None` is an unoccupied cell.
pub type Board = [[Option<Player>; 3]; 3];

/// The error a rejected move reports: the attempted coordinates, which either
/// fall out of range or name an occupied cell.
#[derive(Clone, Copy, PartialEq, Eq, Structural, Debug)]
pub struct InvalidMove {
    pub row: usize,
    pub col: usize,
}

/// The winner of one line of three cells: the player holding all three, if
/// the three cells are occupied and agree.
pub open spec fn spec_line_winner(
    a: Option<Player>,
    b: Option<Player>,
    c: Option<Player>,
) -> Option<Player> {
    if a is Some && a == b && b == c {
        a
    } else {
        None
    }
}

/// The earlier of two optional winners, in enumeration order.
pub open spec fn first_some(a: Option<Player>, b: Option<Player>) -> Option<Player> {
    if a is Some {
        a
    } else {
        b
    }
}

/// The winner of row `r`, if that row is complete.
pub open spec fn spec_row_winner(b: Board, r: int) -> Option<Player> {
    spec_line_winner(b[r][0], b[r][1], b[r][2])
}

/// The winner of column `c`, if that column is complete.
pub open spec fn spec_col_winner(b: Board, c: int) -> Option<Player> {
    spec_line_winner(b[0][c], b[1][c], b[2][c])
}

/// The winner of the main diagonal, if it is complete.
pub open spec fn spec_diag_winner(b: Board) -> Option<Player> {
    spec_line_winner(b[0][0], b[1][1], b[2][2])
}

/// The winner of the anti-diagonal, if it is complete.
pub open spec fn spec_anti_diag_winner(b: Board) -> Option<Player> {
    spec_line_winner(b[0][2], b[1][1], b[2][0])
}

/// The winner of the first complete line in the fixed enumeration order:
/// rows top to bottom, then columns left to right, then the main diagonal,
/// then the anti-diagonal.
pub open spec fn spec_winner(b: Board) -> Option<Player> {
    first_some(
        spec_row_winner(b, 0),
        first_some(
            spec_row_winner(b, 1),
            first_some(
                spec_row_winner(b, 2),
                first_some(
                    spec_col_winner(b, 0),
                    first_some(
                        spec_col_winner(b, 1),
                        first_some(
                            spec_col_winner(b, 2),
                            first_some(spec_diag_winner(b), spec_anti_diag_winner(b)),
                        ),
                    ),
                ),
            ),
        ),
    )
}

/// Whether player `p` holds some complete line, wherever it lies.
pub open spec fn wins(b: Board, p: Player) -> bool {
    ||| exists|r: int| 0 <= r < 3 && spec_row_winner(b, r) == Some(p)
    ||| exists|c: int| 0 <= c < 3 && spec_col_winner(b, c) == Some(p)
    ||| spec_diag_winner(b) == Some(p)
    ||| spec_anti_diag_winner(b) == Some(p)
}

/// Whether every cell of the board is occupied.
pub open spec fn board_full(b: Board) -> bool {
    forall|i: int, j: int| 0 <= i < 3 && 0 <= j < 3 ==> b[i][j] is Some
}

/// The status a board derives: a win for the first complete line in
/// enumeration order; else a draw when the board is full; else play goes on.
pub open spec fn spec_game_state(b: Board) -> GameState {
    match spec_winner(b) {
        Some(p) => GameState::Won(p),
        None => if board_full(b) {
            GameState::Draw
        } else {
            GameState::Playing
        },
    }
}

/// Whether (row, col) names a cell on the board that is still unoccupied.
pub open spec fn spec_valid_move(b: Board, row: usize, col: usize) -> bool {
    row < 3 && col < 3 && b[row as int][col as int] is None
}

/// A winner found by the enumeration order holds a complete line, and some
/// line is complete exactly when one of the two players holds a complete line.
pub proof fn lemma_winner_characterization(b: Board)
    ensures
        spec_winner(b) matches Some(p) ==> wins(b, p),
        spec_winner(b) is Some <==> (wins(b, Player::X) || wins(b, Player::O)),
{
}

/// The derived status is a function of the cells alone: boards that agree on
/// every cell derive the same status. With the exact contracts of
/// `GameLogic::make_move` and `GameLogic::check_game_state`, applying the
/// same move to the same board therefore always yields the same status.
pub proof fn lemma_status_deterministic(b1: Board, b2: Board)
    requires
        forall|i: int, j: int| 0 <= i < 3 && 0 <= j < 3 ==> b1[i][j] == b2[i][j],
    ensures
        spec_game_state(b1) == spec_game_state(b2),
{
    assert(board_full(b1) == board_full(b2));
}

/// A board with no occupied cell has no complete line and is not full, so its
/// derived status is `Playing`.
pub proof fn lemma_empty_board_playing(b: Board)
    requires
        forall|i: int, j: int| 0 <= i < 3 && 0 <= j < 3 ==> b[i][j] is None,
    ensures
        spec_game_state(b) == GameState::Playing,
{
}

/// The rule engine and the board model: pure functions on board values.
pub struct GameLogic;

impl GameLogic {
    /// Derives the status of a board: the first complete line in the fixed
    /// enumeration order decides a win; a full board with no complete line is
    /// a draw; otherwise play goes on. Total over all boards, also those that
    /// no legal play would produce.
    pub fn check_game_state(board: Board) -> (r: GameState)
        ensures
            r == spec_game_state(board),
            r matches GameState::Won(p) ==> wins(board, p),
            r is Won <==> (wins(board, Player::X) || wins(board, Player::O)),
            r is Draw <==> (!wins(board, Player::X) && !wins(board, Player::O) && board_full(
                board,
            )),
            r is Playing <==> (!wins(board, Player::X) && !wins(board, Player::O) && !board_full(
                board,
            )),
    {
        proof {
            lemma_winner_characterization(board);
        }
        if let Some(winner) = Self::check_winner(board) {
            return GameState::Won(winner);
        }
        if Self::is_board_full(board) {
            GameState::Draw
        } else {
            GameState::Playing
        }
    }

    /// The winner of the first complete line, in the fixed enumeration order,
    /// if any line is complete.
    fn check_winner(board: Board) -> (r: Option<Player>)
        ensures
            r == spec_winner(board),
    {
        let mut row: usize = 0;
        while row < 3
            invariant
                row <= 3,
                forall|i: int| 0 <= i < row ==> spec_row_winner(board, i) is None,
            decreases 3 - row,
        {
            if let Some(winner) = Self::check_line(board[row][0], board[row][1], board[row][2]) {
                return Some(winner);
            }
            row = row + 1;
        }

        let mut col: usize = 0;
        while col < 3
            invariant
                forall|i: int| 0 <= i < 3 ==> spec_row_winner(board, i) is None,
                col <= 3,
                forall|i: int| 0 <= i < col ==> spec_col_winner(board, i) is None,
            decreases 3 - col,
        {
            if let Some(winner) = Self::check_line(board[0][col], board[1][col], board[2][col]) {
                return Some(winner);
            }
            col = col + 1;
        }

        if let Some(winner) = Self::check_line(board[0][0], board[1][1], board[2][2]) {
            return Some(winner);
        }

        if let Some(winner) = Self::check_line(board[0][2], board[1][1], board[2][0]) {
            return Some(winner);
        }

        None
    }

    /// The player holding all three cells of one line, if the cells agree.
    fn check_line(a: Option<Player>, b: Option<Player>, c: Option<Player>) -> (r: Option<Player>)
        ensures
            r == spec_line_winner(a, b, c),
    {
        if let (Some(x), Some(y), Some(z)) = (a, b, c) {
            if x == y && y == z {
                return Some(x);
            }
        }
        None
    }

    /// Whether every cell of the board is occupied.
    fn is_board_full(board: Board) -> (r: bool)
        ensures
            r == board_full(board),
    {
        let mut row: usize = 0;
        while row < 3
            invariant
                row <= 3,
                forall|i: int, j: int| 0 <= i < row && 0 <= j < 3 ==> board[i][j] is Some,
            decreases 3 - row,
        {
            let mut col: usize = 0;
            while col < 3
                invariant
                    row < 3,
                    col <= 3,
                    forall|i: int, j: int| 0 <= i < row && 0 <= j < 3 ==> board[i][j] is Some,
                    forall|j: int| 0 <= j < col ==> board[row as int][j] is Some,
                decreases 3 - col,
            {
                if board[row][col].is_none() {
                    return false;
                }
                col = col + 1;
            }
            row = row + 1;
        }
        true
    }

    /// A board with every cell unoccupied.
    pub fn empty_board() -> (r: Board)
        ensures
            forall|i: int, j: int| 0 <= i < 3 && 0 <= j < 3 ==> r[i][j] is None,
    {
        [[None;3];3]
    }

    /// Whether placing at (row, col) is allowed: both coordinates in range
    /// and the target cell unoccupied. Out-of-range coordinates yield false
    /// rather than an error, so callers may probe freely.
    pub fn is_valid_move(board: Board, row: usize, col: usize) -> (r: bool)
        ensures
            r <==> spec_valid_move(board, row, col),
    {
        row < 3 && col < 3 && board[row][col].is_none()
    }

    /// Places `player` on (row, col) and returns the new board when the move
    /// is valid; otherwise reports the rejected coordinates. Exactly the
    /// target cell differs between the input board and the returned one, and
    /// the input board itself is never changed.
    pub fn make_move(board: Board, row: usize, col: usize, player: Player) -> (r: Result<
        Board,
        InvalidMove,
    >)
        ensures
            r is Ok <==> spec_valid_move(board, row, col),
            r matches Ok(nb) ==> {
                &&& nb[row as int][col as int] == Some(player)
                &&& forall|i: int, j: int|
                    0 <= i < 3 && 0 <= j < 3 && !(i == row && j == col) ==> nb[i][j] == board[i][j]
            },
            r matches Err(e) ==> e == (InvalidMove { row, col }),
    {
        if !Self::is_valid_move(board, row, col) {
            return Err(InvalidMove { row, col });
        }

        let mut new_board = board;
        let mut new_row = new_board[row];
        new_row[col] = Some(player);
        new_board[row] = new_row;
        Ok(new_board)
    }
}

} // verus!

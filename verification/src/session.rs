//! The turn controller: one running game, holding the board, the player to
//! move, and the status that the board derives. On each accepted move it
//! applies the mark, recomputes the status, and passes the turn while play
//! goes on; rejected moves leave the game untouched.

use vstd::prelude::*;

use crate::game::GameLogic;
use crate::game::GameState;
use crate::game::{spec_game_state, spec_valid_move, Board};
use crate::player::{spec_next, Player};

verus! {

/// One running game. The caller owns the state; `state` is always the status
/// that `board` derives, and `play` keeps it so.
#[derive(Clone, Copy, PartialEq, Eq, Debug)]
pub struct Game {
    /// The current board.
    pub board: Board,
    /// The player whose turn it is.
    pub current_player: Player,
    /// The status derived from `board`.
    pub state: GameState,
}

impl Game {
    /// The stored status is exactly the one the board derives.
    pub open spec fn wf(self) -> bool {
        self.state == spec_game_state(self.board)
    }

    /// A fresh game: an empty board, X to move, play in progress.
    pub fn new() -> (g: Game)
        ensures
            g.wf(),
            forall|i: int, j: int| 0 <= i < 3 && 0 <= j < 3 ==> g.board[i][j] is None,
            g.current_player == Player::X,
            g.state == GameState::Playing,
    {
        let board = GameLogic::empty_board();
        proof {
            crate::game::lemma_empty_board_playing(board);
        }
        Game { board, current_player: Player::X, state: GameState::Playing }
    }

    /// One attempted move at (row, col). When the game is over, or the cell
    /// is out of range or occupied, nothing changes. Otherwise the current
    /// player's mark lands on exactly that cell, the status is recomputed
    /// from the new board, and the turn passes exactly when play goes on.
    pub fn play(&mut self, row: usize, col: usize)
        requires
            old(self).wf(),
        ensures
            final(self).wf(),
            !(old(self).state is Playing && spec_valid_move(old(self).board, row, col))
                ==> *final(self) == *old(self),
            (old(self).state is Playing && spec_valid_move(old(self).board, row, col)) ==> {
                &&& final(self).board[row as int][col as int] == Some(old(self).current_player)
                &&& forall|i: int, j: int|
                    0 <= i < 3 && 0 <= j < 3 && !(i == row && j == col) ==> final(self).board[i][j]
                        == old(self).board[i][j]
                &&& final(self).state == spec_game_state(final(self).board)
                &&& final(self).current_player == (if final(self).state is Playing {
                    spec_next(old(self).current_player)
                } else {
                    old(self).current_player
                })
            },
    {
        if self.state != GameState::Playing {
            return;
        }
        match GameLogic::make_move(self.board, row, col, self.current_player) {
            Ok(new_board) => {
                self.board = new_board;
                self.state = GameLogic::check_game_state(new_board);
                if self.state == GameState::Playing {
                    self.current_player = self.current_player.next();
                }
            },
            Err(_) => {},
        }
    }

    /// Returns the game to its starting position: an empty board, X to move,
    /// play in progress.
    pub fn reset(&mut self)
        ensures
            final(self).wf(),
            forall|i: int, j: int| 0 <= i < 3 && 0 <= j < 3 ==> final(self).board[i][j] is None,
            final(self).current_player == Player::X,
            final(self).state == GameState::Playing,
    {
        self.board = GameLogic::empty_board();
        self.current_player = Player::X;
        self.state = GameState::Playing;
        proof {
            crate::game::lemma_empty_board_playing(self.board);
        }
    }
}

} // verus!

//! The match as a mathematical value, and the rules stated over it.

use super::board::{
    empty_board, has_winning_line, is_full, mark_count, place, well_shaped, Board, Sign, Tile,
};
use super::pubkey::Pubkey;
use vstd::prelude::*;

verus! {

/// Where a match stands.
#[derive(Clone, Copy, Debug, PartialEq, Eq)]
pub enum GameState {
    /// Moves are still accepted.
    Active,
    /// The board is full and no line holds three equal marks.
    Tie,
    /// A line holds three equal marks, written by `winner`.
    Won { winner: Pubkey },
}

impl Default for GameState {
    fn default() -> (state: Self)
        ensures
            state == GameState::Active,
    {
        GameState::Active
    }
}

/// Why a request was refused.
#[derive(Clone, Copy, Debug, PartialEq, Eq, Structural)]
pub enum TicTacToeError {
    /// The tile lies outside the board.
    TileOutOfBounds,
    /// The tile already holds a mark.
    TileAlreadySet,
    /// The match is won or tied.
    GameAlreadyOver,
    /// The move was made by the player whose turn it is not.
    NotPlayersTurn,
    /// A match needs two different players.
    InvalidSetup,
}

/// A match as a mathematical value.
#[verifier::ext_equal]
pub struct GameView {
    /// The two players: the initiator, then the opponent.
    pub players: Seq<Pubkey>,
    /// One more than the number of moves that advanced the match.
    pub turn: nat,
    pub board: Board,
    pub state: GameState,
}

impl GameView {
    /// The match that two players start: first turn, empty board, active.
    pub open spec fn initial(player_one: Pubkey, player_two: Pubkey) -> GameView {
        GameView {
            players: seq![player_one, player_two],
            turn: 1,
            board: empty_board(),
            state: GameState::Active,
        }
    }

    /// What holds of every match that was set up and played by the rules.
    ///
    /// The two players differ. While the match is active no line is
    /// complete, a cell is still empty, and the turn counts the marks on the
    /// board plus one. The move that ends a match does not advance the turn:
    /// from then on the turn equals the number of marks, and the current
    /// player is the one who made that move.
    pub open spec fn wf(self) -> bool {
        &&& self.players.len() == 2
        &&& self.players[0] != self.players[1]
        &&& well_shaped(self.board)
        &&& self.turn >= 1
        &&& match self.state {
            GameState::Active => {
                &&& !has_winning_line(self.board)
                &&& !is_full(self.board)
                &&& self.turn == mark_count(self.board) + 1
            },
            GameState::Tie => {
                &&& !has_winning_line(self.board)
                &&& is_full(self.board)
                &&& self.turn == mark_count(self.board)
            },
            GameState::Won { winner } => {
                &&& has_winning_line(self.board)
                &&& winner == self.current_player()
                &&& self.turn == mark_count(self.board)
            },
        }
    }

    /// Whether moves are still accepted.
    pub open spec fn is_active(self) -> bool {
        self.state is Active
    }

    /// The position, 0 or 1, of the player whose turn it is.
    pub open spec fn current_player_index(self) -> int {
        (self.turn - 1) % 2
    }

    /// The player whose turn it is.
    pub open spec fn current_player(self) -> Pubkey {
        self.players[self.current_player_index()]
    }

    /// The mark that the current player writes: `X` for the first player,
    /// `O` for the second.
    pub open spec fn current_sign(self) -> Sign {
        if self.current_player_index() == 0 {
            Sign::X
        } else {
            Sign::O
        }
    }

    /// Why a move to `tile` is refused, if it is: the match is over; else
    /// the tile lies outside the board; else the tile is taken.
    pub open spec fn tile_rejection(self, tile: Tile) -> Option<TicTacToeError> {
        if !self.is_active() {
            Some(TicTacToeError::GameAlreadyOver)
        } else if !tile.in_bounds() {
            Some(TicTacToeError::TileOutOfBounds)
        } else if self.board[tile.row as int][tile.column as int] is Some {
            Some(TicTacToeError::TileAlreadySet)
        } else {
            None
        }
    }

    /// Why a move by `player` to `tile` is refused, if it is: the match is
    /// over; else it is not the player's turn; else the tile lies outside
    /// the board; else the tile is taken.
    pub open spec fn move_rejection(self, player: Pubkey, tile: Tile) -> Option<TicTacToeError> {
        if !self.is_active() {
            Some(TicTacToeError::GameAlreadyOver)
        } else if player != self.current_player() {
            Some(TicTacToeError::NotPlayersTurn)
        } else {
            self.tile_rejection(tile)
        }
    }

    /// The state of a match whose board is `board` after a move by `mover`.
    pub open spec fn outcome(board: Board, mover: Pubkey) -> GameState {
        if has_winning_line(board) {
            GameState::Won { winner: mover }
        } else if is_full(board) {
            GameState::Tie
        } else {
            GameState::Active
        }
    }

    /// The match after the current player has marked `tile`: the board
    /// holds the player's mark there, the state is the outcome of that
    /// board, and the turn advances unless the move ended the match.
    pub open spec fn after_move(self, tile: Tile) -> GameView {
        let board = place(self.board, tile.row as int, tile.column as int, self.current_sign());
        let state = Self::outcome(board, self.current_player());
        GameView {
            players: self.players,
            turn: if state is Active {
                self.turn + 1
            } else {
                self.turn
            },
            board,
            state,
        }
    }

    /// The match after `player` has asked to mark `tile`: the match after
    /// the move if the move is accepted, the match as it was if not.
    pub open spec fn played(self, player: Pubkey, tile: Tile) -> GameView {
        if self.move_rejection(player, tile) is None {
            self.after_move(tile)
        } else {
            self
        }
    }

    /// The match after each of `requests`, a player and a tile, has been
    /// made in turn.
    pub open spec fn played_all(self, requests: Seq<(Pubkey, Tile)>) -> GameView
        decreases requests.len(),
    {
        if requests.len() == 0 {
            self
        } else {
            self.played(requests[0].0, requests[0].1).played_all(requests.skip(1))
        }
    }
}

} // verus!

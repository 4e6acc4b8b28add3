//! The match as it is stored, and the operations that change it.

use super::board::{
    column_wins, empty_board, has_winning_line, is_full, lemma_full_iff_nine_marks, mark_count,
    marks_in_cells, marks_in_rows, place, row_wins, winning_trio, Board, Sign, Tile,
};
use super::model::{GameState, GameView, TicTacToeError};
use super::pubkey::Pubkey;
use super::theorems::{lemma_after_move_valid, lemma_initial_match, lemma_turn_bounds};
use vstd::prelude::*;

verus! {

/// The stored cells seen as a board.
pub open spec fn board_view(cells: [[Option<Sign>; 3]; 3]) -> Board {
    Seq::new(3, |row: int| cells[row]@)
}

/// The match that is stored as the given players, turn, cells and state.
pub open spec fn parts_view(
    players: [Pubkey; 2],
    turn: u8,
    board: [[Option<Sign>; 3]; 3],
    state: GameState,
) -> GameView {
    GameView { players: players@, turn: turn as nat, board: board_view(board), state }
}

/// One match between two players.
///
/// The mark of a player is not stored: the first player writes `X`, the
/// second `O`, and the turn says who is to move.
#[derive(Clone, Copy, Debug, PartialEq, Eq)]
pub struct Game {
    players: [Pubkey; 2],
    turn: u8,
    board: [[Option<Sign>; 3]; 3],
    state: GameState,
}

impl View for Game {
    type V = GameView;

    closed spec fn view(&self) -> GameView {
        parts_view(self.players, self.turn, self.board, self.state)
    }
}

impl Game {
    /// Whether the match is one that was set up and played by the rules.
    pub open spec fn wf(&self) -> bool {
        self@.wf()
    }

    /// Whether moves are still accepted.
    pub fn is_active(&self) -> (active: bool)
        ensures
            active == self@.is_active(),
    {
        match self.state {
            GameState::Active => true,
            _ => false,
        }
    }

    fn current_player_index(&self) -> (index: usize)
        requires
            self.turn >= 1,
        ensures
            index == self@.current_player_index(),
    {
        ((self.turn - 1) % 2) as usize
    }

    /// The player whose turn it is; once the match is over, the player who
    /// made the last move.
    pub fn current_player(&self) -> (player: Pubkey)
        requires
            self@.turn >= 1,
        ensures
            player == self@.current_player(),
    {
        self.players[self.current_player_index()]
    }

    /// Marks `tile` for the current player, then settles whether the match
    /// is won, tied or goes on, and advances the turn if it goes on.
    ///
    /// The move is refused, and the match left as it was, if the match is
    /// over, if the tile lies outside the board, or if the tile is taken;
    /// the first of these that holds names the error.
    pub fn play(&mut self, tile: &Tile) -> (result: Result<(), TicTacToeError>)
        requires
            old(self).wf(),
        ensures
            final(self).wf(),
            match result {
                Ok(()) => {
                    &&& old(self)@.tile_rejection(*tile) is None
                    &&& final(self)@ == old(self)@.after_move(*tile)
                },
                Err(error) => {
                    &&& old(self)@.tile_rejection(*tile) == Some(error)
                    &&& *final(self) == *old(self)
                },
            },
    {
        if !self.is_active() {
            return Err(TicTacToeError::GameAlreadyOver);
        }
        if tile.row > 2 || tile.column > 2 {
            return Err(TicTacToeError::TileOutOfBounds);
        }
        let row: usize = tile.row as usize;
        let column: usize = tile.column as usize;
        match self.board[row][column] {
            Some(_) => {
                return Err(TicTacToeError::TileAlreadySet);
            },
            None => {
                let sign = Sign::from_usize(self.current_player_index()).unwrap();
                self.board[row][column] = Some(sign);
            },
        }
        proof {
            let before = board_view(old(self).board);
            let sign = old(self)@.current_sign();
            assert(board_view(self.board) =~= place(before, row as int, column as int, sign));
            lemma_after_move_valid(old(self)@, *tile);
            lemma_turn_bounds(old(self)@);
        }

        self.update_state();

        if let GameState::Active = self.state {
            self.turn += 1;
        }
        Ok(())
    }

    fn is_winning_trio(&self, trio: [(usize, usize); 3]) -> (wins: bool)
        requires
            forall|k: int| 0 <= k < 3 ==> (#[trigger] trio[k]).0 < 3 && trio[k].1 < 3,
        ensures
            wins == winning_trio(
                board_view(self.board),
                (trio[0].0 as int, trio[0].1 as int),
                (trio[1].0 as int, trio[1].1 as int),
                (trio[2].0 as int, trio[2].1 as int),
            ),
    {
        let first = trio[0];
        let second = trio[1];
        let third = trio[2];
        self.board[first.0][first.1].is_some()
            && self.board[first.0][first.1] == self.board[second.0][second.1]
            && self.board[second.0][second.1] == self.board[third.0][third.1]
    }

    /// Looks at all eight lines: the three rows, the three columns and both
    /// diagonals.
    fn has_winning_line(&self) -> (wins: bool)
        ensures
            wins == has_winning_line(board_view(self.board)),
    {
        let mut i: usize = 0;
        while i < 3
            invariant
                i <= 3,
                forall|k: int| 0 <= k < i ==> !row_wins(board_view(self.board), k),
                forall|k: int| 0 <= k < i ==> !column_wins(board_view(self.board), k),
            decreases 3 - i,
        {
            if self.is_winning_trio([(i, 0), (i, 1), (i, 2)]) {
                assert(row_wins(board_view(self.board), i as int));
                return true;
            }
            if self.is_winning_trio([(0, i), (1, i), (2, i)]) {
                assert(column_wins(board_view(self.board), i as int));
                return true;
            }
            i += 1;
        }
        self.is_winning_trio([(0, 0), (1, 1), (2, 2)])
            || self.is_winning_trio([(0, 2), (1, 1), (2, 0)])
    }

    fn count_marks(&self) -> (count: u8)
        ensures
            count == mark_count(board_view(self.board)),
    {
        let mut count: u8 = 0;
        let mut row: usize = 0;
        while row < 3
            invariant
                row <= 3,
                count <= 3 * row,
                count == marks_in_rows(board_view(self.board), row as int),
            decreases 3 - row,
        {
            let ghost before = count;
            let mut column: usize = 0;
            while column < 3
                invariant
                    row < 3,
                    column <= 3,
                    before <= 3 * row,
                    count <= before + column,
                    count == before + marks_in_cells(
                        board_view(self.board),
                        row as int,
                        column as int,
                    ),
                decreases 3 - column,
            {
                if self.board[row][column].is_some() {
                    count += 1;
                }
                column += 1;
            }
            row += 1;
        }
        count
    }

    fn is_full(&self) -> (full: bool)
        ensures
            full == is_full(board_view(self.board)),
    {
        proof {
            lemma_full_iff_nine_marks(board_view(self.board));
        }
        self.count_marks() == 9
    }

    /// Settles the state after a mark was written: won by the current
    /// player if any line is complete; else tied if the board is full; else
    /// as it was. The lines are all looked at before the board is asked
    /// whether it is full.
    fn update_state(&mut self)
        requires
            old(self).turn >= 1,
        ensures
            final(self).players == old(self).players,
            final(self).turn == old(self).turn,
            final(self).board == old(self).board,
            final(self).state == if has_winning_line(board_view(old(self).board)) {
                GameState::Won { winner: old(self)@.current_player() }
            } else if is_full(board_view(old(self).board)) {
                GameState::Tie
            } else {
                old(self).state
            },
    {
        if self.has_winning_line() {
            self.state = GameState::Won { winner: self.current_player() };
        } else if self.is_full() {
            self.state = GameState::Tie;
        }
    }

    /// The match stored as the given players, turn, cells and state, if
    /// these make up a match that was set up and played by the rules.
    pub fn from_parts(
        players: [Pubkey; 2],
        turn: u8,
        board: [[Option<Sign>; 3]; 3],
        state: GameState,
    ) -> (game: Option<Game>)
        ensures
            game is Some <==> parts_view(players, turn, board, state).wf(),
            game matches Some(g) ==> g@ == parts_view(players, turn, board, state),
    {
        let game = Game { players, turn, board, state };
        if game.players[0] == game.players[1] || game.turn == 0 {
            return None;
        }
        let marks: u8 = game.count_marks();
        let won: bool = game.has_winning_line();
        proof {
            lemma_full_iff_nine_marks(board_view(board));
        }
        let valid: bool = match game.state {
            GameState::Active => !won && marks < 9 && game.turn == marks + 1,
            GameState::Tie => !won && marks == 9 && game.turn == marks,
            GameState::Won { winner } => {
                won && winner == game.current_player() && game.turn == marks
            },
        };
        if valid {
            Some(game)
        } else {
            None
        }
    }

    /// The two players: the initiator, then the opponent.
    pub fn players(&self) -> (players: [Pubkey; 2])
        ensures
            players@ == self@.players,
    {
        self.players
    }

    /// One more than the number of moves that advanced the match.
    pub fn turn(&self) -> (turn: u8)
        ensures
            turn == self@.turn,
    {
        self.turn
    }

    /// The cells, row by row.
    pub fn board(&self) -> (board: [[Option<Sign>; 3]; 3])
        ensures
            board_view(board) == self@.board,
    {
        self.board
    }

    /// Where the match stands.
    pub fn state(&self) -> (state: GameState)
        ensures
            state == self@.state,
    {
        self.state
    }
}

/// Starts a match between `player_one`, who moves first and writes `X`, and
/// `player_two`, who writes `O`. A player cannot play against themselves.
pub fn setup_game(player_one: Pubkey, player_two: Pubkey) -> (result: Result<Game, TicTacToeError>)
    ensures
        match result {
            Ok(game) => {
                &&& player_one != player_two
                &&& game.wf()
                &&& game@ == GameView::initial(player_one, player_two)
            },
            Err(error) => error == TicTacToeError::InvalidSetup && player_one == player_two,
        },
{
    if player_one == player_two {
        return Err(TicTacToeError::InvalidSetup);
    }
    let game = Game {
        players: [player_one, player_two],
        turn: 1,
        board: [[None, None, None], [None, None, None], [None, None, None]],
        state: GameState::Active,
    };
    proof {
        assert(game@.players =~= seq![player_one, player_two]);
        assert forall|row: int| 0 <= row < 3 implies
            #[trigger] game@.board[row] =~= empty_board()[row] by {}
        assert(game@.board =~= empty_board());
        lemma_initial_match(player_one, player_two);
    }
    Ok(game)
}

/// Lets `player` mark `tile` in `game`.
///
/// The move is refused, and the match left as it was, if the match is over,
/// if it is not the player's turn, if the tile lies outside the board, or
/// if the tile is taken; the first of these that holds names the error.
/// An accepted move writes the player's mark, settles whether the match is
/// won, tied or goes on, and advances the turn if it goes on.
pub fn play(game: &mut Game, player: Pubkey, tile: Tile) -> (result: Result<(), TicTacToeError>)
    requires
        old(game).wf(),
    ensures
        final(game).wf(),
        final(game)@ == old(game)@.played(player, tile),
        match result {
            Ok(()) => old(game)@.move_rejection(player, tile) is None,
            Err(error) => {
                &&& old(game)@.move_rejection(player, tile) == Some(error)
                &&& *final(game) == *old(game)
            },
        },
{
    if !game.is_active() {
        return Err(TicTacToeError::GameAlreadyOver);
    }
    if !(game.current_player() == player) {
        return Err(TicTacToeError::NotPlayersTurn);
    }
    game.play(&tile)
}

} // verus!

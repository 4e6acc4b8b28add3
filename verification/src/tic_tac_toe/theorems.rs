//! What holds of every match, proved from the rules in [`super::model`].

use super::board::{
    anti_diagonal_wins, column_wins, diagonal_wins, has_winning_line, is_full,
    lemma_full_iff_nine_marks, lemma_mark_count, lemma_place, mark_count, place, row_wins, Sign,
    Tile,
};
use super::model::{GameState, GameView, TicTacToeError};
use super::pubkey::Pubkey;
use vstd::prelude::*;

verus! {

/// A match between two different players starts out valid, and its first
/// move belongs to the first player, who writes `X`.
pub proof fn lemma_initial_match(player_one: Pubkey, player_two: Pubkey)
    requires
        player_one != player_two,
    ensures
        GameView::initial(player_one, player_two).wf(),
        GameView::initial(player_one, player_two).current_player() == player_one,
        GameView::initial(player_one, player_two).current_sign() == Sign::X,
{
    let game = GameView::initial(player_one, player_two);
    lemma_mark_count(game.board);
    lemma_full_iff_nine_marks(game.board);
}

/// An accepted move leaves a valid match valid.
pub proof fn lemma_after_move_valid(game: GameView, tile: Tile)
    requires
        game.wf(),
        game.tile_rejection(tile) is None,
    ensures
        game.after_move(tile).wf(),
        mark_count(game.after_move(tile).board) == mark_count(game.board) + 1,
{
    let row = tile.row as int;
    let column = tile.column as int;
    let after = place(game.board, row, column, game.current_sign());
    lemma_place(game.board, row, column, game.current_sign());
    lemma_full_iff_nine_marks(game.board);
    lemma_full_iff_nine_marks(after);
}

/// Whatever is asked of a valid match, accepted or refused, the match stays
/// valid and keeps its two players.
pub proof fn lemma_played_valid(game: GameView, player: Pubkey, tile: Tile)
    requires
        game.wf(),
    ensures
        game.played(player, tile).wf(),
        game.played(player, tile).players == game.players,
{
    if game.move_rejection(player, tile) is None {
        lemma_after_move_valid(game, tile);
    }
}

/// However many requests are made of a valid match, and whatever they are,
/// the match stays valid and keeps its two players.
pub proof fn lemma_played_all_valid(game: GameView, requests: Seq<(Pubkey, Tile)>)
    requires
        game.wf(),
    ensures
        game.played_all(requests).wf(),
        game.played_all(requests).players == game.players,
    decreases requests.len(),
{
    if requests.len() > 0 {
        lemma_played_valid(game, requests[0].0, requests[0].1);
        lemma_played_all_valid(game.played(requests[0].0, requests[0].1), requests.skip(1));
    }
}

/// The current player is one of the two players: the first on odd turns,
/// the second on even turns.
pub proof fn lemma_current_player(game: GameView)
    requires
        game.wf(),
    ensures
        game.turn % 2 == 1 ==> {
            &&& game.current_player() == game.players[0]
            &&& game.current_sign() == Sign::X
        },
        game.turn % 2 == 0 ==> {
            &&& game.current_player() == game.players[1]
            &&& game.current_sign() == Sign::O
        },
        Sign::of_index(game.current_player_index()) == Some(game.current_sign()),
{
}

/// Turns alternate: after an accepted move that does not end the match, the
/// current player is the other of the two players, and writes the other
/// mark.
pub proof fn lemma_turns_alternate(game: GameView, player: Pubkey, tile: Tile)
    requires
        game.wf(),
        game.move_rejection(player, tile) is None,
        game.played(player, tile).is_active(),
    ensures
        player == game.current_player(),
        game.played(player, tile).turn == game.turn + 1,
        game.played(player, tile).current_player() != game.current_player(),
        game.current_player() == game.players[0]
            ==> game.played(player, tile).current_player() == game.players[1],
        game.current_player() == game.players[1]
            ==> game.played(player, tile).current_player() == game.players[0],
        game.played(player, tile).current_sign() != game.current_sign(),
{
}

/// The movers of two accepted moves in a row are the two players, one
/// each.
pub proof fn lemma_movers_alternate(
    game: GameView,
    first: Pubkey,
    first_tile: Tile,
    second: Pubkey,
    second_tile: Tile,
)
    requires
        game.wf(),
        game.move_rejection(first, first_tile) is None,
        game.played(first, first_tile).move_rejection(second, second_tile) is None,
    ensures
        first != second,
        first == game.players[0] ==> second == game.players[1],
        first == game.players[1] ==> second == game.players[0],
        first == game.players[0] || first == game.players[1],
{
    lemma_turns_alternate(game, first, first_tile);
}

/// The move that ends a match does not advance the turn: the current player
/// of the finished match is the player who made that move.
pub proof fn lemma_last_move_keeps_turn(game: GameView, player: Pubkey, tile: Tile)
    requires
        game.wf(),
        game.move_rejection(player, tile) is None,
        !game.played(player, tile).is_active(),
    ensures
        game.played(player, tile).turn == game.turn,
        game.played(player, tile).current_player() == player,
{
}

/// A refused request changes nothing, so asking again is refused for the
/// same reason, however often it is asked.
pub proof fn lemma_refusal_is_idempotent(
    game: GameView,
    player: Pubkey,
    tile: Tile,
    requests: Seq<(Pubkey, Tile)>,
)
    requires
        game.move_rejection(player, tile) is Some,
        forall|i: int| 0 <= i < requests.len() ==> #[trigger] requests[i] == (player, tile),
    ensures
        game.played(player, tile) == game,
        game.played_all(requests) == game,
        game.played_all(requests).move_rejection(player, tile)
            == game.move_rejection(player, tile),
    decreases requests.len(),
{
    if requests.len() > 0 {
        assert(requests[0] == (player, tile));
        lemma_refusal_is_idempotent(game, player, tile, requests.skip(1));
    }
}

/// A move to a tile that holds a mark is always refused and changes
/// nothing; when the match is active and it is the player's turn, the
/// reason given is that the tile is taken.
pub proof fn lemma_occupied_tile_is_refused(game: GameView, player: Pubkey, tile: Tile)
    requires
        tile.in_bounds(),
        game.board[tile.row as int][tile.column as int] is Some,
    ensures
        game.move_rejection(player, tile) is Some,
        game.is_active() && player == game.current_player()
            ==> game.move_rejection(player, tile) == Some(TicTacToeError::TileAlreadySet),
        game.played(player, tile) == game,
{
}

/// Once a match is won or tied, every request is refused because the match
/// is over, and no sequence of requests changes it.
pub proof fn lemma_finished_match_is_frozen(game: GameView, requests: Seq<(Pubkey, Tile)>)
    requires
        !game.is_active(),
    ensures
        forall|player: Pubkey, tile: Tile|
            #[trigger] game.move_rejection(player, tile)
                == Some(TicTacToeError::GameAlreadyOver),
        forall|player: Pubkey, tile: Tile| #[trigger] game.played(player, tile) == game,
        game.played_all(requests) == game,
    decreases requests.len(),
{
    if requests.len() > 0 {
        lemma_finished_match_is_frozen(game, requests.skip(1));
    }
}

/// A move that completes a line, be it a row, a column or either diagonal,
/// wins the match at once for the player who made it.
pub proof fn lemma_completed_line_wins(game: GameView, player: Pubkey, tile: Tile)
    requires
        game.wf(),
        game.move_rejection(player, tile) is None,
        has_winning_line(game.played(player, tile).board),
    ensures
        game.played(player, tile).state == (GameState::Won { winner: player }),
        player == game.players[0] || player == game.players[1],
{
}

/// Every complete line on the board after an accepted move is made of the
/// mover's mark: the opponent has none.
pub proof fn lemma_complete_lines_are_the_movers(game: GameView, player: Pubkey, tile: Tile)
    requires
        game.wf(),
        game.move_rejection(player, tile) is None,
    ensures
        ({
            let board = game.played(player, tile).board;
            let mark = Some(game.current_sign());
            &&& forall|i: int|
                0 <= i < 3 && #[trigger] row_wins(board, i) ==> board[i][0] == mark
            &&& forall|i: int|
                0 <= i < 3 && #[trigger] column_wins(board, i) ==> board[0][i] == mark
            &&& diagonal_wins(board) ==> board[1][1] == mark
            &&& anti_diagonal_wins(board) ==> board[1][1] == mark
        }),
{
    let row = tile.row as int;
    let column = tile.column as int;
    let before = game.board;
    let board = game.played(player, tile).board;
    let mark = Some(game.current_sign());
    lemma_place(before, row, column, game.current_sign());
    assert forall|i: int| 0 <= i < 3 && #[trigger] row_wins(board, i) implies
        board[i][0] == mark by {
        assert(!row_wins(before, i));
    }
    assert forall|i: int| 0 <= i < 3 && #[trigger] column_wins(board, i) implies
        board[0][i] == mark by {
        assert(!column_wins(before, i));
    }
}

/// A move that fills the board without completing a line ties the match.
pub proof fn lemma_full_board_ties(game: GameView, player: Pubkey, tile: Tile)
    requires
        game.wf(),
        game.move_rejection(player, tile) is None,
        is_full(game.played(player, tile).board),
        !has_winning_line(game.played(player, tile).board),
    ensures
        game.played(player, tile).state == GameState::Tie,
        game.played(player, tile).turn == 9,
{
    lemma_after_move_valid(game, tile);
    lemma_full_iff_nine_marks(game.played(player, tile).board);
}

/// A move that neither completes a line nor fills the board leaves the
/// match active.
pub proof fn lemma_open_board_goes_on(game: GameView, player: Pubkey, tile: Tile)
    requires
        game.wf(),
        game.move_rejection(player, tile) is None,
        !is_full(game.played(player, tile).board),
        !has_winning_line(game.played(player, tile).board),
    ensures
        game.played(player, tile).state == GameState::Active,
{
}

/// The state of a valid match says what is on its board: the match is won
/// exactly when a line is complete, tied exactly when the board is full
/// without a complete line, and active otherwise.
pub proof fn lemma_state_matches_board(game: GameView)
    requires
        game.wf(),
    ensures
        game.state is Won <==> has_winning_line(game.board),
        game.state is Tie <==> is_full(game.board) && !has_winning_line(game.board),
        game.state is Active <==> !is_full(game.board) && !has_winning_line(game.board),
        game.state == GameView::outcome(game.board, game.current_player()),
{
}

/// A match takes at most nine moves: the turn of a valid match lies
/// between 1 and 9, and an active match has played one move less than its
/// turn says.
pub proof fn lemma_turn_bounds(game: GameView)
    requires
        game.wf(),
    ensures
        1 <= game.turn <= 9,
        mark_count(game.board) <= 9,
        game.is_active() ==> mark_count(game.board) == game.turn - 1,
        !game.is_active() ==> mark_count(game.board) == game.turn,
{
    lemma_full_iff_nine_marks(game.board);
}

/// The winner of a won match is one of its two players.
pub proof fn lemma_winner_is_a_player(game: GameView)
    requires
        game.wf(),
        game.state is Won,
    ensures
        game.state->winner == game.players[0] || game.state->winner == game.players[1],
{
}

/// No request clears or overwrites a mark: every cell that holds a mark
/// holds the same mark afterwards, and an accepted move adds exactly the
/// mover's mark at the tile.
pub proof fn lemma_marks_stay(game: GameView, player: Pubkey, tile: Tile)
    requires
        game.wf(),
    ensures
        forall|row: int, column: int|
            0 <= row < 3 && 0 <= column < 3 && (#[trigger] game.board[row][column]) is Some
                ==> game.played(player, tile).board[row][column] == game.board[row][column],
        game.move_rejection(player, tile) is None ==> ({
            let after = game.played(player, tile).board;
            &&& game.board[tile.row as int][tile.column as int] is None
            &&& after[tile.row as int][tile.column as int] == Some(game.current_sign())
            &&& forall|row: int, column: int|
                0 <= row < 3 && 0 <= column < 3 && (row != tile.row || column != tile.column)
                    ==> #[trigger] after[row][column] == game.board[row][column]
        }),
{
    if game.move_rejection(player, tile) is None {
        lemma_place(game.board, tile.row as int, tile.column as int, game.current_sign());
    }
}

/// A mark, once written, stays where it is whatever is asked afterwards.
pub proof fn lemma_marks_stay_for_good(
    game: GameView,
    requests: Seq<(Pubkey, Tile)>,
    row: int,
    column: int,
)
    requires
        game.wf(),
        0 <= row < 3,
        0 <= column < 3,
        game.board[row][column] is Some,
    ensures
        game.played_all(requests).board[row][column] == game.board[row][column],
    decreases requests.len(),
{
    if requests.len() > 0 {
        let next = game.played(requests[0].0, requests[0].1);
        lemma_played_valid(game, requests[0].0, requests[0].1);
        lemma_marks_stay(game, requests[0].0, requests[0].1);
        lemma_marks_stay_for_good(next, requests.skip(1), row, column);
    }
}

} // verus!

//! Marks, tiles and the 3×3 board on which a match is played.

use vstd::prelude::*;

verus! {

/// One of the two marks that fill the board.
#[derive(Clone, Copy, Debug, PartialEq, Eq, Structural)]
pub enum Sign {
    X,
    O,
}

impl Sign {
    /// The mark that belongs to the player at position `index` of a match's
    /// pair of players: `X` for the first, `O` for the second, none for any
    /// other position.
    pub open spec fn of_index(index: int) -> Option<Sign> {
        if index == 0 {
            Some(Sign::X)
        } else if index == 1 {
            Some(Sign::O)
        } else {
            None
        }
    }

    /// The mark of the player at position `n`, if there is such a player.
    pub fn from_usize(n: usize) -> (sign: Option<Sign>)
        ensures
            sign == Sign::of_index(n as int),
    {
        if n == 0 {
            Some(Sign::X)
        } else if n == 1 {
            Some(Sign::O)
        } else {
            None
        }
    }
}

/// The address of a cell. A tile may lie outside the board; a move to such
/// a tile is refused.
#[derive(Clone, Copy, Debug, PartialEq, Eq, Structural)]
pub struct Tile {
    pub row: u8,
    pub column: u8,
}

impl Tile {
    /// Whether the tile is one of the nine cells of the board.
    pub open spec fn in_bounds(self) -> bool {
        self.row <= 2 && self.column <= 2
    }
}

/// The board as a mathematical value: three rows of three cells, each empty
/// or holding a mark.
pub type Board = Seq<Seq<Option<Sign>>>;

/// A cell address in specifications: row and column.
pub type Cell = (int, int);

/// Whether `board` has three rows of three cells.
pub open spec fn well_shaped(board: Board) -> bool {
    &&& board.len() == 3
    &&& forall|row: int| 0 <= row < 3 ==> (#[trigger] board[row]).len() == 3
}

/// The board with no mark on it.
pub open spec fn empty_board() -> Board {
    Seq::new(3, |row: int| Seq::new(3, |column: int| None::<Sign>))
}

/// The board that results from writing `sign` into the cell at `row` and
/// `column`.
pub open spec fn place(board: Board, row: int, column: int, sign: Sign) -> Board {
    board.update(row, board[row].update(column, Some(sign)))
}

/// Whether the three cells hold three equal marks.
pub open spec fn winning_trio(board: Board, first: Cell, second: Cell, third: Cell) -> bool {
    &&& board[first.0][first.1] is Some
    &&& board[first.0][first.1] == board[second.0][second.1]
    &&& board[second.0][second.1] == board[third.0][third.1]
}

/// Whether row `i` holds three equal marks.
pub open spec fn row_wins(board: Board, i: int) -> bool {
    winning_trio(board, (i, 0), (i, 1), (i, 2))
}

/// Whether column `i` holds three equal marks.
pub open spec fn column_wins(board: Board, i: int) -> bool {
    winning_trio(board, (0, i), (1, i), (2, i))
}

/// Whether the diagonal from the top left holds three equal marks.
pub open spec fn diagonal_wins(board: Board) -> bool {
    winning_trio(board, (0, 0), (1, 1), (2, 2))
}

/// Whether the diagonal from the top right holds three equal marks.
pub open spec fn anti_diagonal_wins(board: Board) -> bool {
    winning_trio(board, (0, 2), (1, 1), (2, 0))
}

/// Whether any of the eight lines (three rows, three columns, two
/// diagonals) holds three equal marks.
pub open spec fn has_winning_line(board: Board) -> bool {
    ||| exists|i: int| 0 <= i < 3 && #[trigger] row_wins(board, i)
    ||| exists|i: int| 0 <= i < 3 && #[trigger] column_wins(board, i)
    ||| diagonal_wins(board)
    ||| anti_diagonal_wins(board)
}

/// Whether every cell holds a mark.
pub open spec fn is_full(board: Board) -> bool {
    forall|row: int, column: int|
        0 <= row < 3 && 0 <= column < 3 ==> (#[trigger] board[row][column]) is Some
}

/// 1 if the cell holds a mark, 0 if it is empty.
pub open spec fn mark_at(board: Board, row: int, column: int) -> nat {
    if board[row][column] is Some {
        1
    } else {
        0
    }
}

/// The number of marks among the first `columns` cells of row `row`.
pub open spec fn marks_in_cells(board: Board, row: int, columns: int) -> nat
    decreases columns,
{
    if columns <= 0 {
        0
    } else {
        marks_in_cells(board, row, columns - 1) + mark_at(board, row, columns - 1)
    }
}

/// The number of marks in the first `rows` rows.
pub open spec fn marks_in_rows(board: Board, rows: int) -> nat
    decreases rows,
{
    if rows <= 0 {
        0
    } else {
        marks_in_rows(board, rows - 1) + marks_in_cells(board, rows - 1, 3)
    }
}

/// The number of marks on the board.
pub open spec fn mark_count(board: Board) -> nat {
    marks_in_rows(board, 3)
}

/// The marks on the board are the marks of its nine cells.
pub proof fn lemma_mark_count(board: Board)
    ensures
        mark_count(board)
            == mark_at(board, 0, 0) + mark_at(board, 0, 1) + mark_at(board, 0, 2)
            + mark_at(board, 1, 0) + mark_at(board, 1, 1) + mark_at(board, 1, 2)
            + mark_at(board, 2, 0) + mark_at(board, 2, 1) + mark_at(board, 2, 2),
{
    reveal_with_fuel(marks_in_cells, 4);
    reveal_with_fuel(marks_in_rows, 4);
}

/// A board is full exactly when it holds nine marks.
pub proof fn lemma_full_iff_nine_marks(board: Board)
    requires
        well_shaped(board),
    ensures
        mark_count(board) <= 9,
        is_full(board) <==> mark_count(board) == 9,
{
    lemma_mark_count(board);
    if mark_count(board) == 9 {
        assert forall|row: int, column: int| 0 <= row < 3 && 0 <= column < 3 implies
            (#[trigger] board[row][column]) is Some by {
            assert(mark_at(board, row, column) == 1);
        }
    }
    if is_full(board) {
        assert(board[0][0] is Some && board[0][1] is Some && board[0][2] is Some);
        assert(board[1][0] is Some && board[1][1] is Some && board[1][2] is Some);
        assert(board[2][0] is Some && board[2][1] is Some && board[2][2] is Some);
    }
}

/// Writing a mark into an empty cell adds one mark and changes no other
/// cell.
pub proof fn lemma_place(board: Board, row: int, column: int, sign: Sign)
    requires
        well_shaped(board),
        0 <= row < 3,
        0 <= column < 3,
    ensures
        well_shaped(place(board, row, column, sign)),
        place(board, row, column, sign)[row][column] == Some(sign),
        forall|r: int, c: int|
            0 <= r < 3 && 0 <= c < 3 && (r != row || c != column)
                ==> #[trigger] place(board, row, column, sign)[r][c] == board[r][c],
        board[row][column] is None
            ==> mark_count(place(board, row, column, sign)) == mark_count(board) + 1,
{
    let after = place(board, row, column, sign);
    lemma_mark_count(board);
    lemma_mark_count(after);
    assert forall|r: int, c: int| 0 <= r < 3 && 0 <= c < 3 implies
        #[trigger] mark_at(after, r, c) == (if r == row && c == column {
            1nat
        } else {
            mark_at(board, r, c)
        }) by {}
}

} // verus!

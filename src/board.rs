//! The 3×3 board: move application, winner and draw detection, rendering.
use vstd::prelude::*;

verus! {

/// Number of cells on the board.
pub const CELLS: usize = 9;

/// Number of winning lines (3 rows, 3 columns, 2 diagonals).
pub const LINES: usize = 8;

/// The three cell indices of winning line `k`, in the order rows, columns,
/// diagonals.
pub open spec fn line(k: int) -> (int, int, int) {
    if k == 0 {
        (0, 1, 2)
    } else if k == 1 {
        (3, 4, 5)
    } else if k == 2 {
        (6, 7, 8)
    } else if k == 3 {
        (0, 3, 6)
    } else if k == 4 {
        (1, 4, 7)
    } else if k == 5 {
        (2, 5, 8)
    } else if k == 6 {
        (0, 4, 8)
    } else {
        (2, 4, 6)
    }
}

/// Line `k` holds the same symbol in all three of its cells.
pub open spec fn line_complete(b: Seq<Option<char>>, k: int) -> bool {
    let (x, y, z) = line(k);
    &&& b[x] is Some
    &&& b[x] == b[y]
    &&& b[y] == b[z]
}

/// Line `k` holds symbol `s` in all three of its cells.
pub open spec fn line_filled_with(b: Seq<Option<char>>, k: int, s: char) -> bool {
    let (x, y, z) = line(k);
    b[x] == Some(s) && b[y] == Some(s) && b[z] == Some(s)
}

/// The symbol of the first complete line at position `k` or later.
pub open spec fn winner_from(b: Seq<Option<char>>, k: int) -> Option<char>
    decreases 8 - k,
{
    if k >= 8 || k < 0 {
        None
    } else if line_complete(b, k) {
        b[line(k).0]
    } else {
        winner_from(b, k + 1)
    }
}

/// The winning symbol of a board: that of the first complete line, if any.
pub open spec fn winner(b: Seq<Option<char>>) -> Option<char> {
    winner_from(b, 0)
}

/// Some line of the board is complete.
pub open spec fn has_complete_line(b: Seq<Option<char>>) -> bool {
    exists|k: int| 0 <= k < 8 && #[trigger] line_complete(b, k)
}

/// Every cell of the board is occupied.
pub open spec fn is_full(b: Seq<Option<char>>) -> bool {
    forall|i: int| 0 <= i < b.len() ==> (#[trigger] b[i]) is Some
}

/// The board with no cell occupied.
pub open spec fn empty_board() -> Seq<Option<char>> {
    Seq::new(9, |i: int| None)
}

fn line_at(k: usize) -> (r: (usize, usize, usize))
    requires
        k < LINES,
    ensures
        r.0 == line(k as int).0,
        r.1 == line(k as int).1,
        r.2 == line(k as int).2,
        r.0 < CELLS && r.1 < CELLS && r.2 < CELLS,
{
    if k == 0 {
        (0, 1, 2)
    } else if k == 1 {
        (3, 4, 5)
    } else if k == 2 {
        (6, 7, 8)
    } else if k == 3 {
        (0, 3, 6)
    } else if k == 4 {
        (1, 4, 7)
    } else if k == 5 {
        (2, 5, 8)
    } else if k == 6 {
        (0, 4, 8)
    } else {
        (2, 4, 6)
    }
}

/// The symbol of the first winning line (rows, then columns, then diagonals)
/// whose three cells hold the same symbol, or `None` when there is none.
pub fn check_winner(board: &[Option<char>; 9]) -> (r: Option<char>)
    ensures
        r == winner(board@),
        r is Some <==> has_complete_line(board@),
{
    let mut k: usize = 0;
    while k < LINES
        invariant
            k <= LINES,
            winner_from(board@, k as int) == winner(board@),
            forall|j: int| 0 <= j < k ==> !#[trigger] line_complete(board@, j),
        decreases LINES - k,
    {
        let (a, b, c) = line_at(k);
        if let (Some(x), Some(y), Some(z)) = (board[a], board[b], board[c]) {
            if x == y && y == z {
                proof {
                    lemma_winner_some_iff_complete(board@, 0);
                }
                return Some(x);
            }
        }
        k = k + 1;
    }
    proof {
        lemma_winner_some_iff_complete(board@, 0);
    }
    None
}

proof fn lemma_winner_some_iff_complete(b: Seq<Option<char>>, k: int)
    requires
        0 <= k <= 8,
        b.len() == 9,
    ensures
        winner_from(b, k) is Some <==> exists|j: int| k <= j < 8 && #[trigger] line_complete(b, j),
    decreases 8 - k,
{
    if k < 8 {
        lemma_winner_some_iff_complete(b, k + 1);
        if line_complete(b, k) {
            assert(winner_from(b, k) is Some);
        } else {
            if exists|j: int| k <= j < 8 && #[trigger] line_complete(b, j) {
                let j = choose|j: int| k <= j < 8 && #[trigger] line_complete(b, j);
                assert(j != k);
            }
        }
    }
}

/// The label of cell `i` on an empty board: its 1-based position as a digit.
pub open spec fn position_char(i: int) -> char {
    ((i + 49) as u8) as char
}

/// How cell `i` is shown: its owner's symbol, or its 1-based position.
pub open spec fn cell_text(b: Seq<Option<char>>, i: int) -> Seq<char> {
    match b[i] {
        Some(c) => seq![c],
        None => seq![position_char(i)],
    }
}

/// What follows cell `i`: a column bar inside a row, a rule between rows,
/// nothing after the last cell.
pub open spec fn separator_text(i: int) -> Seq<char> {
    if (i + 1) % 3 != 0 {
        " | "@
    } else if i != 8 {
        "\n- + - + - \n"@
    } else {
        Seq::empty()
    }
}

/// The rendering of the first `n` cells, each followed by its separator.
pub open spec fn board_text_upto(b: Seq<Option<char>>, n: int) -> Seq<char>
    decreases n,
{
    if n <= 0 {
        Seq::empty()
    } else {
        board_text_upto(b, n - 1) + cell_text(b, n - 1) + separator_text(n - 1)
    }
}

/// The rendering of a whole board: three rows of three cells.
pub open spec fn board_text(b: Seq<Option<char>>) -> Seq<char> {
    board_text_upto(b, 9)
}

/// Relies on `char::to_string`: the string holding exactly that character.
#[verifier::external_body]
fn char_text(c: char) -> (r: String)
    ensures
        r@ == seq![c],
{
    c.to_string()
}

/// Renders the board as three text rows: each occupied cell as its symbol,
/// each empty cell as its 1-based position, cells parted by `" | "` and rows
/// by a rule line.
pub fn format_board(board: &[Option<char>; 9]) -> (r: String)
    ensures
        r@ == board_text(board@),
{
    let mut s = String::new();
    let mut i: usize = 0;
    while i < CELLS
        invariant
            i <= CELLS,
            s@ == board_text_upto(board@, i as int),
        decreases CELLS - i,
    {
        let cell = match board[i] {
            Some(c) => char_text(c),
            None => char_text(((i + 49) as u8) as char),
        };
        s.append(cell.as_str());
        if (i + 1) % 3 == 0 {
            if i != 8 {
                s.append("\n- + - + - \n");
            }
        } else {
            s.append(" | ");
        }
        i = i + 1;
    }
    s
}

/// How a round ended.
#[derive(Clone, Copy, Debug, PartialEq, Eq, Structural)]
pub enum Outcome {
    /// A line was completed with this symbol.
    Win(char),
    /// Every cell is occupied and no line is complete.
    Draw,
}

/// The outcome of a board, if the round is over: a win when some line is
/// complete, else a draw when the board is full.
pub open spec fn round_outcome(b: Seq<Option<char>>) -> Option<Outcome> {
    match winner(b) {
        Some(s) => Some(Outcome::Win(s)),
        None => if is_full(b) {
            Some(Outcome::Draw)
        } else {
            None
        },
    }
}

/// Why a symbol could not be placed.
#[derive(Clone, Copy, Debug, PartialEq, Eq, Structural)]
pub enum PlaceError {
    /// The index names no cell.
    OutOfRange,
    /// The cell already holds a symbol.
    Occupied,
}

/// A board with every cell empty.
pub fn new_board() -> (r: [Option<char>; 9])
    ensures
        r@ == empty_board(),
{
    let r: [Option<char>; 9] = [None, None, None, None, None, None, None, None, None];
    assert(r@ =~= empty_board());
    r
}

/// Places `symbol` in cell `index` (0-based) if that cell exists and is
/// empty; otherwise leaves the board as it was and says why.
pub fn apply_move(board: &mut [Option<char>; 9], index: usize, symbol: char) -> (r: Result<
    (),
    PlaceError,
>)
    ensures
        index >= CELLS ==> r == Err::<(), PlaceError>(PlaceError::OutOfRange),
        index < CELLS && old(board)@[index as int] is Some ==> r == Err::<(), PlaceError>(
            PlaceError::Occupied,
        ),
        index < CELLS && old(board)@[index as int] is None ==> r is Ok,
        r is Ok ==> final(board)@ == old(board)@.update(index as int, Some(symbol)),
        r is Err ==> *final(board) == *old(board),
{
    if index >= CELLS {
        return Err(PlaceError::OutOfRange);
    }
    if board[index].is_some() {
        return Err(PlaceError::Occupied);
    }
    board[index] = Some(symbol);
    Ok(())
}

/// Whether every cell of the board is occupied.
pub fn is_board_full(board: &[Option<char>; 9]) -> (r: bool)
    ensures
        r == is_full(board@),
{
    let mut i: usize = 0;
    while i < CELLS
        invariant
            i <= CELLS,
            forall|j: int| 0 <= j < i ==> (#[trigger] board@[j]) is Some,
        decreases CELLS - i,
    {
        if board[i].is_none() {
            return false;
        }
        i = i + 1;
    }
    true
}

/// The outcome of a board, if its round is over: the winner's symbol when a
/// line is complete, a draw when the board is full with no complete line.
pub fn evaluate(board: &[Option<char>; 9]) -> (r: Option<Outcome>)
    ensures
        r == round_outcome(board@),
{
    match check_winner(board) {
        Some(s) => Some(Outcome::Win(s)),
        None => if is_board_full(board) {
            Some(Outcome::Draw)
        } else {
            None
        },
    }
}

proof fn lemma_first_complete_line(b: Seq<Option<char>>, m: int, k: int, s: char)
    requires
        0 <= m <= k < 8,
        line_filled_with(b, k, s),
        forall|j: int| 0 <= j < 8 && #[trigger] line_complete(b, j) ==> line_filled_with(b, j, s),
    ensures
        winner_from(b, m) == Some(s),
    decreases k - m,
{
    if m < k && !line_complete(b, m) {
        lemma_first_complete_line(b, m + 1, k, s);
    }
}

/// A board on which line `k` is filled with `s`, and on which every complete
/// line is filled with `s` (no line was completed by the other symbol), has
/// `s` as its winner and its round is over with a win for `s`.
pub proof fn lemma_completed_line_wins(b: Seq<Option<char>>, k: int, s: char)
    requires
        b.len() == 9,
        0 <= k < 8,
        line_filled_with(b, k, s),
        forall|j: int| 0 <= j < 8 && #[trigger] line_complete(b, j) ==> line_filled_with(b, j, s),
    ensures
        winner(b) == Some(s),
        round_outcome(b) == Some(Outcome::Win(s)),
{
    lemma_first_complete_line(b, 0, k, s);
}

/// A full board with no complete line is a draw, and has no winner.
pub proof fn lemma_full_board_without_line_is_draw(b: Seq<Option<char>>)
    requires
        b.len() == 9,
        is_full(b),
        !has_complete_line(b),
    ensures
        winner(b) is None,
        round_outcome(b) == Some(Outcome::Draw),
{
    lemma_winner_some_iff_complete(b, 0);
}

} // verus!

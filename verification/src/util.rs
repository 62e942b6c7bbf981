//! The 3×3 grid: who owns which cell, whose turn it is, and who has won.

use vstd::prelude::*;

verus! {

/// Owner of one cell of the grid: nobody yet, or the peer that placed there,
/// named by its role. Both peers label a cell alike.
#[derive(PartialEq, Eq, Clone, Copy, Debug, Structural)]
pub enum Field {
    Empty,
    Server,
    Client,
}

/// Which end of the connection the local peer is. Fixed for a session.
#[derive(PartialEq, Eq, Clone, Copy, Debug, Structural)]
pub enum Role {
    Server,
    Client,
}

/// Why a placement was refused.
#[derive(PartialEq, Eq, Clone, Copy, Debug, Structural)]
pub enum PlacementError {
    /// The index names no cell: it is above 8.
    OutOfRange,
    /// The cell already has an owner.
    CellOccupied,
}

/// The grid and the turn flag.
#[derive(Clone, Copy)]
pub struct Board {
    playing: bool,
    board: [Field; 9],
}

/// What a [`Board`] stands for: its nine cells, row by row, and whether the
/// turn is the local peer's.
#[verifier::ext_equal]
pub struct BoardView {
    pub cells: Seq<Field>,
    pub turn: bool,
}

/// The cells `a`, `b` and `c` all hold `who`.
pub open spec fn line_owned(cells: Seq<Field>, who: Field, a: int, b: int, c: int) -> bool {
    cells[a] == who && cells[b] == who && cells[c] == who
}

/// `who` holds all of row `r`, counted from 0 at the top.
pub open spec fn row_owned(cells: Seq<Field>, who: Field, r: int) -> bool {
    line_owned(cells, who, 3 * r, 3 * r + 1, 3 * r + 2)
}

/// `who` holds all of column `c`, counted from 0 at the left.
pub open spec fn column_owned(cells: Seq<Field>, who: Field, c: int) -> bool {
    line_owned(cells, who, c, c + 3, c + 6)
}

/// `who` holds one of the eight lines: a row, a column or a diagonal.
pub open spec fn wins(cells: Seq<Field>, who: Field) -> bool {
    ||| row_owned(cells, who, 0)
    ||| row_owned(cells, who, 1)
    ||| row_owned(cells, who, 2)
    ||| column_owned(cells, who, 0)
    ||| column_owned(cells, who, 1)
    ||| column_owned(cells, who, 2)
    ||| line_owned(cells, who, 0, 4, 8)
    ||| line_owned(cells, who, 2, 4, 6)
}

/// The eight lines of the grid, each by the indices of its three cells: the
/// rows from the top, the columns from the left, and the two diagonals.
pub open spec fn lines() -> Seq<(int, int, int)> {
    seq![
        (0int, 1int, 2int),
        (3int, 4int, 5int),
        (6int, 7int, 8int),
        (0int, 3int, 6int),
        (1int, 4int, 7int),
        (2int, 5int, 8int),
        (0int, 4int, 8int),
        (2int, 4int, 6int),
    ]
}

/// `who` holds line number `k` of [`lines`].
pub open spec fn holds_line(cells: Seq<Field>, who: Field, k: int) -> bool {
    line_owned(cells, who, lines()[k].0, lines()[k].1, lines()[k].2)
}

/// A peer has won exactly when it holds one of the eight lines: each of them
/// is a win, and without one of them there is none.
pub proof fn lemma_wins_by_a_line(cells: Seq<Field>, who: Field)
    ensures
        wins(cells, who) <==> exists|k: int| 0 <= k < 8 && holds_line(cells, who, k),
{
    if wins(cells, who) {
        let k = if row_owned(cells, who, 0) {
            0int
        } else if row_owned(cells, who, 1) {
            1
        } else if row_owned(cells, who, 2) {
            2
        } else if column_owned(cells, who, 0) {
            3
        } else if column_owned(cells, who, 1) {
            4
        } else if column_owned(cells, who, 2) {
            5
        } else if line_owned(cells, who, 0, 4, 8) {
            6
        } else {
            7
        };
        assert(holds_line(cells, who, k));
    }
}

/// No cell is left to place on.
pub open spec fn full(cells: Seq<Field>) -> bool {
    forall|i: int| 0 <= i < cells.len() ==> cells[i] != Field::Empty
}

/// The game on `cells` can go on: no peer holds a line, and a cell is left.
pub open spec fn playable(cells: Seq<Field>) -> bool {
    !wins(cells, Field::Server) && !wins(cells, Field::Client) && !full(cells)
}

/// Nine cells without an owner.
pub open spec fn empty_cells() -> Seq<Field> {
    Seq::new(9, |i: int| Field::Empty)
}

/// The error that a placement at `index` meets on `cells`, if any.
pub open spec fn placement_error(cells: Seq<Field>, index: int) -> Option<PlacementError> {
    if index > 8 {
        Some(PlacementError::OutOfRange)
    } else if cells[index] != Field::Empty {
        Some(PlacementError::CellOccupied)
    } else {
        None
    }
}

/// The peer that `who` plays against.
pub open spec fn rival(who: Field) -> Field {
    match who {
        Field::Server => Field::Client,
        Field::Client => Field::Server,
        Field::Empty => Field::Empty,
    }
}

/// Who makes placement number `k` of a game that `first` opens: the two
/// peers take turns.
pub open spec fn mover(first: Field, k: int) -> Field {
    if k % 2 == 0 {
        first
    } else {
        rival(first)
    }
}

/// The cells after the placements `moves`, made in turn on an empty grid.
pub open spec fn played(moves: Seq<int>, first: Field) -> Seq<Field>
    decreases moves.len(),
{
    if moves.len() == 0 {
        empty_cells()
    } else {
        played(moves.drop_last(), first).update(moves.last(), mover(first, moves.len() - 1))
    }
}

/// `moves` is a game as the rules allow it: every placement goes to an empty
/// cell of the grid, and none is made once a peer has won.
pub open spec fn valid_play(moves: Seq<int>, first: Field) -> bool
    decreases moves.len(),
{
    moves.len() == 0 || {
        let before = played(moves.drop_last(), first);
        &&& valid_play(moves.drop_last(), first)
        &&& placement_error(before, moves.last()) is None
        &&& 0 <= moves.last()
        &&& !wins(before, Field::Server)
        &&& !wins(before, Field::Client)
    }
}

/// At no point of a game have both peers won: whoever completes a line does
/// so with the last placement, and that one leaves the rival's cells alone.
pub proof fn lemma_at_most_one_winner(moves: Seq<int>, first: Field, k: int)
    requires
        valid_play(moves, first),
        0 <= k <= moves.len(),
    ensures
        valid_play(moves.take(k), first),
        played(moves.take(k), first).len() == 9,
        !(wins(played(moves.take(k), first), Field::Server) && wins(
            played(moves.take(k), first),
            Field::Client,
        )),
    decreases moves.len(),
{
    if k == moves.len() {
        assert(moves.take(k) =~= moves);
        if moves.len() > 0 {
            let rest = moves.drop_last();
            lemma_at_most_one_winner(rest, first, rest.len() as int);
            assert(rest.take(rest.len() as int) =~= rest);
        }
    } else {
        let rest = moves.drop_last();
        lemma_at_most_one_winner(rest, first, k);
        assert(rest.take(k) =~= moves.take(k));
    }
}

/// The heading over the grid: who has won, or else whose turn it is. The
/// server plays X and the client O.
pub open spec fn spec_title(board: BoardView) -> Seq<char> {
    if wins(board.cells, Field::Server) {
        "X wins!"@
    } else if wins(board.cells, Field::Client) {
        "O wins!"@
    } else if board.turn {
        "Your turn"@
    } else {
        "Others turn"@
    }
}

/// What cell `index` shows: the mark of its owner, or, on the local peer's
/// turn, the number to type for it, counted from 1.
pub open spec fn spec_label(board: BoardView, index: int) -> char {
    match board.cells[index] {
        Field::Server => 'X',
        Field::Client => 'O',
        Field::Empty => if board.turn {
            seq!['1', '2', '3', '4', '5', '6', '7', '8', '9'][index]
        } else {
            ' '
        },
    }
}

impl View for Board {
    type V = BoardView;

    closed spec fn view(&self) -> BoardView {
        BoardView { cells: self.board@, turn: self.playing }
    }
}

impl Board {
    /// A grid always has nine cells.
    pub proof fn lemma_nine_cells(&self)
        ensures
            self@.cells.len() == 9,
    {
    }

    /// An empty grid. `playing` says whether the first turn is the local
    /// peer's.
    pub fn new(playing: bool) -> (board: Self)
        ensures
            board@.cells == empty_cells(),
            board@.turn == playing,
    {
        Self { playing, board: [Field::Empty;9] }
    }

    /// Whether the local peer can place now: the turn is its own, and the
    /// grid is still playable. Once a placement has completed a line or
    /// filled the ninth cell, this is false for good.
    pub fn is_playing(&self) -> (playing: bool)
        ensures
            playing == (self@.turn && playable(self@.cells)),
    {
        self.playing && !self.is_win(Field::Server) && !self.is_win(Field::Client)
            && !self.is_full()
    }

    /// Gives the empty cell `index` to `field_type` and passes the turn on.
    ///
    /// A refused placement leaves the grid and the turn as they were.
    pub fn place(&mut self, index: usize, field_type: Field) -> (res: Result<(), PlacementError>)
        ensures
            res == match placement_error(old(self)@.cells, index as int) {
                Some(e) => Err::<(), PlacementError>(e),
                None => Ok(()),
            },
            res is Err ==> *final(self) == *old(self),
            res is Ok ==> final(self)@.cells == old(self)@.cells.update(index as int, field_type),
            res is Ok ==> final(self)@.turn == !old(self)@.turn,
    {
        if index > 8 {
            return Err(PlacementError::OutOfRange);
        }
        if self.board[index] != Field::Empty {
            return Err(PlacementError::CellOccupied);
        }
        self.board[index] = field_type;
        self.playing = !self.playing;
        Ok(())
    }

    /// The nine cells, row by row.
    pub fn cells(&self) -> (cells: [Field; 9])
        ensures
            cells@ == self@.cells,
    {
        self.board
    }

    /// The heading to draw over the grid.
    pub fn title(&self) -> (title: &'static str)
        ensures
            title@ == spec_title(self@),
    {
        if self.is_win(Field::Server) {
            "X wins!"
        } else if self.is_win(Field::Client) {
            "O wins!"
        } else if self.playing {
            "Your turn"
        } else {
            "Others turn"
        }
    }

    /// What to draw in each of the nine cells.
    pub fn labels(&self) -> (labels: [char; 9])
        ensures
            forall|i: int| 0 <= i < 9 ==> labels@[i] == spec_label(self@, i),
    {
        let digits: [char; 9] = ['1', '2', '3', '4', '5', '6', '7', '8', '9'];
        let mut labels: [char; 9] = [' ';9];
        let mut i: usize = 0;
        while i < 9
            invariant
                i <= 9,
                digits@ =~= seq!['1', '2', '3', '4', '5', '6', '7', '8', '9'],
                forall|k: int| 0 <= k < i ==> labels@[k] == spec_label(self@, k),
            decreases 9 - i,
        {
            labels[i] = match self.board[i] {
                Field::Server => 'X',
                Field::Client => 'O',
                Field::Empty => if self.playing {
                    digits[i]
                } else {
                    ' '
                },
            };
            i += 1;
        }
        labels
    }

    /// Whether every cell has an owner.
    pub fn is_full(&self) -> (is_full: bool)
        ensures
            is_full == full(self@.cells),
    {
        let mut i: usize = 0;
        while i < 9
            invariant
                i <= 9,
                forall|k: int| 0 <= k < i ==> self.board@[k] != Field::Empty,
            decreases 9 - i,
        {
            if self.board[i] == Field::Empty {
                return false;
            }
            i += 1;
        }
        true
    }

    /// Whether `field_type` holds a full row, column or diagonal.
    pub fn is_win(&self, field_type: Field) -> (won: bool)
        ensures
            won == wins(self@.cells, field_type),
    {
        let ghost cells = self@.cells;
        let mut i: usize = 0;
        while i < 3
            invariant
                i <= 3,
                cells == self.board@,
                forall|r: int| 0 <= r < i ==> !row_owned(cells, field_type, r),
            decreases 3 - i,
        {
            if self.board[3 * i] == field_type && self.board[3 * i + 1] == field_type
                && self.board[3 * i + 2] == field_type {
                return true;
            }
            i += 1;
        }
        let mut j: usize = 0;
        while j < 3
            invariant
                j <= 3,
                cells == self.board@,
                forall|r: int| 0 <= r < 3 ==> !row_owned(cells, field_type, r),
                forall|c: int| 0 <= c < j ==> !column_owned(cells, field_type, c),
            decreases 3 - j,
        {
            if self.board[j] == field_type && self.board[j + 3] == field_type && self.board[j + 6]
                == field_type {
                return true;
            }
            j += 1;
        }
        if self.board[0] == field_type && self.board[4] == field_type && self.board[8]
            == field_type {
            return true;
        }
        self.board[2] == field_type && self.board[4] == field_type && self.board[6] == field_type
    }
}

} // verus!

//! The nine cells, the eight winning lines, and who has won.

use crate::player::Player;
use vstd::prelude::*;

verus! {

/// What one cell of the board holds.
#[derive(Clone, Copy, Debug, PartialEq, Eq, Structural)]
pub enum BoardItem {
    X,
    O,
    Empty,
}

/// The number of cells. Cell `i` lies in row `i / 3` and column `i % 3`.
pub const CELLS: usize = 9;

/// The number of winning lines.
pub const LINES: usize = 8;

/// The winning lines in the order in which they are examined: the three rows,
/// the three columns, then the two diagonals.
pub open spec fn winning_lines() -> Seq<(int, int, int)> {
    seq![
        (0, 1, 2),
        (3, 4, 5),
        (6, 7, 8),
        (0, 3, 6),
        (1, 4, 7),
        (2, 5, 8),
        (0, 4, 8),
        (2, 4, 6),
    ]
}

/// Line `k` holds three equal marks, none of them `Empty`.
pub open spec fn line_complete(cells: Seq<BoardItem>, k: int) -> bool {
    let (a, b, c) = winning_lines()[k];
    cells[a] == cells[b] && cells[a] == cells[c] && cells[a] != BoardItem::Empty
}

/// Line `k` holds three marks of `player`.
pub open spec fn line_taken_by(cells: Seq<BoardItem>, k: int, player: Player) -> bool {
    let (a, b, c) = winning_lines()[k];
    let mark = BoardItem::spec_from_player(player);
    cells[a] == mark && cells[b] == mark && cells[c] == mark
}

/// `player` has taken line `k`, and no line before it is complete.
pub open spec fn wins_at(cells: Seq<BoardItem>, k: int, player: Player) -> bool {
    &&& 0 <= k < LINES
    &&& line_taken_by(cells, k, player)
    &&& forall|j: int| 0 <= j < k ==> !line_complete(cells, j)
}

/// The first complete line at or after `from`, if there is one.
pub open spec fn first_complete_line(cells: Seq<BoardItem>, from: int) -> Option<int>
    decreases LINES - from,
{
    if from < 0 || from >= LINES {
        None
    } else if line_complete(cells, from) {
        Some(from)
    } else {
        first_complete_line(cells, from + 1)
    }
}

/// The winner that a board shows: the player whose marks fill the first
/// complete line, or nobody where no line is complete.
pub open spec fn evaluate(cells: Seq<BoardItem>) -> Option<Player> {
    match first_complete_line(cells, 0) {
        Some(k) => cells[winning_lines()[k].0].spec_player(),
        None => None,
    }
}

/// No cell is `Empty`.
pub open spec fn full(cells: Seq<BoardItem>) -> bool {
    forall|i: int| 0 <= i < cells.len() ==> cells[i] != BoardItem::Empty
}

/// The board on which nothing has been played.
pub open spec fn empty_board() -> Seq<BoardItem> {
    Seq::new(CELLS as nat, |i: int| BoardItem::Empty)
}

impl BoardItem {
    /// The mark that `player` leaves in a cell.
    pub open spec fn spec_from_player(player: Player) -> BoardItem {
        match player {
            Player::X => BoardItem::X,
            Player::O => BoardItem::O,
        }
    }

    /// The player whose mark this is; nobody for `Empty`.
    pub open spec fn spec_player(self) -> Option<Player> {
        match self {
            BoardItem::X => Some(Player::X),
            BoardItem::O => Some(Player::O),
            BoardItem::Empty => None,
        }
    }

    /// What a cell shows: the player's letter, or nothing.
    pub open spec fn spec_text(self) -> Seq<char> {
        match self.spec_player() {
            Some(player) => player.spec_text(),
            None => Seq::empty(),
        }
    }

    /// The mark that `player` leaves in a cell.
    #[verifier::when_used_as_spec(spec_from_player)]
    pub fn from_player(player: Player) -> (mark: BoardItem)
        ensures
            mark == BoardItem::spec_from_player(player),
            mark != BoardItem::Empty,
            mark.spec_player() == Some(player),
    {
        match player {
            Player::O => BoardItem::O,
            Player::X => BoardItem::X,
        }
    }

    /// The player whose mark this is; `None` for `Empty`.
    #[verifier::when_used_as_spec(spec_player)]
    pub fn player(self) -> (owner: Option<Player>)
        ensures
            owner == self.spec_player(),
    {
        match self {
            BoardItem::X => Some(Player::X),
            BoardItem::O => Some(Player::O),
            BoardItem::Empty => None,
        }
    }

    /// What a cell shows: `"X"`, `"O"`, or the empty string.
    pub fn text(self) -> (shown: &'static str)
        ensures
            shown@ == self.spec_text(),
    {
        match self {
            BoardItem::X => Player::X.text(),
            BoardItem::O => Player::O.text(),
            BoardItem::Empty => {
                proof {
                    reveal_strlit("");
                }
                assert(""@ =~= Seq::<char>::empty());
                ""
            },
        }
    }

    /// Whether no cell of the board is `Empty`.
    pub fn is_full(board: &[BoardItem; 9]) -> (all_taken: bool)
        ensures
            all_taken == full(board@),
    {
        let mut i: usize = 0;
        while i < CELLS
            invariant
                i <= CELLS,
                forall|j: int| 0 <= j < i ==> board@[j] != BoardItem::Empty,
            decreases CELLS - i,
        {
            if board[i] == BoardItem::Empty {
                return false;
            }
            i += 1;
        }
        true
    }

    /// Looks for a winner: goes through the winning lines in their fixed order
    /// and returns the player whose marks fill the first complete one.
    pub fn check_who_win(board: &[BoardItem; 9]) -> (winner: Option<Player>)
        ensures
            winner == evaluate(board@),
            winner is None <==> forall|k: int| 0 <= k < LINES ==> !line_complete(board@, k),
            forall|p: Player| winner == Some(p) <==> exists|k: int| wins_at(board@, k, p),
    {
        let win_patterns: [[usize; 3]; 8] = [
            [0, 1, 2],
            [3, 4, 5],
            [6, 7, 8],
            [0, 3, 6],
            [1, 4, 7],
            [2, 5, 8],
            [0, 4, 8],
            [2, 4, 6],
        ];
        let mut k: usize = 0;
        while k < LINES
            invariant
                k <= LINES,
                forall|j: int|
                    0 <= j < LINES ==> {
                        &&& (#[trigger] win_patterns@[j])@[0] == winning_lines()[j].0
                        &&& win_patterns@[j]@[1] == winning_lines()[j].1
                        &&& win_patterns@[j]@[2] == winning_lines()[j].2
                    },
                forall|j: int| 0 <= j < k ==> !line_complete(board@, j),
                first_complete_line(board@, 0) == first_complete_line(board@, k as int),
            decreases LINES - k,
        {
            let a: usize = win_patterns[k][0];
            let b: usize = win_patterns[k][1];
            let c: usize = win_patterns[k][2];
            if board[a] == board[b] && board[a] == board[c] {
                if board[a] != BoardItem::Empty {
                    proof {
                        assert(line_complete(board@, k as int));
                        lemma_evaluate_first_line(board@);
                    }
                    return if board[a] == BoardItem::X {
                        Some(Player::X)
                    } else {
                        Some(Player::O)
                    };
                }
            }
            k += 1;
        }
        proof {
            lemma_evaluate_first_line(board@);
        }
        None
    }
}

/// A complete line is taken by exactly the one player whose mark its first cell holds.
pub proof fn lemma_complete_line_has_owner(cells: Seq<BoardItem>, k: int)
    requires
        0 <= k < LINES,
        line_complete(cells, k),
    ensures
        cells[winning_lines()[k].0].spec_player() is Some,
        forall|p: Player|
            line_taken_by(cells, k, p) <==> cells[winning_lines()[k].0].spec_player() == Some(p),
{
}

/// `evaluate` names a player exactly where that player has taken a line and no
/// earlier line is complete, and names nobody exactly where no line is complete.
pub proof fn lemma_evaluate_first_line(cells: Seq<BoardItem>)
    ensures
        evaluate(cells) is None <==> forall|k: int| 0 <= k < LINES ==> !line_complete(cells, k),
        forall|p: Player| evaluate(cells) == Some(p) <==> exists|k: int| wins_at(cells, k, p),
{
    lemma_first_complete_line(cells, 0);
    match first_complete_line(cells, 0) {
        Some(first) => {
            lemma_complete_line_has_owner(cells, first);
            assert forall|p: Player| evaluate(cells) == Some(p) implies exists|k: int|
                wins_at(cells, k, p) by {
                assert(wins_at(cells, first, p));
            }
            assert forall|p: Player, k: int| wins_at(cells, k, p) implies evaluate(cells) == Some(
                p,
            ) by {
                assert(line_complete(cells, k));
                assert(k == first);
            }
        },
        None => {
            assert forall|p: Player, k: int| !wins_at(cells, k, p) by {
                if 0 <= k < LINES {
                    assert(!line_complete(cells, k));
                }
            }
        },
    }
}

/// Where exactly one line is complete, `evaluate` names the player who took it.
pub proof fn lemma_single_line_names_winner(cells: Seq<BoardItem>, k: int, player: Player)
    requires
        0 <= k < LINES,
        line_taken_by(cells, k, player),
        forall|j: int| 0 <= j < LINES && j != k ==> !line_complete(cells, j),
    ensures
        evaluate(cells) == Some(player),
{
    lemma_evaluate_first_line(cells);
    assert(wins_at(cells, k, player));
}

/// Where every complete line belongs to one player, and there is such a line,
/// `evaluate` names that player, whichever of the lines comes first.
pub proof fn lemma_lines_of_one_player(cells: Seq<BoardItem>, k: int, player: Player)
    requires
        0 <= k < LINES,
        line_taken_by(cells, k, player),
        forall|j: int| 0 <= j < LINES && line_complete(cells, j) ==> line_taken_by(cells, j, player),
    ensures
        evaluate(cells) == Some(player),
{
    lemma_first_complete_line(cells, 0);
    assert(line_complete(cells, k));
    let first = first_complete_line(cells, 0).unwrap();
    lemma_complete_line_has_owner(cells, first);
}

/// Where no line is complete, `evaluate` names nobody.
pub proof fn lemma_no_line_no_winner(cells: Seq<BoardItem>)
    requires
        forall|j: int| 0 <= j < LINES ==> !line_complete(cells, j),
    ensures
        evaluate(cells) is None,
{
    lemma_evaluate_first_line(cells);
}

/// The empty board has no winner and is not full.
pub proof fn lemma_empty_board(cells: Seq<BoardItem>)
    requires
        cells == empty_board(),
    ensures
        cells.len() == CELLS,
        evaluate(cells) is None,
        !full(cells),
{
    assert forall|j: int| 0 <= j < LINES implies !line_complete(cells, j) by {
        let (a, b, c) = winning_lines()[j];
        assert(0 <= a < CELLS);
    }
    lemma_no_line_no_winner(cells);
    assert(cells[0] == BoardItem::Empty);
}

/// What `first_complete_line` finds from `from` on: a complete line with no
/// complete line between `from` and it, or nothing where none is complete.
pub proof fn lemma_first_complete_line(cells: Seq<BoardItem>, from: int)
    requires
        0 <= from <= LINES,
    ensures
        match first_complete_line(cells, from) {
            Some(k) => from <= k < LINES && line_complete(cells, k) && forall|j: int|
                from <= j < k ==> !line_complete(cells, j),
            None => forall|j: int| from <= j < LINES ==> !line_complete(cells, j),
        },
    decreases LINES - from,
{
    if from < LINES && !line_complete(cells, from) {
        lemma_first_complete_line(cells, from + 1);
    }
}

} // verus!

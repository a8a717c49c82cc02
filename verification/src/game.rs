//! One session of the game: waiting to start, playing, finished.

use crate::board::{empty_board, evaluate, full, lemma_empty_board, BoardItem, CELLS};
use crate::player::Player;
use vstd::prelude::*;
use vstd::string::StringExecFns;

verus! {

/// Where a session stands.
#[derive(Clone, Copy, Debug, PartialEq, Eq, Structural)]
pub enum GamePlayState {
    /// Nothing has been played; the board does not take moves yet.
    Ready,
    /// Moves are taken in turn.
    Playing,
    /// Somebody has won, or the board is full.
    Over,
}

/// A session as a mathematical value: what `GameState` stands for.
pub struct Session {
    pub phase: GamePlayState,
    pub current_player: Player,
    pub board: Seq<BoardItem>,
    pub winner: Option<Player>,
}

/// The session before anything has happened: `Ready`, an empty board, `X` to
/// move, nobody has won.
pub open spec fn initial() -> Session {
    Session {
        phase: GamePlayState::Ready,
        current_player: Player::X,
        board: empty_board(),
        winner: None,
    }
}

/// A move on cell `index` is taken: the game is being played and the cell is free.
pub open spec fn accepts(state: Session, index: int) -> bool {
    state.phase == GamePlayState::Playing && state.board[index] == BoardItem::Empty
}

/// The board after the player to move has marked cell `index`.
pub open spec fn marked(state: Session, index: int) -> Seq<BoardItem> {
    state.board.update(index, BoardItem::spec_from_player(state.current_player))
}

/// The session after a move on cell `index`.
///
/// A move that is not accepted leaves the session as it was. An accepted one
/// marks the cell for the player to move. If that gives a winner, the session
/// is over with that winner; if it fills the board, the session is over with
/// the winner unchanged; otherwise the turn passes to the opponent.
pub open spec fn apply_move(state: Session, index: int) -> Session {
    if !accepts(state, index) {
        state
    } else {
        let board = marked(state, index);
        if evaluate(board) is Some {
            Session { phase: GamePlayState::Over, winner: evaluate(board), board, ..state }
        } else if full(board) {
            Session { phase: GamePlayState::Over, board, ..state }
        } else {
            Session { current_player: state.current_player.spec_opponent(), board, ..state }
        }
    }
}

/// The session after the start action: `Ready` becomes `Playing`; in any other
/// phase nothing changes.
pub open spec fn started(state: Session) -> Session {
    if state.phase == GamePlayState::Ready {
        Session { phase: GamePlayState::Playing, ..state }
    } else {
        state
    }
}

/// The text `" wins!"`, which follows the winner's letter.
pub open spec fn wins_suffix() -> Seq<char> {
    seq![' ', 'w', 'i', 'n', 's', '!']
}

/// The text `"Game over!"`, shown after a draw.
pub open spec fn draw_text() -> Seq<char> {
    seq!['G', 'a', 'm', 'e', ' ', 'o', 'v', 'e', 'r', '!']
}

/// What the players are told at the end: the winner's letter and `" wins!"`
/// where there is a winner, `"Game over!"` where the session is over without
/// one, and nothing otherwise.
pub open spec fn notice(state: Session) -> Option<Seq<char>> {
    match state.winner {
        Some(player) => Some(player.spec_text() + wins_suffix()),
        None => if state.phase == GamePlayState::Over {
            Some(draw_text())
        } else {
            None
        },
    }
}

/// The states that a session can be in.
///
/// The board has nine cells. Before the start nothing has been played. While
/// the game is played nobody has won and a cell is free. Once it is over the
/// winner is the one that the board shows, and where it shows none the board
/// is full.
pub open spec fn well_formed(state: Session) -> bool {
    &&& state.board.len() == CELLS
    &&& match state.phase {
        GamePlayState::Ready => state == initial(),
        GamePlayState::Playing => {
            &&& state.winner is None
            &&& evaluate(state.board) is None
            &&& !full(state.board)
        },
        GamePlayState::Over => {
            &&& state.winner == evaluate(state.board)
            &&& (state.winner is Some || full(state.board))
        },
    }
}

/// One session of the game.
#[derive(Clone, Copy, Debug, PartialEq, Eq)]
pub struct GameState {
    pub phase: GamePlayState,
    pub current_player: Player,
    pub board: [BoardItem; 9],
    pub winner: Option<Player>,
}

impl View for GameState {
    type V = Session;

    open spec fn view(&self) -> Session {
        Session {
            phase: self.phase,
            current_player: self.current_player,
            board: self.board@,
            winner: self.winner,
        }
    }
}

impl GameState {
    /// A fresh session: `Ready`, an empty board, `X` to move.
    pub fn new() -> (state: GameState)
        ensures
            state@ == initial(),
            well_formed(state@),
    {
        let state = GameState {
            phase: GamePlayState::Ready,
            current_player: Player::X,
            board: [BoardItem::Empty; 9],
            winner: None,
        };
        assert(state.board@ =~= empty_board());
        state
    }

    /// The start action. It takes a `Ready` session to `Playing` and leaves any
    /// other session as it is.
    pub fn start(&mut self)
        ensures
            final(self)@ == started(old(self)@),
            well_formed(old(self)@) ==> well_formed(final(self)@),
    {
        if self.phase == GamePlayState::Ready {
            self.phase = GamePlayState::Playing;
            proof {
                if well_formed(old(self)@) {
                    lemma_empty_board(self.board@);
                }
            }
        }
    }

    /// The player to move marks cell `index`, if the game is being played and
    /// the cell is free; otherwise nothing changes.
    pub fn make_move(&mut self, index: usize)
        requires
            index < CELLS,
        ensures
            final(self)@ == apply_move(old(self)@, index as int),
            old(self).board@[index as int] != BoardItem::Empty ==> *final(self) == *old(self),
            old(self).phase != GamePlayState::Playing ==> *final(self) == *old(self),
            accepts(old(self)@, index as int) ==> final(self).board@ == marked(
                old(self)@,
                index as int,
            ),
            accepts(old(self)@, index as int) && final(self).phase == GamePlayState::Playing
                ==> final(self).current_player == old(self).current_player.spec_opponent(),
            well_formed(old(self)@) ==> well_formed(final(self)@),
    {
        if self.board[index] != BoardItem::Empty || self.phase != GamePlayState::Playing {
            return ;
        }
        self.board[index] = BoardItem::from_player(self.current_player);
        let winner = BoardItem::check_who_win(&self.board);
        if winner.is_some() {
            self.phase = GamePlayState::Over;
            self.winner = winner;
            return ;
        }
        if BoardItem::is_full(&self.board) {
            self.phase = GamePlayState::Over;
            return ;
        }
        self.current_player = self.current_player.opponent();
    }

    /// Back to the fresh session, whatever has been played.
    pub fn reset(&mut self)
        ensures
            final(self)@ == initial(),
            well_formed(final(self)@),
    {
        self.phase = GamePlayState::Ready;
        self.current_player = Player::X;
        self.board = [BoardItem::Empty; 9];
        self.winner = None;
        assert(self.board@ =~= empty_board());
    }

    /// The message that the end of the game calls for, if the session is at
    /// its end: `"X wins!"`, `"O wins!"` or `"Game over!"`.
    pub fn notification(&self) -> (message: Option<String>)
        ensures
            match notice(self@) {
                Some(text) => message is Some && message.unwrap()@ == text,
                None => message is None,
            },
    {
        if let Some(winner) = self.winner {
            proof {
                reveal_strlit(" wins!");
                assert(" wins!"@ =~= wins_suffix());
            }
            let mut message = String::from_str(winner.text());
            message.append(" wins!");
            Some(message)
        } else if self.phase == GamePlayState::Over {
            proof {
                reveal_strlit("Game over!");
                assert("Game over!"@ =~= draw_text());
            }
            Some(String::from_str("Game over!"))
        } else {
            None
        }
    }

    /// The end of the game has been shown to the players: where a message was
    /// due the session starts afresh, and where none was due nothing changes.
    pub fn acknowledge(&mut self)
        ensures
            notice(old(self)@) is Some ==> final(self)@ == initial(),
            notice(old(self)@) is None ==> *final(self) == *old(self),
            old(self).phase == GamePlayState::Over ==> final(self)@ == initial(),
            well_formed(old(self)@) ==> well_formed(final(self)@),
    {
        if self.winner.is_some() || self.phase == GamePlayState::Over {
            self.reset();
        }
    }

    /// Whether the session waits for the start action.
    pub fn is_ready(&self) -> (ready: bool)
        ensures
            ready == (self@.phase == GamePlayState::Ready),
    {
        self.phase == GamePlayState::Ready
    }

    /// Whether the board and the status line are shown: in every phase but `Ready`.
    pub fn board_visible(&self) -> (visible: bool)
        ensures
            visible == (self@.phase != GamePlayState::Ready),
    {
        !self.is_ready()
    }
}

/// A move on a cell that is taken changes nothing, however often it is made.
pub proof fn lemma_move_on_taken_cell(state: Session, index: int)
    requires
        state.board[index] != BoardItem::Empty,
    ensures
        apply_move(state, index) == state,
        apply_move(apply_move(state, index), index) == state,
{
}

/// A move changes nothing unless the game is being played: not before the
/// start, and not once the session is over.
pub proof fn lemma_move_outside_play(state: Session, index: int)
    requires
        state.phase != GamePlayState::Playing,
    ensures
        apply_move(state, index) == state,
{
}

/// An accepted move after which the game goes on hands the turn to the other
/// player.
pub proof fn lemma_turn_passes(state: Session, index: int)
    requires
        accepts(state, index),
        apply_move(state, index).phase == GamePlayState::Playing,
    ensures
        apply_move(state, index).current_player == state.current_player.spec_opponent(),
        apply_move(state, index).current_player != state.current_player,
{
}

/// An accepted move that ends the game leaves the turn where it was: the
/// player to move is the one who moved last.
pub proof fn lemma_last_move_keeps_turn(state: Session, index: int)
    requires
        accepts(state, index),
        apply_move(state, index).phase == GamePlayState::Over,
    ensures
        apply_move(state, index).current_player == state.current_player,
{
}

/// An accepted move that completes a line ends the session, with the winner
/// that the board shows.
pub proof fn lemma_line_ends_session(state: Session, index: int)
    requires
        accepts(state, index),
        evaluate(marked(state, index)) is Some,
    ensures
        apply_move(state, index).phase == GamePlayState::Over,
        apply_move(state, index).winner == evaluate(apply_move(state, index).board),
{
}

/// An accepted move that fills the board without completing a line ends the
/// session in a draw.
pub proof fn lemma_full_board_is_draw(state: Session, index: int)
    requires
        well_formed(state),
        accepts(state, index),
        full(apply_move(state, index).board),
        evaluate(apply_move(state, index).board) is None,
    ensures
        apply_move(state, index).phase == GamePlayState::Over,
        apply_move(state, index).winner is None,
{
}

/// An accepted move changes cell `index`, from `Empty` to the mover's mark, and
/// no other cell.
pub proof fn lemma_accepted_move_marks_one_cell(state: Session, index: int)
    requires
        0 <= index < state.board.len(),
        accepts(state, index),
    ensures
        apply_move(state, index).board.len() == state.board.len(),
        state.board[index] == BoardItem::Empty,
        apply_move(state, index).board[index] == BoardItem::spec_from_player(
            state.current_player,
        ),
        forall|j: int|
            0 <= j < state.board.len() && j != index ==> apply_move(state, index).board[j]
                == state.board[j],
{
}

/// No move, accepted or not, takes a mark off the board.
pub proof fn lemma_marks_stay(state: Session, index: int, j: int)
    requires
        0 <= index < state.board.len(),
        0 <= j < state.board.len(),
        state.board[j] != BoardItem::Empty,
    ensures
        apply_move(state, index).board[j] == state.board[j],
{
}

/// The fresh session is well formed.
pub proof fn lemma_initial_well_formed()
    ensures
        well_formed(initial()),
{
    lemma_empty_board(empty_board());
}

/// The start action keeps a session well formed.
pub proof fn lemma_start_keeps_well_formed(state: Session)
    requires
        well_formed(state),
    ensures
        well_formed(started(state)),
{
    lemma_empty_board(empty_board());
}

/// A move, accepted or not, keeps a session well formed.
pub proof fn lemma_move_keeps_well_formed(state: Session, index: int)
    requires
        well_formed(state),
        0 <= index < CELLS,
    ensures
        well_formed(apply_move(state, index)),
{
}

/// Somebody has won.
pub open spec fn won(state: Session) -> bool {
    state.winner is Some
}

/// The board is full and nobody has won.
pub open spec fn drawn(state: Session) -> bool {
    full(state.board) && state.winner is None
}

/// The game is being played.
pub open spec fn in_progress(state: Session) -> bool {
    state.phase == GamePlayState::Playing
}

/// Of a well-formed session at most one of these holds: somebody has won; the
/// board is full and nobody has won; the game is being played. Once the
/// session has started, one of them does.
pub proof fn lemma_outcomes_exclusive(state: Session)
    requires
        well_formed(state),
    ensures
        !(won(state) && drawn(state)),
        !(won(state) && in_progress(state)),
        !(drawn(state) && in_progress(state)),
        state.phase != GamePlayState::Ready ==> won(state) || drawn(state) || in_progress(state),
        state.phase == GamePlayState::Over <==> won(state) || drawn(state),
{
}

/// A session is over exactly where its board shows a winner or is full, but
/// for the fresh session; and the message for the end is due exactly then.
pub proof fn lemma_over_means_decided(state: Session)
    requires
        well_formed(state),
    ensures
        state.phase == GamePlayState::Over <==> evaluate(state.board) is Some || full(state.board),
        notice(state) is Some <==> state.phase == GamePlayState::Over,
{
    if state.phase == GamePlayState::Ready {
        lemma_empty_board(state.board);
    }
}

} // verus!

//! A session of tic-tac-toe: the grid, the local peer's role, and where in
//! the exchange the two peers are.

use crate::error::Error;
use crate::session::{
    advanced, opponent_field, own_field, quiet, rejected, torn_down, Effects, EffectsView, Event,
    EventView, SessionOutcome, HANDSHAKE_MARKER,
};
use crate::util::{
    empty_cells, full, mover, placement_error, played, spec_title, valid_play, wins, Board,
    BoardView, Field, Role,
};
use vstd::prelude::*;

verus! {

/// Where a session stands.
#[derive(Debug, Clone, Copy, PartialEq, Eq, Structural)]
pub enum Phase {
    /// The client has yet to send its marker, the server to receive it.
    AwaitingHandshake,
    /// The local peer is to place.
    LocalTurn,
    /// The session waits for the byte with the peer's placement.
    RemoteTurn,
    /// The session is over. No placement is taken any more; the outcome is
    /// final once the byte of the last placement is written.
    Finished(SessionOutcome),
}

/// One peer's side of a game of tic-tac-toe.
pub struct TicTacToe {
    board: Board,
    role: Role,
    phase: Phase,
    unconfirmed: bool,
}

/// What a [`TicTacToe`] stands for.
#[verifier::ext_equal]
pub struct TicTacToeView {
    pub board: BoardView,
    pub role: Role,
    pub phase: Phase,
    /// The local peer's placement has ended the game, and its byte is not yet
    /// known to be written. Until it is, a failure of the channel still
    /// aborts the session.
    pub unconfirmed: bool,
}

/// The session of a peer in `role` before anything has happened. The server
/// is the one to place first.
pub open spec fn initial(role: Role) -> TicTacToeView {
    TicTacToeView {
        board: BoardView { cells: empty_cells(), turn: role == Role::Server },
        role,
        phase: Phase::AwaitingHandshake,
        unconfirmed: false,
    }
}

/// Neither peer holds a line.
pub open spec fn undecided(cells: Seq<Field>) -> bool {
    !wins(cells, Field::Server) && !wins(cells, Field::Client)
}

/// Where the session of the peer in `role` stands once `who` has placed and
/// the grid holds `cells`: the game is over with a line or with a full grid,
/// or else the other peer is to place.
pub open spec fn phase_after(cells: Seq<Field>, who: Field, role: Role) -> Phase {
    if wins(cells, who) {
        Phase::Finished(
            if who == own_field(role) {
                SessionOutcome::Won
            } else {
                SessionOutcome::Lost
            },
        )
    } else if full(cells) {
        Phase::Finished(SessionOutcome::Draw)
    } else if who == own_field(role) {
        Phase::RemoteTurn
    } else {
        Phase::LocalTurn
    }
}

/// The session `s` after `who` has placed on the empty cell `index`. Where
/// the local peer's own placement ends the game, its byte has yet to go out.
pub open spec fn after_placement(s: TicTacToeView, index: int, who: Field) -> TicTacToeView {
    let cells = s.board.cells.update(index, who);
    let phase = phase_after(cells, who, s.role);
    TicTacToeView {
        board: BoardView { cells, turn: !s.board.turn },
        role: s.role,
        phase,
        unconfirmed: who == own_field(s.role) && phase is Finished,
    }
}

/// The session `s`, ended without a result.
pub open spec fn aborted(s: TicTacToeView) -> TicTacToeView {
    TicTacToeView { phase: Phase::Finished(SessionOutcome::Aborted), unconfirmed: false, ..s }
}

/// The finished session `s` after the event `event`. While the byte of the
/// placement that ended the game is not known to be written, a failure of the
/// channel aborts the session, and the news that the byte is written makes
/// the outcome final. Nothing else changes a finished session.
pub open spec fn spec_finished_step(s: TicTacToeView, event: EventView) -> (
    TicTacToeView,
    EffectsView,
) {
    if s.unconfirmed && event is TransportFailed {
        (aborted(s), torn_down(Error::TransportIo))
    } else if s.unconfirmed && event is Sent {
        (TicTacToeView { unconfirmed: false, ..s }, quiet())
    } else {
        (s, quiet())
    }
}

/// How many bytes the session waits for from the peer: the marker or a
/// placement, one byte each, and none while the local peer is to act or the
/// session is over.
pub open spec fn spec_expects(s: TicTacToeView) -> nat {
    match s.phase {
        Phase::AwaitingHandshake => if s.role == Role::Server {
            1
        } else {
            0
        },
        Phase::RemoteTurn => 1,
        _ => 0,
    }
}

/// The session after an event, and what the caller is to do.
///
/// * A finished session stays as it is, whatever happens, but for the one
///   case of [`spec_finished_step`]: the game-ending byte that is not yet written.
/// * A request to quit or a failure of the channel ends the session as
///   aborted, at once.
/// * The news that bytes are written changes nothing in a running session.
/// * When the channel opens, the client sends its marker and waits for the
///   server's first placement; the server waits for the marker and then
///   places first.
/// * A local choice counts only on the local turn and on an empty cell of the
///   grid. It is then placed and its index sent. Any other local choice is
///   turned down, and the session stays as it is.
/// * Bytes from the peer count only while the session waits for them. A
///   placement has to be one byte that names an empty cell. Anything else
///   breaks the protocol and ends the session as aborted.
/// * A placement that completes a line ends the session, won for the peer
///   that placed and lost for the other; one that fills the grid without a
///   line ends it as a draw.
pub open spec fn spec_step(s: TicTacToeView, event: EventView) -> (TicTacToeView, EffectsView) {
    if s.phase is Finished {
        spec_finished_step(s, event)
    } else {
        match event {
            EventView::Quit => (aborted(s), torn_down(Error::CancelRequested)),
            EventView::TransportFailed => (aborted(s), torn_down(Error::TransportIo)),
            EventView::Sent => (s, quiet()),
            EventView::Opened => {
                if s.phase == Phase::AwaitingHandshake && s.role == Role::Client {
                    (
                        TicTacToeView { phase: Phase::RemoteTurn, ..s },
                        advanced(seq![HANDSHAKE_MARKER], false),
                    )
                } else {
                    (s, advanced(Seq::empty(), false))
                }
            },
            EventView::Choice(index) => {
                if s.phase == Phase::LocalTurn && placement_error(s.board.cells, index as int)
                    is None {
                    let next = after_placement(s, index as int, own_field(s.role));
                    (next, advanced(seq![index as u8], next.phase is Finished))
                } else {
                    (s, rejected())
                }
            },
            EventView::Received(bytes) => {
                if s.phase == Phase::AwaitingHandshake && s.role == Role::Server && bytes.len()
                    == 1 {
                    (TicTacToeView { phase: Phase::LocalTurn, ..s }, advanced(Seq::empty(), false))
                } else if s.phase == Phase::RemoteTurn && bytes.len() == 1 && placement_error(
                    s.board.cells,
                    bytes[0] as int,
                ) is None {
                    let next = after_placement(s, bytes[0] as int, opponent_field(s.role));
                    (next, advanced(Seq::empty(), next.phase is Finished))
                } else {
                    (aborted(s), torn_down(Error::ProtocolViolation))
                }
            },
        }
    }
}

/// What holds of every session that the steps can reach.
///
/// The turn flag of the grid and the phase agree; while the game runs no
/// peer holds a line and a cell is left; a finished game has the grid that
/// its outcome names; at no time have both peers won; and only a game that
/// has ended with a result can have its last byte unconfirmed.
pub open spec fn wf(s: TicTacToeView) -> bool {
    &&& s.board.cells.len() == 9
    &&& s.unconfirmed ==> s.phase == Phase::Finished(SessionOutcome::Won) || s.phase
        == Phase::Finished(SessionOutcome::Draw)
    &&& match s.phase {
        Phase::AwaitingHandshake => s.board.cells == empty_cells() && s.board.turn == (s.role
            == Role::Server),
        Phase::LocalTurn => s.board.turn && undecided(s.board.cells) && !full(s.board.cells),
        Phase::RemoteTurn => !s.board.turn && undecided(s.board.cells) && !full(s.board.cells),
        Phase::Finished(SessionOutcome::Won) => wins(s.board.cells, own_field(s.role)) && !wins(
            s.board.cells,
            opponent_field(s.role),
        ),
        Phase::Finished(SessionOutcome::Lost) => wins(s.board.cells, opponent_field(s.role))
            && !wins(s.board.cells, own_field(s.role)),
        Phase::Finished(SessionOutcome::Draw) => undecided(s.board.cells) && full(s.board.cells),
        Phase::Finished(SessionOutcome::Aborted) => !(wins(s.board.cells, Field::Server) && wins(
            s.board.cells,
            Field::Client,
        )),
    }
}

/// The heading over the grid: a game that ended without a line says so, and
/// any other shows the heading of its grid.
pub open spec fn spec_heading(s: TicTacToeView) -> Seq<char> {
    match s.phase {
        Phase::Finished(SessionOutcome::Aborted) => "Game aborted"@,
        Phase::Finished(SessionOutcome::Draw) => "Draw"@,
        _ => spec_title(s.board),
    }
}

/// An aborted session does not look like any other: its heading differs
/// from that of every session that is not aborted.
pub proof fn lemma_aborted_is_told_apart(s: TicTacToeView, t: TicTacToeView)
    requires
        s.phase == Phase::Finished(SessionOutcome::Aborted),
        t.phase != Phase::Finished(SessionOutcome::Aborted),
    ensures
        spec_heading(s) != spec_heading(t),
{
    reveal_strlit("Game aborted");
    reveal_strlit("Draw");
    reveal_strlit("X wins!");
    reveal_strlit("O wins!");
    reveal_strlit("Your turn");
    reveal_strlit("Others turn");
    assert(spec_heading(t).len() != 12);
}

/// A step leads from a reachable session to a reachable session.
pub proof fn lemma_step_keeps_wf(s: TicTacToeView, event: EventView)
    requires
        wf(s),
    ensures
        wf(spec_step(s, event).0),
{
    // The grid of a session that has not begun has no line and a cell left.
    assert(undecided(empty_cells()));
    assert(empty_cells()[0] == Field::Empty);
}

/// In no reachable session have both peers won.
pub proof fn lemma_one_winner_at_most(s: TicTacToeView)
    requires
        wf(s),
    ensures
        !(wins(s.board.cells, Field::Server) && wins(s.board.cells, Field::Client)),
{
    assert(undecided(empty_cells()));
}

/// A finished session whose last byte is out takes no event: it stays as it
/// is, asks for nothing, and waits for no byte. No finished session ever
/// takes a placement or runs again.
pub proof fn lemma_finished_is_final(s: TicTacToeView, event: EventView)
    requires
        s.phase is Finished,
    ensures
        !s.unconfirmed ==> spec_step(s, event) == (s, quiet()),
        spec_step(s, event).0.phase is Finished,
        spec_step(s, event).0.board == s.board,
        spec_step(s, event).1.send.len() == 0,
        spec_expects(s) == 0,
{
}

/// A failure of the channel ends every session as aborted, also the one whose
/// game has just ended with the local peer's placement: as long as the byte
/// of that placement is not known to be written, the outcome is not final.
/// Once it is written, it is.
pub proof fn lemma_failed_send_aborts(s: TicTacToeView, index: u32)
    requires
        wf(s),
    ensures
        !(s.phase is Finished) || s.unconfirmed ==> spec_step(s, EventView::TransportFailed) == (
            aborted(s),
            torn_down(Error::TransportIo),
        ),
        s.unconfirmed ==> spec_step(s, EventView::Sent).0 == (TicTacToeView {
            unconfirmed: false,
            ..s
        }),
        ({
            let (placed, sent) = spec_step(s, EventView::Choice(index));
            sent.send.len() > 0 && placed.phase is Finished ==> placed.unconfirmed
        }),
{
}

/// A request to quit ends a running session with the step that takes it,
/// whatever the session was waiting for: it is aborted, its sending side is
/// to be closed, and it waits for no byte from the peer any more.
pub proof fn lemma_quit_ends_at_once(s: TicTacToeView)
    requires
        !(s.phase is Finished),
    ensures
        spec_step(s, EventView::Quit).0.phase == Phase::Finished(SessionOutcome::Aborted),
        spec_step(s, EventView::Quit).1 == torn_down(Error::CancelRequested),
        spec_expects(spec_step(s, EventView::Quit).0) == 0,
{
}

/// The caller is told to close in the step that ends the session, and again
/// in the step that aborts it over its last byte, and in no other; and
/// whenever a step changes what the session shows, the caller is told to
/// draw it, so the final state too.
pub proof fn lemma_close_marks_the_end(s: TicTacToeView, event: EventView)
    requires
        wf(s),
    ensures
        spec_step(s, event).1.close <==> spec_step(s, event).0.phase is Finished && spec_step(
            s,
            event,
        ).0.phase != s.phase,
        spec_step(s, event).0.phase != s.phase || spec_step(s, event).0.board != s.board
            ==> spec_step(s, event).1.render,
        spec_step(s, event).1.error == Some(Error::LocalInputRejected) ==> spec_step(s, event)
            == (s, rejected()),
{
}

/// A cell that has an owner keeps it: no step takes a mark off the grid or
/// changes it.
pub proof fn lemma_cells_are_kept(s: TicTacToeView, event: EventView, index: int)
    requires
        wf(s),
        0 <= index < 9,
        s.board.cells[index] != Field::Empty,
    ensures
        spec_step(s, event).0.board.cells[index] == s.board.cells[index],
{
}

/// The peers take turns. A placement by the local peer hands the turn to the
/// peer or ends the game, and a placement by the peer hands the turn back or
/// ends the game. The grid changes in no other step, and a local choice
/// outside the local turn changes nothing and sends nothing.
pub proof fn lemma_turns_alternate(s: TicTacToeView, event: EventView)
    requires
        wf(s),
    ensures
        spec_step(s, event).0.board != s.board ==> {
            ||| s.phase == Phase::LocalTurn && event is Choice && spec_step(s, event).0.phase
                != Phase::LocalTurn
            ||| s.phase == Phase::RemoteTurn && event is Received && spec_step(s, event).0.phase
                != Phase::RemoteTurn
        },
        s.phase != Phase::LocalTurn && event is Choice ==> spec_step(s, event).0 == s && spec_step(
            s,
            event,
        ).1.send.len() == 0,
{
    // A step that changes the grid puts the mover's mark on a cell.
    let next = spec_step(s, event).0;
    if next.board != s.board {
        if s.phase == Phase::LocalTurn {
            assert(next.board.cells[event->Choice_0 as int] == own_field(s.role));
        } else {
            assert(next.board.cells[event->Received_0[0] as int] == opponent_field(s.role));
        }
    }
}
/// The session `s` after the events `events`, taken in order.
pub open spec fn after(s: TicTacToeView, events: Seq<EventView>) -> TicTacToeView
    decreases events.len(),
{
    if events.len() == 0 {
        s
    } else {
        spec_step(after(s, events.drop_last()), events.last()).0
    }
}

/// `moves` is the game behind the grid of `s`: a game as the rules allow it,
/// opened by the server, that gives this grid, and in which the next
/// placement falls to the peer that the phase of `s` names.
pub open spec fn game_of(s: TicTacToeView, moves: Seq<int>) -> bool {
    &&& valid_play(moves, Field::Server)
    &&& s.board.cells == played(moves, Field::Server)
    &&& s.phase == Phase::AwaitingHandshake ==> moves.len() == 0
    &&& s.phase == Phase::LocalTurn ==> mover(Field::Server, moves.len() as int) == own_field(
        s.role,
    )
    &&& s.phase == Phase::RemoteTurn ==> mover(Field::Server, moves.len() as int)
        == opponent_field(s.role)
}

/// Whatever happens to a session, it plays by the rules. After any events
/// it is a reachable session in the sense of [`wf`], and its grid is that of
/// a game in which the server opens, the peers take turns, every placement
/// goes to an empty cell, and none is made once a peer has won. The lemma
/// returns that game.
pub proof fn lemma_sessions_play_by_the_rules(role: Role, events: Seq<EventView>) -> (moves: Seq<
    int,
>)
    ensures
        wf(after(initial(role), events)),
        game_of(after(initial(role), events), moves),
    decreases events.len(),
{
    if events.len() == 0 {
        assert(undecided(empty_cells()));
        Seq::empty()
    } else {
        let before = after(initial(role), events.drop_last());
        let game = lemma_sessions_play_by_the_rules(role, events.drop_last());
        lemma_step_keeps_wf(before, events.last());
        let next = spec_step(before, events.last()).0;
        if next.board != before.board {
            let index = if before.phase == Phase::LocalTurn {
                events.last()->Choice_0 as int
            } else {
                events.last()->Received_0[0] as int
            };
            let longer = game.push(index);
            assert(longer.drop_last() =~= game);
            assert(next.board.cells == played(longer, Field::Server));
            longer
        } else {
            game
        }
    }
}

/// The phase of the peer's session that goes with `phase` of the local one:
/// the turns are opposite, and one peer's win is the other's loss.
pub open spec fn mirror(phase: Phase) -> Phase {
    match phase {
        Phase::LocalTurn => Phase::RemoteTurn,
        Phase::RemoteTurn => Phase::LocalTurn,
        Phase::Finished(SessionOutcome::Won) => Phase::Finished(SessionOutcome::Lost),
        Phase::Finished(SessionOutcome::Lost) => Phase::Finished(SessionOutcome::Won),
        other => other,
    }
}

/// The two peers' sessions agree: they hold the same grid, in opposite roles
/// and with opposite turns, and each stands where the other's phase says.
pub open spec fn in_step(a: TicTacToeView, b: TicTacToeView) -> bool {
    &&& a.role != b.role
    &&& a.board.cells == b.board.cells
    &&& a.board.turn != b.board.turn
    &&& b.phase == mirror(a.phase)
}

/// The handshake leaves the two peers in step: once the client has sent its
/// marker and the server has taken it in, the server is to place and the
/// client waits for it, on the same empty grid.
pub proof fn lemma_handshake_ends_in_step()
    ensures
        ({
            let (client, sent) = spec_step(initial(Role::Client), EventView::Opened);
            let (server, _) = spec_step(initial(Role::Server), EventView::Received(sent.send));
            in_step(server, client) && server.phase == Phase::LocalTurn
        }),
{
}

/// The messages alone keep the two peers in step. If their sessions agree and
/// one of them places, then the other, given the bytes that the first one
/// sends, takes the same placement: the sessions agree again, on the same
/// grid, and where the game has ended it has ended for both, as a win for
/// one and a loss for the other or as a draw for both.
pub proof fn lemma_peers_stay_in_step(local: TicTacToeView, remote: TicTacToeView, index: u32)
    requires
        wf(local),
        wf(remote),
        in_step(local, remote),
        local.phase == Phase::LocalTurn,
    ensures
        ({
            let (placed, sent) = spec_step(local, EventView::Choice(index));
            let (taken, _) = spec_step(remote, EventView::Received(sent.send));
            if sent.error is None {
                in_step(placed, taken) && placed.board != local.board
            } else {
                placed == local
            }
        }),
{
    let (placed, sent) = spec_step(local, EventView::Choice(index));
    if sent.error is None {
        // The index goes over the wire as one byte and comes back as itself.
        assert(sent.send[0] as int == index as int);
        assert(placed.board.cells[index as int] == own_field(local.role));
    }
}
impl View for TicTacToe {
    type V = TicTacToeView;

    closed spec fn view(&self) -> TicTacToeView {
        TicTacToeView {
            board: self.board@,
            role: self.role,
            phase: self.phase,
            unconfirmed: self.unconfirmed,
        }
    }
}

impl TicTacToe {
    #[verifier::type_invariant]
    spec fn inv(self) -> bool {
        wf(self@)
    }

    /// A session for the peer in `role`, before the handshake.
    pub fn new(role: Role) -> (session: Self)
        ensures
            session@ == initial(role),
    {
        let board = Board::new(
            match role {
                Role::Server => true,
                Role::Client => false,
            },
        );
        proof {
            board.lemma_nine_cells();
        }
        TicTacToe { board, role, phase: Phase::AwaitingHandshake, unconfirmed: false }
    }

    /// The local peer's role.
    pub fn role(&self) -> (role: Role)
        ensures
            role == self@.role,
    {
        self.role
    }

    /// Where the session stands.
    pub fn phase(&self) -> (phase: Phase)
        ensures
            phase == self@.phase,
    {
        self.phase
    }

    /// The grid as it is now.
    pub fn board(&self) -> (board: &Board)
        ensures
            board@ == self@.board,
    {
        &self.board
    }

    /// The heading to draw over the grid.
    pub fn title(&self) -> (title: &'static str)
        ensures
            title@ == spec_heading(self@),
    {
        match self.phase {
            Phase::Finished(SessionOutcome::Aborted) => "Game aborted",
            Phase::Finished(SessionOutcome::Draw) => "Draw",
            _ => self.board.title(),
        }
    }

    /// How the session ended, once it has.
    pub fn outcome(&self) -> (outcome: Option<SessionOutcome>)
        ensures
            outcome == match self@.phase {
                Phase::Finished(o) => Some(o),
                _ => None::<SessionOutcome>,
            },
    {
        match self.phase {
            Phase::Finished(o) => Some(o),
            _ => None,
        }
    }

    /// How many bytes the caller is to read from the peer and hand in as
    /// [`Event::Received`]; 0 while the session waits for none.
    pub fn expects(&self) -> (count: usize)
        ensures
            count == spec_expects(self@),
    {
        match self.phase {
            Phase::AwaitingHandshake => match self.role {
                Role::Server => 1,
                Role::Client => 0,
            },
            Phase::RemoteTurn => 1,
            _ => 0,
        }
    }

    /// Takes the session through one event and says what the caller is to do.
    ///
    /// The caller reports how each write went, with [`Event::Sent`] or
    /// [`Event::TransportFailed`]. A placement that ends the game ends the
    /// session in the same step, but a failure to write its byte still aborts
    /// the session.
    pub fn step(&mut self, event: Event) -> (effects: Effects)
        ensures
            (final(self)@, effects@) == spec_step(old(self)@, event@),
            wf(final(self)@),
    {
        proof {
            use_type_invariant(&*self);
            lemma_step_keeps_wf(self@, event@);
        }
        if let Phase::Finished(_) = self.phase {
            if self.unconfirmed {
                match event {
                    Event::TransportFailed => {
                        return self.abort(Error::TransportIo);
                    },
                    Event::Sent => {
                        self.unconfirmed = false;
                    },
                    _ => {},
                }
            }
            return Effects::quiet();
        }
        match event {
            Event::Quit => self.abort(Error::CancelRequested),
            Event::TransportFailed => self.abort(Error::TransportIo),
            Event::Sent => Effects::quiet(),
            Event::Opened => {
                if self.phase == Phase::AwaitingHandshake && self.role == Role::Client {
                    self.phase = Phase::RemoteTurn;
                    let mut send = Vec::new();
                    send.push(HANDSHAKE_MARKER);
                    Effects::advanced(send, false)
                } else {
                    Effects::advanced(Vec::new(), false)
                }
            },
            Event::Choice(index) => {
                if self.phase != Phase::LocalTurn {
                    return Effects::rejected();
                }
                let who = self.role.own_field();
                let mut board = self.board;
                match board.place(index as usize, who) {
                    Err(_) => Effects::rejected(),
                    Ok(()) => {
                        let phase = Self::phase_after(&board, who, self.role);
                        let over = Self::is_over(phase);
                        *self = TicTacToe { board, role: self.role, phase, unconfirmed: over };
                        let mut send = Vec::new();
                        send.push(index as u8);
                        Effects::advanced(send, over)
                    },
                }
            },
            Event::Received(bytes) => {
                if self.phase == Phase::AwaitingHandshake && self.role == Role::Server
                    && bytes.len() == 1 {
                    self.phase = Phase::LocalTurn;
                    return Effects::advanced(Vec::new(), false);
                }
                if self.phase != Phase::RemoteTurn || bytes.len() != 1 {
                    return self.abort(Error::ProtocolViolation);
                }
                let who = self.role.opponent_field();
                let mut board = self.board;
                match board.place(bytes[0] as usize, who) {
                    Err(_) => self.abort(Error::ProtocolViolation),
                    Ok(()) => {
                        let phase = Self::phase_after(&board, who, self.role);
                        *self = TicTacToe { board, role: self.role, phase, unconfirmed: false };
                        Effects::advanced(Vec::new(), Self::is_over(phase))
                    },
                }
            },
        }
    }

    /// Whether `phase` is a finished one.
    fn is_over(phase: Phase) -> (over: bool)
        ensures
            over == (phase is Finished),
    {
        match phase {
            Phase::Finished(_) => true,
            _ => false,
        }
    }

    /// Where the session stands once `who` has placed on `board`.
    fn phase_after(board: &Board, who: Field, role: Role) -> (phase: Phase)
        ensures
            phase == phase_after(board@.cells, who, role),
    {
        if board.is_win(who) {
            if who == role.own_field() {
                Phase::Finished(SessionOutcome::Won)
            } else {
                Phase::Finished(SessionOutcome::Lost)
            }
        } else if board.is_full() {
            Phase::Finished(SessionOutcome::Draw)
        } else if who == role.own_field() {
            Phase::RemoteTurn
        } else {
            Phase::LocalTurn
        }
    }

    /// Ends the session without a result.
    fn abort(&mut self, error: Error) -> (effects: Effects)
        requires
            wf(aborted(old(self)@)),
        ensures
            final(self)@ == aborted(old(self)@),
            effects@ == torn_down(error),
    {
        *self = TicTacToe {
            board: self.board,
            role: self.role,
            phase: Phase::Finished(SessionOutcome::Aborted),
            unconfirmed: false,
        };
        Effects::torn_down(error)
    }
}

} // verus!

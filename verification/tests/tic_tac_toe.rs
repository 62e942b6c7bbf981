use peer_games::error::Error;
use peer_games::session::{Effects, Event, SessionOutcome};
use peer_games::tic_tac_toe::{Phase, TicTacToe};
use peer_games::util::{Field, Role};

fn quiet() -> Effects {
    Effects { send: vec![], render: false, close: false, error: None }
}

fn rejected() -> Effects {
    Effects { send: vec![], render: false, close: false, error: Some(Error::LocalInputRejected) }
}

fn advanced(send: Vec<u8>, finished: bool) -> Effects {
    Effects { send, render: true, close: finished, error: None }
}

fn torn_down(error: Error) -> Effects {
    Effects { send: vec![], render: true, close: true, error: Some(error) }
}

/// Two sessions after the handshake: the server is to place.
fn connected() -> (TicTacToe, TicTacToe) {
    let mut server = TicTacToe::new(Role::Server);
    let mut client = TicTacToe::new(Role::Client);
    assert_eq!(server.step(Event::Opened), advanced(vec![], false));
    assert_eq!(server.expects(), 1);
    let opening = client.step(Event::Opened);
    assert_eq!(opening, advanced(vec![0], false));
    assert_eq!(server.step(Event::Received(opening.send)), advanced(vec![], false));
    (server, client)
}

/// Lets `mover` place on `choice` and hands what it sends to `waiter`.
fn exchange(mover: &mut TicTacToe, waiter: &mut TicTacToe, choice: u32) -> (Effects, Effects) {
    assert_eq!(mover.phase(), Phase::LocalTurn);
    assert_eq!(waiter.phase(), Phase::RemoteTurn);
    assert_eq!(mover.expects(), 0);
    assert_eq!(waiter.expects(), 1);
    let sent = mover.step(Event::Choice(choice));
    assert_eq!(sent.send, vec![choice as u8]);
    let outcome = mover.outcome();
    assert_eq!(mover.step(Event::Sent), quiet());
    assert_eq!(mover.outcome(), outcome);
    let got = waiter.step(Event::Received(vec![choice as u8]));
    assert_eq!(mover.board().cells(), waiter.board().cells());
    (sent, got)
}

#[test]
fn session_starts_before_the_handshake() {
    let server = TicTacToe::new(Role::Server);
    assert_eq!(server.role(), Role::Server);
    assert_eq!(server.phase(), Phase::AwaitingHandshake);
    assert_eq!(server.outcome(), None);
    assert_eq!(server.expects(), 1);
    assert!(server.board().is_playing());
    assert_eq!(server.board().cells(), [Field::Empty; 9]);
    let client = TicTacToe::new(Role::Client);
    assert_eq!(client.role(), Role::Client);
    assert_eq!(client.phase(), Phase::AwaitingHandshake);
    assert_eq!(client.expects(), 0);
    assert!(!client.board().is_playing());
}

#[test]
fn handshake_gives_the_server_the_first_turn() {
    let (server, client) = connected();
    assert_eq!(server.phase(), Phase::LocalTurn);
    assert_eq!(client.phase(), Phase::RemoteTurn);
    assert_eq!(server.expects(), 0);
    assert_eq!(client.expects(), 1);
}

#[test]
fn handshake_marker_value_is_ignored() {
    for marker in [0u8, 1, 9, 255] {
        let mut server = TicTacToe::new(Role::Server);
        assert_eq!(server.step(Event::Received(vec![marker])), advanced(vec![], false));
        assert_eq!(server.phase(), Phase::LocalTurn);
    }
}

#[test]
fn server_wins_with_the_top_row() {
    let (mut server, mut client) = connected();
    assert_eq!(exchange(&mut server, &mut client, 0), (advanced(vec![0], false), advanced(vec![], false)));
    assert_eq!(exchange(&mut client, &mut server, 3), (advanced(vec![3], false), advanced(vec![], false)));
    assert_eq!(exchange(&mut server, &mut client, 1), (advanced(vec![1], false), advanced(vec![], false)));
    assert_eq!(exchange(&mut client, &mut server, 4), (advanced(vec![4], false), advanced(vec![], false)));
    assert!(!server.board().is_win(Field::Server));
    assert_eq!(exchange(&mut server, &mut client, 2), (advanced(vec![2], true), advanced(vec![], true)));
    assert!(server.board().is_win(Field::Server));
    assert!(client.board().is_win(Field::Server));
    assert!(!server.board().is_win(Field::Client));
    assert_eq!(server.phase(), Phase::Finished(SessionOutcome::Won));
    assert_eq!(client.phase(), Phase::Finished(SessionOutcome::Lost));
    assert_eq!(server.outcome(), Some(SessionOutcome::Won));
    assert_eq!(client.outcome(), Some(SessionOutcome::Lost));
    assert_eq!(server.expects(), 0);
    assert_eq!(client.expects(), 0);
    assert_eq!(server.title(), "X wins!");
    assert_eq!(client.title(), "X wins!");
}

#[test]
fn client_wins_with_a_diagonal() {
    let (mut server, mut client) = connected();
    exchange(&mut server, &mut client, 0);
    exchange(&mut client, &mut server, 2);
    exchange(&mut server, &mut client, 1);
    exchange(&mut client, &mut server, 4);
    exchange(&mut server, &mut client, 8);
    let (sent, got) = exchange(&mut client, &mut server, 6);
    assert_eq!(sent, advanced(vec![6], true));
    assert_eq!(got, advanced(vec![], true));
    assert_eq!(client.outcome(), Some(SessionOutcome::Won));
    assert_eq!(server.outcome(), Some(SessionOutcome::Lost));
    assert_eq!(server.title(), "O wins!");
}

#[test]
fn full_board_without_a_line_is_a_draw() {
    let (mut server, mut client) = connected();
    // X O X
    // X O O
    // O X X
    let choices = [0, 1, 2, 4, 3, 5, 7, 6];
    for (k, choice) in choices.iter().enumerate() {
        let (sent, got) = if k % 2 == 0 {
            exchange(&mut server, &mut client, *choice)
        } else {
            exchange(&mut client, &mut server, *choice)
        };
        assert_eq!(sent, advanced(vec![*choice as u8], false));
        assert_eq!(got, advanced(vec![], false));
    }
    let (sent, got) = exchange(&mut server, &mut client, 8);
    assert_eq!(sent, advanced(vec![8], true));
    assert_eq!(got, advanced(vec![], true));
    assert!(server.board().is_full());
    assert!(!server.board().is_win(Field::Server));
    assert!(!server.board().is_win(Field::Client));
    assert_eq!(server.outcome(), Some(SessionOutcome::Draw));
    assert_eq!(client.outcome(), Some(SessionOutcome::Draw));
    assert_eq!(server.title(), "Draw");
    assert_eq!(client.title(), "Draw");
}

#[test]
fn ninth_placement_that_completes_a_line_wins() {
    let (mut server, mut client) = connected();
    // X O X
    // O O X
    // O X X  <- the ninth placement, on 8, completes the right column
    for (k, choice) in [0u32, 1, 2, 3, 5, 4, 7, 6].iter().enumerate() {
        let (sent, _) = if k % 2 == 0 {
            exchange(&mut server, &mut client, *choice)
        } else {
            exchange(&mut client, &mut server, *choice)
        };
        assert!(!sent.close);
    }
    let (sent, got) = exchange(&mut server, &mut client, 8);
    assert_eq!(sent, advanced(vec![8], true));
    assert_eq!(got, advanced(vec![], true));
    assert!(server.board().is_full());
    assert_eq!(server.outcome(), Some(SessionOutcome::Won));
    assert_eq!(client.outcome(), Some(SessionOutcome::Lost));
}

#[test]
fn local_choice_out_of_range_or_occupied_is_turned_down() {
    let (mut server, mut client) = connected();
    for choice in [9u32, 10, 255, 256, u32::MAX] {
        assert_eq!(server.step(Event::Choice(choice)), rejected());
        assert_eq!(server.phase(), Phase::LocalTurn);
        assert_eq!(server.board().cells(), [Field::Empty; 9]);
        assert!(server.board().is_playing());
    }
    exchange(&mut server, &mut client, 4);
    let cells = client.board().cells();
    assert_eq!(client.step(Event::Choice(4)), rejected());
    assert_eq!(client.phase(), Phase::LocalTurn);
    assert_eq!(client.board().cells(), cells);
    assert_eq!(client.step(Event::Choice(5)), advanced(vec![5], false));
}

#[test]
fn local_choice_outside_the_local_turn_is_turned_down() {
    let mut server = TicTacToe::new(Role::Server);
    assert_eq!(server.step(Event::Choice(0)), rejected());
    assert_eq!(server.phase(), Phase::AwaitingHandshake);
    let (mut server, mut client) = connected();
    assert_eq!(client.step(Event::Choice(0)), rejected());
    assert_eq!(client.phase(), Phase::RemoteTurn);
    assert_eq!(client.board().cells(), [Field::Empty; 9]);
    exchange(&mut server, &mut client, 0);
    assert_eq!(server.step(Event::Choice(1)), rejected());
    assert_eq!(server.phase(), Phase::RemoteTurn);
}

#[test]
fn remote_index_out_of_range_aborts() {
    for byte in [9u8, 10, 100, 255] {
        let (_, mut client) = connected();
        assert_eq!(
            client.step(Event::Received(vec![byte])),
            torn_down(Error::ProtocolViolation)
        );
        assert_eq!(client.outcome(), Some(SessionOutcome::Aborted));
        assert_eq!(client.board().cells(), [Field::Empty; 9]);
        assert_eq!(client.title(), "Game aborted");
    }
}

#[test]
fn remote_index_of_an_occupied_cell_aborts() {
    let (mut server, mut client) = connected();
    exchange(&mut server, &mut client, 4);
    assert_eq!(server.step(Event::Received(vec![4])), torn_down(Error::ProtocolViolation));
    assert_eq!(server.outcome(), Some(SessionOutcome::Aborted));
}

#[test]
fn remote_bytes_of_the_wrong_length_abort() {
    let (_, mut client) = connected();
    assert_eq!(client.step(Event::Received(vec![])), torn_down(Error::ProtocolViolation));
    let (_, mut client) = connected();
    assert_eq!(client.step(Event::Received(vec![0, 1])), torn_down(Error::ProtocolViolation));
    let mut server = TicTacToe::new(Role::Server);
    assert_eq!(server.step(Event::Received(vec![0, 0])), torn_down(Error::ProtocolViolation));
}

#[test]
fn remote_bytes_on_the_local_turn_abort() {
    let (mut server, _) = connected();
    assert_eq!(server.step(Event::Received(vec![0])), torn_down(Error::ProtocolViolation));
    assert_eq!(server.outcome(), Some(SessionOutcome::Aborted));
    let mut client = TicTacToe::new(Role::Client);
    assert_eq!(client.step(Event::Received(vec![0])), torn_down(Error::ProtocolViolation));
}

#[test]
fn quit_while_waiting_for_the_peer_ends_at_once() {
    let (mut server, mut client) = connected();
    assert_eq!(client.phase(), Phase::RemoteTurn);
    assert_eq!(client.step(Event::Quit), torn_down(Error::CancelRequested));
    assert_eq!(client.phase(), Phase::Finished(SessionOutcome::Aborted));
    assert_eq!(client.expects(), 0);
    exchange_is_over(&mut client);
    assert_eq!(server.step(Event::Quit), torn_down(Error::CancelRequested));
    assert_eq!(server.outcome(), Some(SessionOutcome::Aborted));
    let mut fresh = TicTacToe::new(Role::Server);
    assert_eq!(fresh.step(Event::Quit), torn_down(Error::CancelRequested));
    assert_eq!(fresh.expects(), 0);
}

fn exchange_is_over(session: &mut TicTacToe) {
    let phase = session.phase();
    let cells = session.board().cells();
    for event in [
        Event::Opened,
        Event::Choice(0),
        Event::Choice(8),
        Event::Received(vec![1]),
        Event::Received(vec![]),
        Event::Sent,
        Event::TransportFailed,
        Event::Quit,
    ] {
        assert_eq!(session.step(event), quiet());
        assert_eq!(session.phase(), phase);
        assert_eq!(session.board().cells(), cells);
        assert_eq!(session.expects(), 0);
    }
}

#[test]
fn transport_failure_aborts() {
    let (mut server, mut client) = connected();
    assert_eq!(server.step(Event::TransportFailed), torn_down(Error::TransportIo));
    assert_eq!(server.outcome(), Some(SessionOutcome::Aborted));
    assert_eq!(client.step(Event::TransportFailed), torn_down(Error::TransportIo));
    assert_eq!(client.outcome(), Some(SessionOutcome::Aborted));
}

#[test]
fn finished_session_takes_no_event() {
    let (mut server, mut client) = connected();
    for (k, choice) in [0u32, 3, 1, 4, 2].iter().enumerate() {
        if k % 2 == 0 {
            exchange(&mut server, &mut client, *choice);
        } else {
            exchange(&mut client, &mut server, *choice);
        }
    }
    exchange_is_over(&mut server);
    exchange_is_over(&mut client);
    assert_eq!(server.outcome(), Some(SessionOutcome::Won));
    assert_eq!(client.outcome(), Some(SessionOutcome::Lost));
}

#[test]
fn opened_twice_sends_one_marker() {
    let mut client = TicTacToe::new(Role::Client);
    assert_eq!(client.step(Event::Opened), advanced(vec![0], false));
    assert_eq!(client.step(Event::Opened), advanced(vec![], false));
    assert_eq!(client.phase(), Phase::RemoteTurn);
}

#[test]
fn titles_follow_the_turn() {
    let (mut server, mut client) = connected();
    assert_eq!(server.title(), "Your turn");
    assert_eq!(client.title(), "Others turn");
    exchange(&mut server, &mut client, 0);
    assert_eq!(server.title(), "Others turn");
    assert_eq!(client.title(), "Your turn");
}

/// A server that has just won with the placement on 2, whose byte is out
/// but not yet known to be written.
fn server_with_last_byte_out() -> TicTacToe {
    let (mut server, mut client) = connected();
    exchange(&mut server, &mut client, 0);
    exchange(&mut client, &mut server, 3);
    exchange(&mut server, &mut client, 1);
    exchange(&mut client, &mut server, 4);
    assert_eq!(server.step(Event::Choice(2)), advanced(vec![2], true));
    assert_eq!(server.outcome(), Some(SessionOutcome::Won));
    server
}

#[test]
fn failed_write_of_the_winning_placement_aborts() {
    let mut server = server_with_last_byte_out();
    assert_eq!(server.step(Event::TransportFailed), torn_down(Error::TransportIo));
    assert_eq!(server.outcome(), Some(SessionOutcome::Aborted));
    assert_eq!(server.title(), "Game aborted");
    exchange_is_over(&mut server);
}

#[test]
fn failed_write_of_the_drawing_placement_aborts() {
    let (mut server, mut client) = connected();
    for (k, choice) in [0u32, 1, 2, 4, 3, 5, 7, 6].iter().enumerate() {
        if k % 2 == 0 {
            exchange(&mut server, &mut client, *choice);
        } else {
            exchange(&mut client, &mut server, *choice);
        }
    }
    assert_eq!(server.step(Event::Choice(8)), advanced(vec![8], true));
    assert_eq!(server.outcome(), Some(SessionOutcome::Draw));
    assert_eq!(server.step(Event::TransportFailed), torn_down(Error::TransportIo));
    assert_eq!(server.outcome(), Some(SessionOutcome::Aborted));
}

#[test]
fn written_winning_placement_makes_the_outcome_final() {
    let mut server = server_with_last_byte_out();
    assert_eq!(server.step(Event::Sent), quiet());
    assert_eq!(server.outcome(), Some(SessionOutcome::Won));
    assert_eq!(server.step(Event::TransportFailed), quiet());
    assert_eq!(server.outcome(), Some(SessionOutcome::Won));
    exchange_is_over(&mut server);
}

#[test]
fn only_a_failure_undoes_an_unconfirmed_outcome() {
    let mut server = server_with_last_byte_out();
    let cells = server.board().cells();
    for event in [Event::Opened, Event::Choice(5), Event::Received(vec![5]), Event::Quit] {
        assert_eq!(server.step(event), quiet());
        assert_eq!(server.outcome(), Some(SessionOutcome::Won));
        assert_eq!(server.board().cells(), cells);
    }
    assert_eq!(server.step(Event::TransportFailed), torn_down(Error::TransportIo));
    assert_eq!(server.outcome(), Some(SessionOutcome::Aborted));
    assert_eq!(server.board().cells(), cells);
}

#[test]
fn lost_game_is_final_at_once() {
    let (mut server, mut client) = connected();
    for (k, choice) in [0u32, 3, 1, 4, 2].iter().enumerate() {
        if k % 2 == 0 {
            exchange(&mut server, &mut client, *choice);
        } else {
            exchange(&mut client, &mut server, *choice);
        }
    }
    assert_eq!(client.outcome(), Some(SessionOutcome::Lost));
    assert_eq!(client.step(Event::TransportFailed), quiet());
    assert_eq!(client.outcome(), Some(SessionOutcome::Lost));
}

#[test]
fn failed_write_of_any_placement_aborts() {
    let (mut server, _) = connected();
    assert_eq!(server.step(Event::Choice(4)), advanced(vec![4], false));
    assert_eq!(server.step(Event::TransportFailed), torn_down(Error::TransportIo));
    assert_eq!(server.outcome(), Some(SessionOutcome::Aborted));
    let mut client = TicTacToe::new(Role::Client);
    assert_eq!(client.step(Event::Opened), advanced(vec![0], false));
    assert_eq!(client.step(Event::TransportFailed), torn_down(Error::TransportIo));
    assert_eq!(client.outcome(), Some(SessionOutcome::Aborted));
}

#[test]
fn sent_changes_nothing_in_a_running_session() {
    let (mut server, mut client) = connected();
    for session in [&mut server, &mut client] {
        let phase = session.phase();
        assert_eq!(session.step(Event::Sent), quiet());
        assert_eq!(session.phase(), phase);
    }
    let mut fresh = TicTacToe::new(Role::Server);
    assert_eq!(fresh.step(Event::Sent), quiet());
    assert_eq!(fresh.phase(), Phase::AwaitingHandshake);
}

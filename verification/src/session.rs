//! What the two games share: the events that reach a session, what a session
//! asks of its caller in return, and how a session can end.

use crate::error::Error;
use crate::util::{Field, Role};
use vstd::prelude::*;

verus! {

/// The byte that the client opens the exchange with. The server reads one
/// byte and does not look at its value.
pub const HANDSHAKE_MARKER: u8 = 0;

/// How a finished session ended for the local peer.
#[derive(Debug, Clone, Copy, PartialEq, Eq, Structural)]
pub enum SessionOutcome {
    Won,
    Lost,
    Draw,
    /// Ended before the game did: the channel failed, the peer broke the
    /// protocol, or the local peer quit.
    Aborted,
}

/// Something that happened outside and that the session has to react to.
#[derive(Debug, PartialEq, Eq)]
pub enum Event {
    /// The channel to the peer is open.
    Opened,
    /// The local peer picked the entry with this index, counted from 0.
    Choice(u32),
    /// The local peer asked to quit.
    Quit,
    /// The bytes that the session was waiting for have arrived.
    Received(Vec<u8>),
    /// The bytes that the last step handed out are written to the channel.
    Sent,
    /// Reading from or writing to the channel failed.
    TransportFailed,
}

/// An [`Event`] with its bytes as a sequence.
#[verifier::ext_equal]
pub enum EventView {
    Opened,
    Choice(u32),
    Quit,
    Received(Seq<u8>),
    Sent,
    TransportFailed,
}

impl View for Event {
    type V = EventView;

    open spec fn view(&self) -> EventView {
        match self {
            Event::Opened => EventView::Opened,
            Event::Choice(index) => EventView::Choice(*index),
            Event::Quit => EventView::Quit,
            Event::Received(bytes) => EventView::Received(bytes@),
            Event::Sent => EventView::Sent,
            Event::TransportFailed => EventView::TransportFailed,
        }
    }
}

/// What the caller has to do after a step, in this order: write `send` to the
/// channel and report [`Event::Sent`], or [`Event::TransportFailed`] if the
/// write fails; draw the state if `render` is set; and close the sending side
/// if `close` is set. `error` says what went wrong, if anything did.
#[derive(Debug, PartialEq, Eq)]
pub struct Effects {
    pub send: Vec<u8>,
    pub render: bool,
    pub close: bool,
    pub error: Option<Error>,
}

/// [`Effects`] with the bytes to send as a sequence.
#[verifier::ext_equal]
pub struct EffectsView {
    pub send: Seq<u8>,
    pub render: bool,
    pub close: bool,
    pub error: Option<Error>,
}

impl View for Effects {
    type V = EffectsView;

    open spec fn view(&self) -> EffectsView {
        EffectsView { send: self.send@, render: self.render, close: self.close, error: self.error }
    }
}

/// Nothing to do.
pub open spec fn quiet() -> EffectsView {
    EffectsView { send: Seq::empty(), render: false, close: false, error: None }
}

/// The input was turned down; nothing else happens.
pub open spec fn rejected() -> EffectsView {
    EffectsView {
        send: Seq::empty(),
        render: false,
        close: false,
        error: Some(Error::LocalInputRejected),
    }
}

/// The state changed and is to be drawn; `send` goes out first.
pub open spec fn advanced(send: Seq<u8>, finished: bool) -> EffectsView {
    EffectsView { send, render: true, close: finished, error: None }
}

/// The session is over for the reason `error`: draw it and close.
pub open spec fn torn_down(error: Error) -> EffectsView {
    EffectsView { send: Seq::empty(), render: true, close: true, error: Some(error) }
}

/// The mark of the peer in `role`.
pub open spec fn own_field(role: Role) -> Field {
    match role {
        Role::Server => Field::Server,
        Role::Client => Field::Client,
    }
}

/// The mark of the peer that `role` plays against.
pub open spec fn opponent_field(role: Role) -> Field {
    match role {
        Role::Server => Field::Client,
        Role::Client => Field::Server,
    }
}

impl Effects {
    /// Nothing to do.
    pub fn quiet() -> (effects: Self)
        ensures
            effects@ == quiet(),
    {
        Effects { send: Vec::new(), render: false, close: false, error: None }
    }

    /// The input was turned down.
    pub fn rejected() -> (effects: Self)
        ensures
            effects@ == rejected(),
    {
        Effects {
            send: Vec::new(),
            render: false,
            close: false,
            error: Some(Error::LocalInputRejected),
        }
    }

    /// The state changed; `send` goes out first.
    pub fn advanced(send: Vec<u8>, finished: bool) -> (effects: Self)
        ensures
            effects@ == advanced(send@, finished),
    {
        Effects { send, render: true, close: finished, error: None }
    }

    /// The session is over for the reason `error`.
    pub fn torn_down(error: Error) -> (effects: Self)
        ensures
            effects@ == torn_down(error),
    {
        Effects { send: Vec::new(), render: true, close: true, error: Some(error) }
    }
}

impl Role {
    /// The mark that this peer places.
    pub fn own_field(&self) -> (field: Field)
        ensures
            field == own_field(*self),
    {
        match self {
            Role::Server => Field::Server,
            Role::Client => Field::Client,
        }
    }

    /// The mark that the other peer places.
    pub fn opponent_field(&self) -> (field: Field)
        ensures
            field == opponent_field(*self),
    {
        match self {
            Role::Server => Field::Client,
            Role::Client => Field::Server,
        }
    }
}

/// What a key asks for.
#[derive(Debug, Clone, Copy, PartialEq, Eq, Structural)]
pub enum KeyCommand {
    /// Pick the entry with this index, counted from 0.
    Choose(u32),
    /// Leave the game.
    Quit,
    /// The key means nothing here.
    Ignore,
}

/// What the key `key` asks for: `1` to `9` pick the entries 0 to 8, `q`
/// quits, and every other key is ignored.
pub open spec fn spec_key_command(key: char) -> KeyCommand {
    if '1' <= key && key <= '9' {
        KeyCommand::Choose((key as u32 - '1' as u32) as u32)
    } else if key == 'q' {
        KeyCommand::Quit
    } else {
        KeyCommand::Ignore
    }
}

/// What the pressed key `key` asks for.
pub fn key_command(key: char) -> (command: KeyCommand)
    ensures
        command == spec_key_command(key),
{
    if '1' <= key && key <= '9' {
        KeyCommand::Choose(key as u32 - '1' as u32)
    } else if key == 'q' {
        KeyCommand::Quit
    } else {
        KeyCommand::Ignore
    }
}

} // verus!

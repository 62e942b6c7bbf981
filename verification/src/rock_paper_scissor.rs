//! Rock-paper-scissors: the three guesses, how one is sealed and opened
//! again, who beats whom, and one peer's side of a round.

use crate::cipher::{fresh_key, fresh_nonce, open, opened, seal, sealed, MAX_CIPHERTEXT_LEN};
use crate::error::Error;
use crate::session::{
    advanced, quiet, rejected, torn_down, Effects, EffectsView, Event, EventView, SessionOutcome,
    HANDSHAKE_MARKER,
};
use crate::util::Role;
use vstd::prelude::*;

verus! {

/// One of the three choices.
#[derive(Debug, Clone, Copy, PartialEq, Eq, Structural)]
pub enum Guess {
    Rock,
    Paper,
    Scissors,
}

/// Why a sealed guess could not be opened.
#[derive(Debug, Clone, Copy, PartialEq, Eq, Structural)]
pub enum RevealError {
    /// The key is not 32 bytes long, or the nonce not 12.
    SizeError,
    /// The cipher refused the ciphertext under this key and nonce.
    AuthFailure,
    /// What was sealed is not one byte that stands for a guess.
    DecodeError,
}

/// How a round ends for the peer whose guess comes first.
#[derive(Debug, Clone, Copy, PartialEq, Eq, Structural)]
pub enum Outcome {
    Win,
    Lose,
    Draw,
}

/// Bytes in a sealed guess: the one byte of the guess and the tag.
pub const CIPHERTEXT_LEN: usize = 17;

/// `a` beats `b`: rock blunts scissors, scissors cut paper, paper wraps rock.
pub open spec fn beats(a: Guess, b: Guess) -> bool {
    ||| a == Guess::Rock && b == Guess::Scissors
    ||| a == Guess::Scissors && b == Guess::Paper
    ||| a == Guess::Paper && b == Guess::Rock
}

/// The round as the holder of `mine` sees it.
pub open spec fn spec_resolve(mine: Guess, theirs: Guess) -> Outcome {
    if beats(mine, theirs) {
        Outcome::Win
    } else if beats(theirs, mine) {
        Outcome::Lose
    } else {
        Outcome::Draw
    }
}

/// The guess that a wire value stands for.
pub open spec fn guess_of(value: int) -> Option<Guess> {
    if value == 0 {
        Some(Guess::Rock)
    } else if value == 1 {
        Some(Guess::Paper)
    } else if value == 2 {
        Some(Guess::Scissors)
    } else {
        None
    }
}

/// The guess that an opened payload holds: it has to be exactly one byte, and
/// that byte a guess.
pub open spec fn spec_decode(payload: Seq<u8>) -> Result<Guess, RevealError> {
    if payload.len() == 1 && guess_of(payload[0] as int) is Some {
        Ok(guess_of(payload[0] as int)->0)
    } else {
        Err(RevealError::DecodeError)
    }
}

/// What opening a sealed guess yields. A key or nonce of the wrong length is
/// a `SizeError`. A ciphertext that is longer than the cipher takes, or that
/// the cipher refuses, fails authentication. What the cipher returns has to
/// be a guess.
pub open spec fn spec_decrypt(encrypted: Seq<u8>, key: Seq<u8>, nonce: Seq<u8>) -> Result<
    Guess,
    RevealError,
> {
    if key.len() != 32 || nonce.len() != 12 {
        Err(RevealError::SizeError)
    } else if encrypted.len() > MAX_CIPHERTEXT_LEN {
        Err(RevealError::AuthFailure)
    } else {
        match opened(key, nonce, encrypted) {
            None => Err(RevealError::AuthFailure),
            Some(payload) => spec_decode(payload),
        }
    }
}

/// `ciphertext` is `guess` sealed under `key` and `nonce`.
pub open spec fn commits_to(
    ciphertext: Seq<u8>,
    key: Seq<u8>,
    nonce: Seq<u8>,
    guess: Guess,
) -> bool {
    &&& key.len() == 32
    &&& nonce.len() == 12
    &&& ciphertext.len() == 17
    &&& ciphertext == sealed(key, nonce, seq![guess.code()])
    &&& opened(key, nonce, ciphertext) == Some(seq![guess.code()])
}

/// Opening what was sealed gives the guess back.
pub proof fn lemma_reveal_of_commit(ciphertext: Seq<u8>, key: Seq<u8>, nonce: Seq<u8>, guess: Guess)
    ensures
        commits_to(ciphertext, key, nonce, guess) ==> spec_decrypt(ciphertext, key, nonce) == Ok::<
            Guess,
            RevealError,
        >(guess),
{
}

/// A key that is not 32 bytes long, or a nonce that is not 12, is a
/// `SizeError` whatever the ciphertext, and nothing else is.
pub proof fn lemma_size_error(encrypted: Seq<u8>, key: Seq<u8>, nonce: Seq<u8>)
    ensures
        spec_decrypt(encrypted, key, nonce) == Err::<Guess, RevealError>(RevealError::SizeError)
            <==> key.len() != 32 || nonce.len() != 12,
{
}

/// Of any two guesses exactly one of these holds: the first wins against the
/// second, the second wins against the first, or the round is a draw both
/// ways. It is a draw exactly when the guesses are equal, and one peer's win
/// is the other's loss.
pub proof fn lemma_resolve_antisymmetric(a: Guess, b: Guess)
    ensures
        ({
            let first = spec_resolve(a, b) == Outcome::Win;
            let second = spec_resolve(b, a) == Outcome::Win;
            let draw = spec_resolve(a, b) == Outcome::Draw && spec_resolve(b, a) == Outcome::Draw;
            ||| first && !second && !draw
            ||| !first && second && !draw
            ||| !first && !second && draw
        }),
        spec_resolve(a, b) == Outcome::Draw <==> a == b,
        spec_resolve(a, b) == Outcome::Win <==> spec_resolve(b, a) == Outcome::Lose,
{
}

impl Guess {
    /// The byte that stands for the guess on the wire.
    pub open spec fn code(self) -> u8 {
        match self {
            Guess::Rock => 0,
            Guess::Paper => 1,
            Guess::Scissors => 2,
        }
    }

    /// Seals the guess under a fresh random key and nonce, and returns
    /// ciphertext, key and nonce. The ciphertext alone commits to the guess;
    /// key and nonce open it.
    pub fn encrypt(&self) -> (res: (Vec<u8>, [u8; 32], [u8; 12]))
        ensures
            commits_to(res.0@, res.1@, res.2@, *self),
    {
        let key = fresh_key();
        let nonce = fresh_nonce();
        let encrypted = self.encrypt_with(&key, &nonce);
        (encrypted, key, nonce)
    }

    /// Seals the guess under the given key and nonce.
    pub fn encrypt_with(&self, key: &[u8; 32], nonce: &[u8; 12]) -> (encrypted: Vec<u8>)
        ensures
            commits_to(encrypted@, key@, nonce@, *self),
    {
        let data = u8::from(self);
        let payload = [data];
        assert(payload@ =~= seq![self.code()]);
        match seal(key, nonce, payload.as_slice()) {
            Some(encrypted) => encrypted,
            None => vstd::pervasive::unreached(),
        }
    }

    /// The guess in an opened payload.
    pub fn decode(payload: &[u8]) -> (res: Result<Self, RevealError>)
        ensures
            res == spec_decode(payload@),
    {
        if payload.len() != 1 {
            return Err(RevealError::DecodeError);
        }
        Self::try_from(payload[0] as u32)
    }

    /// Opens a sealed guess.
    ///
    /// A key or nonce of the wrong length is a `SizeError`; a ciphertext that
    /// is longer than the cipher takes, or that the cipher refuses under key
    /// and nonce, is an `AuthFailure`; a payload that is no guess is a
    /// `DecodeError`.
    pub fn decrypt(encrypted: &[u8], key: &[u8], nonce: &[u8]) -> (res: Result<Self, RevealError>)
        ensures
            res == spec_decrypt(encrypted@, key@, nonce@),
    {
        if key.len() != 32 || nonce.len() != 12 {
            return Err(RevealError::SizeError);
        }
        if encrypted.len() as u64 > MAX_CIPHERTEXT_LEN {
            return Err(RevealError::AuthFailure);
        }
        match open(key, nonce, encrypted) {
            Some(decrypted) => Self::decode(decrypted.as_slice()),
            None => Err(RevealError::AuthFailure),
        }
    }
}

impl TryFrom<u32> for Guess {
    type Error = RevealError;

    /// The guess that a wire value stands for; any value above 2 is a
    /// `DecodeError`.
    fn try_from(value: u32) -> (res: Result<Self, RevealError>) {
        match value {
            0 => Ok(Guess::Rock),
            1 => Ok(Guess::Paper),
            2 => Ok(Guess::Scissors),
            _ => Err(RevealError::DecodeError),
        }
    }
}

impl vstd::std_specs::convert::TryFromSpecImpl<u32> for Guess {
    open spec fn obeys_try_from_spec() -> bool {
        true
    }

    open spec fn try_from_spec(value: u32) -> Result<Self, RevealError> {
        match guess_of(value as int) {
            Some(guess) => Ok(guess),
            None => Err(RevealError::DecodeError),
        }
    }
}

impl From<&Guess> for u8 {
    /// The byte that stands for the guess on the wire.
    fn from(value: &Guess) -> (code: Self) {
        match value {
            Guess::Rock => 0,
            Guess::Paper => 1,
            Guess::Scissors => 2,
        }
    }
}

impl vstd::std_specs::convert::FromSpecImpl<&Guess> for u8 {
    open spec fn obeys_from_spec() -> bool {
        true
    }

    open spec fn from_spec(value: &Guess) -> Self {
        value.code()
    }
}

/// How the round ends for the holder of `mine`.
pub fn resolve(mine: Guess, theirs: Guess) -> (outcome: Outcome)
    ensures
        outcome == spec_resolve(mine, theirs),
{
    if mine == theirs {
        Outcome::Draw
    } else if (mine == Guess::Rock && theirs == Guess::Scissors) || (mine == Guess::Paper && theirs
        == Guess::Rock) || (mine == Guess::Scissors && theirs == Guess::Paper) {
        Outcome::Win
    } else {
        Outcome::Lose
    }
}

/// Where a round stands.
#[derive(Debug, Clone, Copy, PartialEq, Eq, Structural)]
pub enum Stage {
    /// The client has yet to send its marker, the server to receive it.
    AwaitingHandshake,
    /// The local peer has yet to make its guess.
    AwaitingGuess,
    /// Server: the guess is made, the client's sealed guess has yet to come.
    AwaitingCommitment,
    /// Client: the sealed guess is out, the server's guess has yet to come.
    AwaitingPlain,
    /// Server: its guess is out, the client's key and nonce have yet to come.
    AwaitingReveal,
    /// The round is over. No guess is taken any more; the outcome is final
    /// once the last bytes are written.
    Finished(SessionOutcome),
}

/// One peer's side of a round of rock-paper-scissors.
///
/// The client seals its guess and sends the ciphertext; the server answers
/// with its own guess in the clear; the client then sends key and nonce, and
/// the server opens the ciphertext with them. The server's guess is thus known
/// to the client before the client has to reveal anything.
pub struct RockPaperScissors {
    role: Role,
    stage: Stage,
    guess: Option<Guess>,
    commitment: Vec<u8>,
    opening: Vec<u8>,
    unconfirmed: bool,
}

/// What a [`RockPaperScissors`] stands for.
#[verifier::ext_equal]
pub struct RockPaperScissorsView {
    pub role: Role,
    pub stage: Stage,
    /// The local peer's guess, once made.
    pub guess: Option<Guess>,
    /// The client's sealed guess: on the client once it is sent, on the server
    /// once it has come.
    pub commitment: Seq<u8>,
    /// On the client: key, then nonce, of its sealed guess.
    pub opening: Seq<u8>,
    /// The client has decided the round, and its key and nonce are not yet
    /// known to be written. Until they are, a failure of the channel still
    /// aborts the round.
    pub unconfirmed: bool,
}

/// Bytes in a reveal: the key, then the nonce.
pub const OPENING_LEN: usize = 44;

/// The key in a reveal: its first 32 bytes, or all of it if it is shorter.
pub open spec fn key_part(opening: Seq<u8>) -> Seq<u8> {
    if opening.len() <= 32 {
        opening
    } else {
        opening.take(32)
    }
}

/// The nonce in a reveal: what follows the first 32 bytes.
pub open spec fn nonce_part(opening: Seq<u8>) -> Seq<u8> {
    if opening.len() <= 32 {
        Seq::empty()
    } else {
        opening.skip(32)
    }
}

/// A round for the peer in `role`, before anything has happened.
pub open spec fn initial(role: Role) -> RockPaperScissorsView {
    RockPaperScissorsView {
        role,
        stage: Stage::AwaitingHandshake,
        guess: None,
        commitment: Seq::empty(),
        opening: Seq::empty(),
        unconfirmed: false,
    }
}

/// The end of a session that a round's result stands for.
pub open spec fn outcome_of(outcome: Outcome) -> SessionOutcome {
    match outcome {
        Outcome::Win => SessionOutcome::Won,
        Outcome::Lose => SessionOutcome::Lost,
        Outcome::Draw => SessionOutcome::Draw,
    }
}

/// The round `s`, ended without a result.
pub open spec fn aborted(s: RockPaperScissorsView) -> RockPaperScissorsView {
    RockPaperScissorsView {
        stage: Stage::Finished(SessionOutcome::Aborted),
        unconfirmed: false,
        ..s
    }
}

/// The round `s`, ended with the peer's guess `theirs` against the local one.
/// The client ends it in the step that hands out its key and nonce, which
/// have yet to go out.
pub open spec fn decided(s: RockPaperScissorsView, theirs: Guess) -> RockPaperScissorsView {
    RockPaperScissorsView {
        stage: Stage::Finished(outcome_of(spec_resolve(s.guess->0, theirs))),
        unconfirmed: s.stage == Stage::AwaitingPlain,
        ..s
    }
}

/// The finished round `s` after the event `event`. While the client's key and
/// nonce are not known to be written, a failure of the channel aborts the
/// round, and the news that they are written makes the outcome final. Nothing
/// else changes a finished round.
pub open spec fn spec_finished_step(s: RockPaperScissorsView, event: EventView) -> (
    RockPaperScissorsView,
    EffectsView,
) {
    if s.unconfirmed && event is TransportFailed {
        (aborted(s), torn_down(Error::TransportIo))
    } else if s.unconfirmed && event is Sent {
        (RockPaperScissorsView { unconfirmed: false, ..s }, quiet())
    } else {
        (s, quiet())
    }
}

/// How many bytes the round waits for from the peer.
pub open spec fn spec_expects(s: RockPaperScissorsView) -> nat {
    match s.stage {
        Stage::AwaitingHandshake => if s.role == Role::Server {
            1
        } else {
            0
        },
        Stage::AwaitingCommitment => 17,
        Stage::AwaitingPlain => 1,
        Stage::AwaitingReveal => 44,
        _ => 0,
    }
}

/// The client's step from its guess to the sealed guess on the wire: it
/// keeps the guess and what opens the ciphertext, and sends the ciphertext.
/// A session that is not a client about to guess turns the request down.
pub open spec fn spec_commit(
    s: RockPaperScissorsView,
    guess: Guess,
    ciphertext: Seq<u8>,
    opening: Seq<u8>,
) -> (RockPaperScissorsView, EffectsView) {
    if s.stage == Stage::AwaitingGuess && s.role == Role::Client {
        (
            RockPaperScissorsView {
                stage: Stage::AwaitingPlain,
                guess: Some(guess),
                commitment: ciphertext,
                opening,
                ..s
            },
            advanced(ciphertext, false),
        )
    } else {
        (s, rejected())
    }
}

/// The server's step from the client's reveal to the end of the round, given
/// what opening the sealed guess has yielded. A guess decides the round. A
/// payload that is no guess breaks the protocol; a key or nonce of the wrong
/// length, or a ciphertext that they do not open, is a failure of the
/// commitment. A session that does not wait for a reveal stays as it is.
pub open spec fn spec_settle(s: RockPaperScissorsView, revealed: Result<Guess, RevealError>) -> (
    RockPaperScissorsView,
    EffectsView,
) {
    if s.stage == Stage::AwaitingReveal {
        match revealed {
            Ok(theirs) => (decided(s, theirs), advanced(Seq::empty(), true)),
            Err(RevealError::DecodeError) => (aborted(s), torn_down(Error::ProtocolViolation)),
            Err(_) => (aborted(s), torn_down(Error::CryptoFailure)),
        }
    } else {
        (s, quiet())
    }
}

/// The guess that this step seals: the one that a client about to guess
/// picks with a valid choice.
pub open spec fn sealing(s: RockPaperScissorsView, event: EventView) -> Option<Guess> {
    match event {
        EventView::Choice(index) => if s.stage == Stage::AwaitingGuess && s.role == Role::Client {
            guess_of(index as int)
        } else {
            None
        },
        _ => None,
    }
}

/// The round after an event, and what the caller is to do. `fresh` is the key
/// and the nonce that the step draws if it seals a guess.
///
/// * A finished round stays as it is, whatever happens, but for the one case
///   of [`spec_finished_step`]: the key and nonce that are not yet written.
/// * A request to quit or a failure of the channel ends the round as aborted,
///   at once.
/// * The news that bytes are written changes nothing in a running round.
/// * When the channel opens, the client sends its marker; the server waits
///   for it.
/// * A local choice counts once, after the handshake, and has to name a
///   guess. The client then seals it and sends the ciphertext; the server
///   keeps it and waits for the client's ciphertext. Any other local choice
///   is turned down, and the round stays as it is.
/// * The server answers the ciphertext, which has to be 17 bytes long, with
///   its own guess in the clear.
/// * The client answers the server's guess, which has to be one byte that
///   stands for a guess, with its key and nonce, and the round is decided.
/// * The server opens the ciphertext with the key and nonce that come, and
///   the round is decided, or fails as [`spec_settle`] says.
/// * Bytes from the peer that the round does not wait for, or that do not
///   have the form above, break the protocol and end the round as aborted.
pub open spec fn spec_step(s: RockPaperScissorsView, event: EventView, fresh: Seq<u8>) -> (
    RockPaperScissorsView,
    EffectsView,
) {
    if s.stage is Finished {
        spec_finished_step(s, event)
    } else {
        match event {
            EventView::Quit => (aborted(s), torn_down(Error::CancelRequested)),
            EventView::TransportFailed => (aborted(s), torn_down(Error::TransportIo)),
            EventView::Sent => (s, quiet()),
            EventView::Opened => {
                if s.stage == Stage::AwaitingHandshake && s.role == Role::Client {
                    (
                        RockPaperScissorsView { stage: Stage::AwaitingGuess, ..s },
                        advanced(seq![HANDSHAKE_MARKER], false),
                    )
                } else {
                    (s, advanced(Seq::empty(), false))
                }
            },
            EventView::Choice(index) => {
                if s.stage == Stage::AwaitingGuess && guess_of(index as int) is Some {
                    let guess = guess_of(index as int)->0;
                    if s.role == Role::Client {
                        spec_commit(
                            s,
                            guess,
                            sealed(key_part(fresh), nonce_part(fresh), seq![guess.code()]),
                            fresh,
                        )
                    } else {
                        (
                            RockPaperScissorsView {
                                stage: Stage::AwaitingCommitment,
                                guess: Some(guess),
                                ..s
                            },
                            advanced(Seq::empty(), false),
                        )
                    }
                } else {
                    (s, rejected())
                }
            },
            EventView::Received(bytes) => {
                if s.stage == Stage::AwaitingHandshake && s.role == Role::Server && bytes.len()
                    == 1 {
                    (
                        RockPaperScissorsView { stage: Stage::AwaitingGuess, ..s },
                        advanced(Seq::empty(), false),
                    )
                } else if s.stage == Stage::AwaitingCommitment && bytes.len() == 17 {
                    (
                        RockPaperScissorsView {
                            stage: Stage::AwaitingReveal,
                            commitment: bytes,
                            ..s
                        },
                        advanced(seq![(s.guess->0).code()], false),
                    )
                } else if s.stage == Stage::AwaitingPlain && spec_decode(bytes) is Ok {
                    (decided(s, spec_decode(bytes)->Ok_0), advanced(s.opening, true))
                } else if s.stage == Stage::AwaitingReveal {
                    spec_settle(s, spec_decrypt(s.commitment, key_part(bytes), nonce_part(bytes)))
                } else {
                    (aborted(s), torn_down(Error::ProtocolViolation))
                }
            },
        }
    }
}

/// What holds of every round that the steps can reach: the local guess is
/// made exactly when the stage says so, a client alone seals and reveals, a
/// server alone waits for ciphertext and reveal, the round holds no
/// ciphertext and no opening before it has got them, and only a client's
/// round that has ended with a result can have its reveal unconfirmed.
pub open spec fn wf(s: RockPaperScissorsView) -> bool {
    &&& s.unconfirmed ==> s.role == Role::Client && s.stage is Finished && s.stage
        != Stage::Finished(SessionOutcome::Aborted)
    &&& match s.stage {
        Stage::AwaitingHandshake | Stage::AwaitingGuess => {
            &&& s.guess is None
            &&& s.commitment.len() == 0
            &&& s.opening.len() == 0
        },
        Stage::AwaitingCommitment => {
            &&& s.role == Role::Server
            &&& s.guess is Some
            &&& s.commitment.len() == 0
            &&& s.opening.len() == 0
        },
        Stage::AwaitingReveal => {
            &&& s.role == Role::Server
            &&& s.guess is Some
            &&& s.commitment.len() == 17
            &&& s.opening.len() == 0
        },
        Stage::AwaitingPlain => {
            &&& s.role == Role::Client
            &&& s.guess is Some
            &&& s.opening.len() == 44
        },
        Stage::Finished(_) => true,
    }
}

/// A step leads from a reachable round to a reachable round, given that the
/// key and the nonce that it draws have their 44 bytes.
pub proof fn lemma_step_keeps_wf(s: RockPaperScissorsView, event: EventView, fresh: Seq<u8>)
    requires
        wf(s),
        fresh.len() == 44,
    ensures
        wf(spec_step(s, event, fresh).0),
{
}

/// The round `s` after the events `events`, taken in order. `fresh` is the key
/// and the nonce of the one step that seals a guess.
pub open spec fn after(
    s: RockPaperScissorsView,
    events: Seq<EventView>,
    fresh: Seq<u8>,
) -> RockPaperScissorsView
    decreases events.len(),
{
    if events.len() == 0 {
        s
    } else {
        spec_step(after(s, events.drop_last(), fresh), events.last(), fresh).0
    }
}

/// Whatever happens to a round, it stays a reachable round in the sense of
/// [`wf`].
pub proof fn lemma_rounds_stay_wf(role: Role, events: Seq<EventView>, fresh: Seq<u8>)
    requires
        fresh.len() == 44,
    ensures
        wf(after(initial(role), events, fresh)),
    decreases events.len(),
{
    if events.len() > 0 {
        lemma_rounds_stay_wf(role, events.drop_last(), fresh);
        lemma_step_keeps_wf(after(initial(role), events.drop_last(), fresh), events.last(), fresh);
    }
}

/// The line that tells the local peer where the round stands.
pub open spec fn spec_text(stage: Stage) -> Seq<char> {
    match stage {
        Stage::AwaitingHandshake => "Waiting for your opponent to connect"@,
        Stage::AwaitingGuess => "Input your guess: Rock (1), Paper (2) or Scissors (3)?"@,
        Stage::AwaitingCommitment | Stage::AwaitingPlain | Stage::AwaitingReveal =>
            "Waiting for your opponent to respond"@,
        Stage::Finished(SessionOutcome::Won) => "You won!"@,
        Stage::Finished(SessionOutcome::Lost) => "You lost!"@,
        Stage::Finished(SessionOutcome::Draw) => "Draw!"@,
        Stage::Finished(SessionOutcome::Aborted) => "Game aborted"@,
    }
}

/// An aborted round does not look like any other: its line differs from that
/// of every other stage.
pub proof fn lemma_aborted_is_told_apart(stage: Stage)
    requires
        stage != Stage::Finished(SessionOutcome::Aborted),
    ensures
        spec_text(stage) != spec_text(Stage::Finished(SessionOutcome::Aborted)),
{
    reveal_strlit("Waiting for your opponent to connect");
    reveal_strlit("Input your guess: Rock (1), Paper (2) or Scissors (3)?");
    reveal_strlit("Waiting for your opponent to respond");
    reveal_strlit("You won!");
    reveal_strlit("You lost!");
    reveal_strlit("Draw!");
    reveal_strlit("Game aborted");
    assert(spec_text(stage).len() != 12);
}

/// A finished round whose last bytes are out takes no event: it stays as it
/// is, asks for nothing, and waits for no byte. No finished round ever takes a
/// guess or runs again.
pub proof fn lemma_finished_is_final(s: RockPaperScissorsView, event: EventView, fresh: Seq<u8>)
    requires
        s.stage is Finished,
    ensures
        !s.unconfirmed ==> spec_step(s, event, fresh) == (s, quiet()),
        spec_step(s, event, fresh).0.stage is Finished,
        spec_step(s, event, fresh).0.guess == s.guess,
        spec_step(s, event, fresh).1.send.len() == 0,
        spec_expects(s) == 0,
{
}

/// A failure of the channel ends every round as aborted, also the one that
/// the client has just decided: as long as its key and nonce are not known to
/// be written, the outcome is not final. Once they are written, it is.
pub proof fn lemma_failed_send_aborts(s: RockPaperScissorsView, bytes: Seq<u8>, fresh: Seq<u8>)
    requires
        wf(s),
    ensures
        !(s.stage is Finished) || s.unconfirmed ==> spec_step(
            s,
            EventView::TransportFailed,
            fresh,
        ) == (aborted(s), torn_down(Error::TransportIo)),
        s.unconfirmed ==> spec_step(s, EventView::Sent, fresh).0 == (RockPaperScissorsView {
            unconfirmed: false,
            ..s
        }),
        s.stage == Stage::AwaitingPlain && spec_step(
            s,
            EventView::Received(bytes),
            fresh,
        ).1.error is None ==> spec_step(s, EventView::Received(bytes), fresh).0.unconfirmed,
{
}

/// A request to quit ends a running round with the step that takes it,
/// whatever the round was waiting for: it is aborted, its sending side is to
/// be closed, and it waits for no byte from the peer any more.
pub proof fn lemma_quit_ends_at_once(s: RockPaperScissorsView, fresh: Seq<u8>)
    requires
        !(s.stage is Finished),
    ensures
        spec_step(s, EventView::Quit, fresh).0.stage == Stage::Finished(SessionOutcome::Aborted),
        spec_step(s, EventView::Quit, fresh).1 == torn_down(Error::CancelRequested),
        spec_expects(spec_step(s, EventView::Quit, fresh).0) == 0,
{
}

/// How far a round has come: the handshake, the guess, the exchange in its
/// two halves, the end.
pub open spec fn progress(stage: Stage) -> nat {
    match stage {
        Stage::AwaitingHandshake => 0,
        Stage::AwaitingGuess => 1,
        Stage::AwaitingCommitment | Stage::AwaitingPlain => 2,
        Stage::AwaitingReveal => 3,
        Stage::Finished(_) => 4,
    }
}

/// A round never goes back: each step leaves it where it is or takes it on.
pub proof fn lemma_rounds_advance(s: RockPaperScissorsView, event: EventView, fresh: Seq<u8>)
    requires
        wf(s),
    ensures
        progress(s.stage) <= progress(spec_step(s, event, fresh).0.stage),
        spec_step(s, event, fresh).0.role == s.role,
{
}

/// What a client sends, and when. Whatever leaves a client is its marker,
/// its sealed guess or its key and nonce, each in a step of its own: the
/// marker in the step from the handshake, the sealed guess in the step that
/// makes the guess, and key and nonce in the step that ends the round, which
/// starts where the sealed guess has gone out and the server's guess has come
/// in. So the key and the nonce never leave before the ciphertext has.
pub proof fn lemma_client_sends_in_order(s: RockPaperScissorsView, event: EventView, fresh: Seq<u8>)
    requires
        wf(s),
        s.role == Role::Client,
    ensures
        ({
            let (next, effects) = spec_step(s, event, fresh);
            effects.send.len() > 0 ==> {
                ||| s.stage == Stage::AwaitingHandshake && next.stage == Stage::AwaitingGuess
                    && effects.send == seq![HANDSHAKE_MARKER]
                ||| s.stage == Stage::AwaitingGuess && next.stage == Stage::AwaitingPlain
                    && effects.send == next.commitment && next.opening == fresh
                    && next.commitment == sealed(
                    key_part(fresh),
                    nonce_part(fresh),
                    seq![(next.guess->0).code()],
                )
                ||| s.stage == Stage::AwaitingPlain && next.stage is Finished && event is Received
                    && effects.send == s.opening
            }
        }),
{
}

/// What a server sends, and when: nothing but its guess in the clear, and
/// that in the step that takes the client's sealed guess in, not before.
pub proof fn lemma_server_sends_in_order(s: RockPaperScissorsView, event: EventView, fresh: Seq<u8>)
    requires
        wf(s),
        s.role == Role::Server,
    ensures
        ({
            let (next, effects) = spec_step(s, event, fresh);
            effects.send.len() > 0 ==> {
                &&& s.stage == Stage::AwaitingCommitment
                &&& next.stage == Stage::AwaitingReveal
                &&& event == EventView::Received(next.commitment)
                &&& effects.send == seq![(s.guess->0).code()]
            }
        }),
{
}

/// The caller is told to close in the step that ends the round, and again in
/// the step that aborts it over its last bytes, and in no other; and whenever
/// a step changes the stage, the caller is told to draw it, so the final
/// state too.
pub proof fn lemma_close_marks_the_end(s: RockPaperScissorsView, event: EventView, fresh: Seq<u8>)
    requires
        wf(s),
    ensures
        spec_step(s, event, fresh).1.close <==> spec_step(s, event, fresh).0.stage is Finished
            && spec_step(s, event, fresh).0.stage != s.stage,
        spec_step(s, event, fresh).0.stage != s.stage ==> spec_step(s, event, fresh).1.render,
        spec_step(s, event, fresh).1.error == Some(Error::LocalInputRejected) ==> spec_step(
            s,
            event,
            fresh,
        ) == (s, rejected()),
{
}

/// A guess, once made, stays: no step changes it.
pub proof fn lemma_guess_is_kept(s: RockPaperScissorsView, event: EventView, fresh: Seq<u8>)
    requires
        wf(s),
        s.guess is Some,
    ensures
        spec_step(s, event, fresh).0.guess == s.guess,
{
}

/// Both peers see the same round: where one wins the other loses, and a draw
/// is a draw for both.
pub proof fn lemma_outcomes_mirror(mine: Guess, theirs: Guess)
    ensures
        outcome_of(spec_resolve(mine, theirs)) == SessionOutcome::Won <==> outcome_of(
            spec_resolve(theirs, mine),
        ) == SessionOutcome::Lost,
        outcome_of(spec_resolve(mine, theirs)) == SessionOutcome::Draw <==> outcome_of(
            spec_resolve(theirs, mine),
        ) == SessionOutcome::Draw,
{
}

/// A whole round, message by message, ends alike on both sides. The client
/// sends its marker and the server takes it in; both make their guesses; the
/// client's sealed guess goes to the server, the server's guess to the client,
/// and the client's key and nonce to the server. If what the client has sent
/// first is its guess sealed under that key and nonce, as
/// [`RockPaperScissors::step`] sees to, then both rounds are decided, each by
/// the same two guesses: a win for one peer is a loss for the other, and a
/// draw is one for both.
pub proof fn lemma_round_ends_alike(server_guess: Guess, client_guess: Guess, fresh: Seq<u8>)
    ensures
        ({
            let (c1, marker) = spec_step(initial(Role::Client), EventView::Opened, fresh);
            let (s1, _) = spec_step(initial(Role::Server), EventView::Received(marker.send), fresh);
            let (s2, _) = spec_step(s1, EventView::Choice(server_guess.code() as u32), fresh);
            let (c2, commitment) = spec_step(
                c1,
                EventView::Choice(client_guess.code() as u32),
                fresh,
            );
            let (s3, plain) = spec_step(s2, EventView::Received(commitment.send), fresh);
            let (c3, reveal) = spec_step(c2, EventView::Received(plain.send), fresh);
            let (s4, _) = spec_step(s3, EventView::Received(reveal.send), fresh);
            commits_to(commitment.send, key_part(fresh), nonce_part(fresh), client_guess) ==> {
                &&& c3.stage == Stage::Finished(
                    outcome_of(spec_resolve(client_guess, server_guess)),
                )
                &&& s4.stage == Stage::Finished(
                    outcome_of(spec_resolve(server_guess, client_guess)),
                )
                &&& c3.guess == Some(client_guess)
                &&& s4.guess == Some(server_guess)
            }
        }),
{
    let (c1, _) = spec_step(initial(Role::Client), EventView::Opened, fresh);
    let (_, commitment) = spec_step(c1, EventView::Choice(client_guess.code() as u32), fresh);
    lemma_reveal_of_commit(commitment.send, key_part(fresh), nonce_part(fresh), client_guess);
}

impl View for RockPaperScissors {
    type V = RockPaperScissorsView;

    closed spec fn view(&self) -> RockPaperScissorsView {
        RockPaperScissorsView {
            role: self.role,
            stage: self.stage,
            guess: self.guess,
            commitment: self.commitment@,
            opening: self.opening@,
            unconfirmed: self.unconfirmed,
        }
    }
}

impl RockPaperScissors {
    #[verifier::type_invariant]
    spec fn inv(self) -> bool {
        wf(self@)
    }

    /// A round for the peer in `role`, before the handshake.
    pub fn new(role: Role) -> (session: Self)
        ensures
            session@ == initial(role),
    {
        RockPaperScissors {
            role,
            stage: Stage::AwaitingHandshake,
            guess: None,
            commitment: Vec::new(),
            opening: Vec::new(),
            unconfirmed: false,
        }
    }

    /// Whether `your_guess` beats `other_guess`. A draw is no win.
    pub fn is_win(your_guess: Guess, other_guess: Guess) -> (won: bool)
        ensures
            won == beats(your_guess, other_guess),
    {
        match resolve(your_guess, other_guess) {
            Outcome::Win => true,
            _ => false,
        }
    }

    /// The local peer's role.
    pub fn role(&self) -> (role: Role)
        ensures
            role == self@.role,
    {
        self.role
    }

    /// Where the round stands.
    pub fn stage(&self) -> (stage: Stage)
        ensures
            stage == self@.stage,
    {
        self.stage
    }

    /// The local peer's guess, once made.
    pub fn guess(&self) -> (guess: Option<Guess>)
        ensures
            guess == self@.guess,
    {
        self.guess
    }

    /// The line that tells the local peer where the round stands.
    pub fn text(&self) -> (text: &'static str)
        ensures
            text@ == spec_text(self@.stage),
    {
        match self.stage {
            Stage::AwaitingHandshake => "Waiting for your opponent to connect",
            Stage::AwaitingGuess => "Input your guess: Rock (1), Paper (2) or Scissors (3)?",
            Stage::AwaitingCommitment | Stage::AwaitingPlain | Stage::AwaitingReveal => {
                "Waiting for your opponent to respond"
            },
            Stage::Finished(SessionOutcome::Won) => "You won!",
            Stage::Finished(SessionOutcome::Lost) => "You lost!",
            Stage::Finished(SessionOutcome::Draw) => "Draw!",
            Stage::Finished(SessionOutcome::Aborted) => "Game aborted",
        }
    }

    /// How the round ended, once it has.
    pub fn outcome(&self) -> (outcome: Option<SessionOutcome>)
        ensures
            outcome == match self@.stage {
                Stage::Finished(o) => Some(o),
                _ => None::<SessionOutcome>,
            },
    {
        match self.stage {
            Stage::Finished(o) => Some(o),
            _ => None,
        }
    }

    /// How many bytes the caller is to read from the peer and hand in as
    /// [`Event::Received`]; 0 while the round waits for none.
    pub fn expects(&self) -> (count: usize)
        ensures
            count == spec_expects(self@),
    {
        match self.stage {
            Stage::AwaitingHandshake => match self.role {
                Role::Server => 1,
                Role::Client => 0,
            },
            Stage::AwaitingCommitment => CIPHERTEXT_LEN,
            Stage::AwaitingPlain => 1,
            Stage::AwaitingReveal => OPENING_LEN,
            _ => 0,
        }
    }

    /// Takes the round through one event and says what the caller is to do.
    ///
    /// Where the step seals the local guess, key and nonce are drawn at
    /// random; they are what the round then holds as its opening.
    ///
    /// The caller reports how each write went, with [`Event::Sent`] or
    /// [`Event::TransportFailed`]. The client decides the round in the step
    /// that hands out key and nonce, but a failure to write them still aborts
    /// the round.
    pub fn step(&mut self, event: Event) -> (effects: Effects)
        ensures
            (final(self)@, effects@) == spec_step(old(self)@, event@, final(self)@.opening),
            sealing(old(self)@, event@) matches Some(guess) ==> commits_to(
                final(self)@.commitment,
                key_part(final(self)@.opening),
                nonce_part(final(self)@.opening),
                guess,
            ),
            wf(final(self)@),
    {
        proof {
            use_type_invariant(&*self);
        }
        if let Stage::Finished(_) = self.stage {
            if self.unconfirmed {
                match event {
                    Event::TransportFailed => {
                        return self.abort(Error::TransportIo);
                    },
                    Event::Sent => {
                        self.unconfirmed = false;
                    },
                    _ => {},
                }
            }
            return Effects::quiet();
        }
        match event {
            Event::Quit => self.abort(Error::CancelRequested),
            Event::TransportFailed => self.abort(Error::TransportIo),
            Event::Sent => Effects::quiet(),
            Event::Opened => {
                if self.stage == Stage::AwaitingHandshake && self.role == Role::Client {
                    self.stage = Stage::AwaitingGuess;
                    let mut send = Vec::new();
                    send.push(HANDSHAKE_MARKER);
                    Effects::advanced(send, false)
                } else {
                    Effects::advanced(Vec::new(), false)
                }
            },
            Event::Choice(index) => {
                if self.stage != Stage::AwaitingGuess {
                    return Effects::rejected();
                }
                match Guess::try_from(index) {
                    Err(_) => Effects::rejected(),
                    Ok(guess) => match self.role {
                        Role::Client => {
                            let (ciphertext, key, nonce) = guess.encrypt();
                            let effects = self.commit(guess, ciphertext, key, nonce);
                            proof {
                                let opening = key@ + nonce@;
                                assert(key_part(opening) =~= key@);
                                assert(nonce_part(opening) =~= nonce@);
                            }
                            effects
                        },
                        Role::Server => {
                            *self = RockPaperScissors {
                                role: self.role,
                                stage: Stage::AwaitingCommitment,
                                guess: Some(guess),
                                commitment: Vec::new(),
                                opening: Vec::new(),
                                unconfirmed: false,
                            };
                            Effects::advanced(Vec::new(), false)
                        },
                    },
                }
            },
            Event::Received(bytes) => {
                match self.stage {
                    Stage::AwaitingHandshake => {
                        if self.role == Role::Server && bytes.len() == 1 {
                            self.stage = Stage::AwaitingGuess;
                            Effects::advanced(Vec::new(), false)
                        } else {
                            self.abort(Error::ProtocolViolation)
                        }
                    },
                    Stage::AwaitingCommitment => {
                        if bytes.len() == CIPHERTEXT_LEN {
                            let guess = self.guess.unwrap();
                            *self = RockPaperScissors {
                                role: self.role,
                                stage: Stage::AwaitingReveal,
                                guess: Some(guess),
                                commitment: bytes,
                                opening: Vec::new(),
                                unconfirmed: false,
                            };
                            let mut send = Vec::new();
                            send.push(u8::from(&guess));
                            Effects::advanced(send, false)
                        } else {
                            self.abort(Error::ProtocolViolation)
                        }
                    },
                    Stage::AwaitingPlain => {
                        match Guess::decode(bytes.as_slice()) {
                            Ok(theirs) => {
                                let send = vstd::slice::slice_to_vec(self.opening.as_slice());
                                self.decide(theirs);
                                Effects::advanced(send, true)
                            },
                            Err(_) => self.abort(Error::ProtocolViolation),
                        }
                    },
                    Stage::AwaitingReveal => {
                        let cut: usize = if bytes.len() <= 32 {
                            bytes.len()
                        } else {
                            32
                        };
                        let key = vstd::slice::slice_subrange(bytes.as_slice(), 0, cut);
                        let nonce = vstd::slice::slice_subrange(bytes.as_slice(), cut, bytes.len());
                        let revealed = Guess::decrypt(self.commitment.as_slice(), key, nonce);
                        self.settle(revealed)
                    },
                    _ => self.abort(Error::ProtocolViolation),
                }
            },
        }
    }

    /// The client's step from its guess to the sealed guess on the wire, with
    /// the ciphertext, the key and the nonce given. [`RockPaperScissors::step`]
    /// takes it with what [`Guess::encrypt`] returns.
    pub fn commit(
        &mut self,
        guess: Guess,
        ciphertext: Vec<u8>,
        key: [u8; 32],
        nonce: [u8; 12],
    ) -> (effects: Effects)
        ensures
            (final(self)@, effects@) == spec_commit(
                old(self)@,
                guess,
                ciphertext@,
                key@ + nonce@,
            ),
            wf(final(self)@),
    {
        proof {
            use_type_invariant(&*self);
        }
        if self.stage != Stage::AwaitingGuess || self.role != Role::Client {
            return Effects::rejected();
        }
        let mut opening = vstd::slice::slice_to_vec(key.as_slice());
        let mut rest = vstd::slice::slice_to_vec(nonce.as_slice());
        opening.append(&mut rest);
        let send = vstd::slice::slice_to_vec(ciphertext.as_slice());
        *self = RockPaperScissors {
            role: self.role,
            stage: Stage::AwaitingPlain,
            guess: Some(guess),
            commitment: ciphertext,
            opening,
            unconfirmed: false,
        };
        Effects::advanced(send, false)
    }

    /// The server's step from the client's reveal to the end of the round,
    /// with the result of opening the sealed guess given.
    /// [`RockPaperScissors::step`] takes it with what [`Guess::decrypt`]
    /// returns.
    pub fn settle(&mut self, revealed: Result<Guess, RevealError>) -> (effects: Effects)
        ensures
            (final(self)@, effects@) == spec_settle(old(self)@, revealed),
            wf(final(self)@),
    {
        proof {
            use_type_invariant(&*self);
        }
        if self.stage != Stage::AwaitingReveal {
            return Effects::quiet();
        }
        match revealed {
            Ok(theirs) => {
                self.decide(theirs);
                Effects::advanced(Vec::new(), true)
            },
            Err(RevealError::DecodeError) => self.abort(Error::ProtocolViolation),
            Err(_) => self.abort(Error::CryptoFailure),
        }
    }

    /// Ends the round with the peer's guess against the local one.
    fn decide(&mut self, theirs: Guess)
        requires
            old(self)@.guess is Some,
            !old(self)@.unconfirmed,
            old(self)@.stage == Stage::AwaitingPlain ==> old(self)@.role == Role::Client,
        ensures
            final(self)@ == decided(old(self)@, theirs),
    {
        let mine = self.guess.unwrap();
        let reveals = self.stage == Stage::AwaitingPlain;
        self.stage = Stage::Finished(
            match resolve(mine, theirs) {
                Outcome::Win => SessionOutcome::Won,
                Outcome::Lose => SessionOutcome::Lost,
                Outcome::Draw => SessionOutcome::Draw,
            },
        );
        self.unconfirmed = reveals;
    }

    /// Ends the round without a result.
    fn abort(&mut self, error: Error) -> (effects: Effects)
        ensures
            final(self)@ == aborted(old(self)@),
            effects@ == torn_down(error),
    {
        proof {
            use_type_invariant(&*self);
        }
        self.unconfirmed = false;
        self.stage = Stage::Finished(SessionOutcome::Aborted);
        Effects::torn_down(error)
    }
}

} // verus!

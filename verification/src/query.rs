//! The two exchanges with a server, as far as they are decisions: what to
//! send, and what to make of what came back. Sending and receiving are the
//! caller's part.
//!
//! The caller hands in the outcome of each round trip as a plain value:
//! the datagram that came back, or the transport's account of why none did.
//!
//! The info query is one round trip: `SERVER_INFO_REQUEST` goes out, and
//! `read_server_info` reads what came back.
//!
//! The player query is two, and `PlayersQuery` keeps its state between
//! them. `transmit` says what the state has to send, `receive` takes what
//! came back and moves the state on:
//!
//! ```text
//! Idle --transmit--> ChallengeSent --receive--> ChallengeReady
//!      --transmit--> PlayersSent   --receive--> Done
//! ```
//!
//! A failure in either `receive` ends the query and puts it back to `Idle`.

use vstd::prelude::*;
use vstd::slice::slice_to_vec;
use crate::bytereader::{failure, le_u32, rest, value, ByteReader, ReaderView};
use crate::error::{Error, ErrorKind, Response, Step};
use crate::server::{
    decode_players,
    decode_server_info,
    parse_players_response,
    parse_server_info,
    PlayersResponse,
    PlayersResponseView,
    ServerInfo,
    ServerInfoView,
};

verus! {

/// The marker that every single-packet reply begins with, read as a
/// little-endian number.
pub const SIMPLE_RESPONSE_HEADER: u32 = 0xFFFF_FFFF;

/// The request for a server's info: the marker, `T`, and the text
/// `Source Engine Query` with its terminator.
pub const SERVER_INFO_REQUEST: [u8; 25] = [
    0xFF, 0xFF, 0xFF, 0xFF, 0x54, 0x53, 0x6F, 0x75, 0x72, 0x63, 0x65, 0x20, 0x45, 0x6E, 0x67, 0x69,
    0x6E, 0x65, 0x20, 0x51, 0x75, 0x65, 0x72, 0x79, 0x00,
];

/// The request for a server's players: the marker, `U`, and the challenge,
/// here the one that asks the server for a challenge.
pub const PLAYERS_CHALLENGE_REQUEST: [u8; 9] = [
    0xFF, 0xFF, 0xFF, 0xFF, 0x55, 0xFF, 0xFF, 0xFF, 0xFF,
];

/// What a round trip brought, with the datagram as its bytes.
pub open spec fn outcome_view(outcome: Result<Vec<u8>, String>) -> Result<Seq<u8>, String> {
    match outcome {
        Ok(datagram) => Ok(datagram@),
        Err(reason) => Err(reason),
    }
}

/// A reader at the start of `bytes`.
pub open spec fn reader_over(bytes: Seq<u8>) -> ReaderView {
    ReaderView { bytes, cursor: 0 }
}

/// The body of a reply: what follows the marker. A datagram too short
/// for the marker, or with nothing behind it, is out of range; one that
/// begins with anything else has an unexpected header.
pub open spec fn parse_reply(datagram: Seq<u8>) -> Result<Seq<u8>, ErrorKind> {
    if datagram.len() < 4 {
        Err(ErrorKind::OutOfRange)
    } else if le_u32(datagram.take(4)) != SIMPLE_RESPONSE_HEADER {
        Err(ErrorKind::UnexpectedHeader(le_u32(datagram.take(4)) as u32))
    } else if datagram.len() == 4 {
        Err(ErrorKind::OutOfRange)
    } else {
        Ok(datagram.skip(4))
    }
}

/// The body of the reply that a round trip brought, or why there is none.
pub open spec fn reply_body(outcome: Result<Seq<u8>, String>) -> Result<Seq<u8>, ErrorKind> {
    match outcome {
        Ok(datagram) => parse_reply(datagram),
        Err(reason) => Err(ErrorKind::Transport(reason)),
    }
}

/// Checks the marker of the reply that a round trip brought and gives a
/// reader over what follows it.
pub fn open_reply(outcome: Result<Vec<u8>, String>) -> (result: Result<ByteReader, ErrorKind>)
    ensures
        match reply_body(outcome_view(outcome)) {
            Ok(body) => result matches Ok(reader) && reader@ == reader_over(body),
            Err(kind) => result == Err::<ByteReader, ErrorKind>(kind),
        },
{
    match outcome {
        Err(reason) => Err(ErrorKind::Transport(reason)),
        Ok(datagram) => {
            let mut reader = ByteReader::new(datagram);
            let header = reader.get_long()?;
            if header != SIMPLE_RESPONSE_HEADER {
                return Err(ErrorKind::UnexpectedHeader(header));
            }
            let body = reader.peek_remaining_bytes()?;
            Ok(ByteReader::new(slice_to_vec(body)))
        },
    }
}

/// What the info query gives for the outcome of its round trip.
pub open spec fn info_response(outcome: Result<Seq<u8>, String>) -> Result<ServerInfoView, Error> {
    match reply_body(outcome) {
        Err(kind) => Err(Error { step: Step::Info, kind }),
        Ok(body) => match parse_server_info(reader_over(body)) {
            Ok(info) => Ok(info),
            Err(kind) => Err(Error { step: Step::Info, kind }),
        },
    }
}

/// The second half of the info query: makes the server's info of what
/// came back for `SERVER_INFO_REQUEST`.
pub fn read_server_info(outcome: Result<Vec<u8>, String>) -> (response: Response<ServerInfo>)
    ensures
        match info_response(outcome_view(outcome)) {
            Ok(view) => response matches Ok(info) && info@ == view,
            Err(error) => response == Err::<ServerInfo, Error>(error),
        },
{
    match open_reply(outcome) {
        Err(kind) => Err(Error { step: Step::Info, kind }),
        Ok(reader) => match decode_server_info(reader) {
            Ok(info) => Ok(info),
            Err(kind) => Err(Error { step: Step::Info, kind }),
        },
    }
}

/// The challenge that the reply to `PLAYERS_CHALLENGE_REQUEST` carries:
/// the four bytes behind the header byte of its body.
pub open spec fn parse_challenge(outcome: Result<Seq<u8>, String>) -> Result<Seq<u8>, ErrorKind> {
    match reply_body(outcome) {
        Err(kind) => Err(kind),
        Ok(body) => {
            let header = reader_over(body).get_byte();
            let challenge = rest(header).get_bytes(4);
            if header is Err {
                Err(failure(header))
            } else if challenge is Err {
                Err(failure(challenge))
            } else {
                Ok(value(challenge))
            }
        },
    }
}

/// The players request that carries `challenge`: the first five bytes of
/// `PLAYERS_CHALLENGE_REQUEST`, then the challenge.
pub open spec fn players_request(challenge: Seq<u8>) -> Seq<u8> {
    PLAYERS_CHALLENGE_REQUEST@.take(5) + challenge
}

/// The player list that the reply to a players request spells.
pub open spec fn players_response(outcome: Result<Seq<u8>, String>) -> Result<
    PlayersResponseView,
    ErrorKind,
> {
    match reply_body(outcome) {
        Err(kind) => Err(kind),
        Ok(body) => parse_players_response(reader_over(body)),
    }
}

/// How far a player query has come.
#[derive(Debug, Clone, Copy, PartialEq, Eq)]
pub enum QueryState {
    /// Nothing has been sent.
    Idle,
    /// The request for a challenge is out; its reply is awaited.
    ChallengeSent,
    /// The challenge is in the request, which is ready to go out.
    ChallengeReady,
    /// The request with the challenge is out; its reply is awaited.
    PlayersSent,
    /// The player list has been handed over.
    Done,
}

/// A player query: its state and the request that it sends next.
pub struct PlayersQuery {
    state: QueryState,
    request: [u8; 9],
}

/// A player query as mathematics.
pub struct PlayersQueryView {
    pub state: QueryState,
    pub request: Seq<u8>,
}

impl PlayersQueryView {
    /// What the query hands out for sending, and the query after that. In
    /// `Idle` it is the request for a challenge, in `ChallengeReady` the
    /// request with the challenge; in the other states there is nothing to
    /// send and nothing changes.
    pub open spec fn transmit(self) -> (PlayersQueryView, Option<Seq<u8>>) {
        match self.state {
            QueryState::Idle => (
                PlayersQueryView {
                    state: QueryState::ChallengeSent,
                    request: PLAYERS_CHALLENGE_REQUEST@,
                },
                Some(PLAYERS_CHALLENGE_REQUEST@),
            ),
            QueryState::ChallengeReady => (
                PlayersQueryView { state: QueryState::PlayersSent, request: self.request },
                Some(self.request),
            ),
            _ => (self, None),
        }
    }

    /// What the query makes of the outcome of a round trip, and the query
    /// after that. In `ChallengeSent` a challenge goes into the request and
    /// the query is ready to send it; in `PlayersSent` a player list ends
    /// the query. A failure in either ends the query too, with the step and
    /// the reason, and puts it back to `Idle`. In the other states no
    /// outcome is awaited and nothing changes.
    pub open spec fn receive(self, outcome: Result<Seq<u8>, String>) -> (
        PlayersQueryView,
        Option<Result<PlayersResponseView, Error>>,
    ) {
        match self.state {
            QueryState::ChallengeSent => match parse_challenge(outcome) {
                Ok(challenge) => (
                    PlayersQueryView {
                        state: QueryState::ChallengeReady,
                        request: players_request(challenge),
                    },
                    None,
                ),
                Err(kind) => (
                    PlayersQueryView { state: QueryState::Idle, request: self.request },
                    Some(Err(Error { step: Step::Challenge, kind })),
                ),
            },
            QueryState::PlayersSent => match players_response(outcome) {
                Ok(response) => (
                    PlayersQueryView { state: QueryState::Done, request: self.request },
                    Some(Ok(response)),
                ),
                Err(kind) => (
                    PlayersQueryView { state: QueryState::Idle, request: self.request },
                    Some(Err(Error { step: Step::Players, kind })),
                ),
            },
            _ => (self, None),
        }
    }
}

impl View for PlayersQuery {
    type V = PlayersQueryView;

    closed spec fn view(&self) -> PlayersQueryView {
        PlayersQueryView { state: self.state, request: self.request@ }
    }
}

fn read_challenge(outcome: Result<Vec<u8>, String>) -> (result: Result<[u8; 9], ErrorKind>)
    ensures
        match parse_challenge(outcome_view(outcome)) {
            Ok(challenge) => result matches Ok(request) && request@ == players_request(challenge),
            Err(kind) => result == Err::<[u8; 9], ErrorKind>(kind),
        },
{
    let mut reader = open_reply(outcome)?;
    reader.get_byte()?;
    let challenge = reader.get_bytes(4)?;
    let mut request = PLAYERS_CHALLENGE_REQUEST;
    request[5] = challenge[0];
    request[6] = challenge[1];
    request[7] = challenge[2];
    request[8] = challenge[3];
    Ok(request)
}

fn read_players(outcome: Result<Vec<u8>, String>) -> (result: Result<PlayersResponse, ErrorKind>)
    ensures
        match players_response(outcome_view(outcome)) {
            Ok(view) => result matches Ok(response) && response@ == view,
            Err(kind) => result == Err::<PlayersResponse, ErrorKind>(kind),
        },
{
    decode_players(open_reply(outcome)?)
}

impl PlayersQuery {
    /// A query that has sent nothing yet.
    pub fn new() -> (query: Self)
        ensures
            query@ == (PlayersQueryView {
                state: QueryState::Idle,
                request: PLAYERS_CHALLENGE_REQUEST@,
            }),
    {
        PlayersQuery { state: QueryState::Idle, request: PLAYERS_CHALLENGE_REQUEST }
    }

    /// How far the query has come.
    pub fn state(&self) -> (state: QueryState)
        ensures
            state == self@.state,
    {
        self.state
    }

    /// The request that the query sends next.
    pub fn request(&self) -> (request: Vec<u8>)
        ensures
            request@ == self@.request,
    {
        slice_to_vec(self.request.as_slice())
    }

    /// Hands out what is to be sent now, if anything is, and moves on to
    /// waiting for the reply.
    pub fn transmit(&mut self) -> (request: Option<Vec<u8>>)
        ensures
            final(self)@ == old(self)@.transmit().0,
            match old(self)@.transmit().1 {
                Some(bytes) => request matches Some(datagram) && datagram@ == bytes,
                None => request is None,
            },
    {
        match self.state {
            QueryState::Idle => {
                self.request = PLAYERS_CHALLENGE_REQUEST;
                self.state = QueryState::ChallengeSent;
                Some(self.request())
            },
            QueryState::ChallengeReady => {
                self.state = QueryState::PlayersSent;
                Some(self.request())
            },
            _ => None,
        }
    }

    /// Takes the outcome of the round trip that the query waits for. Gives
    /// the query's result where the outcome ends it, and nothing where the
    /// query goes on.
    pub fn receive(&mut self, outcome: Result<Vec<u8>, String>) -> (response: Option<
        Response<PlayersResponse>,
    >)
        ensures
            final(self)@ == old(self)@.receive(outcome_view(outcome)).0,
            match old(self)@.receive(outcome_view(outcome)).1 {
                Some(Ok(view)) => response matches Some(Ok(players)) && players@ == view,
                Some(Err(error)) => response == Some(Err::<PlayersResponse, Error>(error)),
                None => response is None,
            },
    {
        match self.state {
            QueryState::ChallengeSent => match read_challenge(outcome) {
                Ok(request) => {
                    self.request = request;
                    self.state = QueryState::ChallengeReady;
                    None
                },
                Err(kind) => {
                    self.state = QueryState::Idle;
                    Some(Err(Error { step: Step::Challenge, kind }))
                },
            },
            QueryState::PlayersSent => match read_players(outcome) {
                Ok(players) => {
                    self.state = QueryState::Done;
                    Some(Ok(players))
                },
                Err(kind) => {
                    self.state = QueryState::Idle;
                    Some(Err(Error { step: Step::Players, kind }))
                },
            },
            _ => None,
        }
    }
}

/// A reply that does not begin with the marker is refused for its header,
/// whatever follows: no info and no player list is made of it, and a
/// player query that waited for it is back to `Idle`.
pub proof fn lemma_unexpected_header(datagram: Seq<u8>, query: PlayersQueryView)
    requires
        datagram.len() >= 4,
        le_u32(datagram.take(4)) != SIMPLE_RESPONSE_HEADER,
    ensures
        reply_body(Ok(datagram)) == Err::<Seq<u8>, ErrorKind>(
            ErrorKind::UnexpectedHeader(le_u32(datagram.take(4)) as u32),
        ),
        info_response(Ok(datagram)) == Err::<ServerInfoView, Error>(
            Error {
                step: Step::Info,
                kind: ErrorKind::UnexpectedHeader(le_u32(datagram.take(4)) as u32),
            },
        ),
        query.state == QueryState::ChallengeSent ==> query.receive(Ok(datagram)) == (
            PlayersQueryView { state: QueryState::Idle, request: query.request },
            Some(
                Err::<PlayersResponseView, Error>(
                    Error {
                        step: Step::Challenge,
                        kind: ErrorKind::UnexpectedHeader(le_u32(datagram.take(4)) as u32),
                    },
                ),
            ),
        ),
        query.state == QueryState::PlayersSent ==> query.receive(Ok(datagram)) == (
            PlayersQueryView { state: QueryState::Idle, request: query.request },
            Some(
                Err::<PlayersResponseView, Error>(
                    Error {
                        step: Step::Players,
                        kind: ErrorKind::UnexpectedHeader(le_u32(datagram.take(4)) as u32),
                    },
                ),
            ),
        ),
{
}

/// A round trip that failed ends the exchange with the transport's own
/// account of the failure, under the step that it belongs to.
pub proof fn lemma_transport_failure(reason: String, query: PlayersQueryView)
    ensures
        info_response(Err(reason)) == Err::<ServerInfoView, Error>(
            Error { step: Step::Info, kind: ErrorKind::Transport(reason) },
        ),
        query.state == QueryState::ChallengeSent ==> query.receive(Err(reason)) == (
            PlayersQueryView { state: QueryState::Idle, request: query.request },
            Some(
                Err::<PlayersResponseView, Error>(
                    Error { step: Step::Challenge, kind: ErrorKind::Transport(reason) },
                ),
            ),
        ),
        query.state == QueryState::PlayersSent ==> query.receive(Err(reason)) == (
            PlayersQueryView { state: QueryState::Idle, request: query.request },
            Some(
                Err::<PlayersResponseView, Error>(
                    Error { step: Step::Players, kind: ErrorKind::Transport(reason) },
                ),
            ),
        ),
{
}

/// The handshake echoes the challenge. A query that starts in `Idle` first
/// sends `PLAYERS_CHALLENGE_REQUEST`. When the reply to that carries a
/// challenge, the query next sends nine bytes: the first five of
/// `PLAYERS_CHALLENGE_REQUEST`, and at the offsets 5 to 8 the four bytes that
/// stand at the offsets 5 to 8 of the reply.
pub proof fn lemma_challenge_is_echoed(reply: Seq<u8>)
    requires
        parse_challenge(Ok(reply)) is Ok,
    ensures
        ({
            let idle = PlayersQueryView {
                state: QueryState::Idle,
                request: PLAYERS_CHALLENGE_REQUEST@,
            };
            let (waiting, first) = idle.transmit();
            let (ready, early) = waiting.receive(Ok(reply));
            let (sent, second) = ready.transmit();
            &&& first == Some(PLAYERS_CHALLENGE_REQUEST@)
            &&& waiting.state == QueryState::ChallengeSent
            &&& early is None
            &&& ready.state == QueryState::ChallengeReady
            &&& sent.state == QueryState::PlayersSent
            &&& reply.len() >= 9
            &&& second matches Some(request)
            &&& request.len() == 9
            &&& request.take(5) == PLAYERS_CHALLENGE_REQUEST@.take(5)
            &&& request.skip(5) == reply.subrange(5, 9)
        }),
{
}

/// With both replies in order a query runs from `Idle` to `Done` in two
/// round trips and hands over the player list that the second reply
/// spells; after that it has nothing more to send.
pub proof fn lemma_query_runs_to_done(first_reply: Seq<u8>, second_reply: Seq<u8>)
    requires
        parse_challenge(Ok(first_reply)) is Ok,
        players_response(Ok(second_reply)) is Ok,
    ensures
        ({
            let idle = PlayersQueryView {
                state: QueryState::Idle,
                request: PLAYERS_CHALLENGE_REQUEST@,
            };
            let ready = idle.transmit().0.receive(Ok(first_reply)).0;
            let (done, response) = ready.transmit().0.receive(Ok(second_reply));
            &&& done.state == QueryState::Done
            &&& response == Some(
                Ok::<PlayersResponseView, Error>(players_response(Ok(second_reply))->Ok_0),
            )
            &&& done.transmit().1 is None
            &&& done.transmit().0 == done
        }),
{
}

} // verus!

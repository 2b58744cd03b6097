use chrono::Duration;
use source_query::error::{Error, ErrorKind, Step};
use source_query::query::{
    open_reply, read_server_info, PlayersQuery, QueryState, PLAYERS_CHALLENGE_REQUEST,
    SERVER_INFO_REQUEST, SIMPLE_RESPONSE_HEADER,
};
use source_query::server::{Player, PlayersResponse};

fn text(value: &str) -> Vec<u8> {
    let mut bytes = value.as_bytes().to_vec();
    bytes.push(0);
    bytes
}

fn reply(body: &[u8]) -> Vec<u8> {
    let mut datagram = vec![0xFF, 0xFF, 0xFF, 0xFF];
    datagram.extend(body);
    datagram
}

fn info_reply(id: i16) -> Vec<u8> {
    let mut body = vec![0x49, 0x11];
    body.extend(text("Test Server"));
    body.extend(text("de_dust2"));
    body.extend(text("cstrike"));
    body.extend(text("Counter-Strike"));
    body.extend(id.to_le_bytes());
    body.extend([5, 16, 2, 0x64, 0x6C, 0x01]);
    body.extend(text("1.0.0.0"));
    reply(&body)
}

fn players_reply() -> Vec<u8> {
    let mut body = vec![0x44, 2, 0];
    body.extend(text("jimmy"));
    body.extend(17u32.to_le_bytes());
    body.extend(132.34f32.to_le_bytes());
    body.push(1);
    body.extend(text("goran"));
    body.extend(3u32.to_le_bytes());
    body.extend(59.9f32.to_le_bytes());
    reply(&body)
}

fn two_players() -> PlayersResponse {
    PlayersResponse {
        header: 0x44,
        players: vec![
            Player {
                index: 0,
                name: "jimmy".to_string(),
                score: 17,
                duration: Duration::seconds(132),
                deaths: None,
                money: None,
            },
            Player {
                index: 1,
                name: "goran".to_string(),
                score: 3,
                duration: Duration::seconds(59),
                deaths: None,
                money: None,
            },
        ],
    }
}

fn error(step: Step, kind: ErrorKind) -> Error {
    Error { step, kind }
}

fn waiting_for_the_challenge() -> PlayersQuery {
    let mut query = PlayersQuery::new();
    query.transmit().unwrap();
    query
}

fn waiting_for_the_players() -> PlayersQuery {
    let mut query = waiting_for_the_challenge();
    assert_eq!(None, query.receive(Ok(reply(&[0x41, 1, 2, 3, 4]))));
    query.transmit().unwrap();
    query
}

#[test]
fn the_requests_as_they_go_out() {
    assert_eq!(0xFFFF_FFFF, SIMPLE_RESPONSE_HEADER);
    assert_eq!(
        [0xFF, 0xFF, 0xFF, 0xFF, 0x54].as_slice(),
        &SERVER_INFO_REQUEST[..5]
    );
    assert_eq!("Source Engine Query".as_bytes(), &SERVER_INFO_REQUEST[5..24]);
    assert_eq!(0x00, SERVER_INFO_REQUEST[24]);
    assert_eq!(25, SERVER_INFO_REQUEST.len());
    assert_eq!(
        [0xFF, 0xFF, 0xFF, 0xFF, 0x55, 0xFF, 0xFF, 0xFF, 0xFF],
        PLAYERS_CHALLENGE_REQUEST
    );
}

#[test]
fn a_reply_is_opened_behind_its_marker() {
    let mut reader = open_reply(Ok(vec![0xFF, 0xFF, 0xFF, 0xFF, 0x49, 0x11])).unwrap();

    assert_eq!(0, reader.position());
    assert_eq!(2, reader.remaining());
    assert_eq!(0x49, reader.get_byte().unwrap());
    assert_eq!(0x11, reader.get_byte().unwrap());
}

#[test]
fn a_reply_with_another_header_is_refused_with_that_header() {
    assert_eq!(
        Some(ErrorKind::UnexpectedHeader(0xFFFF_FFFE)),
        open_reply(Ok(vec![0xFE, 0xFF, 0xFF, 0xFF, 0x49, 0x11])).err()
    );
    assert_eq!(
        Some(ErrorKind::UnexpectedHeader(0x0403_0201)),
        open_reply(Ok(vec![0x01, 0x02, 0x03, 0x04])).err()
    );
    assert_eq!(
        Some(ErrorKind::UnexpectedHeader(0)),
        open_reply(Ok(vec![0; 1400])).err()
    );
}

#[test]
fn a_reply_too_short_for_its_marker_is_out_of_range() {
    assert_eq!(Some(ErrorKind::OutOfRange), open_reply(Ok(vec![])).err());
    assert_eq!(Some(ErrorKind::OutOfRange), open_reply(Ok(vec![0xFF, 0xFF, 0xFF])).err());
}

#[test]
fn a_reply_with_nothing_behind_its_marker_is_out_of_range() {
    assert_eq!(Some(ErrorKind::OutOfRange), open_reply(Ok(vec![0xFF, 0xFF, 0xFF, 0xFF])).err());
}

#[test]
fn a_failed_round_trip_is_a_transport_failure() {
    assert_eq!(
        Some(ErrorKind::Transport("timed out".to_string())),
        open_reply(Err("timed out".to_string())).err()
    );
}

#[test]
fn the_info_query_reads_its_reply() {
    let info = read_server_info(Ok(info_reply(240))).unwrap();

    assert_eq!(0x49, info.header);
    assert_eq!(0x11, info.protocol);
    assert_eq!("Test Server", info.name);
    assert_eq!("de_dust2", info.map);
    assert_eq!("cstrike", info.folder);
    assert_eq!("Counter-Strike", info.game);
    assert_eq!(240, info.id);
    assert_eq!(5, info.players);
    assert_eq!(16, info.max_players);
    assert_eq!(2, info.bots);
    assert_eq!(None, info.ship_mode);
    assert_eq!("1.0.0.0", info.version);
}

#[test]
fn the_info_query_names_its_step_in_every_failure() {
    assert_eq!(
        Err(error(Step::Info, ErrorKind::Transport("unreachable".to_string()))),
        read_server_info(Err("unreachable".to_string()))
    );
    assert_eq!(
        Err(error(Step::Info, ErrorKind::UnexpectedHeader(0xFFFF_FFFE))),
        read_server_info(Ok(vec![0xFE, 0xFF, 0xFF, 0xFF, 0x49]))
    );
    assert_eq!(
        Err(error(Step::Info, ErrorKind::OutOfRange)),
        read_server_info(Ok(vec![0xFF, 0xFF]))
    );
    assert_eq!(
        Err(error(Step::Info, ErrorKind::OutOfRange)),
        read_server_info(Ok(reply(&[0x49])))
    );
    assert_eq!(
        Err(error(Step::Info, ErrorKind::MissingTerminator)),
        read_server_info(Ok(reply(&[0x49, 0x11, 0x61])))
    );
    assert_eq!(
        Err(error(Step::Info, ErrorKind::InvalidText)),
        read_server_info(Ok(reply(&[0x49, 0x11, 0xff, 0x00])))
    );
}

#[test]
fn an_info_reply_with_another_header_gives_no_info_whatever_follows() {
    let mut datagram = info_reply(240);
    datagram[3] = 0xFE;

    assert_eq!(
        Err(error(Step::Info, ErrorKind::UnexpectedHeader(0xFEFF_FFFF))),
        read_server_info(Ok(datagram))
    );
}

#[test]
fn a_new_query_is_idle() {
    let query = PlayersQuery::new();

    assert_eq!(QueryState::Idle, query.state());
    assert_eq!(PLAYERS_CHALLENGE_REQUEST.to_vec(), query.request());
}

#[test]
fn a_query_runs_through_its_two_round_trips() {
    let mut query = PlayersQuery::new();

    assert_eq!(Some(PLAYERS_CHALLENGE_REQUEST.to_vec()), query.transmit());
    assert_eq!(QueryState::ChallengeSent, query.state());
    assert_eq!(None, query.transmit());

    assert_eq!(None, query.receive(Ok(reply(&[0x41, 0x0A, 0x0B, 0x0C, 0x0D]))));
    assert_eq!(QueryState::ChallengeReady, query.state());

    assert_eq!(
        Some(vec![0xFF, 0xFF, 0xFF, 0xFF, 0x55, 0x0A, 0x0B, 0x0C, 0x0D]),
        query.transmit()
    );
    assert_eq!(QueryState::PlayersSent, query.state());
    assert_eq!(None, query.transmit());

    assert_eq!(Some(Ok(two_players())), query.receive(Ok(players_reply())));
    assert_eq!(QueryState::Done, query.state());

    assert_eq!(None, query.transmit());
    assert_eq!(None, query.receive(Ok(players_reply())));
    assert_eq!(QueryState::Done, query.state());
}

#[test]
fn the_challenge_goes_out_at_the_offsets_at_which_it_came_in() {
    for challenge in [[0u8, 0, 0, 0], [1, 2, 3, 4], [0xFF, 0xFF, 0xFF, 0xFF], [0x4B, 0xA1, 0xD5, 0x22]] {
        let mut first_reply = vec![0xFF, 0xFF, 0xFF, 0xFF, 0x41];
        first_reply.extend(challenge);
        first_reply.extend([0xEE, 0xEE]);
        let mut query = waiting_for_the_challenge();

        assert_eq!(None, query.receive(Ok(first_reply.clone())));
        let request = query.transmit().unwrap();

        assert_eq!(9, request.len());
        assert_eq!(PLAYERS_CHALLENGE_REQUEST[..5], request[..5]);
        assert_eq!(challenge, request[5..9]);
        assert_eq!(first_reply[5..9], request[5..9]);
    }
}

#[test]
fn the_header_byte_of_the_challenge_reply_is_not_looked_at() {
    for header in [0x41u8, 0x00, 0x44, 0xFF] {
        let mut query = waiting_for_the_challenge();

        assert_eq!(None, query.receive(Ok(reply(&[header, 9, 8, 7, 6]))));
        assert_eq!(
            Some(vec![0xFF, 0xFF, 0xFF, 0xFF, 0x55, 9, 8, 7, 6]),
            query.transmit()
        );
    }
}

#[test]
fn a_failed_challenge_step_ends_the_query() {
    let mut timeout = waiting_for_the_challenge();
    assert_eq!(
        Some(Err(error(Step::Challenge, ErrorKind::Transport("timed out".to_string())))),
        timeout.receive(Err("timed out".to_string()))
    );
    assert_eq!(QueryState::Idle, timeout.state());

    let mut header = waiting_for_the_challenge();
    assert_eq!(
        Some(Err(error(Step::Challenge, ErrorKind::UnexpectedHeader(0xFFFF_FFFE)))),
        header.receive(Ok(vec![0xFE, 0xFF, 0xFF, 0xFF, 0x41, 1, 2, 3, 4]))
    );
    assert_eq!(QueryState::Idle, header.state());

    let mut short = waiting_for_the_challenge();
    assert_eq!(
        Some(Err(error(Step::Challenge, ErrorKind::OutOfRange))),
        short.receive(Ok(reply(&[0x41, 1, 2, 3])))
    );
    assert_eq!(QueryState::Idle, short.state());

    let mut empty = waiting_for_the_challenge();
    assert_eq!(
        Some(Err(error(Step::Challenge, ErrorKind::OutOfRange))),
        empty.receive(Ok(vec![]))
    );
    assert_eq!(QueryState::Idle, empty.state());
}

#[test]
fn a_failed_players_step_ends_the_query() {
    let mut timeout = waiting_for_the_players();
    assert_eq!(
        Some(Err(error(Step::Players, ErrorKind::Transport("timed out".to_string())))),
        timeout.receive(Err("timed out".to_string()))
    );
    assert_eq!(QueryState::Idle, timeout.state());

    let mut header = waiting_for_the_players();
    let mut datagram = players_reply();
    datagram[0] = 0x00;
    assert_eq!(
        Some(Err(error(Step::Players, ErrorKind::UnexpectedHeader(0xFFFF_FF00)))),
        header.receive(Ok(datagram))
    );
    assert_eq!(QueryState::Idle, header.state());

    let mut short = waiting_for_the_players();
    let mut datagram = players_reply();
    datagram.truncate(datagram.len() - 1);
    assert_eq!(
        Some(Err(error(Step::Players, ErrorKind::OutOfRange))),
        short.receive(Ok(datagram))
    );
    assert_eq!(QueryState::Idle, short.state());

    let mut unterminated = waiting_for_the_players();
    assert_eq!(
        Some(Err(error(Step::Players, ErrorKind::MissingTerminator))),
        unterminated.receive(Ok(reply(&[0x44, 1, 0, 0x61, 0x62])))
    );

    let mut garbled = waiting_for_the_players();
    assert_eq!(
        Some(Err(error(Step::Players, ErrorKind::InvalidText))),
        garbled.receive(Ok(reply(&[0x44, 1, 0, 0xff, 0x00, 0, 0, 0, 0, 0, 0, 0, 0])))
    );
}

#[test]
fn a_query_that_failed_starts_again_from_the_challenge_request() {
    let mut query = waiting_for_the_players();
    assert!(query.receive(Err("timed out".to_string())).is_some());

    assert_eq!(QueryState::Idle, query.state());
    assert_eq!(Some(PLAYERS_CHALLENGE_REQUEST.to_vec()), query.transmit());
    assert_eq!(QueryState::ChallengeSent, query.state());
}

#[test]
fn an_outcome_that_is_not_awaited_changes_nothing() {
    let mut idle = PlayersQuery::new();
    assert_eq!(None, idle.receive(Ok(players_reply())));
    assert_eq!(None, idle.receive(Err("timed out".to_string())));
    assert_eq!(QueryState::Idle, idle.state());
    assert_eq!(PLAYERS_CHALLENGE_REQUEST.to_vec(), idle.request());

    let mut ready = waiting_for_the_challenge();
    assert_eq!(None, ready.receive(Ok(reply(&[0x41, 1, 2, 3, 4]))));
    assert_eq!(None, ready.receive(Ok(reply(&[0x41, 5, 6, 7, 8]))));
    assert_eq!(None, ready.receive(Err("timed out".to_string())));
    assert_eq!(QueryState::ChallengeReady, ready.state());
    assert_eq!(vec![0xFF, 0xFF, 0xFF, 0xFF, 0x55, 1, 2, 3, 4], ready.request());
}

#[test]
fn a_failure_can_be_copied() {
    let failure = error(Step::Players, ErrorKind::Transport("timed out".to_string()));

    assert_eq!(failure, failure.clone());
    assert_eq!(ErrorKind::UnexpectedHeader(7), ErrorKind::UnexpectedHeader(7).clone());
    assert_eq!(ErrorKind::OutOfRange, ErrorKind::OutOfRange.clone());
    assert_eq!(ErrorKind::MissingTerminator, ErrorKind::MissingTerminator.clone());
    assert_eq!(ErrorKind::InvalidText, ErrorKind::InvalidText.clone());
}

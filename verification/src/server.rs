//! The records that a server's replies are decoded into, and their
//! decoding.

use vstd::prelude::*;
use crate::bytereader::{failure, rest, value, ByteReader, ReaderView};
use crate::duration::{clamp_seconds, duration_from_seconds, duration_of_seconds};
use crate::error::ErrorKind;
use crate::float32::Float32;

verus! {

/// The application id of the one game whose info reply carries a mode, a
/// witness count and a duration.
pub const SHIP_ID: i16 = 2400;

/// How a server is hosted.
#[derive(Debug, Clone, Copy, PartialEq, Eq)]
pub enum ServerType {
    Dedicated,
    NonDedicated,
    SourceTvRelay,
    Unknown,
}

impl ServerType {
    /// The server type that a byte of the reply stands for.
    pub open spec fn of_byte(byte: u8) -> Self {
        if byte == 0x00 || byte == 0x64 {
            Self::Dedicated
        } else if byte == 0x6C {
            Self::NonDedicated
        } else if byte == 0x70 {
            Self::SourceTvRelay
        } else {
            Self::Unknown
        }
    }

    /// The server type that `byte` stands for; `Unknown` for a byte that
    /// stands for none.
    pub fn from_byte(byte: u8) -> (server_type: Self)
        ensures
            server_type == Self::of_byte(byte),
    {
        match byte {
            0x00 => Self::Dedicated,
            0x64 => Self::Dedicated,
            0x6C => Self::NonDedicated,
            0x70 => Self::SourceTvRelay,
            _ => Self::Unknown,
        }
    }
}

/// The game mode of a round of the one game that reports it.
#[derive(Debug, Clone, Copy, PartialEq, Eq)]
pub enum ShipMode {
    Hunt,
    Elimination,
    Duel,
    Deathmatch,
    VipTeam,
    TeamElimination,
    Unknown,
}

impl ShipMode {
    /// The mode that a byte of the reply stands for.
    pub open spec fn of_byte(byte: u8) -> Self {
        if byte == 0x00 {
            Self::Hunt
        } else if byte == 0x01 {
            Self::Elimination
        } else if byte == 0x02 {
            Self::Duel
        } else if byte == 0x03 {
            Self::Deathmatch
        } else if byte == 0x04 {
            Self::VipTeam
        } else if byte == 0x05 {
            Self::TeamElimination
        } else {
            Self::Unknown
        }
    }

    /// The mode that `byte` stands for; `Unknown` for a byte that stands
    /// for none.
    pub fn from_byte(byte: u8) -> (mode: Self)
        ensures
            mode == Self::of_byte(byte),
    {
        match byte {
            0x00 => Self::Hunt,
            0x01 => Self::Elimination,
            0x02 => Self::Duel,
            0x03 => Self::Deathmatch,
            0x04 => Self::VipTeam,
            0x05 => Self::TeamElimination,
            _ => Self::Unknown,
        }
    }
}

/// The operating system that a server runs on.
#[derive(Debug, Clone, Copy, PartialEq, Eq)]
pub enum Environment {
    Linux,
    Windows,
    Mac,
    Unknown,
}

impl Environment {
    /// The operating system that a byte of the reply stands for.
    pub open spec fn of_byte(byte: u8) -> Self {
        if byte == 0x6C {
            Self::Linux
        } else if byte == 0x77 {
            Self::Windows
        } else if byte == 0x6D || byte == 0x6F {
            Self::Mac
        } else {
            Self::Unknown
        }
    }

    /// The operating system that `byte` stands for; `Unknown` for a byte
    /// that stands for none.
    pub fn from_byte(byte: u8) -> (environment: Self)
        ensures
            environment == Self::of_byte(byte),
    {
        match byte {
            0x6C => Self::Linux,
            0x77 => Self::Windows,
            0x6D | 0x6F => Self::Mac,
            _ => Self::Unknown,
        }
    }
}

/// Whether a server asks for a password.
#[derive(Debug, Clone, Copy, PartialEq, Eq)]
pub enum ServerVisibility {
    Public,
    Private,
    Unknown,
}

impl ServerVisibility {
    /// The visibility that a byte of the reply stands for.
    pub open spec fn of_byte(byte: u8) -> Self {
        if byte == 0x00 {
            Self::Public
        } else if byte == 0x01 {
            Self::Private
        } else {
            Self::Unknown
        }
    }

    /// The visibility that `byte` stands for; `Unknown` for a byte that
    /// stands for none.
    pub fn from_byte(byte: u8) -> (visibility: Self)
        ensures
            visibility == Self::of_byte(byte),
    {
        match byte {
            0x00 => Self::Public,
            0x01 => Self::Private,
            _ => Self::Unknown,
        }
    }
}

/// What a server says of itself.
#[derive(Debug, PartialEq, Eq)]
pub struct ServerInfo {
    /// The byte that names the kind of reply.
    pub header: u8,
    /// The version of the query protocol that the server speaks.
    pub protocol: u8,
    /// The name of the server.
    pub name: String,
    /// The map that is being played.
    pub map: String,
    /// The folder that holds the game's files.
    pub folder: String,
    /// The full name of the game.
    pub game: String,
    /// The application id of the game.
    pub id: i16,
    /// How many players are on the server.
    pub players: u8,
    /// How many players the server admits.
    pub max_players: u8,
    /// How many of the players are bots.
    pub bots: u8,
    pub server_type: ServerType,
    pub environment: Environment,
    pub server_visibility: ServerVisibility,
    /// The game mode, for the id `SHIP_ID` alone.
    pub ship_mode: Option<ShipMode>,
    /// How many witnesses it takes to have a player arrested, for the id
    /// `SHIP_ID` alone.
    pub witnesses: Option<u8>,
    /// The time before a player is arrested while being witnessed, for the
    /// id `SHIP_ID` alone.
    pub duration: Option<chrono::TimeDelta>,
    /// The version of the game.
    pub version: String,
    /// The extra-data byte, where the reply goes on behind the version.
    pub edf: Option<u8>,
    /// The port of the game, where `EDF_PORT` is set.
    pub port: Option<i16>,
    /// The numeric id of the server, where `EDF_STEAM_ID` is set.
    pub steam_id: Option<u64>,
    /// The port of the spectator relay, where `EDF_SOURCE_TV` is set.
    pub source_tv_port: Option<i16>,
    /// The name of the spectator relay, where `EDF_SOURCE_TV` is set.
    pub source_tv_name: Option<String>,
    /// The keywords that describe the server, where `EDF_KEYWORDS` is set.
    pub keywords: Option<String>,
    /// The full id of the game, where `EDF_GAME_ID` is set.
    pub game_id: Option<u64>,
}

/// A `ServerInfo` with each text as its characters.
pub struct ServerInfoView {
    pub header: u8,
    pub protocol: u8,
    pub name: Seq<char>,
    pub map: Seq<char>,
    pub folder: Seq<char>,
    pub game: Seq<char>,
    pub id: i16,
    pub players: u8,
    pub max_players: u8,
    pub bots: u8,
    pub server_type: ServerType,
    pub environment: Environment,
    pub server_visibility: ServerVisibility,
    pub ship_mode: Option<ShipMode>,
    pub witnesses: Option<u8>,
    pub duration: Option<chrono::TimeDelta>,
    pub version: Seq<char>,
    pub edf: Option<u8>,
    pub port: Option<i16>,
    pub steam_id: Option<u64>,
    pub source_tv_port: Option<i16>,
    pub source_tv_name: Option<Seq<char>>,
    pub keywords: Option<Seq<char>>,
    pub game_id: Option<u64>,
}

/// The characters of a text that may be absent.
pub open spec fn characters(text: Option<String>) -> Option<Seq<char>> {
    match text {
        Some(string) => Some(string@),
        None => None,
    }
}

impl View for ServerInfo {
    type V = ServerInfoView;

    open spec fn view(&self) -> ServerInfoView {
        ServerInfoView {
            header: self.header,
            protocol: self.protocol,
            name: self.name@,
            map: self.map@,
            folder: self.folder@,
            game: self.game@,
            id: self.id,
            players: self.players,
            max_players: self.max_players,
            bots: self.bots,
            server_type: self.server_type,
            environment: self.environment,
            server_visibility: self.server_visibility,
            ship_mode: self.ship_mode,
            witnesses: self.witnesses,
            duration: self.duration,
            version: self.version@,
            edf: self.edf,
            port: self.port,
            steam_id: self.steam_id,
            source_tv_port: self.source_tv_port,
            source_tv_name: characters(self.source_tv_name),
            keywords: characters(self.keywords),
            game_id: self.game_id,
        }
    }
}

/// One player on a server.
#[derive(Debug, PartialEq, Eq)]
pub struct Player {
    /// The slot of the player in the server's list.
    pub index: u8,
    pub name: String,
    pub score: u32,
    /// How long the player has been on the server, in whole seconds.
    pub duration: chrono::TimeDelta,
    /// The deaths of the player, where the game reports them.
    pub deaths: Option<u32>,
    /// The money of the player, where the game reports it.
    pub money: Option<u32>,
}

/// A `Player` with the name as its characters.
pub struct PlayerView {
    pub index: u8,
    pub name: Seq<char>,
    pub score: u32,
    pub duration: chrono::TimeDelta,
    pub deaths: Option<u32>,
    pub money: Option<u32>,
}

impl View for Player {
    type V = PlayerView;

    open spec fn view(&self) -> PlayerView {
        PlayerView {
            index: self.index,
            name: self.name@,
            score: self.score,
            duration: self.duration,
            deaths: self.deaths,
            money: self.money,
        }
    }
}

/// The players on a server, in the order in which the server lists them.
#[derive(Debug, PartialEq, Eq)]
pub struct PlayersResponse {
    pub header: u8,
    pub players: Vec<Player>,
}

/// A `PlayersResponse` with each player as its view.
pub struct PlayersResponseView {
    pub header: u8,
    pub players: Seq<PlayerView>,
}

impl View for PlayersResponse {
    type V = PlayersResponseView;

    open spec fn view(&self) -> PlayersResponseView {
        PlayersResponseView {
            header: self.header,
            players: self.players@.map_values(|player: Player| player@),
        }
    }
}

/// The three fields that only the game with the id `SHIP_ID` reports.
pub struct ShipFields {
    pub mode: ShipMode,
    pub witnesses: u8,
    pub duration: chrono::TimeDelta,
}

/// The mode, the witness count and the duration in seconds, one byte each,
/// where `id` is `SHIP_ID`; nothing, and no byte read, for any other id.
pub open spec fn parse_ship_fields(reader: ReaderView, id: i16) -> Result<
    (Option<ShipFields>, ReaderView),
    ErrorKind,
> {
    let mode = reader.get_byte();
    let witnesses = rest(mode).get_byte();
    let seconds = rest(witnesses).get_byte();
    if id != SHIP_ID {
        Ok((None, reader))
    } else if mode is Err {
        Err(failure(mode))
    } else if witnesses is Err {
        Err(failure(witnesses))
    } else if seconds is Err {
        Err(failure(seconds))
    } else {
        Ok(
            (
                Some(
                    ShipFields {
                        mode: ShipMode::of_byte(value(mode)),
                        witnesses: value(witnesses),
                        duration: duration_of_seconds(value(seconds) as i64),
                    },
                ),
                rest(seconds),
            ),
        )
    }
}

fn decode_ship_fields(reader: &mut ByteReader, id: i16) -> (result: Result<
    Option<ShipFields>,
    ErrorKind,
>)
    ensures
        match parse_ship_fields(old(reader)@, id) {
            Ok((fields, after)) => result == Ok::<Option<ShipFields>, ErrorKind>(fields)
                && final(reader)@ == after,
            Err(kind) => result == Err::<Option<ShipFields>, ErrorKind>(kind),
        },
{
    if id != SHIP_ID {
        return Ok(None);
    }
    let mode = ShipMode::from_byte(reader.get_byte()?);
    let witnesses = reader.get_byte()?;
    let seconds = reader.get_byte()?;
    let duration = duration_from_seconds(seconds as i64);
    Ok(Some(ShipFields { mode, witnesses, duration }))
}

/// The flag of the extra-data byte that announces the game port.
pub const EDF_PORT: u8 = 0x80;

/// The flag of the extra-data byte that announces the server's numeric id.
pub const EDF_STEAM_ID: u8 = 0x10;

/// The flag of the extra-data byte that announces the port and the name
/// of the spectator relay.
pub const EDF_SOURCE_TV: u8 = 0x40;

/// The flag of the extra-data byte that announces the keywords.
pub const EDF_KEYWORDS: u8 = 0x20;

/// The flag of the extra-data byte that announces the full game id.
pub const EDF_GAME_ID: u8 = 0x01;

/// The extra-data byte `edf` has the flag `flag` set.
pub open spec fn flagged(edf: u8, flag: u8) -> bool {
    edf & flag != 0
}

fn has_flag(edf: u8, flag: u8) -> (set: bool)
    ensures
        set == flagged(edf, flag),
{
    edf & flag != 0
}

/// A read that is made only where `present` holds: its value where it is
/// made, nothing and the reader as it was where it is not.
pub open spec fn optional<T>(
    present: bool,
    reader: ReaderView,
    read: Result<(T, ReaderView), ErrorKind>,
) -> Result<(Option<T>, ReaderView), ErrorKind> {
    if !present {
        Ok((None, reader))
    } else if read is Err {
        Err(failure(read))
    } else {
        Ok((Some(value(read)), rest(read)))
    }
}

/// Reading an unsigned 64-bit number, low byte first.
pub open spec fn parse_long_long(reader: ReaderView) -> Result<(u64, ReaderView), ErrorKind> {
    let low = reader.get_long();
    let high = rest(low).get_long();
    if low is Err {
        Err(failure(low))
    } else if high is Err {
        Err(failure(high))
    } else {
        Ok(((value(low) + 0x1_0000_0000 * value(high)) as u64, rest(high)))
    }
}

fn decode_long_long(reader: &mut ByteReader) -> (result: Result<u64, ErrorKind>)
    ensures
        match parse_long_long(old(reader)@) {
            Ok((number, after)) => result == Ok::<u64, ErrorKind>(number) && final(reader)@
                == after,
            Err(kind) => result == Err::<u64, ErrorKind>(kind),
        },
{
    let low = reader.get_long()?;
    let high = reader.get_long()?;
    Ok(low as u64 + 0x1_0000_0000 * (high as u64))
}

/// What may follow the version in an info reply: the extra-data byte and
/// the fields that its flags announce.
struct ExtraFields {
    edf: Option<u8>,
    port: Option<i16>,
    steam_id: Option<u64>,
    source_tv_port: Option<i16>,
    source_tv_name: Option<String>,
    keywords: Option<String>,
    game_id: Option<u64>,
}

/// What may follow the version in an info reply, with each text as its
/// characters.
pub struct ExtraFieldsView {
    pub edf: Option<u8>,
    pub port: Option<i16>,
    pub steam_id: Option<u64>,
    pub source_tv_port: Option<i16>,
    pub source_tv_name: Option<Seq<char>>,
    pub keywords: Option<Seq<char>>,
    pub game_id: Option<u64>,
}

impl View for ExtraFields {
    type V = ExtraFieldsView;

    closed spec fn view(&self) -> ExtraFieldsView {
        ExtraFieldsView {
            edf: self.edf,
            port: self.port,
            steam_id: self.steam_id,
            source_tv_port: self.source_tv_port,
            source_tv_name: characters(self.source_tv_name),
            keywords: characters(self.keywords),
            game_id: self.game_id,
        }
    }
}

/// The extra fields of a reply that ends with its version.
pub open spec fn no_extra_fields() -> ExtraFieldsView {
    ExtraFieldsView {
        edf: None,
        port: None,
        steam_id: None,
        source_tv_port: None,
        source_tv_name: None,
        keywords: None,
        game_id: None,
    }
}

/// The extra fields, read from behind the version. Where the reply ends
/// there, all of them are absent. Otherwise the next byte is the
/// extra-data byte, and behind it stand, in this order and each only where
/// its flag is set: the port, a short; the numeric id, 64 bits; the
/// spectator relay's port, a short, and name, a text; the keywords, a text;
/// the game id, 64 bits.
pub open spec fn parse_extra_fields(reader: ReaderView) -> Result<
    (ExtraFieldsView, ReaderView),
    ErrorKind,
> {
    let edf = reader.get_byte();
    let flags = value(edf);
    let port = optional(flagged(flags, EDF_PORT), rest(edf), rest(edf).get_short());
    let steam_id = optional(flagged(flags, EDF_STEAM_ID), rest(port), parse_long_long(rest(port)));
    let source_tv_port = optional(
        flagged(flags, EDF_SOURCE_TV),
        rest(steam_id),
        rest(steam_id).get_short(),
    );
    let source_tv_name = optional(
        flagged(flags, EDF_SOURCE_TV),
        rest(source_tv_port),
        rest(source_tv_port).get_string(),
    );
    let keywords = optional(
        flagged(flags, EDF_KEYWORDS),
        rest(source_tv_name),
        rest(source_tv_name).get_string(),
    );
    let game_id = optional(
        flagged(flags, EDF_GAME_ID),
        rest(keywords),
        parse_long_long(rest(keywords)),
    );
    if reader.remaining() == 0 {
        Ok((no_extra_fields(), reader))
    } else if port is Err {
        Err(failure(port))
    } else if steam_id is Err {
        Err(failure(steam_id))
    } else if source_tv_port is Err {
        Err(failure(source_tv_port))
    } else if source_tv_name is Err {
        Err(failure(source_tv_name))
    } else if keywords is Err {
        Err(failure(keywords))
    } else if game_id is Err {
        Err(failure(game_id))
    } else {
        Ok(
            (
                ExtraFieldsView {
                    edf: Some(flags),
                    port: value(port),
                    steam_id: value(steam_id),
                    source_tv_port: value(source_tv_port),
                    source_tv_name: value(source_tv_name),
                    keywords: value(keywords),
                    game_id: value(game_id),
                },
                rest(game_id),
            ),
        )
    }
}

fn decode_extra_fields(reader: &mut ByteReader) -> (result: Result<ExtraFields, ErrorKind>)
    ensures
        match parse_extra_fields(old(reader)@) {
            Ok((fields, after)) => result matches Ok(extra) && extra@ == fields && final(reader)@
                == after,
            Err(kind) => result == Err::<ExtraFields, ErrorKind>(kind),
        },
{
    let mut extra = ExtraFields {
        edf: None,
        port: None,
        steam_id: None,
        source_tv_port: None,
        source_tv_name: None,
        keywords: None,
        game_id: None,
    };
    if reader.remaining() == 0 {
        return Ok(extra);
    }
    let flags = reader.get_byte()?;
    extra.edf = Some(flags);
    if has_flag(flags, EDF_PORT) {
        extra.port = Some(reader.get_short()?);
    }
    if has_flag(flags, EDF_STEAM_ID) {
        extra.steam_id = Some(decode_long_long(reader)?);
    }
    if has_flag(flags, EDF_SOURCE_TV) {
        extra.source_tv_port = Some(reader.get_short()?);
        extra.source_tv_name = Some(reader.get_string()?);
    }
    if has_flag(flags, EDF_KEYWORDS) {
        extra.keywords = Some(reader.get_string()?);
    }
    if has_flag(flags, EDF_GAME_ID) {
        extra.game_id = Some(decode_long_long(reader)?);
    }
    Ok(extra)
}

/// The info record that the body of an info reply spells, or why it spells
/// none. The fields stand in this order: header and protocol, a byte each;
/// name, map, folder and game, a text each; the application id, a short;
/// players, most players and bots, a byte each; server type, environment
/// and visibility, a byte each; for the id `SHIP_ID` alone the mode, the
/// witnesses and the duration; the version, a text; and, where the reply
/// goes on, the extra fields. The first field that cannot be read decides
/// the failure.
pub open spec fn parse_server_info(reader: ReaderView) -> Result<ServerInfoView, ErrorKind> {
    let header = reader.get_byte();
    let protocol = rest(header).get_byte();
    let name = rest(protocol).get_string();
    let map = rest(name).get_string();
    let folder = rest(map).get_string();
    let game = rest(folder).get_string();
    let id = rest(game).get_short();
    let players = rest(id).get_byte();
    let max_players = rest(players).get_byte();
    let bots = rest(max_players).get_byte();
    let server_type = rest(bots).get_byte();
    let environment = rest(server_type).get_byte();
    let visibility = rest(environment).get_byte();
    let ship = parse_ship_fields(rest(visibility), value(id));
    let version = rest(ship).get_string();
    let extra = parse_extra_fields(rest(version));
    if header is Err {
        Err(failure(header))
    } else if protocol is Err {
        Err(failure(protocol))
    } else if name is Err {
        Err(failure(name))
    } else if map is Err {
        Err(failure(map))
    } else if folder is Err {
        Err(failure(folder))
    } else if game is Err {
        Err(failure(game))
    } else if id is Err {
        Err(failure(id))
    } else if players is Err {
        Err(failure(players))
    } else if max_players is Err {
        Err(failure(max_players))
    } else if bots is Err {
        Err(failure(bots))
    } else if server_type is Err {
        Err(failure(server_type))
    } else if environment is Err {
        Err(failure(environment))
    } else if visibility is Err {
        Err(failure(visibility))
    } else if ship is Err {
        Err(failure(ship))
    } else if version is Err {
        Err(failure(version))
    } else if extra is Err {
        Err(failure(extra))
    } else {
        Ok(
            ServerInfoView {
                header: value(header),
                protocol: value(protocol),
                name: value(name),
                map: value(map),
                folder: value(folder),
                game: value(game),
                id: value(id),
                players: value(players),
                max_players: value(max_players),
                bots: value(bots),
                server_type: ServerType::of_byte(value(server_type)),
                environment: Environment::of_byte(value(environment)),
                server_visibility: ServerVisibility::of_byte(value(visibility)),
                ship_mode: match value(ship) {
                    Some(fields) => Some(fields.mode),
                    None => None,
                },
                witnesses: match value(ship) {
                    Some(fields) => Some(fields.witnesses),
                    None => None,
                },
                duration: match value(ship) {
                    Some(fields) => Some(fields.duration),
                    None => None,
                },
                version: value(version),
                edf: value(extra).edf,
                port: value(extra).port,
                steam_id: value(extra).steam_id,
                source_tv_port: value(extra).source_tv_port,
                source_tv_name: value(extra).source_tv_name,
                keywords: value(extra).keywords,
                game_id: value(extra).game_id,
            },
        )
    }
}

/// Decodes the body of an info reply, which `reader` holds from its cursor
/// on.
pub fn decode_server_info(reader: ByteReader) -> (result: Result<ServerInfo, ErrorKind>)
    ensures
        match parse_server_info(reader@) {
            Ok(view) => result matches Ok(info) && info@ == view,
            Err(kind) => result == Err::<ServerInfo, ErrorKind>(kind),
        },
{
    let mut reader = reader;
    let header = reader.get_byte()?;
    let protocol = reader.get_byte()?;
    let name = reader.get_string()?;
    let map = reader.get_string()?;
    let folder = reader.get_string()?;
    let game = reader.get_string()?;
    let id = reader.get_short()?;
    let players = reader.get_byte()?;
    let max_players = reader.get_byte()?;
    let bots = reader.get_byte()?;
    let server_type = ServerType::from_byte(reader.get_byte()?);
    let environment = Environment::from_byte(reader.get_byte()?);
    let server_visibility = ServerVisibility::from_byte(reader.get_byte()?);
    let ship = decode_ship_fields(&mut reader, id)?;
    let version = reader.get_string()?;
    let extra = decode_extra_fields(&mut reader)?;
    let (ship_mode, witnesses, duration) = match ship {
        Some(fields) => (Some(fields.mode), Some(fields.witnesses), Some(fields.duration)),
        None => (None, None, None),
    };
    Ok(
        ServerInfo {
            header,
            protocol,
            name,
            map,
            folder,
            game,
            id,
            players,
            max_players,
            bots,
            server_type,
            environment,
            server_visibility,
            ship_mode,
            witnesses,
            duration,
            version,
            edf: extra.edf,
            port: extra.port,
            steam_id: extra.steam_id,
            source_tv_port: extra.source_tv_port,
            source_tv_name: extra.source_tv_name,
            keywords: extra.keywords,
            game_id: extra.game_id,
        },
    )
}

/// The mode, the witnesses and the duration are read for the id `SHIP_ID`
/// and for no other. For `SHIP_ID` they are the three bytes at the cursor,
/// and what follows is read behind them; for any other id nothing is read
/// and what follows is read at the cursor.
pub proof fn lemma_ship_fields_follow_id(reader: ReaderView, id: i16)
    requires
        reader.wf(),
    ensures
        id != SHIP_ID ==> parse_ship_fields(reader, id) == Ok::<
            (Option<ShipFields>, ReaderView),
            ErrorKind,
        >((None, reader)),
        id == SHIP_ID && reader.remaining() < 3 ==> parse_ship_fields(reader, id) == Err::<
            (Option<ShipFields>, ReaderView),
            ErrorKind,
        >(ErrorKind::OutOfRange),
        id == SHIP_ID && reader.remaining() >= 3 ==> parse_ship_fields(reader, id) == Ok::<
            (Option<ShipFields>, ReaderView),
            ErrorKind,
        >(
            (
                Some(
                    ShipFields {
                        mode: ShipMode::of_byte(reader.bytes[reader.cursor as int]),
                        witnesses: reader.bytes[reader.cursor as int + 1],
                        duration: duration_of_seconds(reader.bytes[reader.cursor as int + 2] as i64),
                    },
                ),
                reader.at(reader.cursor + 3),
            ),
        ),
{
}

/// The reader behind the thirteen fields that every info reply begins
/// with, from the header to the visibility: the place of what depends on
/// the id.
pub open spec fn behind_visibility(reader: ReaderView) -> ReaderView {
    let header = reader.get_byte();
    let protocol = rest(header).get_byte();
    let name = rest(protocol).get_string();
    let map = rest(name).get_string();
    let folder = rest(map).get_string();
    let game = rest(folder).get_string();
    let id = rest(game).get_short();
    let players = rest(id).get_byte();
    let max_players = rest(players).get_byte();
    let bots = rest(max_players).get_byte();
    let server_type = rest(bots).get_byte();
    let environment = rest(server_type).get_byte();
    let visibility = rest(environment).get_byte();
    rest(visibility)
}

/// An info record has a mode, a witness count and a duration exactly where
/// its id is `SHIP_ID`. They are then the three bytes behind the
/// visibility, and the version is the text behind these. With any other id
/// the three are absent, and the version is the text right behind the
/// visibility.
pub proof fn lemma_info_ship_fields(reader: ReaderView)
    requires
        reader.wf(),
        parse_server_info(reader) is Ok,
    ensures
        ({
            let info = parse_server_info(reader)->Ok_0;
            let place = behind_visibility(reader);
            let start = place.cursor as int;
            &&& info.id == SHIP_ID ==> {
                &&& start + 3 <= place.bytes.len()
                &&& info.ship_mode == Some(ShipMode::of_byte(place.bytes[start]))
                &&& info.witnesses == Some(place.bytes[start + 1])
                &&& info.duration == Some(duration_of_seconds(place.bytes[start + 2] as i64))
                &&& place.at(place.cursor + 3).get_string() is Ok
                &&& info.version == value(place.at(place.cursor + 3).get_string())
            }
            &&& info.id != SHIP_ID ==> {
                &&& info.ship_mode is None
                &&& info.witnesses is None
                &&& info.duration is None
                &&& place.get_string() is Ok
                &&& info.version == value(place.get_string())
            }
        }),
{
    let place = behind_visibility(reader);
    lemma_ship_fields_follow_id(place, SHIP_ID);
}

/// An info reply that ends with its version has none of the extra fields;
/// one that goes on has the extra-data byte, and each extra field exactly
/// where that byte has its flag set.
pub proof fn lemma_extra_fields_follow_flags(reader: ReaderView)
    requires
        parse_extra_fields(reader) is Ok,
    ensures
        ({
            let extra = parse_extra_fields(reader)->Ok_0.0;
            &&& reader.remaining() == 0 ==> extra == no_extra_fields()
            &&& reader.remaining() > 0 ==> {
                &&& extra.edf == Some(reader.bytes[reader.cursor as int])
                &&& extra.port is Some <==> flagged(extra.edf->0, EDF_PORT)
                &&& extra.steam_id is Some <==> flagged(extra.edf->0, EDF_STEAM_ID)
                &&& extra.source_tv_port is Some <==> flagged(extra.edf->0, EDF_SOURCE_TV)
                &&& extra.source_tv_name is Some <==> flagged(extra.edf->0, EDF_SOURCE_TV)
                &&& extra.keywords is Some <==> flagged(extra.edf->0, EDF_KEYWORDS)
                &&& extra.game_id is Some <==> flagged(extra.edf->0, EDF_GAME_ID)
            }
        }),
{
}

/// The time that a player has been on the server, made of the seconds that
/// the reply gives: their whole part, which a duration holds as far as its
/// range goes.
pub open spec fn play_time(seconds: Float32) -> chrono::TimeDelta {
    duration_of_seconds(clamp_seconds(seconds.truncated()))
}

/// One player record: the index, a byte; the name, a text; the score, an
/// unsigned 32-bit number; the time played in seconds, a single-precision
/// number. Deaths and money are on no reply of this form.
pub open spec fn parse_player(reader: ReaderView) -> Result<(PlayerView, ReaderView), ErrorKind> {
    let index = reader.get_byte();
    let name = rest(index).get_string();
    let score = rest(name).get_long();
    let seconds = rest(score).get_float();
    if index is Err {
        Err(failure(index))
    } else if name is Err {
        Err(failure(name))
    } else if score is Err {
        Err(failure(score))
    } else if seconds is Err {
        Err(failure(seconds))
    } else {
        Ok(
            (
                PlayerView {
                    index: value(index),
                    name: value(name),
                    score: value(score),
                    duration: play_time(value(seconds)),
                    deaths: None,
                    money: None,
                },
                rest(seconds),
            ),
        )
    }
}

/// The first `count` player records from `reader` on, in the order in
/// which they stand: the first `count - 1` of them, then the one that
/// follows these.
pub open spec fn parse_players(reader: ReaderView, count: nat) -> Result<
    (Seq<PlayerView>, ReaderView),
    ErrorKind,
>
    decreases count,
{
    if count == 0 {
        Ok((Seq::empty(), reader))
    } else {
        let before = parse_players(reader, (count - 1) as nat);
        let last = parse_player(rest(before));
        if before is Err {
            Err(failure(before))
        } else if last is Err {
            Err(failure(last))
        } else {
            Ok((value(before).push(value(last)), rest(last)))
        }
    }
}

/// The player list that the body of a players reply spells, or why it
/// spells none: the header, a byte; the count, a byte; then as many player
/// records as the count says.
pub open spec fn parse_players_response(reader: ReaderView) -> Result<
    PlayersResponseView,
    ErrorKind,
> {
    let header = reader.get_byte();
    let count = rest(header).get_byte();
    let players = parse_players(rest(count), value(count) as nat);
    if header is Err {
        Err(failure(header))
    } else if count is Err {
        Err(failure(count))
    } else if players is Err {
        Err(failure(players))
    } else {
        Ok(PlayersResponseView { header: value(header), players: value(players) })
    }
}

/// Once a record cannot be read, no longer list can be read either, and
/// for the same reason.
pub proof fn lemma_players_failure_stays(reader: ReaderView, count: nat, more: nat)
    requires
        parse_players(reader, count) is Err,
        count <= more,
    ensures
        parse_players(reader, more) == parse_players(reader, count),
    decreases more,
{
    if count < more {
        lemma_players_failure_stays(reader, count, (more - 1) as nat);
    }
}

/// A list of `count` records that can be read has `count` players, and
/// they stand in the order of the reply: the player at `place` is the one
/// whose record follows the first `place` records.
pub proof fn lemma_players_in_wire_order(reader: ReaderView, count: nat, place: nat)
    requires
        parse_players(reader, count) is Ok,
        place < count,
    ensures
        value(parse_players(reader, count)).len() == count,
        parse_players(reader, place) is Ok,
        parse_player(rest(parse_players(reader, place))) is Ok,
        value(parse_players(reader, count))[place as int] == value(
            parse_player(rest(parse_players(reader, place))),
        ),
    decreases count,
{
    lemma_players_count(reader, count);
    lemma_players_count(reader, (count - 1) as nat);
    if place + 1 < count {
        lemma_players_in_wire_order(reader, (count - 1) as nat, place);
    }
}

/// A list of `count` records that can be read has `count` players.
pub proof fn lemma_players_count(reader: ReaderView, count: nat)
    requires
        parse_players(reader, count) is Ok,
    ensures
        value(parse_players(reader, count)).len() == count,
        count > 0 ==> parse_players(reader, (count - 1) as nat) is Ok,
    decreases count,
{
    if count > 0 {
        lemma_players_count(reader, (count - 1) as nat);
    }
}

fn decode_player(reader: &mut ByteReader) -> (result: Result<Player, ErrorKind>)
    ensures
        match parse_player(old(reader)@) {
            Ok((view, after)) => result matches Ok(player) && player@ == view && final(reader)@
                == after,
            Err(kind) => result == Err::<Player, ErrorKind>(kind),
        },
{
    let index = reader.get_byte()?;
    let name = reader.get_string()?;
    let score = reader.get_long()?;
    let seconds = reader.get_float()?;
    let duration = duration_from_seconds(seconds.whole_seconds());
    Ok(Player { index, name, score, duration, deaths: None, money: None })
}

/// Decodes the body of a players reply, which `reader` holds from its
/// cursor on.
#[verifier::loop_isolation(false)]
pub fn decode_players(reader: ByteReader) -> (result: Result<PlayersResponse, ErrorKind>)
    ensures
        match parse_players_response(reader@) {
            Ok(view) => result matches Ok(response) && response@ == view,
            Err(kind) => result == Err::<PlayersResponse, ErrorKind>(kind),
        },
{
    let mut reader = reader;
    let header = reader.get_byte()?;
    let count = reader.get_byte()?;
    let ghost start = reader@;
    let mut players: Vec<Player> = Vec::new();
    let mut done: u8 = 0;
    assert(players@.map_values(|player: Player| player@) =~= Seq::<PlayerView>::empty());
    while done < count
        invariant
            done <= count,
            parse_players(start, done as nat) == Ok::<(Seq<PlayerView>, ReaderView), ErrorKind>(
                (players@.map_values(|player: Player| player@), reader@),
            ),
        decreases count - done,
    {
        let ghost views = players@.map_values(|player: Player| player@);
        match decode_player(&mut reader) {
            Ok(player) => {
                players.push(player);
                done = done + 1;
                assert(players@.map_values(|player: Player| player@) =~= views.push(player@));
            },
            Err(kind) => {
                proof {
                    lemma_players_failure_stays(start, (done + 1) as nat, count as nat);
                }
                return Err(kind);
            },
        }
    }
    Ok(PlayersResponse { header, players })
}

} // verus!

//! The server-to-client half of the wire protocol. Every server message is
//! framed by one reserved delimiter byte appended after its encoding; no byte
//! of a message the server actually sends can take that value.

use crate::game_state::{Ball, GameState, GAME_HEIGHT, GAME_WIDTH, PADDLE_HEIGHT};
use crate::{
    error_model, spec_message_id, validate_byte_count, validate_state_and_get_message_id,
    DecodeErrorKind, DeserializeMessageError, LOBBY_ID_LEN,
};
use vstd::prelude::*;
use vstd::slice::slice_subrange;
use vstd::utf8::{decode_utf8, encode_utf8, valid_utf8};

verus! {

/// The largest number of bytes a serialized server message takes up:
/// a new-lobby reply is one identifier byte followed by the lobby id.
pub const MAX_SERVER_MESSAGE_SIZE: usize = 1 + LOBBY_ID_LEN;

/// This byte is appended to the end of every server message to mark its end,
/// so no byte inside a sent message may serialize to this value.
pub const SERVER_MESSAGE_DELIMITER: u8 = u8::MAX;

/// Reply to a client that asked for a new lobby.
#[derive(Clone, Debug, PartialEq)]
pub enum AwaitingNewLobbyServerMessage<'a> {
    NewLobbyCreated { lobby_id: &'a str },
}

/// Reply to a client that asked to join a lobby.
#[derive(Clone, Debug, PartialEq, Eq, Structural)]
pub enum AwaitingJoinLobbyServerMessage {
    JoinedLobby,
    LobbyFull,
    LobbyNotFound,
}

/// Sent to a host whose lobby a second player joined.
#[derive(Clone, Debug, PartialEq, Eq, Structural)]
pub enum AwaitingOpponentJoinServerMessage {
    OpponentJoined,
}

/// Sent while both players are choosing their readiness.
#[derive(Clone, Debug, PartialEq, Eq, Structural)]
pub enum AwaitingReadyServerMessage {
    OpponentLeft,
    OpponentReadied,
    OpponentUnreadied,
    YouReadied,
    YouUnreadied,
    GameStarted,
}

/// Sent while the game runs.
#[derive(Clone, Debug, PartialEq, Eq, Structural)]
pub enum PlayingServerMessage {
    OpponentLeft,
    OpponentWon,
    YouWon,
    GameStateUpdated { game_state: GameState },
}

/// What a new-lobby reply says, with the lobby id as its characters.
pub enum NewLobbyMessageModel {
    NewLobbyCreated { lobby_id: Seq<char> },
}

/// The model of a new-lobby reply value.
pub open spec fn new_lobby_message_model(m: AwaitingNewLobbyServerMessage) -> NewLobbyMessageModel {
    match m {
        AwaitingNewLobbyServerMessage::NewLobbyCreated { lobby_id } => {
            NewLobbyMessageModel::NewLobbyCreated { lobby_id: lobby_id@ }
        },
    }
}

/// The bytes a new-lobby reply serializes to.
pub open spec fn spec_encode_new_lobby(m: NewLobbyMessageModel) -> Seq<u8> {
    match m {
        NewLobbyMessageModel::NewLobbyCreated { lobby_id } => seq![0u8] + encode_utf8(lobby_id),
    }
}

/// The new-lobby reply a byte sequence decodes to, or why it is rejected.
pub open spec fn spec_decode_new_lobby(bytes: Seq<u8>) -> Result<
    NewLobbyMessageModel,
    DecodeErrorKind,
> {
    match spec_message_id(bytes, 0) {
        Err(e) => Err(e),
        Ok(message_id) => if message_id == 0 {
            if bytes.len() != 1 + LOBBY_ID_LEN {
                Err(DecodeErrorKind::InvalidByteCount)
            } else if !valid_utf8(bytes.skip(1)) {
                Err(DecodeErrorKind::Utf8Error)
            } else {
                Ok(NewLobbyMessageModel::NewLobbyCreated { lobby_id: decode_utf8(bytes.skip(1)) })
            }
        } else {
            Err(DecodeErrorKind::UnrecognisedMessageVariant)
        },
    }
}

impl<'a> AwaitingNewLobbyServerMessage<'a> {
    /// Serializes the message.
    pub fn to_bytes(&self) -> (r: Vec<u8>)
        ensures
            r@ == spec_encode_new_lobby(new_lobby_message_model(*self)),
    {
        match self {
            AwaitingNewLobbyServerMessage::NewLobbyCreated { lobby_id } => {
                let mut bytes: Vec<u8> = Vec::new();
                bytes.push(0);
                bytes.extend_from_slice(lobby_id.as_bytes());
                proof {
                    assert(bytes@ =~= seq![0u8] + encode_utf8(lobby_id@));
                }
                bytes
            },
        }
    }

    /// Decodes a new-lobby reply from one framed message's bytes.
    pub fn from_bytes(value: &'a [u8]) -> (r: Result<Self, DeserializeMessageError>)
        ensures
            match r {
                Ok(m) => spec_decode_new_lobby(value@) == Ok::<_, DecodeErrorKind>(
                    new_lobby_message_model(m),
                ),
                Err(e) => spec_decode_new_lobby(value@) == Err::<NewLobbyMessageModel, _>(
                    error_model(e),
                ),
            },
    {
        let message_id = match validate_state_and_get_message_id(value, 0) {
            Ok(id) => id,
            Err(e) => {
                return Err(e);
            },
        };
        match message_id {
            0 => {
                if let Err(e) = validate_byte_count(value, 1 + LOBBY_ID_LEN) {
                    return Err(e);
                }
                let payload = slice_subrange(value, 1, value.len());
                proof {
                    assert(payload@ =~= value@.skip(1));
                }
                match std::str::from_utf8(payload) {
                    Ok(lobby_id) => Ok(AwaitingNewLobbyServerMessage::NewLobbyCreated { lobby_id }),
                    Err(err) => Err(DeserializeMessageError::Utf8Error(err)),
                }
            },
            _ => Err(DeserializeMessageError::UnrecognisedMessageVariant),
        }
    }
}

/// The bytes a join-lobby reply serializes to.
pub open spec fn spec_encode_join_lobby(m: AwaitingJoinLobbyServerMessage) -> Seq<u8> {
    match m {
        AwaitingJoinLobbyServerMessage::JoinedLobby => seq![16u8],
        AwaitingJoinLobbyServerMessage::LobbyFull => seq![17u8],
        AwaitingJoinLobbyServerMessage::LobbyNotFound => seq![18u8],
    }
}

/// The join-lobby reply a byte sequence decodes to, or why it is rejected.
pub open spec fn spec_decode_join_lobby(bytes: Seq<u8>) -> Result<
    AwaitingJoinLobbyServerMessage,
    DecodeErrorKind,
> {
    match spec_message_id(bytes, 1) {
        Err(e) => Err(e),
        Ok(message_id) => if message_id == 0 {
            if bytes.len() != 1 {
                Err(DecodeErrorKind::InvalidByteCount)
            } else {
                Ok(AwaitingJoinLobbyServerMessage::JoinedLobby)
            }
        } else if message_id == 1 {
            if bytes.len() != 1 {
                Err(DecodeErrorKind::InvalidByteCount)
            } else {
                Ok(AwaitingJoinLobbyServerMessage::LobbyFull)
            }
        } else if message_id == 2 {
            if bytes.len() != 1 {
                Err(DecodeErrorKind::InvalidByteCount)
            } else {
                Ok(AwaitingJoinLobbyServerMessage::LobbyNotFound)
            }
        } else {
            Err(DecodeErrorKind::UnrecognisedMessageVariant)
        },
    }
}

impl AwaitingJoinLobbyServerMessage {
    /// Serializes the message.
    pub fn to_bytes(&self) -> (r: Vec<u8>)
        ensures
            r@ == spec_encode_join_lobby(*self),
    {
        let mut bytes: Vec<u8> = Vec::new();
        match self {
            AwaitingJoinLobbyServerMessage::JoinedLobby => bytes.push(16),
            AwaitingJoinLobbyServerMessage::LobbyFull => bytes.push(17),
            AwaitingJoinLobbyServerMessage::LobbyNotFound => bytes.push(18),
        }
        proof {
            assert(bytes@ =~= spec_encode_join_lobby(*self));
        }
        bytes
    }

    /// Decodes a join-lobby reply from one framed message's bytes.
    pub fn from_bytes(value: &[u8]) -> (r: Result<Self, DeserializeMessageError>)
        ensures
            match r {
                Ok(m) => spec_decode_join_lobby(value@) == Ok::<_, DecodeErrorKind>(m),
                Err(e) => spec_decode_join_lobby(value@) == Err::<
                    AwaitingJoinLobbyServerMessage,
                    _,
                >(error_model(e)),
            },
    {
        let message_id = match validate_state_and_get_message_id(value, 1) {
            Ok(id) => id,
            Err(e) => {
                return Err(e);
            },
        };
        match message_id {
            0 => {
                if let Err(e) = validate_byte_count(value, 1) {
                    return Err(e);
                }
                Ok(AwaitingJoinLobbyServerMessage::JoinedLobby)
            },
            1 => {
                if let Err(e) = validate_byte_count(value, 1) {
                    return Err(e);
                }
                Ok(AwaitingJoinLobbyServerMessage::LobbyFull)
            },
            2 => {
                if let Err(e) = validate_byte_count(value, 1) {
                    return Err(e);
                }
                Ok(AwaitingJoinLobbyServerMessage::LobbyNotFound)
            },
            _ => Err(DeserializeMessageError::UnrecognisedMessageVariant),
        }
    }
}

/// The bytes an opponent-joined notice serializes to.
pub open spec fn spec_encode_opponent_join(m: AwaitingOpponentJoinServerMessage) -> Seq<u8> {
    seq![32u8]
}

/// The opponent-joined notice a byte sequence decodes to, or why it is
/// rejected.
pub open spec fn spec_decode_opponent_join(bytes: Seq<u8>) -> Result<
    AwaitingOpponentJoinServerMessage,
    DecodeErrorKind,
> {
    match spec_message_id(bytes, 2) {
        Err(e) => Err(e),
        Ok(message_id) => if message_id == 0 {
            if bytes.len() != 1 {
                Err(DecodeErrorKind::InvalidByteCount)
            } else {
                Ok(AwaitingOpponentJoinServerMessage::OpponentJoined)
            }
        } else {
            Err(DecodeErrorKind::UnrecognisedMessageVariant)
        },
    }
}

impl AwaitingOpponentJoinServerMessage {
    /// Serializes the message.
    pub fn to_bytes(&self) -> (r: Vec<u8>)
        ensures
            r@ == spec_encode_opponent_join(*self),
    {
        let mut bytes: Vec<u8> = Vec::new();
        bytes.push(32);
        proof {
            assert(bytes@ =~= spec_encode_opponent_join(*self));
        }
        bytes
    }

    /// Decodes an opponent-joined notice from one framed message's bytes.
    pub fn from_bytes(value: &[u8]) -> (r: Result<Self, DeserializeMessageError>)
        ensures
            match r {
                Ok(m) => spec_decode_opponent_join(value@) == Ok::<_, DecodeErrorKind>(m),
                Err(e) => spec_decode_opponent_join(value@) == Err::<
                    AwaitingOpponentJoinServerMessage,
                    _,
                >(error_model(e)),
            },
    {
        let message_id = match validate_state_and_get_message_id(value, 2) {
            Ok(id) => id,
            Err(e) => {
                return Err(e);
            },
        };
        match message_id {
            0 => {
                if let Err(e) = validate_byte_count(value, 1) {
                    return Err(e);
                }
                Ok(AwaitingOpponentJoinServerMessage::OpponentJoined)
            },
            _ => Err(DeserializeMessageError::UnrecognisedMessageVariant),
        }
    }
}

/// The bytes a ready-state notice serializes to.
pub open spec fn spec_encode_ready_server(m: AwaitingReadyServerMessage) -> Seq<u8> {
    match m {
        AwaitingReadyServerMessage::OpponentLeft => seq![48u8],
        AwaitingReadyServerMessage::OpponentReadied => seq![49u8],
        AwaitingReadyServerMessage::OpponentUnreadied => seq![50u8],
        AwaitingReadyServerMessage::YouReadied => seq![51u8],
        AwaitingReadyServerMessage::YouUnreadied => seq![52u8],
        AwaitingReadyServerMessage::GameStarted => seq![53u8],
    }
}

/// The ready-state notice a byte sequence decodes to, or why it is rejected.
pub open spec fn spec_decode_ready_server(bytes: Seq<u8>) -> Result<
    AwaitingReadyServerMessage,
    DecodeErrorKind,
> {
    match spec_message_id(bytes, 3) {
        Err(e) => Err(e),
        Ok(message_id) => if message_id <= 5 {
            if bytes.len() != 1 {
                Err(DecodeErrorKind::InvalidByteCount)
            } else if message_id == 0 {
                Ok(AwaitingReadyServerMessage::OpponentLeft)
            } else if message_id == 1 {
                Ok(AwaitingReadyServerMessage::OpponentReadied)
            } else if message_id == 2 {
                Ok(AwaitingReadyServerMessage::OpponentUnreadied)
            } else if message_id == 3 {
                Ok(AwaitingReadyServerMessage::YouReadied)
            } else if message_id == 4 {
                Ok(AwaitingReadyServerMessage::YouUnreadied)
            } else {
                Ok(AwaitingReadyServerMessage::GameStarted)
            }
        } else {
            Err(DecodeErrorKind::UnrecognisedMessageVariant)
        },
    }
}

impl AwaitingReadyServerMessage {
    /// Serializes the message.
    pub fn to_bytes(&self) -> (r: Vec<u8>)
        ensures
            r@ == spec_encode_ready_server(*self),
    {
        let mut bytes: Vec<u8> = Vec::new();
        match self {
            AwaitingReadyServerMessage::OpponentLeft => bytes.push(48),
            AwaitingReadyServerMessage::OpponentReadied => bytes.push(49),
            AwaitingReadyServerMessage::OpponentUnreadied => bytes.push(50),
            AwaitingReadyServerMessage::YouReadied => bytes.push(51),
            AwaitingReadyServerMessage::YouUnreadied => bytes.push(52),
            AwaitingReadyServerMessage::GameStarted => bytes.push(53),
        }
        proof {
            assert(bytes@ =~= spec_encode_ready_server(*self));
        }
        bytes
    }

    /// Decodes a ready-state notice from one framed message's bytes.
    pub fn from_bytes(value: &[u8]) -> (r: Result<Self, DeserializeMessageError>)
        ensures
            match r {
                Ok(m) => spec_decode_ready_server(value@) == Ok::<_, DecodeErrorKind>(m),
                Err(e) => spec_decode_ready_server(value@) == Err::<AwaitingReadyServerMessage, _>(
                    error_model(e),
                ),
            },
    {
        let message_id = match validate_state_and_get_message_id(value, 3) {
            Ok(id) => id,
            Err(e) => {
                return Err(e);
            },
        };
        if message_id > 5 {
            return Err(DeserializeMessageError::UnrecognisedMessageVariant);
        }
        if let Err(e) = validate_byte_count(value, 1) {
            return Err(e);
        }
        match message_id {
            0 => Ok(AwaitingReadyServerMessage::OpponentLeft),
            1 => Ok(AwaitingReadyServerMessage::OpponentReadied),
            2 => Ok(AwaitingReadyServerMessage::OpponentUnreadied),
            3 => Ok(AwaitingReadyServerMessage::YouReadied),
            4 => Ok(AwaitingReadyServerMessage::YouUnreadied),
            _ => Ok(AwaitingReadyServerMessage::GameStarted),
        }
    }
}

/// The direction bit of one ball axis.
pub open spec fn direction_bit(moving: bool) -> u8 {
    if moving {
        1u8
    } else {
        0u8
    }
}

/// The bytes a playing-state notice serializes to. A game-state update packs
/// both paddles into one byte, four bits each, and each ball axis with its
/// direction bit into one byte: serializing is total, but a paddle position
/// above 15 keeps only its low four bits and a ball coordinate above 127 only
/// its low seven, exactly as the modulus below says.
pub open spec fn spec_encode_playing_server(m: PlayingServerMessage) -> Seq<u8> {
    match m {
        PlayingServerMessage::OpponentLeft => seq![64u8],
        PlayingServerMessage::OpponentWon => seq![65u8],
        PlayingServerMessage::YouWon => seq![66u8],
        PlayingServerMessage::GameStateUpdated { game_state } => seq![
            67u8,
            ((game_state.left_paddle % 16) * 16 + game_state.right_paddle % 16) as u8,
            ((game_state.ball.x % 128) * 2 + direction_bit(game_state.ball.moving_right)) as u8,
            ((game_state.ball.y % 128) * 2 + direction_bit(game_state.ball.moving_down)) as u8,
        ],
    }
}

/// The playing-state notice a byte sequence decodes to, or why it is
/// rejected. A game-state update is rejected when either decoded paddle sits
/// below the board's bottom edge or the decoded ball lies outside the board.
pub open spec fn spec_decode_playing_server(bytes: Seq<u8>) -> Result<
    PlayingServerMessage,
    DecodeErrorKind,
> {
    match spec_message_id(bytes, 4) {
        Err(e) => Err(e),
        Ok(message_id) => if message_id == 0 {
            if bytes.len() != 1 {
                Err(DecodeErrorKind::InvalidByteCount)
            } else {
                Ok(PlayingServerMessage::OpponentLeft)
            }
        } else if message_id == 1 {
            if bytes.len() != 1 {
                Err(DecodeErrorKind::InvalidByteCount)
            } else {
                Ok(PlayingServerMessage::OpponentWon)
            }
        } else if message_id == 2 {
            if bytes.len() != 1 {
                Err(DecodeErrorKind::InvalidByteCount)
            } else {
                Ok(PlayingServerMessage::YouWon)
            }
        } else if message_id == 3 {
            if bytes.len() != 4 {
                Err(DecodeErrorKind::InvalidByteCount)
            } else {
                let left_paddle = bytes[1] / 16;
                let right_paddle = bytes[1] % 16;
                let x = bytes[2] / 2;
                let y = bytes[3] / 2;
                if left_paddle > GAME_HEIGHT - PADDLE_HEIGHT {
                    Err(DecodeErrorKind::InvalidPaddlePosition)
                } else if right_paddle > GAME_HEIGHT - PADDLE_HEIGHT {
                    Err(DecodeErrorKind::InvalidPaddlePosition)
                } else if x >= GAME_WIDTH || y >= GAME_HEIGHT {
                    Err(DecodeErrorKind::InvalidBallPosition)
                } else {
                    Ok(
                        PlayingServerMessage::GameStateUpdated {
                            game_state: GameState {
                                left_paddle,
                                right_paddle,
                                ball: Ball {
                                    x,
                                    y,
                                    moving_right: bytes[2] % 2 == 1,
                                    moving_down: bytes[3] % 2 == 1,
                                },
                            },
                        },
                    )
                }
            }
        } else {
            Err(DecodeErrorKind::UnrecognisedMessageVariant)
        },
    }
}

impl PlayingServerMessage {
    /// Serializes the message. Serializing a game-state update never fails,
    /// but silently truncates each field to the bits the packed format keeps;
    /// the authoritative tick engine only produces values that fit.
    pub fn to_bytes(&self) -> (r: Vec<u8>)
        ensures
            r@ == spec_encode_playing_server(*self),
    {
        proof {
            assert(forall|l: u8, p: u8|
                #![auto]
                ((l << 4u8) | (p & 0xfu8)) == (l % 16) * 16 + p % 16) by (bit_vector);
            assert(forall|v: u8, d: u8|
                d <= 1 ==> #[trigger] ((v << 1u8) | d) == (v % 128) * 2 + d) by (bit_vector);
        }
        let mut bytes: Vec<u8> = Vec::new();
        match self {
            PlayingServerMessage::OpponentLeft => bytes.push(64),
            PlayingServerMessage::OpponentWon => bytes.push(65),
            PlayingServerMessage::YouWon => bytes.push(66),
            PlayingServerMessage::GameStateUpdated { game_state } => {
                bytes.push(67);
                bytes.push((game_state.left_paddle << 4) | (game_state.right_paddle & 0xf));
                bytes.push(
                    (game_state.ball.x << 1) | (if game_state.ball.moving_right {
                        1
                    } else {
                        0
                    }),
                );
                bytes.push(
                    (game_state.ball.y << 1) | (if game_state.ball.moving_down {
                        1
                    } else {
                        0
                    }),
                );
            },
        }
        proof {
            assert(bytes@ =~= spec_encode_playing_server(*self));
        }
        bytes
    }

    /// Decodes a playing-state notice from one framed message's bytes.
    pub fn from_bytes(value: &[u8]) -> (r: Result<Self, DeserializeMessageError>)
        ensures
            match r {
                Ok(m) => spec_decode_playing_server(value@) == Ok::<_, DecodeErrorKind>(m),
                Err(e) => spec_decode_playing_server(value@) == Err::<PlayingServerMessage, _>(
                    error_model(e),
                ),
            },
    {
        proof {
            assert(forall|b: u8|
                #![auto]
                b >> 4u8 == b / 16 && (b & 0xfu8) == b % 16 && b >> 1u8 == b / 2 && (b & 1u8) == b
                    % 2) by (bit_vector);
        }
        let message_id = match validate_state_and_get_message_id(value, 4) {
            Ok(id) => id,
            Err(e) => {
                return Err(e);
            },
        };
        match message_id {
            0 => {
                if let Err(e) = validate_byte_count(value, 1) {
                    return Err(e);
                }
                Ok(PlayingServerMessage::OpponentLeft)
            },
            1 => {
                if let Err(e) = validate_byte_count(value, 1) {
                    return Err(e);
                }
                Ok(PlayingServerMessage::OpponentWon)
            },
            2 => {
                if let Err(e) = validate_byte_count(value, 1) {
                    return Err(e);
                }
                Ok(PlayingServerMessage::YouWon)
            },
            3 => {
                if let Err(e) = validate_byte_count(value, 4) {
                    return Err(e);
                }
                let left_paddle = value[1] >> 4;
                if left_paddle > GAME_HEIGHT - PADDLE_HEIGHT {
                    return Err(DeserializeMessageError::InvalidPaddlePosition);
                }
                let right_paddle = value[1] & 0xf;
                if right_paddle > GAME_HEIGHT - PADDLE_HEIGHT {
                    return Err(DeserializeMessageError::InvalidPaddlePosition);
                }
                let x = value[2] >> 1;
                let y = value[3] >> 1;
                if x >= GAME_WIDTH || y >= GAME_HEIGHT {
                    return Err(DeserializeMessageError::InvalidBallPosition);
                }
                Ok(
                    PlayingServerMessage::GameStateUpdated {
                        game_state: GameState {
                            left_paddle,
                            right_paddle,
                            ball: Ball {
                                x,
                                y,
                                moving_right: value[2] & 1 == 1,
                                moving_down: value[3] & 1 == 1,
                            },
                        },
                    },
                )
            },
            _ => Err(DeserializeMessageError::UnrecognisedMessageVariant),
        }
    }
}

/// Round trip: decoding an encoded new-lobby reply gives the message back,
/// for every lobby id that takes exactly LOBBY_ID_LEN bytes of UTF-8.
pub proof fn lemma_new_lobby_round_trip(m: NewLobbyMessageModel)
    requires
        m matches NewLobbyMessageModel::NewLobbyCreated { lobby_id } ==> encode_utf8(
            lobby_id,
        ).len() == LOBBY_ID_LEN,
    ensures
        spec_decode_new_lobby(spec_encode_new_lobby(m)) == Ok::<_, DecodeErrorKind>(m),
{
    match m {
        NewLobbyMessageModel::NewLobbyCreated { lobby_id } => {
            let bytes = spec_encode_new_lobby(m);
            assert(bytes.skip(1) =~= encode_utf8(lobby_id));
            vstd::utf8::encode_utf8_valid_utf8(lobby_id);
            vstd::utf8::encode_utf8_decode_utf8(lobby_id);
        },
    }
}

/// Round trip: decoding an encoded join-lobby reply gives the message back.
pub proof fn lemma_join_lobby_round_trip(m: AwaitingJoinLobbyServerMessage)
    ensures
        spec_decode_join_lobby(spec_encode_join_lobby(m)) == Ok::<_, DecodeErrorKind>(m),
{
}

/// Round trip: decoding an encoded opponent-joined notice gives the message
/// back.
pub proof fn lemma_opponent_join_round_trip(m: AwaitingOpponentJoinServerMessage)
    ensures
        spec_decode_opponent_join(spec_encode_opponent_join(m)) == Ok::<_, DecodeErrorKind>(m),
{
}

/// Round trip: decoding an encoded ready-state notice gives the message back.
pub proof fn lemma_ready_server_round_trip(m: AwaitingReadyServerMessage)
    ensures
        spec_decode_ready_server(spec_encode_ready_server(m)) == Ok::<_, DecodeErrorKind>(m),
{
}

/// Round trip: decoding an encoded playing-state notice gives the message
/// back, for every game state within the board's bounds.
pub proof fn lemma_playing_server_round_trip(m: PlayingServerMessage)
    requires
        m matches PlayingServerMessage::GameStateUpdated { game_state } ==> game_state.wf(),
    ensures
        spec_decode_playing_server(spec_encode_playing_server(m)) == Ok::<_, DecodeErrorKind>(m),
{
}

/// A first byte for another protocol state is rejected as InvalidState before
/// any variant or length check runs, whatever the rest of the message holds.
pub proof fn lemma_server_state_mismatch(bytes: Seq<u8>)
    requires
        bytes.len() > 0,
    ensures
        bytes[0] / 16 != 0 ==> spec_decode_new_lobby(bytes) == Err::<NewLobbyMessageModel, _>(
            DecodeErrorKind::InvalidState,
        ),
        bytes[0] / 16 != 1 ==> spec_decode_join_lobby(bytes) == Err::<
            AwaitingJoinLobbyServerMessage,
            _,
        >(DecodeErrorKind::InvalidState),
        bytes[0] / 16 != 2 ==> spec_decode_opponent_join(bytes) == Err::<
            AwaitingOpponentJoinServerMessage,
            _,
        >(DecodeErrorKind::InvalidState),
        bytes[0] / 16 != 3 ==> spec_decode_ready_server(bytes) == Err::<
            AwaitingReadyServerMessage,
            _,
        >(DecodeErrorKind::InvalidState),
        bytes[0] / 16 != 4 ==> spec_decode_playing_server(bytes) == Err::<
            PlayingServerMessage,
            _,
        >(DecodeErrorKind::InvalidState),
{
}

/// Encoding a game-state update keeps only the low four bits of each paddle
/// position and the low seven bits of each ball coordinate: two states that
/// agree on those bits, and on the direction flags, encode to the same bytes.
pub proof fn lemma_encode_truncates(a: GameState, b: GameState)
    requires
        a.left_paddle % 16 == b.left_paddle % 16,
        a.right_paddle % 16 == b.right_paddle % 16,
        a.ball.x % 128 == b.ball.x % 128,
        a.ball.y % 128 == b.ball.y % 128,
        a.ball.moving_right == b.ball.moving_right,
        a.ball.moving_down == b.ball.moving_down,
    ensures
        spec_encode_playing_server(PlayingServerMessage::GameStateUpdated { game_state: a })
            == spec_encode_playing_server(
            PlayingServerMessage::GameStateUpdated { game_state: b },
        ),
{
    assert(spec_encode_playing_server(PlayingServerMessage::GameStateUpdated { game_state: a })
        =~= spec_encode_playing_server(PlayingServerMessage::GameStateUpdated { game_state: b }));
}

/// No byte of the sequence equals the reserved delimiter.
pub open spec fn delimiter_free(bytes: Seq<u8>) -> bool {
    forall|i: int| 0 <= i < bytes.len() ==> bytes[i] != SERVER_MESSAGE_DELIMITER
}

/// The delimiter never occurs inside a message the server sends: the packed
/// fields of an in-bounds game state stay below it, every other payload-less
/// message is one small tag byte, and the bytes of an ASCII lobby id stay
/// below 0x80.
pub proof fn lemma_sent_messages_delimiter_free(
    new_lobby: NewLobbyMessageModel,
    join: AwaitingJoinLobbyServerMessage,
    opponent: AwaitingOpponentJoinServerMessage,
    ready: AwaitingReadyServerMessage,
    playing: PlayingServerMessage,
)
    requires
        new_lobby matches NewLobbyMessageModel::NewLobbyCreated { lobby_id }
            ==> vstd::utf8::is_ascii_chars(lobby_id),
        playing matches PlayingServerMessage::GameStateUpdated { game_state } ==> game_state.wf(),
    ensures
        delimiter_free(spec_encode_new_lobby(new_lobby)),
        delimiter_free(spec_encode_join_lobby(join)),
        delimiter_free(spec_encode_opponent_join(opponent)),
        delimiter_free(spec_encode_ready_server(ready)),
        delimiter_free(spec_encode_playing_server(playing)),
{
    match new_lobby {
        NewLobbyMessageModel::NewLobbyCreated { lobby_id } => {
            vstd::utf8::is_ascii_chars_encode_utf8(lobby_id);
            vstd::utf8::is_ascii_chars_nat_bound(lobby_id);
            assert forall|i: int|
                0 <= i < spec_encode_new_lobby(new_lobby).len() implies spec_encode_new_lobby(
                new_lobby,
            )[i] != SERVER_MESSAGE_DELIMITER by {
                if i >= 1 {
                    assert(encode_utf8(lobby_id)[i - 1] == lobby_id[i - 1] as u8);
                    assert((lobby_id[i - 1] as nat) < 128);
                }
            }
        },
    }
}

/// The bytes of one framed server message: the encoding, then the delimiter.
pub open spec fn spec_framed(message: Seq<u8>) -> Seq<u8> {
    message.push(SERVER_MESSAGE_DELIMITER)
}

/// Appends the delimiter that ends every server message on the wire.
pub fn frame_message(message: Vec<u8>) -> (r: Vec<u8>)
    ensures
        r@ == spec_framed(message@),
{
    let mut framed = message;
    framed.push(SERVER_MESSAGE_DELIMITER);
    framed
}

impl<'a> From<AwaitingNewLobbyServerMessage<'a>> for Vec<u8> {
    fn from(value: AwaitingNewLobbyServerMessage<'a>) -> Vec<u8> {
        value.to_bytes()
    }
}

impl<'a> vstd::std_specs::convert::FromSpecImpl<AwaitingNewLobbyServerMessage<'a>> for Vec<u8> {
    open spec fn obeys_from_spec() -> bool {
        false
    }

    open spec fn from_spec(v: AwaitingNewLobbyServerMessage<'a>) -> Vec<u8> {
        arbitrary()
    }
}

impl<'a> TryFrom<&'a [u8]> for AwaitingNewLobbyServerMessage<'a> {
    type Error = DeserializeMessageError;

    fn try_from(value: &'a [u8]) -> Result<Self, Self::Error> {
        Self::from_bytes(value)
    }
}

impl<'a> vstd::std_specs::convert::TryFromSpecImpl<&'a [u8]> for AwaitingNewLobbyServerMessage<'a> {
    open spec fn obeys_try_from_spec() -> bool {
        false
    }

    open spec fn try_from_spec(v: &'a [u8]) -> Result<Self, DeserializeMessageError> {
        arbitrary()
    }
}

impl From<AwaitingJoinLobbyServerMessage> for Vec<u8> {
    fn from(value: AwaitingJoinLobbyServerMessage) -> Vec<u8> {
        value.to_bytes()
    }
}

impl vstd::std_specs::convert::FromSpecImpl<AwaitingJoinLobbyServerMessage> for Vec<u8> {
    open spec fn obeys_from_spec() -> bool {
        false
    }

    open spec fn from_spec(v: AwaitingJoinLobbyServerMessage) -> Vec<u8> {
        arbitrary()
    }
}

impl<'a> TryFrom<&'a [u8]> for AwaitingJoinLobbyServerMessage {
    type Error = DeserializeMessageError;

    fn try_from(value: &'a [u8]) -> Result<Self, Self::Error> {
        Self::from_bytes(value)
    }
}

impl<'a> vstd::std_specs::convert::TryFromSpecImpl<&'a [u8]> for AwaitingJoinLobbyServerMessage {
    open spec fn obeys_try_from_spec() -> bool {
        false
    }

    open spec fn try_from_spec(v: &'a [u8]) -> Result<Self, DeserializeMessageError> {
        arbitrary()
    }
}

impl From<AwaitingOpponentJoinServerMessage> for Vec<u8> {
    fn from(value: AwaitingOpponentJoinServerMessage) -> Vec<u8> {
        value.to_bytes()
    }
}

impl vstd::std_specs::convert::FromSpecImpl<AwaitingOpponentJoinServerMessage> for Vec<u8> {
    open spec fn obeys_from_spec() -> bool {
        false
    }

    open spec fn from_spec(v: AwaitingOpponentJoinServerMessage) -> Vec<u8> {
        arbitrary()
    }
}

impl<'a> TryFrom<&'a [u8]> for AwaitingOpponentJoinServerMessage {
    type Error = DeserializeMessageError;

    fn try_from(value: &'a [u8]) -> Result<Self, Self::Error> {
        Self::from_bytes(value)
    }
}

impl<'a> vstd::std_specs::convert::TryFromSpecImpl<&'a [u8]> for AwaitingOpponentJoinServerMessage {
    open spec fn obeys_try_from_spec() -> bool {
        false
    }

    open spec fn try_from_spec(v: &'a [u8]) -> Result<Self, DeserializeMessageError> {
        arbitrary()
    }
}

impl From<AwaitingReadyServerMessage> for Vec<u8> {
    fn from(value: AwaitingReadyServerMessage) -> Vec<u8> {
        value.to_bytes()
    }
}

impl vstd::std_specs::convert::FromSpecImpl<AwaitingReadyServerMessage> for Vec<u8> {
    open spec fn obeys_from_spec() -> bool {
        false
    }

    open spec fn from_spec(v: AwaitingReadyServerMessage) -> Vec<u8> {
        arbitrary()
    }
}

impl<'a> TryFrom<&'a [u8]> for AwaitingReadyServerMessage {
    type Error = DeserializeMessageError;

    fn try_from(value: &'a [u8]) -> Result<Self, Self::Error> {
        Self::from_bytes(value)
    }
}

impl<'a> vstd::std_specs::convert::TryFromSpecImpl<&'a [u8]> for AwaitingReadyServerMessage {
    open spec fn obeys_try_from_spec() -> bool {
        false
    }

    open spec fn try_from_spec(v: &'a [u8]) -> Result<Self, DeserializeMessageError> {
        arbitrary()
    }
}

impl From<PlayingServerMessage> for Vec<u8> {
    fn from(value: PlayingServerMessage) -> Vec<u8> {
        value.to_bytes()
    }
}

impl vstd::std_specs::convert::FromSpecImpl<PlayingServerMessage> for Vec<u8> {
    open spec fn obeys_from_spec() -> bool {
        false
    }

    open spec fn from_spec(v: PlayingServerMessage) -> Vec<u8> {
        arbitrary()
    }
}

impl<'a> TryFrom<&'a [u8]> for PlayingServerMessage {
    type Error = DeserializeMessageError;

    fn try_from(value: &'a [u8]) -> Result<Self, Self::Error> {
        Self::from_bytes(value)
    }
}

impl<'a> vstd::std_specs::convert::TryFromSpecImpl<&'a [u8]> for PlayingServerMessage {
    open spec fn obeys_try_from_spec() -> bool {
        false
    }

    open spec fn try_from_spec(v: &'a [u8]) -> Result<Self, DeserializeMessageError> {
        arbitrary()
    }
}

} // verus!

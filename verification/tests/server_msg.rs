use pong::game_state::{Ball, GameState};
use pong::server_msg::{
    AwaitingJoinLobbyServerMessage, AwaitingNewLobbyServerMessage,
    AwaitingOpponentJoinServerMessage, AwaitingReadyServerMessage, PlayingServerMessage,
};
use pong::DeserializeMessageError;

#[test]
fn awaiting_new_lobby_serialize() {
    let lobby_id = "A5EZ";
    assert_eq!(
        Vec::<u8>::from(AwaitingNewLobbyServerMessage::NewLobbyCreated { lobby_id }),
        [&[0], lobby_id.as_bytes()].concat()
    );
}

#[test]
fn awaiting_new_lobby_deserialize_ok() {
    let lobby_id = "F7BW";
    assert_eq!(
        AwaitingNewLobbyServerMessage::try_from([&[0], lobby_id.as_bytes()].concat().as_slice()),
        Ok(AwaitingNewLobbyServerMessage::NewLobbyCreated { lobby_id }),
    );
}

#[test]
fn awaiting_new_lobby_deserialize_err() {
    // empty message.
    assert_eq!(
        AwaitingNewLobbyServerMessage::try_from([].as_slice()),
        Err(DeserializeMessageError::EmptyMessage),
    );
    // new lobby created message with no lobby id bytes.
    assert_eq!(
        AwaitingNewLobbyServerMessage::try_from([0].as_slice()),
        Err(DeserializeMessageError::InvalidByteCount),
    );
    // new lobby created message with not enough bytes.
    assert_eq!(
        AwaitingNewLobbyServerMessage::try_from([&[0], "A5E".as_bytes()].concat().as_slice()),
        Err(DeserializeMessageError::InvalidByteCount),
    );
    // new lobby created message with too many bytes.
    assert_eq!(
        AwaitingNewLobbyServerMessage::try_from([&[0], "A5EZ8".as_bytes()].concat().as_slice()),
        Err(DeserializeMessageError::InvalidByteCount),
    );
    // new lobby created with invalid utf-8.
    assert!(matches!(
        AwaitingNewLobbyServerMessage::try_from([0, 255, 255, 255, 255].as_slice()),
        Err(DeserializeMessageError::Utf8Error(_))
    ));
    // invalid state variant.
    assert_eq!(
        AwaitingNewLobbyServerMessage::try_from([1 << 4].as_slice()),
        Err(DeserializeMessageError::InvalidState),
    );
    // unrecognised message variant.
    assert_eq!(
        AwaitingNewLobbyServerMessage::try_from([1].as_slice()),
        Err(DeserializeMessageError::UnrecognisedMessageVariant),
    );
}

#[test]
fn awaiting_join_lobby_serialize() {
    assert_eq!(
        Vec::<u8>::from(AwaitingJoinLobbyServerMessage::JoinedLobby),
        vec![1 << 4]
    );
    assert_eq!(
        Vec::<u8>::from(AwaitingJoinLobbyServerMessage::LobbyFull),
        vec![1 << 4 | 1]
    );
    assert_eq!(
        Vec::<u8>::from(AwaitingJoinLobbyServerMessage::LobbyNotFound),
        vec![1 << 4 | 2]
    );
}

#[test]
fn awaiting_join_lobby_deserialize_ok() {
    assert_eq!(
        AwaitingJoinLobbyServerMessage::try_from([1 << 4].as_slice()),
        Ok(AwaitingJoinLobbyServerMessage::JoinedLobby),
    );
    assert_eq!(
        AwaitingJoinLobbyServerMessage::try_from([1 << 4 | 1].as_slice()),
        Ok(AwaitingJoinLobbyServerMessage::LobbyFull),
    );
    assert_eq!(
        AwaitingJoinLobbyServerMessage::try_from([1 << 4 | 2].as_slice()),
        Ok(AwaitingJoinLobbyServerMessage::LobbyNotFound),
    );
}

#[test]
fn awaiting_join_lobby_deserialize_err() {
    // empty message.
    assert_eq!(
        AwaitingJoinLobbyServerMessage::try_from([].as_slice()),
        Err(DeserializeMessageError::EmptyMessage),
    );
    // joined lobby message with extra bytes.
    assert_eq!(
        AwaitingJoinLobbyServerMessage::try_from(
            [&[1 << 4 | 0], "A5EZ".as_bytes()].concat().as_slice()
        ),
        Err(DeserializeMessageError::InvalidByteCount),
    );
    // lobby full message with extra bytes.
    assert_eq!(
        AwaitingJoinLobbyServerMessage::try_from(
            [&[1 << 4 | 1], "A5EZ".as_bytes()].concat().as_slice()
        ),
        Err(DeserializeMessageError::InvalidByteCount),
    );
    // lobby not found message with extra bytes.
    assert_eq!(
        AwaitingJoinLobbyServerMessage::try_from(
            [&[1 << 4 | 2], "A5EZ".as_bytes()].concat().as_slice()
        ),
        Err(DeserializeMessageError::InvalidByteCount),
    );
    // invalid state variant.
    assert_eq!(
        AwaitingJoinLobbyServerMessage::try_from([0].as_slice()),
        Err(DeserializeMessageError::InvalidState),
    );
    // unrecognised message variant.
    assert_eq!(
        AwaitingJoinLobbyServerMessage::try_from([1 << 4 | 3].as_slice()),
        Err(DeserializeMessageError::UnrecognisedMessageVariant),
    );
}

#[test]
fn awaiting_opponent_join_serialize() {
    assert_eq!(
        Vec::<u8>::from(AwaitingOpponentJoinServerMessage::OpponentJoined),
        vec![2 << 4]
    );
}

#[test]
fn awaiting_opponent_join_deserialize_ok() {
    assert_eq!(
        AwaitingOpponentJoinServerMessage::try_from([2 << 4].as_slice()),
        Ok(AwaitingOpponentJoinServerMessage::OpponentJoined),
    );
}

#[test]
fn awaiting_opponent_join_deserialize_err() {
    // empty message.
    assert_eq!(
        AwaitingOpponentJoinServerMessage::try_from([].as_slice()),
        Err(DeserializeMessageError::EmptyMessage),
    );
    // extra bytes.
    assert_eq!(
        AwaitingOpponentJoinServerMessage::try_from([2 << 4, 0].as_slice()),
        Err(DeserializeMessageError::InvalidByteCount),
    );
    // invalid state variant.
    assert_eq!(
        AwaitingOpponentJoinServerMessage::try_from([0].as_slice()),
        Err(DeserializeMessageError::InvalidState),
    );
    // unrecognised message variant.
    assert_eq!(
        AwaitingOpponentJoinServerMessage::try_from([2 << 4 | 1].as_slice()),
        Err(DeserializeMessageError::UnrecognisedMessageVariant),
    );
}

#[test]
fn server_msg_awaiting_ready_serialize() {
    assert_eq!(
        Vec::<u8>::from(AwaitingReadyServerMessage::OpponentLeft),
        vec![3 << 4]
    );
    assert_eq!(
        Vec::<u8>::from(AwaitingReadyServerMessage::OpponentReadied),
        vec![3 << 4 | 1]
    );
    assert_eq!(
        Vec::<u8>::from(AwaitingReadyServerMessage::OpponentUnreadied),
        vec![3 << 4 | 2]
    );
    assert_eq!(
        Vec::<u8>::from(AwaitingReadyServerMessage::YouReadied),
        vec![3 << 4 | 3]
    );
    assert_eq!(
        Vec::<u8>::from(AwaitingReadyServerMessage::YouUnreadied),
        vec![3 << 4 | 4]
    );
    assert_eq!(
        Vec::<u8>::from(AwaitingReadyServerMessage::GameStarted),
        vec![3 << 4 | 5]
    );
}

#[test]
fn server_msg_awaiting_ready_deserialize_ok() {
    assert_eq!(
        AwaitingReadyServerMessage::try_from([3 << 4].as_slice()),
        Ok(AwaitingReadyServerMessage::OpponentLeft),
    );
    assert_eq!(
        AwaitingReadyServerMessage::try_from([3 << 4 | 1].as_slice()),
        Ok(AwaitingReadyServerMessage::OpponentReadied),
    );
    assert_eq!(
        AwaitingReadyServerMessage::try_from([3 << 4 | 2].as_slice()),
        Ok(AwaitingReadyServerMessage::OpponentUnreadied),
    );
    assert_eq!(
        AwaitingReadyServerMessage::try_from([3 << 4 | 3].as_slice()),
        Ok(AwaitingReadyServerMessage::YouReadied),
    );
    assert_eq!(
        AwaitingReadyServerMessage::try_from([3 << 4 | 4].as_slice()),
        Ok(AwaitingReadyServerMessage::YouUnreadied),
    );
    assert_eq!(
        AwaitingReadyServerMessage::try_from([3 << 4 | 5].as_slice()),
        Ok(AwaitingReadyServerMessage::GameStarted),
    );
}

#[test]
fn server_msg_awaiting_ready_deserialize_err() {
    // empty message.
    assert_eq!(
        AwaitingReadyServerMessage::try_from([].as_slice()),
        Err(DeserializeMessageError::EmptyMessage),
    );
    // extra bytes.
    assert_eq!(
        AwaitingReadyServerMessage::try_from([3 << 4, 0].as_slice()),
        Err(DeserializeMessageError::InvalidByteCount),
    );
    // extra bytes.
    assert_eq!(
        AwaitingReadyServerMessage::try_from([3 << 4 | 1, 0].as_slice()),
        Err(DeserializeMessageError::InvalidByteCount),
    );
    // extra bytes.
    assert_eq!(
        AwaitingReadyServerMessage::try_from([3 << 4 | 2, 0].as_slice()),
        Err(DeserializeMessageError::InvalidByteCount),
    );
    // extra bytes.
    assert_eq!(
        AwaitingReadyServerMessage::try_from([3 << 4 | 3, 0].as_slice()),
        Err(DeserializeMessageError::InvalidByteCount),
    );
    // extra bytes.
    assert_eq!(
        AwaitingReadyServerMessage::try_from([3 << 4 | 4, 0].as_slice()),
        Err(DeserializeMessageError::InvalidByteCount),
    );
    // extra bytes.
    assert_eq!(
        AwaitingReadyServerMessage::try_from([3 << 4 | 5, 0].as_slice()),
        Err(DeserializeMessageError::InvalidByteCount),
    );
    // invalid state variant.
    assert_eq!(
        AwaitingReadyServerMessage::try_from([0].as_slice()),
        Err(DeserializeMessageError::InvalidState),
    );
    // unrecognised message variant.
    assert_eq!(
        AwaitingReadyServerMessage::try_from([3 << 4 | 6].as_slice()),
        Err(DeserializeMessageError::UnrecognisedMessageVariant),
    );
}

#[test]
fn server_msg_playing_serialize() {
    assert_eq!(
        Vec::<u8>::from(PlayingServerMessage::OpponentLeft),
        vec![4 << 4]
    );
    assert_eq!(
        Vec::<u8>::from(PlayingServerMessage::OpponentWon),
        vec![4 << 4 | 1]
    );
    assert_eq!(Vec::<u8>::from(PlayingServerMessage::YouWon), vec![4 << 4 | 2]);
    assert_eq!(
        Vec::<u8>::from(PlayingServerMessage::GameStateUpdated {
            game_state: GameState {
                left_paddle: 0b00000011,  // 3
                right_paddle: 0b00000111, // 7
                ball: Ball {
                    x: 0b00001110, // 14
                    y: 0b00000101, // 5
                    moving_right: true,
                    moving_down: false,
                }
            }
        }),
        vec![4 << 4 | 3, 0b00110111, 0b00011101, 0b00001010],
    );
    // these positions are technically impossible given the size of the game window. bits will be truncated during serialized.
    assert_eq!(
        Vec::<u8>::from(PlayingServerMessage::GameStateUpdated {
            game_state: GameState {
                left_paddle: 0b10110111,
                right_paddle: 0b01110101,
                ball: Ball {
                    x: 0b11100010,
                    y: 0b10101110,
                    moving_right: false,
                    moving_down: true,
                }
            }
        }),
        vec![4 << 4 | 3, 0b01110101, 0b11000100, 0b01011101],
    );
}

#[test]
fn server_msg_playing_deserialize_ok() {
    assert_eq!(
        PlayingServerMessage::try_from([4 << 4].as_slice()),
        Ok(PlayingServerMessage::OpponentLeft),
    );
    assert_eq!(
        PlayingServerMessage::try_from([4 << 4 | 1].as_slice()),
        Ok(PlayingServerMessage::OpponentWon),
    );
    assert_eq!(
        PlayingServerMessage::try_from([4 << 4 | 2].as_slice()),
        Ok(PlayingServerMessage::YouWon)
    );
    assert_eq!(
        PlayingServerMessage::try_from([4 << 4 | 3, 0b01010000, 0b01001111, 0b00010000].as_slice()),
        Ok(PlayingServerMessage::GameStateUpdated {
            game_state: GameState {
                left_paddle: 0b0101,
                right_paddle: 0b0000,
                ball: Ball {
                    x: 0b00100111,
                    y: 0b00001000,
                    moving_right: true,
                    moving_down: false,
                }
            }
        }),
    );
}

#[test]
fn server_msg_playing_deserialize_err() {
    // empty message.
    assert_eq!(
        PlayingServerMessage::try_from([].as_slice()),
        Err(DeserializeMessageError::EmptyMessage),
    );
    // extra bytes.
    assert_eq!(
        PlayingServerMessage::try_from([4 << 4, 0].as_slice()),
        Err(DeserializeMessageError::InvalidByteCount),
    );
    // extra bytes.
    assert_eq!(
        PlayingServerMessage::try_from([4 << 4 | 1, 0].as_slice()),
        Err(DeserializeMessageError::InvalidByteCount),
    );
    // extra bytes.
    assert_eq!(
        PlayingServerMessage::try_from([4 << 4 | 2, 0].as_slice()),
        Err(DeserializeMessageError::InvalidByteCount),
    );
    // extra bytes.
    assert_eq!(
        PlayingServerMessage::try_from(
            [4 << 4 | 3, 0b11110000, 0b01101111, 0b00011000, 0].as_slice()
        ),
        Err(DeserializeMessageError::InvalidByteCount),
    );
    // invalid left paddle position.
    assert_eq!(
        PlayingServerMessage::try_from([4 << 4 | 3, 0b11110000, 0b01001111, 0b00010000].as_slice()),
        Err(DeserializeMessageError::InvalidPaddlePosition),
    );
    // invalid right paddle position.
    assert_eq!(
        PlayingServerMessage::try_from([4 << 4 | 3, 0b01011000, 0b01001111, 0b00010000].as_slice()),
        Err(DeserializeMessageError::InvalidPaddlePosition),
    );
    // invalid ball x position.
    assert_eq!(
        PlayingServerMessage::try_from([4 << 4 | 3, 0b01010000, 0b01101111, 0b00010000].as_slice()),
        Err(DeserializeMessageError::InvalidBallPosition),
    );
    // invalid ball y position.
    assert_eq!(
        PlayingServerMessage::try_from([4 << 4 | 3, 0b01010000, 0b01001111, 0b00011000].as_slice()),
        Err(DeserializeMessageError::InvalidBallPosition),
    );
    // invalid state variant.
    assert_eq!(
        PlayingServerMessage::try_from([0].as_slice()),
        Err(DeserializeMessageError::InvalidState),
    );
    // unrecognised message variant.
    assert_eq!(
        PlayingServerMessage::try_from([4 << 4 | 4].as_slice()),
        Err(DeserializeMessageError::UnrecognisedMessageVariant)
    );
}

#[test]
fn server_msg_serialize_and_back() {
    assert_eq!(
        Vec::<u8>::from(AwaitingNewLobbyServerMessage::NewLobbyCreated { lobby_id: "G16P" }.clone())
            .as_slice()
            .try_into(),
        Ok(AwaitingNewLobbyServerMessage::NewLobbyCreated { lobby_id: "G16P" })
    );
    assert_eq!(
        Vec::<u8>::from(AwaitingJoinLobbyServerMessage::JoinedLobby.clone())
            .as_slice()
            .try_into(),
        Ok(AwaitingJoinLobbyServerMessage::JoinedLobby)
    );
    assert_eq!(
        Vec::<u8>::from(AwaitingJoinLobbyServerMessage::LobbyFull.clone())
            .as_slice()
            .try_into(),
        Ok(AwaitingJoinLobbyServerMessage::LobbyFull)
    );
    assert_eq!(
        Vec::<u8>::from(AwaitingJoinLobbyServerMessage::LobbyNotFound.clone())
            .as_slice()
            .try_into(),
        Ok(AwaitingJoinLobbyServerMessage::LobbyNotFound)
    );
    assert_eq!(
        Vec::<u8>::from(AwaitingOpponentJoinServerMessage::OpponentJoined.clone())
            .as_slice()
            .try_into(),
        Ok(AwaitingOpponentJoinServerMessage::OpponentJoined)
    );
    assert_eq!(
        Vec::<u8>::from(AwaitingReadyServerMessage::OpponentLeft.clone())
            .as_slice()
            .try_into(),
        Ok(AwaitingReadyServerMessage::OpponentLeft)
    );
    assert_eq!(
        Vec::<u8>::from(AwaitingReadyServerMessage::OpponentReadied.clone())
            .as_slice()
            .try_into(),
        Ok(AwaitingReadyServerMessage::OpponentReadied)
    );
    assert_eq!(
        Vec::<u8>::from(AwaitingReadyServerMessage::OpponentUnreadied.clone())
            .as_slice()
            .try_into(),
        Ok(AwaitingReadyServerMessage::OpponentUnreadied)
    );
    assert_eq!(
        Vec::<u8>::from(AwaitingReadyServerMessage::YouReadied.clone())
            .as_slice()
            .try_into(),
        Ok(AwaitingReadyServerMessage::YouReadied)
    );
    assert_eq!(
        Vec::<u8>::from(AwaitingReadyServerMessage::YouUnreadied.clone())
            .as_slice()
            .try_into(),
        Ok(AwaitingReadyServerMessage::YouUnreadied)
    );
    assert_eq!(
        Vec::<u8>::from(PlayingServerMessage::OpponentLeft.clone())
            .as_slice()
            .try_into(),
        Ok(PlayingServerMessage::OpponentLeft)
    );
    assert_eq!(
        Vec::<u8>::from(PlayingServerMessage::OpponentWon.clone())
            .as_slice()
            .try_into(),
        Ok(PlayingServerMessage::OpponentWon)
    );
    assert_eq!(
        Vec::<u8>::from(PlayingServerMessage::YouWon.clone())
            .as_slice()
            .try_into(),
        Ok(PlayingServerMessage::YouWon)
    );
    assert_eq!(
        Vec::<u8>::from(
            PlayingServerMessage::GameStateUpdated {
                game_state: GameState {
                    left_paddle: 6,
                    right_paddle: 2,
                    ball: Ball {
                        x: 31,
                        y: 10,
                        moving_right: true,
                        moving_down: false,
                    },
                },
            }
            .clone()
        )
        .as_slice()
        .try_into(),
        Ok(PlayingServerMessage::GameStateUpdated {
            game_state: GameState {
                left_paddle: 6,
                right_paddle: 2,
                ball: Ball {
                    x: 31,
                    y: 10,
                    moving_right: true,
                    moving_down: false,
                },
            },
        })
    );
}

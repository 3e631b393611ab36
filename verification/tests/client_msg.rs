use pong::client_msg::{
    AwaitingOpenClientMessage, AwaitingReadyClientMessage, PlayingClientMessage,
};
use pong::DeserializeMessageError;

#[test]
fn awaiting_open_serialize() {
    assert_eq!(Vec::<u8>::from(AwaitingOpenClientMessage::NewLobby), vec![0]);
    let lobby_id = "F7BW";
    assert_eq!(
        Vec::<u8>::from(AwaitingOpenClientMessage::JoinLobby { lobby_id }),
        [&[1], lobby_id.as_bytes()].concat(),
    );
}

#[test]
fn awaiting_open_deserialize_ok() {
    assert_eq!(
        AwaitingOpenClientMessage::try_from([0].as_slice()),
        Ok(AwaitingOpenClientMessage::NewLobby),
    );
    let lobby_id = "A5EZ";
    assert_eq!(
        AwaitingOpenClientMessage::try_from([&[1], lobby_id.as_bytes()].concat().as_slice()),
        Ok(AwaitingOpenClientMessage::JoinLobby { lobby_id }),
    );
}

#[test]
fn awaiting_open_deserialize_err() {
    // empty message.
    assert_eq!(
        AwaitingOpenClientMessage::try_from([].as_slice()),
        Err(DeserializeMessageError::EmptyMessage),
    );
    // new lobby message with extra bytes.
    assert_eq!(
        AwaitingOpenClientMessage::try_from([&[0], "A5EZ".as_bytes()].concat().as_slice()),
        Err(DeserializeMessageError::InvalidByteCount),
    );
    // join lobby message with no lobby id bytes.
    assert_eq!(
        AwaitingOpenClientMessage::try_from([1].as_slice()),
        Err(DeserializeMessageError::InvalidByteCount),
    );
    // join lobby message with not enough bytes.
    assert_eq!(
        AwaitingOpenClientMessage::try_from([&[1], "A5E".as_bytes()].concat().as_slice()),
        Err(DeserializeMessageError::InvalidByteCount),
    );
    // join lobby message with too many bytes.
    assert_eq!(
        AwaitingOpenClientMessage::try_from([&[1], "A5EZ8".as_bytes()].concat().as_slice()),
        Err(DeserializeMessageError::InvalidByteCount),
    );
    // join lobby message with invalid utf-8.
    assert!(matches!(
        AwaitingOpenClientMessage::try_from([1, 255, 255, 255, 255].as_slice()),
        Err(DeserializeMessageError::Utf8Error(_))
    ));
    // invalid state variant.
    assert_eq!(
        AwaitingOpenClientMessage::try_from([1 << 4].as_slice()),
        Err(DeserializeMessageError::InvalidState),
    );
    // unrecognised message variant.
    assert_eq!(
        AwaitingOpenClientMessage::try_from([2].as_slice()),
        Err(DeserializeMessageError::UnrecognisedMessageVariant),
    );
}

#[test]
fn client_msg_awaiting_ready_serialize() {
    assert_eq!(
        Vec::<u8>::from(AwaitingReadyClientMessage::Ready),
        vec![1 << 4]
    );
    assert_eq!(
        Vec::<u8>::from(AwaitingReadyClientMessage::Unready),
        vec![1 << 4 | 1]
    );
}

#[test]
fn client_msg_awaiting_ready_deserialize_ok() {
    assert_eq!(
        AwaitingReadyClientMessage::try_from([1 << 4].as_slice()),
        Ok(AwaitingReadyClientMessage::Ready),
    );
    assert_eq!(
        AwaitingReadyClientMessage::try_from([1 << 4 | 1].as_slice()),
        Ok(AwaitingReadyClientMessage::Unready),
    );
}

#[test]
fn client_msg_awaiting_ready_deserialize_err() {
    // empty message.
    assert_eq!(
        AwaitingReadyClientMessage::try_from([].as_slice()),
        Err(DeserializeMessageError::EmptyMessage),
    );
    // ready message with extra bytes.
    assert_eq!(
        AwaitingReadyClientMessage::try_from([1 << 4, 0].as_slice()),
        Err(DeserializeMessageError::InvalidByteCount),
    );
    // unready message with extra bytes.
    assert_eq!(
        AwaitingReadyClientMessage::try_from([1 << 4 | 1, 0].as_slice()),
        Err(DeserializeMessageError::InvalidByteCount),
    );
    // invalid state variant.
    assert_eq!(
        AwaitingReadyClientMessage::try_from([0].as_slice()),
        Err(DeserializeMessageError::InvalidState),
    );
    // unrecognised message variant.
    assert_eq!(
        AwaitingReadyClientMessage::try_from([1 << 4 | 2].as_slice()),
        Err(DeserializeMessageError::UnrecognisedMessageVariant),
    );
}

#[test]
fn client_msg_playing_serialize() {
    let pos = 6;
    assert_eq!(
        Vec::<u8>::from(PlayingClientMessage::MovePaddle { pos }),
        vec![2 << 4, pos]
    );
    let pos = 154;
    assert_eq!(
        Vec::<u8>::from(PlayingClientMessage::MovePaddle { pos }),
        vec![2 << 4, pos]
    );
}

#[test]
fn client_msg_playing_deserialize_ok() {
    assert_eq!(
        PlayingClientMessage::try_from([2 << 4, 5].as_slice()),
        Ok(PlayingClientMessage::MovePaddle { pos: 5 }),
    );
    assert_eq!(
        PlayingClientMessage::try_from([2 << 4, 76].as_slice()),
        Ok(PlayingClientMessage::MovePaddle { pos: 76 }),
    );
}

#[test]
fn client_msg_playing_deserialize_err() {
    // empty message.
    assert_eq!(
        PlayingClientMessage::try_from([].as_slice()),
        Err(DeserializeMessageError::EmptyMessage),
    );
    // move paddle message with missing byte.
    assert_eq!(
        PlayingClientMessage::try_from([2 << 4].as_slice()),
        Err(DeserializeMessageError::InvalidByteCount),
    );
    // move paddle message with extra bytes.
    assert_eq!(
        PlayingClientMessage::try_from([2 << 4, 5, 5].as_slice()),
        Err(DeserializeMessageError::InvalidByteCount),
    );
    // invalid state variant.
    assert_eq!(
        PlayingClientMessage::try_from([0].as_slice()),
        Err(DeserializeMessageError::InvalidState),
    );
    // unrecognised message variant.
    assert_eq!(
        PlayingClientMessage::try_from([2 << 4 | 1].as_slice()),
        Err(DeserializeMessageError::UnrecognisedMessageVariant),
    );
}

#[test]
fn client_msg_serialize_and_back() {
    assert_eq!(
        Vec::<u8>::from(AwaitingOpenClientMessage::NewLobby.clone())
            .as_slice()
            .try_into(),
        Ok(AwaitingOpenClientMessage::NewLobby)
    );
    assert_eq!(
        Vec::<u8>::from(AwaitingOpenClientMessage::JoinLobby { lobby_id: "AOP4" }.clone())
            .as_slice()
            .try_into(),
        Ok(AwaitingOpenClientMessage::JoinLobby { lobby_id: "AOP4" })
    );
    assert_eq!(
        Vec::<u8>::from(AwaitingReadyClientMessage::Ready.clone())
            .as_slice()
            .try_into(),
        Ok(AwaitingReadyClientMessage::Ready)
    );
    assert_eq!(
        Vec::<u8>::from(AwaitingReadyClientMessage::Unready.clone())
            .as_slice()
            .try_into(),
        Ok(AwaitingReadyClientMessage::Unready)
    );
    assert_eq!(
        Vec::<u8>::from(PlayingClientMessage::MovePaddle { pos: 42 }.clone())
            .as_slice()
            .try_into(),
        Ok(PlayingClientMessage::MovePaddle { pos: 42 })
    );
}

//! The client-to-server half of the wire protocol: one message family per
//! protocol phase, each with its exact byte-level encoding and decoding.

use crate::{
    error_model, spec_message_id, validate_byte_count, validate_state_and_get_message_id,
    DecodeErrorKind, DeserializeMessageError, LOBBY_ID_LEN,
};
use vstd::prelude::*;
use vstd::slice::slice_subrange;
use vstd::utf8::{decode_utf8, encode_utf8, valid_utf8};

verus! {

/// The largest number of bytes a serialized client message takes up:
/// a join message is one identifier byte followed by the lobby id.
pub const MAX_CLIENT_MESSAGE_SIZE: usize = 1 + LOBBY_ID_LEN;

/// Sent while the client has no lobby yet.
#[derive(Clone, Debug, PartialEq)]
pub enum AwaitingOpenClientMessage<'a> {
    NewLobby,
    JoinLobby { lobby_id: &'a str },
}

/// Sent while both players are choosing their readiness.
#[derive(Clone, Debug, PartialEq, Eq, Structural)]
pub enum AwaitingReadyClientMessage {
    Ready,
    Unready,
}

/// Sent while the game runs.
#[derive(Clone, Debug, PartialEq, Eq, Structural)]
pub enum PlayingClientMessage {
    MovePaddle { pos: u8 },
}

/// What an open-state message says, with the lobby id as its characters.
pub enum OpenMessageModel {
    NewLobby,
    JoinLobby { lobby_id: Seq<char> },
}

/// The model of an open-state message value.
pub open spec fn open_message_model(m: AwaitingOpenClientMessage) -> OpenMessageModel {
    match m {
        AwaitingOpenClientMessage::NewLobby => OpenMessageModel::NewLobby,
        AwaitingOpenClientMessage::JoinLobby { lobby_id } => OpenMessageModel::JoinLobby {
            lobby_id: lobby_id@,
        },
    }
}

/// The bytes an open-state message serializes to.
pub open spec fn spec_encode_open(m: OpenMessageModel) -> Seq<u8> {
    match m {
        OpenMessageModel::NewLobby => seq![0u8],
        OpenMessageModel::JoinLobby { lobby_id } => seq![1u8] + encode_utf8(lobby_id),
    }
}

/// The open-state message a byte sequence decodes to, or why it is rejected.
pub open spec fn spec_decode_open(bytes: Seq<u8>) -> Result<OpenMessageModel, DecodeErrorKind> {
    match spec_message_id(bytes, 0) {
        Err(e) => Err(e),
        Ok(message_id) => if message_id == 0 {
            if bytes.len() != 1 {
                Err(DecodeErrorKind::InvalidByteCount)
            } else {
                Ok(OpenMessageModel::NewLobby)
            }
        } else if message_id == 1 {
            if bytes.len() != 1 + LOBBY_ID_LEN {
                Err(DecodeErrorKind::InvalidByteCount)
            } else if !valid_utf8(bytes.skip(1)) {
                Err(DecodeErrorKind::Utf8Error)
            } else {
                Ok(OpenMessageModel::JoinLobby { lobby_id: decode_utf8(bytes.skip(1)) })
            }
        } else {
            Err(DecodeErrorKind::UnrecognisedMessageVariant)
        },
    }
}

impl<'a> AwaitingOpenClientMessage<'a> {
    /// Serializes the message.
    pub fn to_bytes(&self) -> (r: Vec<u8>)
        ensures
            r@ == spec_encode_open(open_message_model(*self)),
    {
        match self {
            AwaitingOpenClientMessage::NewLobby => {
                let mut bytes: Vec<u8> = Vec::new();
                bytes.push(0);
                proof {
                    assert(bytes@ =~= seq![0u8]);
                }
                bytes
            },
            AwaitingOpenClientMessage::JoinLobby { lobby_id } => {
                let mut bytes: Vec<u8> = Vec::new();
                bytes.push(1);
                bytes.extend_from_slice(lobby_id.as_bytes());
                proof {
                    assert(bytes@ =~= seq![1u8] + encode_utf8(lobby_id@));
                }
                bytes
            },
        }
    }

    /// Decodes an open-state message from the bytes of one read.
    pub fn from_bytes(value: &'a [u8]) -> (r: Result<Self, DeserializeMessageError>)
        ensures
            match r {
                Ok(m) => spec_decode_open(value@) == Ok::<_, DecodeErrorKind>(
                    open_message_model(m),
                ),
                Err(e) => spec_decode_open(value@) == Err::<OpenMessageModel, _>(error_model(e)),
            },
    {
        let message_id = match validate_state_and_get_message_id(value, 0) {
            Ok(id) => id,
            Err(e) => {
                return Err(e);
            },
        };
        match message_id {
            0 => {
                if let Err(e) = validate_byte_count(value, 1) {
                    return Err(e);
                }
                Ok(AwaitingOpenClientMessage::NewLobby)
            },
            1 => {
                if let Err(e) = validate_byte_count(value, LOBBY_ID_LEN + 1) {
                    return Err(e);
                }
                let payload = slice_subrange(value, 1, value.len());
                proof {
                    assert(payload@ =~= value@.skip(1));
                }
                match std::str::from_utf8(payload) {
                    Ok(lobby_id) => Ok(AwaitingOpenClientMessage::JoinLobby { lobby_id }),
                    Err(err) => Err(DeserializeMessageError::Utf8Error(err)),
                }
            },
            _ => Err(DeserializeMessageError::UnrecognisedMessageVariant),
        }
    }
}

/// The bytes a ready-state message serializes to.
pub open spec fn spec_encode_ready(m: AwaitingReadyClientMessage) -> Seq<u8> {
    match m {
        AwaitingReadyClientMessage::Ready => seq![16u8],
        AwaitingReadyClientMessage::Unready => seq![17u8],
    }
}

/// The ready-state message a byte sequence decodes to, or why it is rejected.
pub open spec fn spec_decode_ready(bytes: Seq<u8>) -> Result<
    AwaitingReadyClientMessage,
    DecodeErrorKind,
> {
    match spec_message_id(bytes, 1) {
        Err(e) => Err(e),
        Ok(message_id) => if message_id == 0 {
            if bytes.len() != 1 {
                Err(DecodeErrorKind::InvalidByteCount)
            } else {
                Ok(AwaitingReadyClientMessage::Ready)
            }
        } else if message_id == 1 {
            if bytes.len() != 1 {
                Err(DecodeErrorKind::InvalidByteCount)
            } else {
                Ok(AwaitingReadyClientMessage::Unready)
            }
        } else {
            Err(DecodeErrorKind::UnrecognisedMessageVariant)
        },
    }
}

impl AwaitingReadyClientMessage {
    /// Serializes the message.
    pub fn to_bytes(&self) -> (r: Vec<u8>)
        ensures
            r@ == spec_encode_ready(*self),
    {
        let mut bytes: Vec<u8> = Vec::new();
        match self {
            AwaitingReadyClientMessage::Ready => bytes.push(16),
            AwaitingReadyClientMessage::Unready => bytes.push(17),
        }
        proof {
            assert(bytes@ =~= spec_encode_ready(*self));
        }
        bytes
    }

    /// Decodes a ready-state message from the bytes of one read.
    pub fn from_bytes(value: &[u8]) -> (r: Result<Self, DeserializeMessageError>)
        ensures
            match r {
                Ok(m) => spec_decode_ready(value@) == Ok::<_, DecodeErrorKind>(m),
                Err(e) => spec_decode_ready(value@) == Err::<AwaitingReadyClientMessage, _>(
                    error_model(e),
                ),
            },
    {
        let message_id = match validate_state_and_get_message_id(value, 1) {
            Ok(id) => id,
            Err(e) => {
                return Err(e);
            },
        };
        match message_id {
            0 => {
                if let Err(e) = validate_byte_count(value, 1) {
                    return Err(e);
                }
                Ok(AwaitingReadyClientMessage::Ready)
            },
            1 => {
                if let Err(e) = validate_byte_count(value, 1) {
                    return Err(e);
                }
                Ok(AwaitingReadyClientMessage::Unready)
            },
            _ => Err(DeserializeMessageError::UnrecognisedMessageVariant),
        }
    }
}

/// The bytes a playing-state message serializes to.
pub open spec fn spec_encode_playing(m: PlayingClientMessage) -> Seq<u8> {
    match m {
        PlayingClientMessage::MovePaddle { pos } => seq![32u8, pos],
    }
}

/// The playing-state message a byte sequence decodes to, or why it is
/// rejected. The paddle position is not bounds-checked here: the server takes
/// it as the client sent it.
pub open spec fn spec_decode_playing(bytes: Seq<u8>) -> Result<
    PlayingClientMessage,
    DecodeErrorKind,
> {
    match spec_message_id(bytes, 2) {
        Err(e) => Err(e),
        Ok(message_id) => if message_id == 0 {
            if bytes.len() != 2 {
                Err(DecodeErrorKind::InvalidByteCount)
            } else {
                Ok(PlayingClientMessage::MovePaddle { pos: bytes[1] })
            }
        } else {
            Err(DecodeErrorKind::UnrecognisedMessageVariant)
        },
    }
}

impl PlayingClientMessage {
    /// Serializes the message.
    pub fn to_bytes(&self) -> (r: Vec<u8>)
        ensures
            r@ == spec_encode_playing(*self),
    {
        let mut bytes: Vec<u8> = Vec::new();
        match self {
            PlayingClientMessage::MovePaddle { pos } => {
                bytes.push(32);
                bytes.push(*pos);
            },
        }
        proof {
            assert(bytes@ =~= spec_encode_playing(*self));
        }
        bytes
    }

    /// Decodes a playing-state message from the bytes of one read.
    pub fn from_bytes(value: &[u8]) -> (r: Result<Self, DeserializeMessageError>)
        ensures
            match r {
                Ok(m) => spec_decode_playing(value@) == Ok::<_, DecodeErrorKind>(m),
                Err(e) => spec_decode_playing(value@) == Err::<PlayingClientMessage, _>(
                    error_model(e),
                ),
            },
    {
        let message_id = match validate_state_and_get_message_id(value, 2) {
            Ok(id) => id,
            Err(e) => {
                return Err(e);
            },
        };
        match message_id {
            0 => {
                if let Err(e) = validate_byte_count(value, 2) {
                    return Err(e);
                }
                Ok(PlayingClientMessage::MovePaddle { pos: value[1] })
            },
            _ => Err(DeserializeMessageError::UnrecognisedMessageVariant),
        }
    }
}

/// Round trip: decoding an encoded open-state message gives the message back,
/// for every lobby id that takes exactly LOBBY_ID_LEN bytes of UTF-8.
pub proof fn lemma_open_round_trip(m: OpenMessageModel)
    requires
        m matches OpenMessageModel::JoinLobby { lobby_id } ==> encode_utf8(lobby_id).len()
            == LOBBY_ID_LEN,
    ensures
        spec_decode_open(spec_encode_open(m)) == Ok::<_, DecodeErrorKind>(m),
{
    match m {
        OpenMessageModel::NewLobby => {},
        OpenMessageModel::JoinLobby { lobby_id } => {
            let bytes = spec_encode_open(m);
            assert(bytes.skip(1) =~= encode_utf8(lobby_id));
            vstd::utf8::encode_utf8_valid_utf8(lobby_id);
            vstd::utf8::encode_utf8_decode_utf8(lobby_id);
        },
    }
}

/// Round trip: decoding an encoded ready-state message gives the message back.
pub proof fn lemma_ready_round_trip(m: AwaitingReadyClientMessage)
    ensures
        spec_decode_ready(spec_encode_ready(m)) == Ok::<_, DecodeErrorKind>(m),
{
}

/// Round trip: decoding an encoded playing-state message gives the message
/// back.
pub proof fn lemma_playing_round_trip(m: PlayingClientMessage)
    ensures
        spec_decode_playing(spec_encode_playing(m)) == Ok::<_, DecodeErrorKind>(m),
{
}

/// A first byte for another protocol state is rejected as InvalidState before
/// any variant or length check runs, whatever the rest of the message holds.
pub proof fn lemma_client_state_mismatch(bytes: Seq<u8>)
    requires
        bytes.len() > 0,
    ensures
        bytes[0] / 16 != 0 ==> spec_decode_open(bytes) == Err::<OpenMessageModel, _>(
            DecodeErrorKind::InvalidState,
        ),
        bytes[0] / 16 != 1 ==> spec_decode_ready(bytes) == Err::<AwaitingReadyClientMessage, _>(
            DecodeErrorKind::InvalidState,
        ),
        bytes[0] / 16 != 2 ==> spec_decode_playing(bytes) == Err::<PlayingClientMessage, _>(
            DecodeErrorKind::InvalidState,
        ),
{
}

impl<'a> From<AwaitingOpenClientMessage<'a>> for Vec<u8> {
    fn from(value: AwaitingOpenClientMessage<'a>) -> Vec<u8> {
        value.to_bytes()
    }
}

impl<'a> vstd::std_specs::convert::FromSpecImpl<AwaitingOpenClientMessage<'a>> for Vec<u8> {
    open spec fn obeys_from_spec() -> bool {
        false
    }

    open spec fn from_spec(v: AwaitingOpenClientMessage<'a>) -> Vec<u8> {
        arbitrary()
    }
}

impl<'a> TryFrom<&'a [u8]> for AwaitingOpenClientMessage<'a> {
    type Error = DeserializeMessageError;

    fn try_from(value: &'a [u8]) -> Result<Self, Self::Error> {
        Self::from_bytes(value)
    }
}

impl<'a> vstd::std_specs::convert::TryFromSpecImpl<&'a [u8]> for AwaitingOpenClientMessage<'a> {
    open spec fn obeys_try_from_spec() -> bool {
        false
    }

    open spec fn try_from_spec(v: &'a [u8]) -> Result<Self, DeserializeMessageError> {
        arbitrary()
    }
}

impl From<AwaitingReadyClientMessage> for Vec<u8> {
    fn from(value: AwaitingReadyClientMessage) -> Vec<u8> {
        value.to_bytes()
    }
}

impl vstd::std_specs::convert::FromSpecImpl<AwaitingReadyClientMessage> for Vec<u8> {
    open spec fn obeys_from_spec() -> bool {
        false
    }

    open spec fn from_spec(v: AwaitingReadyClientMessage) -> Vec<u8> {
        arbitrary()
    }
}

impl<'a> TryFrom<&'a [u8]> for AwaitingReadyClientMessage {
    type Error = DeserializeMessageError;

    fn try_from(value: &'a [u8]) -> Result<Self, Self::Error> {
        Self::from_bytes(value)
    }
}

impl<'a> vstd::std_specs::convert::TryFromSpecImpl<&'a [u8]> for AwaitingReadyClientMessage {
    open spec fn obeys_try_from_spec() -> bool {
        false
    }

    open spec fn try_from_spec(v: &'a [u8]) -> Result<Self, DeserializeMessageError> {
        arbitrary()
    }
}

impl From<PlayingClientMessage> for Vec<u8> {
    fn from(value: PlayingClientMessage) -> Vec<u8> {
        value.to_bytes()
    }
}

impl vstd::std_specs::convert::FromSpecImpl<PlayingClientMessage> for Vec<u8> {
    open spec fn obeys_from_spec() -> bool {
        false
    }

    open spec fn from_spec(v: PlayingClientMessage) -> Vec<u8> {
        arbitrary()
    }
}

impl<'a> TryFrom<&'a [u8]> for PlayingClientMessage {
    type Error = DeserializeMessageError;

    fn try_from(value: &'a [u8]) -> Result<Self, Self::Error> {
        Self::from_bytes(value)
    }
}

impl<'a> vstd::std_specs::convert::TryFromSpecImpl<&'a [u8]> for PlayingClientMessage {
    open spec fn obeys_try_from_spec() -> bool {
        false
    }

    open spec fn try_from_spec(v: &'a [u8]) -> Result<Self, DeserializeMessageError> {
        arbitrary()
    }
}

} // verus!

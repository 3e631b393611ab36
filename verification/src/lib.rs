//! Server-side core of a two-player networked pong game: the framed binary
//! wire protocol, the lobby id generator, the lobby registry with its state
//! machine, and the fixed-tick game engine.
//!
//! Every message on the wire starts with one byte holding a protocol state id
//! in its high nibble and a variant id in its low nibble; the rest is the
//! variant's fixed-size payload.

use vstd::prelude::*;

pub mod client_msg;
pub mod game_state;
pub mod game_tick;
pub mod lobby;
pub mod lobby_id_generator;
pub mod lobby_registry;
pub mod packed;
pub mod server_msg;
pub mod stream_handler;
pub mod text;

verus! {

/// Length, in bytes, of every lobby id on the wire.
pub const LOBBY_ID_LEN: usize = 4;

pub type LobbyId = String;

/// Why a byte sequence failed to decode as a message.
#[derive(Debug, PartialEq)]
pub enum DeserializeMessageError {
    EmptyMessage,
    InvalidBallPosition,
    InvalidByteCount,
    InvalidPaddlePosition,
    UnrecognisedMessageVariant,
    InvalidState,
    Utf8Error(std::str::Utf8Error),
}

impl DeserializeMessageError {
    /// A short text describing the error, for logs.
    pub fn message(&self) -> (r: &'static str)
        ensures
            r@ == match *self {
                DeserializeMessageError::EmptyMessage => "empty message"@,
                DeserializeMessageError::InvalidBallPosition => "invalid ball position"@,
                DeserializeMessageError::InvalidByteCount => "invalid amount of bytes"@,
                DeserializeMessageError::InvalidPaddlePosition => "invalid paddle position"@,
                DeserializeMessageError::UnrecognisedMessageVariant => "unrecognised message"@,
                DeserializeMessageError::InvalidState => "invalid state"@,
                DeserializeMessageError::Utf8Error(_) => "invalid utf-8"@,
            },
    {
        match self {
            DeserializeMessageError::EmptyMessage => "empty message",
            DeserializeMessageError::InvalidBallPosition => "invalid ball position",
            DeserializeMessageError::InvalidByteCount => "invalid amount of bytes",
            DeserializeMessageError::InvalidPaddlePosition => "invalid paddle position",
            DeserializeMessageError::UnrecognisedMessageVariant => "unrecognised message",
            DeserializeMessageError::InvalidState => "invalid state",
            DeserializeMessageError::Utf8Error(_) => "invalid utf-8",
        }
    }
}

/// A decode error stripped of the payload that the UTF-8 case carries: the
/// shape the specification-level decoders speak of.
pub enum DecodeErrorKind {
    EmptyMessage,
    InvalidBallPosition,
    InvalidByteCount,
    InvalidPaddlePosition,
    UnrecognisedMessageVariant,
    InvalidState,
    Utf8Error,
}

/// The kind of a decode error.
pub open spec fn error_model(e: DeserializeMessageError) -> DecodeErrorKind {
    match e {
        DeserializeMessageError::EmptyMessage => DecodeErrorKind::EmptyMessage,
        DeserializeMessageError::InvalidBallPosition => DecodeErrorKind::InvalidBallPosition,
        DeserializeMessageError::InvalidByteCount => DecodeErrorKind::InvalidByteCount,
        DeserializeMessageError::InvalidPaddlePosition => DecodeErrorKind::InvalidPaddlePosition,
        DeserializeMessageError::UnrecognisedMessageVariant => DecodeErrorKind::UnrecognisedMessageVariant,
        DeserializeMessageError::InvalidState => DecodeErrorKind::InvalidState,
        DeserializeMessageError::Utf8Error(_) => DecodeErrorKind::Utf8Error,
    }
}

/// What reading a message's first byte yields: the variant id of the message,
/// or the error that rejects the whole message. A state id other than the
/// expected one is rejected before anything else is looked at.
pub open spec fn spec_message_id(bytes: Seq<u8>, expected_state_id: u8) -> Result<
    u8,
    DecodeErrorKind,
> {
    if bytes.len() == 0 {
        Err(DecodeErrorKind::EmptyMessage)
    } else if bytes[0] / 16 != expected_state_id {
        Err(DecodeErrorKind::InvalidState)
    } else {
        Ok(bytes[0] % 16)
    }
}

/// Reads the state nibble and the variant nibble of a message's first byte:
/// an empty message or one for another protocol state is rejected, otherwise
/// the variant id is returned.
pub fn validate_state_and_get_message_id(value: &[u8], expected_state_id: u8) -> (r: Result<
    u8,
    DeserializeMessageError,
>)
    ensures
        match r {
            Ok(id) => spec_message_id(value@, expected_state_id) == Ok::<u8, DecodeErrorKind>(id),
            Err(e) => spec_message_id(value@, expected_state_id) == Err::<u8, DecodeErrorKind>(
                error_model(e),
            ),
        },
{
    proof {
        assert(forall|b: u8| #![auto] b >> 4u8 == b / 16 && b & 0xfu8 == b % 16) by (bit_vector);
    }
    if value.len() == 0 {
        return Err(DeserializeMessageError::EmptyMessage);
    }
    let state_id = value[0] >> 4;
    if state_id != expected_state_id {
        return Err(DeserializeMessageError::InvalidState);
    }
    let message_id = value[0] & 0xf;
    Ok(message_id)
}

/// Accepts a payload exactly when its length matches the variant's fixed size.
pub fn validate_byte_count(slice: &[u8], exp_len: usize) -> (r: Result<
    (),
    DeserializeMessageError,
>)
    ensures
        slice@.len() == exp_len ==> r == Ok::<(), DeserializeMessageError>(()),
        slice@.len() != exp_len ==> r == Err::<(), DeserializeMessageError>(
            DeserializeMessageError::InvalidByteCount,
        ),
{
    if slice.len() != exp_len {
        Err(DeserializeMessageError::InvalidByteCount)
    } else {
        Ok(())
    }
}

} // verus!

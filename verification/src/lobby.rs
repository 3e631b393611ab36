//! A lobby and its lifecycle state. The library identifies each player's
//! connection by the plain handle the server assigns to the accepted socket;
//! the sockets themselves live outside the library.

use crate::game_state::GameState;
use vstd::prelude::*;

verus! {

/// The handle of one player's connection.
pub type ConnectionId = u64;

/// A matchmaking room: first a host waiting for an opponent, then two players
/// and their shared phase. The player who created the lobby is the left
/// player; the joiner is the right player.
#[derive(Clone, Copy, Debug, PartialEq, Eq, Structural)]
pub enum Lobby {
    AwaitingJoin { host_player_conn: ConnectionId },
    Joined {
        left_player_conn: ConnectionId,
        right_player_conn: ConnectionId,
        state: LobbyState,
    },
}

/// The shared phase of a joined lobby.
#[derive(Clone, Copy, Debug, PartialEq, Eq, Structural)]
pub enum LobbyState {
    AwaitingReadies { left_player_ready: bool, right_player_ready: bool },
    Playing { game_state: GameState },
}

/// The registry invariant: the ball of every playing lobby lies on the board.
/// Authoritative updates never break it.
pub open spec fn balls_in_bounds(table: Map<Seq<char>, Lobby>) -> bool {
    forall|id: Seq<char>| #[trigger]
        table.contains_key(id) ==> match table[id] {
            Lobby::Joined { state: LobbyState::Playing { game_state }, .. } => {
                game_state.ball.in_bounds()
            },
            _ => true,
        }
}

} // verus!

//! The per-connection dispatcher. Each message a connection hands in is
//! decoded against the protocol state of its owning lobby and becomes one
//! atomic transition of the registry plus a list of actions — replies to
//! write out, and possibly the start of a tick engine — that the surrounding
//! server performs after the transition.

use crate::client_msg::{
    spec_decode_open, spec_decode_playing, spec_decode_ready, AwaitingOpenClientMessage,
    AwaitingReadyClientMessage, OpenMessageModel, PlayingClientMessage,
};
use crate::game_state::GameState;
use crate::game_tick::{initial_game_state, spec_initial_game_state};
use crate::lobby::{ConnectionId, Lobby, LobbyState};
use crate::lobby_id_generator::LobbyIdGenerator;
use crate::lobby_registry::{lobby_table, table_get, table_insert, table_remove};
use crate::server_msg::{
    frame_message, spec_encode_join_lobby, spec_encode_new_lobby, spec_encode_opponent_join,
    spec_encode_playing_server, spec_encode_ready_server, spec_framed,
    AwaitingJoinLobbyServerMessage, AwaitingNewLobbyServerMessage,
    AwaitingOpponentJoinServerMessage, AwaitingReadyServerMessage, NewLobbyMessageModel,
    PlayingServerMessage,
};
use vstd::prelude::*;

verus! {

/// One instruction to the surrounding server: write framed bytes to a
/// connection, or start the tick engine of a lobby.
#[derive(Debug, PartialEq)]
pub enum Action {
    Send { conn: ConnectionId, bytes: Vec<u8> },
    SpawnTicker { lobby_id: String },
}

/// The model of one action.
pub enum ActionModel {
    Send { conn: ConnectionId, bytes: Seq<u8> },
    SpawnTicker { lobby_id: Seq<char> },
}

/// The model of an action value.
pub open spec fn action_model(a: Action) -> ActionModel {
    match a {
        Action::Send { conn, bytes } => ActionModel::Send { conn, bytes: bytes@ },
        Action::SpawnTicker { lobby_id } => ActionModel::SpawnTicker { lobby_id: lobby_id@ },
    }
}

/// The models of a list of actions, in order.
pub open spec fn actions_model(s: Seq<Action>) -> Seq<ActionModel> {
    s.map_values(|a: Action| action_model(a))
}

/// A framed ready-phase notice sent to one connection.
pub open spec fn send_ready(conn: ConnectionId, m: AwaitingReadyServerMessage) -> ActionModel {
    ActionModel::Send { conn, bytes: spec_framed(spec_encode_ready_server(m)) }
}

/// A framed playing-phase notice sent to one connection.
pub open spec fn send_playing(conn: ConnectionId, m: PlayingServerMessage) -> ActionModel {
    ActionModel::Send { conn, bytes: spec_framed(spec_encode_playing_server(m)) }
}

/// A framed join reply sent to one connection.
pub open spec fn send_join(conn: ConnectionId, m: AwaitingJoinLobbyServerMessage) -> ActionModel {
    ActionModel::Send { conn, bytes: spec_framed(spec_encode_join_lobby(m)) }
}

/// The framed opponent-joined notice sent to one connection.
pub open spec fn send_opponent_join(conn: ConnectionId) -> ActionModel {
    ActionModel::Send {
        conn,
        bytes: spec_framed(
            spec_encode_opponent_join(AwaitingOpponentJoinServerMessage::OpponentJoined),
        ),
    }
}

/// The framed new-lobby reply carrying a lobby id.
pub open spec fn send_new_lobby(conn: ConnectionId, lobby_id: Seq<char>) -> ActionModel {
    ActionModel::Send {
        conn,
        bytes: spec_framed(
            spec_encode_new_lobby(NewLobbyMessageModel::NewLobbyCreated { lobby_id }),
        ),
    }
}

/// The game state after one player moved a paddle: the caller's paddle is set
/// to the requested position as sent, with no further bounds check.
pub open spec fn spec_move_paddle(gs: GameState, is_left_player: bool, pos: u8) -> GameState {
    if is_left_player {
        GameState { left_paddle: pos, ..gs }
    } else {
        GameState { right_paddle: pos, ..gs }
    }
}

/// A counter value stepped by one, wrapping at the width of its type.
pub open spec fn wrap_inc(c: u32) -> u32 {
    if c == u32::MAX {
        0u32
    } else {
        (c + 1) as u32
    }
}

/// The characters of an optional lobby id.
pub open spec fn opt_id_view(o: Option<String>) -> Option<Seq<char>> {
    match o {
        Some(id) => Some(id@),
        None => None,
    }
}

/// What dispatching one client message does, as a function of the caller's
/// connection, the lobby it belongs to, the registry's contents, the id
/// generator, and the message bytes: the new registry contents, the caller's
/// new lobby binding, the new generator counter, and the actions owed, in
/// order. A message that does not decode against the current phase is
/// dropped; a caller whose lobby is gone, or that never had one, is in the
/// open phase.
pub open spec fn spec_dispatch(
    conn: ConnectionId,
    lobby0: Option<Seq<char>>,
    table0: Map<Seq<char>, Lobby>,
    key: Seq<u8>,
    count0: u32,
    msg: Seq<u8>,
) -> (Map<Seq<char>, Lobby>, Option<Seq<char>>, u32, Seq<ActionModel>) {
    if lobby0 is Some && table0.contains_key(lobby0->0) {
        let id = lobby0->0;
        match table0[id] {
            Lobby::AwaitingJoin { .. } => (table0, lobby0, count0, Seq::<ActionModel>::empty()),
            Lobby::Joined { left_player_conn, right_player_conn, state } => {
                let is_left_player = conn == left_player_conn;
                let caller = if is_left_player {
                    left_player_conn
                } else {
                    right_player_conn
                };
                let opponent = if is_left_player {
                    right_player_conn
                } else {
                    left_player_conn
                };
                match state {
                    LobbyState::AwaitingReadies { left_player_ready, right_player_ready } => {
                        match spec_decode_ready(msg) {
                            Err(_) => (table0, lobby0, count0, Seq::<ActionModel>::empty()),
                            Ok(m) => {
                                let is_ready = m is Ready;
                                let new_left = if is_left_player {
                                    is_ready
                                } else {
                                    left_player_ready
                                };
                                let new_right = if is_left_player {
                                    right_player_ready
                                } else {
                                    is_ready
                                };
                                if !(new_left && new_right) {
                                    (
                                        table0.insert(
                                            id,
                                            Lobby::Joined {
                                                left_player_conn,
                                                right_player_conn,
                                                state: LobbyState::AwaitingReadies {
                                                    left_player_ready: new_left,
                                                    right_player_ready: new_right,
                                                },
                                            },
                                        ),
                                        lobby0,
                                        count0,
                                        seq![
                                            send_ready(
                                                caller,
                                                if is_ready {
                                                    AwaitingReadyServerMessage::YouReadied
                                                } else {
                                                    AwaitingReadyServerMessage::YouUnreadied
                                                },
                                            ),
                                            send_ready(
                                                opponent,
                                                if is_ready {
                                                    AwaitingReadyServerMessage::OpponentReadied
                                                } else {
                                                    AwaitingReadyServerMessage::OpponentUnreadied
                                                },
                                            ),
                                        ],
                                    )
                                } else {
                                    let started = PlayingServerMessage::GameStateUpdated {
                                        game_state: spec_initial_game_state(),
                                    };
                                    (
                                        table0.insert(
                                            id,
                                            Lobby::Joined {
                                                left_player_conn,
                                                right_player_conn,
                                                state: LobbyState::Playing {
                                                    game_state: spec_initial_game_state(),
                                                },
                                            },
                                        ),
                                        lobby0,
                                        count0,
                                        seq![
                                            send_ready(
                                                caller,
                                                AwaitingReadyServerMessage::YouReadied,
                                            ),
                                            send_ready(
                                                caller,
                                                AwaitingReadyServerMessage::GameStarted,
                                            ),
                                            send_ready(
                                                opponent,
                                                AwaitingReadyServerMessage::GameStarted,
                                            ),
                                            send_playing(caller, started),
                                            send_playing(opponent, started),
                                            ActionModel::SpawnTicker { lobby_id: id },
                                        ],
                                    )
                                }
                            },
                        }
                    },
                    LobbyState::Playing { game_state } => {
                        match spec_decode_playing(msg) {
                            Err(_) => (table0, lobby0, count0, Seq::<ActionModel>::empty()),
                            Ok(PlayingClientMessage::MovePaddle { pos }) => {
                                let moved = spec_move_paddle(game_state, is_left_player, pos);
                                let update = PlayingServerMessage::GameStateUpdated {
                                    game_state: moved,
                                };
                                (
                                    table0.insert(
                                        id,
                                        Lobby::Joined {
                                            left_player_conn,
                                            right_player_conn,
                                            state: LobbyState::Playing { game_state: moved },
                                        },
                                    ),
                                    lobby0,
                                    count0,
                                    seq![send_playing(caller, update), send_playing(opponent, update)],
                                )
                            },
                        }
                    },
                }
            },
        }
    } else {
        match spec_decode_open(msg) {
            Err(_) => (table0, lobby0, count0, Seq::<ActionModel>::empty()),
            Ok(OpenMessageModel::NewLobby) => {
                let id = LobbyIdGenerator::spec_id(key, count0);
                (
                    table0.insert(id, Lobby::AwaitingJoin { host_player_conn: conn }),
                    Some(id),
                    wrap_inc(count0),
                    seq![send_new_lobby(conn, id)],
                )
            },
            Ok(OpenMessageModel::JoinLobby { lobby_id }) => {
                if table0.contains_key(lobby_id) {
                    match table0[lobby_id] {
                        Lobby::AwaitingJoin { host_player_conn } => {
                            (
                                table0.insert(
                                    lobby_id,
                                    Lobby::Joined {
                                        left_player_conn: host_player_conn,
                                        right_player_conn: conn,
                                        state: LobbyState::AwaitingReadies {
                                            left_player_ready: false,
                                            right_player_ready: false,
                                        },
                                    },
                                ),
                                Some(lobby_id),
                                count0,
                                seq![
                                    send_join(conn, AwaitingJoinLobbyServerMessage::JoinedLobby),
                                    send_opponent_join(host_player_conn),
                                ],
                            )
                        },
                        Lobby::Joined { .. } => {
                            (
                                table0,
                                lobby0,
                                count0,
                                seq![send_join(conn, AwaitingJoinLobbyServerMessage::LobbyFull)],
                            )
                        },
                    }
                } else {
                    (
                        table0,
                        lobby0,
                        count0,
                        seq![send_join(conn, AwaitingJoinLobbyServerMessage::LobbyNotFound)],
                    )
                }
            },
        }
    }
}

/// What a closed connection does to the registry: the owning lobby entry, if
/// any, leaves it, and the remaining player of a joined lobby is owed the
/// opponent-left notice of the phase the lobby was in.
pub open spec fn spec_disconnect(
    conn: ConnectionId,
    lobby0: Option<Seq<char>>,
    table0: Map<Seq<char>, Lobby>,
) -> (Map<Seq<char>, Lobby>, Seq<ActionModel>) {
    if lobby0 is Some && table0.contains_key(lobby0->0) {
        let id = lobby0->0;
        let acts = match table0[id] {
            Lobby::AwaitingJoin { .. } => Seq::<ActionModel>::empty(),
            Lobby::Joined { left_player_conn, right_player_conn, state } => {
                let opponent = if conn == left_player_conn {
                    right_player_conn
                } else {
                    left_player_conn
                };
                match state {
                    LobbyState::AwaitingReadies { .. } => seq![
                        send_ready(opponent, AwaitingReadyServerMessage::OpponentLeft),
                    ],
                    LobbyState::Playing { .. } => seq![
                        send_playing(opponent, PlayingServerMessage::OpponentLeft),
                    ],
                }
            },
        };
        (table0.remove(id), acts)
    } else {
        (table0, Seq::<ActionModel>::empty())
    }
}

/// Both players ready starts the game exactly once: a readiness message that
/// decodes as Ready, sent by one player of a lobby whose other player is
/// already ready, moves that lobby to the playing phase in its initial state,
/// and each player is told the game started before any game-state update
/// reaches it — the caller's echo first, then the start notices, then the
/// first update, then the engine start.
pub proof fn lemma_both_ready_starts_game(
    conn: ConnectionId,
    id: Seq<char>,
    table0: Map<Seq<char>, Lobby>,
    key: Seq<u8>,
    count0: u32,
    msg: Seq<u8>,
    left_player_conn: ConnectionId,
    right_player_conn: ConnectionId,
    caller_ready: bool,
)
    requires
        conn == left_player_conn || conn == right_player_conn,
        table0.contains_key(id),
        table0[id] == (Lobby::Joined {
            left_player_conn,
            right_player_conn,
            state: LobbyState::AwaitingReadies {
                left_player_ready: if conn == left_player_conn {
                    caller_ready
                } else {
                    true
                },
                right_player_ready: if conn == left_player_conn {
                    true
                } else {
                    caller_ready
                },
            },
        }),
        spec_decode_ready(msg) == Ok::<_, crate::DecodeErrorKind>(
            AwaitingReadyClientMessage::Ready,
        ),
    ensures
        ({
            let r = spec_dispatch(conn, Some(id), table0, key, count0, msg);
            let opponent = if conn == left_player_conn {
                right_player_conn
            } else {
                left_player_conn
            };
            let update = PlayingServerMessage::GameStateUpdated {
                game_state: spec_initial_game_state(),
            };
            &&& r.0 == table0.insert(
                id,
                Lobby::Joined {
                    left_player_conn,
                    right_player_conn,
                    state: LobbyState::Playing { game_state: spec_initial_game_state() },
                },
            )
            &&& r.2 == count0
            &&& r.3 =~= seq![
                send_ready(conn, AwaitingReadyServerMessage::YouReadied),
                send_ready(conn, AwaitingReadyServerMessage::GameStarted),
                send_ready(opponent, AwaitingReadyServerMessage::GameStarted),
                send_playing(conn, update),
                send_playing(opponent, update),
                ActionModel::SpawnTicker { lobby_id: id },
            ]
        }),
{
}

/// The per-connection state the dispatcher keeps: the connection's handle and
/// the lobby it belongs to, if it belongs to one yet.
pub struct StreamHandler {
    pub conn: ConnectionId,
    pub lobby_id: Option<String>,
}

impl StreamHandler {
    /// A dispatcher for one freshly accepted connection.
    pub fn new(conn: ConnectionId) -> (r: Self)
        ensures
            r.conn == conn,
            r.lobby_id is None,
    {
        StreamHandler { conn, lobby_id: None }
    }

    /// Dispatches one client message: the registry, the caller's lobby
    /// binding and the id generator move exactly as `spec_dispatch` says, and
    /// the returned actions are the replies owed, in order.
    pub fn handle_client_message(
        &mut self,
        lobbies: &mut dashmap::DashMap<String, Lobby>,
        lobby_id_generator: &mut LobbyIdGenerator,
        message: &[u8],
    ) -> (r: Vec<Action>)
        ensures
            ({
                let expected = spec_dispatch(
                    old(self).conn,
                    opt_id_view(old(self).lobby_id),
                    lobby_table(*old(lobbies)),
                    old(lobby_id_generator).key@,
                    old(lobby_id_generator).id_count,
                    message@,
                );
                &&& lobby_table(*final(lobbies)) == expected.0
                &&& opt_id_view(final(self).lobby_id) == expected.1
                &&& final(lobby_id_generator).id_count == expected.2
                &&& actions_model(r@) == expected.3
                &&& final(self).conn == old(self).conn
                &&& final(lobby_id_generator).key == old(lobby_id_generator).key
            }),
    {
        let ghost expected = spec_dispatch(
            self.conn,
            opt_id_view(self.lobby_id),
            lobby_table(*lobbies),
            lobby_id_generator.key@,
            lobby_id_generator.id_count,
            message@,
        );
        let owned: Option<Lobby> = match &self.lobby_id {
            Some(id) => table_get(lobbies, id.as_str()),
            None => None,
        };
        match owned {
            Some(Lobby::AwaitingJoin { .. }) => {
                // A message arrived while the lobby still awaits its second
                // player: there is nothing it could legally say, so it is
                // dropped.
                let r = Vec::new();
                proof {
                    assert(actions_model(r@) =~= expected.3);
                }
                r
            },
            Some(Lobby::Joined { left_player_conn, right_player_conn, state }) => {
                let id: &String = match &self.lobby_id {
                    Some(id) => id,
                    None => vstd::pervasive::unreached(),
                };
                let is_left_player = self.conn == left_player_conn;
                match state {
                    LobbyState::AwaitingReadies { left_player_ready, right_player_ready } => {
                        let msg = match AwaitingReadyClientMessage::from_bytes(message) {
                            Ok(m) => m,
                            Err(_) => {
                                let r = Vec::new();
                                proof {
                                    assert(actions_model(r@) =~= expected.3);
                                }
                                return r;
                            },
                        };
                        let is_ready = matches!(msg, AwaitingReadyClientMessage::Ready);
                        let caller = if is_left_player {
                            left_player_conn
                        } else {
                            right_player_conn
                        };
                        let opponent = if is_left_player {
                            right_player_conn
                        } else {
                            left_player_conn
                        };
                        let new_left = if is_left_player {
                            is_ready
                        } else {
                            left_player_ready
                        };
                        let new_right = if is_left_player {
                            right_player_ready
                        } else {
                            is_ready
                        };
                        let mut actions: Vec<Action> = Vec::new();
                        let echo = if is_ready {
                            AwaitingReadyServerMessage::YouReadied
                        } else {
                            AwaitingReadyServerMessage::YouUnreadied
                        };
                        actions.push(
                            Action::Send { conn: caller, bytes: frame_message(echo.to_bytes()) },
                        );
                        if new_left && new_right {
                            // Both players are ready: start the game.
                            table_insert(
                                lobbies,
                                id.as_str(),
                                Lobby::Joined {
                                    left_player_conn,
                                    right_player_conn,
                                    state: LobbyState::Playing {
                                        game_state: initial_game_state(),
                                    },
                                },
                            );
                            actions.push(
                                Action::Send {
                                    conn: caller,
                                    bytes: frame_message(
                                        AwaitingReadyServerMessage::GameStarted.to_bytes(),
                                    ),
                                },
                            );
                            actions.push(
                                Action::Send {
                                    conn: opponent,
                                    bytes: frame_message(
                                        AwaitingReadyServerMessage::GameStarted.to_bytes(),
                                    ),
                                },
                            );
                            let update = PlayingServerMessage::GameStateUpdated {
                                game_state: initial_game_state(),
                            };
                            actions.push(
                                Action::Send {
                                    conn: caller,
                                    bytes: frame_message(update.to_bytes()),
                                },
                            );
                            actions.push(
                                Action::Send {
                                    conn: opponent,
                                    bytes: frame_message(update.to_bytes()),
                                },
                            );
                            actions.push(Action::SpawnTicker { lobby_id: id.clone() });
                        } else {
                            table_insert(
                                lobbies,
                                id.as_str(),
                                Lobby::Joined {
                                    left_player_conn,
                                    right_player_conn,
                                    state: LobbyState::AwaitingReadies {
                                        left_player_ready: new_left,
                                        right_player_ready: new_right,
                                    },
                                },
                            );
                            let notice = if is_ready {
                                AwaitingReadyServerMessage::OpponentReadied
                            } else {
                                AwaitingReadyServerMessage::OpponentUnreadied
                            };
                            actions.push(
                                Action::Send {
                                    conn: opponent,
                                    bytes: frame_message(notice.to_bytes()),
                                },
                            );
                        }
                        proof {
                            assert(actions_model(actions@) =~= expected.3);
                        }
                        actions
                    },
                    LobbyState::Playing { game_state } => {
                        let msg = match PlayingClientMessage::from_bytes(message) {
                            Ok(m) => m,
                            Err(_) => {
                                let r = Vec::new();
                                proof {
                                    assert(actions_model(r@) =~= expected.3);
                                }
                                return r;
                            },
                        };
                        let PlayingClientMessage::MovePaddle { pos } = msg;
                        let moved = if is_left_player {
                            GameState { left_paddle: pos, ..game_state }
                        } else {
                            GameState { right_paddle: pos, ..game_state }
                        };
                        table_insert(
                            lobbies,
                            id.as_str(),
                            Lobby::Joined {
                                left_player_conn,
                                right_player_conn,
                                state: LobbyState::Playing { game_state: moved },
                            },
                        );
                        let update = PlayingServerMessage::GameStateUpdated { game_state: moved };
                        let caller = if is_left_player {
                            left_player_conn
                        } else {
                            right_player_conn
                        };
                        let opponent = if is_left_player {
                            right_player_conn
                        } else {
                            left_player_conn
                        };
                        let mut actions: Vec<Action> = Vec::new();
                        actions.push(Action::Send { conn: caller, bytes: frame_message(update.to_bytes()) });
                        actions.push(
                            Action::Send { conn: opponent, bytes: frame_message(update.to_bytes()) },
                        );
                        proof {
                            assert(actions_model(actions@) =~= expected.3);
                        }
                        actions
                    },
                }
            },
            None => {
                match AwaitingOpenClientMessage::from_bytes(message) {
                    Err(_) => {
                        let r = Vec::new();
                        proof {
                            assert(actions_model(r@) =~= expected.3);
                        }
                        r
                    },
                    Ok(AwaitingOpenClientMessage::NewLobby) => {
                        let lobby_id = lobby_id_generator.next_id();
                        table_insert(
                            lobbies,
                            lobby_id.as_str(),
                            Lobby::AwaitingJoin { host_player_conn: self.conn },
                        );
                        let reply = AwaitingNewLobbyServerMessage::NewLobbyCreated {
                            lobby_id: lobby_id.as_str(),
                        };
                        let bytes = frame_message(reply.to_bytes());
                        let mut actions: Vec<Action> = Vec::new();
                        actions.push(Action::Send { conn: self.conn, bytes });
                        self.lobby_id = Some(lobby_id);
                        proof {
                            assert(actions_model(actions@) =~= expected.3);
                        }
                        actions
                    },
                    Ok(AwaitingOpenClientMessage::JoinLobby { lobby_id }) => {
                        match table_get(lobbies, lobby_id) {
                            Some(Lobby::AwaitingJoin { host_player_conn }) => {
                                table_insert(
                                    lobbies,
                                    lobby_id,
                                    Lobby::Joined {
                                        left_player_conn: host_player_conn,
                                        right_player_conn: self.conn,
                                        state: LobbyState::AwaitingReadies {
                                            left_player_ready: false,
                                            right_player_ready: false,
                                        },
                                    },
                                );
                                let mut actions: Vec<Action> = Vec::new();
                                actions.push(
                                    Action::Send {
                                        conn: self.conn,
                                        bytes: frame_message(
                                            AwaitingJoinLobbyServerMessage::JoinedLobby.to_bytes(),
                                        ),
                                    },
                                );
                                actions.push(
                                    Action::Send {
                                        conn: host_player_conn,
                                        bytes: frame_message(
                                            AwaitingOpponentJoinServerMessage::OpponentJoined.to_bytes(),
                                        ),
                                    },
                                );
                                self.lobby_id = Some(lobby_id.to_owned());
                                proof {
                                    assert(actions_model(actions@) =~= expected.3);
                                }
                                actions
                            },
                            Some(Lobby::Joined { .. }) => {
                                let mut actions: Vec<Action> = Vec::new();
                                actions.push(
                                    Action::Send {
                                        conn: self.conn,
                                        bytes: frame_message(
                                            AwaitingJoinLobbyServerMessage::LobbyFull.to_bytes(),
                                        ),
                                    },
                                );
                                proof {
                                    assert(actions_model(actions@) =~= expected.3);
                                }
                                actions
                            },
                            None => {
                                let mut actions: Vec<Action> = Vec::new();
                                actions.push(
                                    Action::Send {
                                        conn: self.conn,
                                        bytes: frame_message(
                                            AwaitingJoinLobbyServerMessage::LobbyNotFound.to_bytes(),
                                        ),
                                    },
                                );
                                proof {
                                    assert(actions_model(actions@) =~= expected.3);
                                }
                                actions
                            },
                        }
                    },
                }
            },
        }
    }

    /// Handles the peer closing its connection: the registry and the replies
    /// owed to the remaining player move exactly as `spec_disconnect` says.
    pub fn handle_disconnect(
        &self,
        lobbies: &mut dashmap::DashMap<String, Lobby>,
    ) -> (r: Vec<Action>)
        ensures
            ({
                let expected = spec_disconnect(
                    self.conn,
                    opt_id_view(self.lobby_id),
                    lobby_table(*old(lobbies)),
                );
                &&& lobby_table(*final(lobbies)) == expected.0
                &&& actions_model(r@) == expected.1
            }),
    {
        let ghost expected = spec_disconnect(
            self.conn,
            opt_id_view(self.lobby_id),
            lobby_table(*lobbies),
        );
        let id: &String = match &self.lobby_id {
            Some(id) => id,
            None => {
                let r = Vec::new();
                proof {
                    assert(actions_model(r@) =~= expected.1);
                }
                return r;
            },
        };
        let removed = table_remove(lobbies, id.as_str());
        match removed {
            None => {
                let r = Vec::new();
                proof {
                    assert(lobby_table(*lobbies) =~= expected.0);
                    assert(actions_model(r@) =~= expected.1);
                }
                r
            },
            Some(Lobby::AwaitingJoin { .. }) => {
                let r = Vec::new();
                proof {
                    assert(actions_model(r@) =~= expected.1);
                }
                r
            },
            Some(Lobby::Joined { left_player_conn, right_player_conn, state }) => {
                let opponent = if self.conn == left_player_conn {
                    right_player_conn
                } else {
                    left_player_conn
                };
                let mut actions: Vec<Action> = Vec::new();
                match state {
                    LobbyState::AwaitingReadies { .. } => {
                        actions.push(
                            Action::Send {
                                conn: opponent,
                                bytes: frame_message(
                                    AwaitingReadyServerMessage::OpponentLeft.to_bytes(),
                                ),
                            },
                        );
                    },
                    LobbyState::Playing { .. } => {
                        actions.push(
                            Action::Send {
                                conn: opponent,
                                bytes: frame_message(PlayingServerMessage::OpponentLeft.to_bytes()),
                            },
                        );
                    },
                }
                proof {
                    assert(actions_model(actions@) =~= expected.1);
                }
                actions
            },
        }
    }
}

/// The dispatcher keeps the registry invariant: when every playing lobby's
/// ball lies on the board, it still does after any client message, whatever
/// the message says — a fresh game starts with the ball in the middle, and a
/// paddle move leaves the ball alone.
pub proof fn lemma_dispatch_keeps_balls_in_bounds(
    conn: ConnectionId,
    lobby0: Option<Seq<char>>,
    table0: Map<Seq<char>, Lobby>,
    key: Seq<u8>,
    count0: u32,
    msg: Seq<u8>,
)
    requires
        crate::lobby::balls_in_bounds(table0),
    ensures
        crate::lobby::balls_in_bounds(spec_dispatch(conn, lobby0, table0, key, count0, msg).0),
{
    let table1 = spec_dispatch(conn, lobby0, table0, key, count0, msg).0;
    assert forall|other: Seq<char>| #[trigger] table1.contains_key(other) implies match table1[other] {
        Lobby::Joined { state: LobbyState::Playing { game_state }, .. } => {
            game_state.ball.in_bounds()
        },
        _ => true,
    } by {
        if table0.contains_key(other) {
            assert(table0.contains_key(other));
        }
    }
}

} // verus!

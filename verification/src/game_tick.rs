//! The game tick engine: one authoritative physics advancement per fixed
//! interval, and the broadcast that follows it. One engine runs per playing
//! lobby; it stops by itself when its lobby leaves the registry, changes
//! phase, or a side wall ends the game.

use crate::game_state::{Ball, GameState, GAME_HEIGHT, GAME_WIDTH, PADDLE_HEIGHT};
use crate::lobby::{ConnectionId, Lobby, LobbyState};
use crate::lobby_registry::{lobby_table, table_get, table_insert};
use crate::server_msg::{frame_message, PlayingServerMessage};
use crate::stream_handler::{actions_model, send_playing, Action, ActionModel};
use vstd::prelude::*;

verus! {

/// The state every game starts in: both paddles at the top, the ball in the
/// middle, moving towards the bottom right.
pub open spec fn spec_initial_game_state() -> GameState {
    GameState {
        left_paddle: 0,
        right_paddle: 0,
        ball: Ball { x: GAME_WIDTH / 2, y: GAME_HEIGHT / 2, moving_right: true, moving_down: true },
    }
}

/// Builds the state every game starts in.
pub fn initial_game_state() -> (r: GameState)
    ensures
        r == spec_initial_game_state(),
{
    GameState {
        left_paddle: 0,
        right_paddle: 0,
        ball: Ball { x: GAME_WIDTH / 2, y: GAME_HEIGHT / 2, moving_right: true, moving_down: true },
    }
}

/// A ball that the engine still advances: strictly between the side walls,
/// within the board vertically, and moving inwards at every wall it touches,
/// as every reachable playing state does. After a miss the ball crosses a
/// side wall and the game is decided, so the engine leaves it alone.
pub open spec fn in_play(b: Ball) -> bool {
    &&& 1 <= b.x <= GAME_WIDTH - 2
    &&& b.y <= GAME_HEIGHT - 1
    &&& b.x == 1 ==> !b.moving_right
    &&& b.x == GAME_WIDTH - 2 ==> b.moving_right
    &&& b.y == 0 ==> !b.moving_down
    &&& b.y == GAME_HEIGHT - 1 ==> b.moving_down
}

/// Decides `in_play` for a ball.
pub fn ball_in_play(b: &Ball) -> (r: bool)
    ensures
        r == in_play(*b),
{
    1 <= b.x && b.x <= GAME_WIDTH - 2 && b.y <= GAME_HEIGHT - 1 && (b.x != 1 || !b.moving_right)
        && (b.x != GAME_WIDTH - 2 || b.moving_right) && (b.y != 0 || !b.moving_down) && (b.y
        != GAME_HEIGHT - 1 || b.moving_down)
}

/// How one tick ended: play goes on, or the named player's paddle missed the
/// ball, which hands the win to the other player.
#[derive(Clone, Copy, Debug, PartialEq, Eq, Structural)]
pub enum TickOutcome {
    Continuing,
    LeftPlayerMissed,
    RightPlayerMissed,
}

/// Whether a paddle at the given position misses a ball at the given row:
/// the paddle covers PADDLE_HEIGHT rows starting at its position.
pub open spec fn spec_paddle_misses(paddle: u8, ball_y: u8) -> bool {
    paddle > ball_y || paddle + PADDLE_HEIGHT <= ball_y
}

/// One physics advancement: the paddle check at each side column, the bounce
/// at the top and bottom rows, then one move in the current direction. A miss
/// does not reverse the ball, so it crosses the side wall on this same move;
/// the state is still advanced and broadcast once before the engine stops.
pub open spec fn spec_step(gs: GameState) -> (GameState, TickOutcome) {
    let left_missed = gs.ball.x == 1 && spec_paddle_misses(gs.left_paddle, gs.ball.y);
    let right_missed = gs.ball.x == GAME_WIDTH - 2 && spec_paddle_misses(
        gs.right_paddle,
        gs.ball.y,
    );
    let moving_right = if (gs.ball.x == 1 && !left_missed) || (gs.ball.x == GAME_WIDTH - 2
        && !right_missed) {
        !gs.ball.moving_right
    } else {
        gs.ball.moving_right
    };
    let moving_down = if gs.ball.y == 0 || gs.ball.y == GAME_HEIGHT - 1 {
        !gs.ball.moving_down
    } else {
        gs.ball.moving_down
    };
    let x = if moving_right {
        (gs.ball.x + 1) as u8
    } else {
        (gs.ball.x - 1) as u8
    };
    let y = if moving_down {
        (gs.ball.y + 1) as u8
    } else {
        (gs.ball.y - 1) as u8
    };
    let outcome = if left_missed {
        TickOutcome::LeftPlayerMissed
    } else if right_missed {
        TickOutcome::RightPlayerMissed
    } else {
        TickOutcome::Continuing
    };
    (
        GameState {
            left_paddle: gs.left_paddle,
            right_paddle: gs.right_paddle,
            ball: Ball { x, y, moving_right, moving_down },
        },
        outcome,
    )
}

/// Advances the ball by one tick.
pub fn step_game(gs: &GameState) -> (r: (GameState, TickOutcome))
    requires
        in_play(gs.ball),
    ensures
        r == spec_step(*gs),
        r.0.ball.in_bounds(),
        r.1 is Continuing ==> in_play(r.0.ball),
{
    let mut ball = gs.ball;
    let mut outcome = TickOutcome::Continuing;
    if ball.x == 1 {
        if gs.left_paddle > ball.y || gs.left_paddle + PADDLE_HEIGHT <= ball.y {
            outcome = TickOutcome::LeftPlayerMissed;
        } else {
            ball.moving_right = !ball.moving_right;
        }
    }
    if ball.x == GAME_WIDTH - 2 {
        if gs.right_paddle > ball.y || gs.right_paddle + PADDLE_HEIGHT <= ball.y {
            outcome = TickOutcome::RightPlayerMissed;
        } else {
            ball.moving_right = !ball.moving_right;
        }
    }
    if ball.y == 0 || ball.y == GAME_HEIGHT - 1 {
        ball.moving_down = !ball.moving_down;
    }
    if ball.moving_right {
        ball.x = ball.x + 1;
    } else {
        ball.x = ball.x - 1;
    }
    if ball.moving_down {
        ball.y = ball.y + 1;
    } else {
        ball.y = ball.y - 1;
    }
    (
        GameState { left_paddle: gs.left_paddle, right_paddle: gs.right_paddle, ball },
        outcome,
    )
}

/// What one tick of the engine for one lobby does to the registry, and what
/// it broadcasts: nothing at all when the lobby is gone, not playing, or its
/// ball is no longer in play (the engine stops); otherwise one advancement,
/// the win notices when a paddle missed, and the new state to both players —
/// every tick, win or not. The first component is the new registry contents,
/// the second whether the engine must stop, the third the actions owed.
pub open spec fn spec_tick(table0: Map<Seq<char>, Lobby>, id: Seq<char>) -> (
    Map<Seq<char>, Lobby>,
    bool,
    Seq<ActionModel>,
) {
    if !table0.contains_key(id) {
        (table0, true, Seq::<ActionModel>::empty())
    } else {
        match table0[id] {
            Lobby::AwaitingJoin { .. } => (table0, true, Seq::<ActionModel>::empty()),
            Lobby::Joined { left_player_conn, right_player_conn, state } => {
                match state {
                    LobbyState::AwaitingReadies { .. } => (
                        table0,
                        true,
                        Seq::<ActionModel>::empty(),
                    ),
                    LobbyState::Playing { game_state } => {
                        if !in_play(game_state.ball) {
                            (table0, true, Seq::<ActionModel>::empty())
                        } else {
                            let stepped = spec_step(game_state);
                            let update = PlayingServerMessage::GameStateUpdated {
                                game_state: stepped.0,
                            };
                            let broadcast = seq![
                                send_playing(left_player_conn, update),
                                send_playing(right_player_conn, update),
                            ];
                            let acts = match stepped.1 {
                                TickOutcome::Continuing => broadcast,
                                TickOutcome::LeftPlayerMissed => seq![
                                    send_playing(
                                        left_player_conn,
                                        PlayingServerMessage::OpponentWon,
                                    ),
                                    send_playing(right_player_conn, PlayingServerMessage::YouWon),
                                ] + broadcast,
                                TickOutcome::RightPlayerMissed => seq![
                                    send_playing(left_player_conn, PlayingServerMessage::YouWon),
                                    send_playing(
                                        right_player_conn,
                                        PlayingServerMessage::OpponentWon,
                                    ),
                                ] + broadcast,
                            };
                            (
                                table0.insert(
                                    id,
                                    Lobby::Joined {
                                        left_player_conn,
                                        right_player_conn,
                                        state: LobbyState::Playing { game_state: stepped.0 },
                                    },
                                ),
                                !(stepped.1 is Continuing),
                                acts,
                            )
                        }
                    },
                }
            },
        }
    }
}

/// Runs one tick of the engine for the lobby under the given id: the
/// registry moves exactly as `spec_tick` says, the returned flag tells the
/// engine to stop, and the returned actions are the broadcasts owed, in
/// order.
pub fn tick_lobby(lobbies: &mut dashmap::DashMap<String, Lobby>, lobby_id: &str) -> (r: (
    bool,
    Vec<Action>,
))
    ensures
        ({
            let expected = spec_tick(lobby_table(*old(lobbies)), lobby_id@);
            &&& lobby_table(*final(lobbies)) == expected.0
            &&& r.0 == expected.1
            &&& actions_model(r.1@) == expected.2
        }),
{
    let ghost expected = spec_tick(lobby_table(*lobbies), lobby_id@);
    let entry = table_get(lobbies, lobby_id);
    match entry {
        Some(Lobby::Joined { left_player_conn, right_player_conn, state: LobbyState::Playing {
            game_state,
        } }) => {
            let ball = game_state.ball;
            if !ball_in_play(&ball) {
                // The game was already decided on an earlier tick: the engine
                // has nothing left to do for this lobby.
                let r = Vec::new();
                proof {
                    assert(actions_model(r@) =~= expected.2);
                }
                return (true, r);
            }
            let (new_state, outcome) = step_game(&game_state);
            let mut actions: Vec<Action> = Vec::new();
            match outcome {
                TickOutcome::Continuing => {},
                TickOutcome::LeftPlayerMissed => {
                    actions.push(
                        Action::Send {
                            conn: left_player_conn,
                            bytes: frame_message(PlayingServerMessage::OpponentWon.to_bytes()),
                        },
                    );
                    actions.push(
                        Action::Send {
                            conn: right_player_conn,
                            bytes: frame_message(PlayingServerMessage::YouWon.to_bytes()),
                        },
                    );
                },
                TickOutcome::RightPlayerMissed => {
                    actions.push(
                        Action::Send {
                            conn: left_player_conn,
                            bytes: frame_message(PlayingServerMessage::YouWon.to_bytes()),
                        },
                    );
                    actions.push(
                        Action::Send {
                            conn: right_player_conn,
                            bytes: frame_message(PlayingServerMessage::OpponentWon.to_bytes()),
                        },
                    );
                },
            }
            table_insert(
                lobbies,
                lobby_id,
                Lobby::Joined {
                    left_player_conn,
                    right_player_conn,
                    state: LobbyState::Playing { game_state: new_state },
                },
            );
            let update = PlayingServerMessage::GameStateUpdated { game_state: new_state };
            actions.push(
                Action::Send { conn: left_player_conn, bytes: frame_message(update.to_bytes()) },
            );
            actions.push(
                Action::Send { conn: right_player_conn, bytes: frame_message(update.to_bytes()) },
            );
            let done = !matches!(outcome, TickOutcome::Continuing);
            proof {
                assert(actions_model(actions@) =~= expected.2);
            }
            (done, actions)
        },
        _ => {
            let r = Vec::new();
            proof {
                assert(actions_model(r@) =~= expected.2);
            }
            (true, r)
        },
    }
}

/// Ball physics at the side columns: a ball in the column next to a wall
/// reverses its horizontal direction when that side's paddle covers its row,
/// and otherwise ends the game against that side's player.
pub proof fn lemma_side_column_outcome(gs: GameState)
    requires
        in_play(gs.ball),
    ensures
        gs.ball.x == 1 && !spec_paddle_misses(gs.left_paddle, gs.ball.y) ==> spec_step(gs).1
            is Continuing && spec_step(gs).0.ball.moving_right == !gs.ball.moving_right,
        gs.ball.x == 1 && spec_paddle_misses(gs.left_paddle, gs.ball.y) ==> spec_step(gs).1
            is LeftPlayerMissed,
        gs.ball.x == GAME_WIDTH - 2 && !spec_paddle_misses(gs.right_paddle, gs.ball.y)
            ==> spec_step(gs).1 is Continuing && spec_step(gs).0.ball.moving_right
            == !gs.ball.moving_right,
        gs.ball.x == GAME_WIDTH - 2 && spec_paddle_misses(gs.right_paddle, gs.ball.y)
            ==> spec_step(gs).1 is RightPlayerMissed,
{
}

/// A tick of a playing lobby whose paddle misses hands the win to the right
/// players: the side whose paddle missed is told the opponent won, the other
/// side that it won, and both still get the advanced state afterwards.
pub proof fn lemma_missed_tick_notices(
    table0: Map<Seq<char>, Lobby>,
    id: Seq<char>,
    left_player_conn: ConnectionId,
    right_player_conn: ConnectionId,
    gs: GameState,
)
    requires
        table0.contains_key(id),
        table0[id] == (Lobby::Joined {
            left_player_conn,
            right_player_conn,
            state: LobbyState::Playing { game_state: gs },
        }),
        in_play(gs.ball),
        spec_step(gs).1 is LeftPlayerMissed,
    ensures
        spec_tick(table0, id).1 == true,
        spec_tick(table0, id).2 =~= seq![
            send_playing(left_player_conn, PlayingServerMessage::OpponentWon),
            send_playing(right_player_conn, PlayingServerMessage::YouWon),
            send_playing(
                left_player_conn,
                PlayingServerMessage::GameStateUpdated { game_state: spec_step(gs).0 },
            ),
            send_playing(
                right_player_conn,
                PlayingServerMessage::GameStateUpdated { game_state: spec_step(gs).0 },
            ),
        ],
{
}

/// A step of an in-play ball lands on the board.
pub proof fn lemma_step_stays_on_board(gs: GameState)
    requires
        in_play(gs.ball),
    ensures
        spec_step(gs).0.ball.in_bounds(),
{
}

/// The tick engine keeps the registry invariant: when every playing lobby's
/// ball lies on the board, it still does after one tick of any lobby.
pub proof fn lemma_tick_keeps_balls_in_bounds(table0: Map<Seq<char>, Lobby>, id: Seq<char>)
    requires
        crate::lobby::balls_in_bounds(table0),
    ensures
        crate::lobby::balls_in_bounds(spec_tick(table0, id).0),
{
    let table1 = spec_tick(table0, id).0;
    assert forall|other: Seq<char>| #[trigger] table1.contains_key(other) implies match table1[other] {
        Lobby::Joined { state: LobbyState::Playing { game_state }, .. } => {
            game_state.ball.in_bounds()
        },
        _ => true,
    } by {
        if table0.contains_key(other) {
            assert(table0.contains_key(other));
        }
        if table0.contains_key(id) && other == id {
            match table0[id] {
                Lobby::Joined { state: LobbyState::Playing { game_state }, .. } => {
                    if in_play(game_state.ball) {
                        lemma_step_stays_on_board(game_state);
                    }
                },
                _ => {},
            }
        }
    }
}

} // verus!

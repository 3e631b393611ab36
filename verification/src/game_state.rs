//! The authoritative game board: its protocol-fixed dimensions and the state
//! that the tick engine advances and the codec carries.

use vstd::prelude::*;

verus! {

/// Number of rows of the board. Protocol-fixed: it must match between peers.
pub const GAME_HEIGHT: u8 = 11;

/// Number of columns of the board. Protocol-fixed: it must match between peers.
pub const GAME_WIDTH: u8 = 51;

/// Number of rows a paddle covers. Protocol-fixed: it must match between peers.
pub const PADDLE_HEIGHT: u8 = 5;

#[derive(Clone, Copy, Debug, PartialEq, Eq, Structural)]
pub struct Ball {
    pub x: u8,
    pub y: u8,
    pub moving_right: bool,
    pub moving_down: bool,
}

#[derive(Clone, Copy, Debug, PartialEq, Eq, Structural)]
pub struct GameState {
    pub left_paddle: u8,
    pub right_paddle: u8,
    pub ball: Ball,
}

impl Ball {
    /// The ball sits somewhere on the board.
    pub open spec fn in_bounds(self) -> bool {
        self.x < GAME_WIDTH && self.y < GAME_HEIGHT
    }
}

impl GameState {
    /// Both paddles fit on the board and the ball is inside it, as every
    /// authoritative update keeps them.
    pub open spec fn wf(self) -> bool {
        &&& self.left_paddle <= GAME_HEIGHT - PADDLE_HEIGHT
        &&& self.right_paddle <= GAME_HEIGHT - PADDLE_HEIGHT
        &&& self.ball.in_bounds()
    }
}

/// The board constants fit the packed wire format: each ball axis takes a
/// position and a direction bit in one byte, and both paddle positions share
/// one byte, four bits each.
pub proof fn board_constants_fit_wire_format()
    ensures
        GAME_HEIGHT < 0x7f,
        GAME_WIDTH < 0x7f,
        GAME_HEIGHT - PADDLE_HEIGHT < 0xf,
{
}

} // verus!

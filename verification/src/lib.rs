use vstd::prelude::*;

pub mod obstacle;
pub mod player;
pub mod render;
pub mod rng;
pub mod state;
pub mod text;

verus! {

/// Width of the play area in columns; also the distance ahead of the player
/// at which a replacement obstacle is spawned.
pub const SCREEN_WIDTH: i32 = 80;

/// Height of the play area in rows; falling past this row ends the run.
pub const SCREEN_HEIGHT: i32 = 50;

/// Milliseconds that must accumulate before one physics step runs.
pub const FRAME_DURATION_MS: u32 = 75;

} // verus!

//! The simulation core of a side-scrolling jump-and-run: a runner falls under
//! gravity, jumps over obstacles that a generator scatters ahead of it, and
//! scores one point for every obstacle left behind.
//!
//! The core neither reads keys nor draws. Once per tick it is handed the key
//! that was pressed, if any, and the time since the last tick; it hands back
//! the commands that draw the frame, and says whether the game is to end.
//!
//! - [`clock`] turns frame times of any length into physics steps of a fixed
//!   length.
//! - [`player`] is the runner and its vertical motion.
//! - [`obstacle`] is one obstacle and the generator of obstacles, which draws
//!   from [`random`].
//! - [`field`] is what a tick does to the obstacles on the track.
//! - [`state`] is the session and its four modes.
//! - [`steady`] states what every tick of a run preserves.
//! - [`display`] holds the keys that come in and the commands that go out.
//! - [`config`] holds the dimensions of the track and the tuning.

pub mod clock;
pub mod config;
pub mod display;
pub mod field;
pub mod obstacle;
pub mod player;
pub mod random;
pub mod state;
pub mod steady;

//! What the simulation reads from and writes to the surface that shows it:
//! key events in, drawing commands out.

use vstd::prelude::*;

verus! {

/// The keys that mean something to the game. Every other key is `Other`.
#[derive(Clone, Copy, Debug, PartialEq, Eq)]
pub enum Key {
    P,
    Space,
    Up,
    Escape,
    Q,
    C,
    Other,
}

/// The palette.
#[derive(Clone, Copy, Debug, PartialEq, Eq)]
pub enum Color {
    White,
    LightGray,
    Gray,
    DarkGray,
    Black,
    Orange,
    DarkGreen,
    Red,
    Green,
}

/// The lines of text that the game shows.
#[derive(Clone, Copy, Debug, PartialEq, Eq)]
pub enum Text {
    /// The running score.
    Score(i32),
    /// How many obstacles are on the track.
    Obstacles(usize),
    /// The title line of the menu.
    Welcome,
    /// The hint for the keys that start a run.
    PlayGame,
    /// The hint for the keys that start another run.
    PlayAgain,
    /// The hint for the keys that leave the game.
    QuitGame,
    /// The headline after a collision.
    Dead,
    /// The score of the run that has ended.
    Earned(i32),
}

/// One instruction to the surface.
#[derive(Clone, Copy, Debug, PartialEq, Eq)]
pub enum DrawCommand {
    /// Blank the whole screen.
    Clear,
    /// Blank the whole screen to one background colour.
    Fill { bg: Color },
    /// Put one glyph into one cell.
    Put { x: i32, y: i32, fg: Color, bg: Color, glyph: char },
    /// Write a line of text from a cell rightwards.
    Print { x: i32, y: i32, fg: Color, bg: Color, text: Text },
    /// Write a line of text centred on a row.
    PrintCentered { y: i32, text: Text },
}

/// The colour of the runner and of the readout.
pub const PLAYER_COLOR: Color = Color::Orange;

/// The colour of the ground line.
pub const GROUND_COLOR: Color = Color::DarkGreen;

/// The colour of an obstacle that moves.
pub const HAZARD_COLOR: Color = Color::Red;

/// The colour of an obstacle that stands still.
pub const SAFE_COLOR: Color = Color::Green;

/// The glyph of the runner.
pub const PLAYER_GLYPH: char = '&';

/// The glyph of the ground line.
pub const GROUND_GLYPH: char = '-';

/// The glyph of an obstacle that moves.
pub const TALL_GLYPH: char = '{';

/// The glyph of an obstacle that stands still.
pub const LOW_GLYPH: char = 'f';

/// What one tick hands to the surface: the drawing commands in the order in
/// which they are to be carried out, and whether the game asks to end.
#[derive(Debug, PartialEq, Eq)]
pub struct Frame {
    pub commands: Vec<DrawCommand>,
    pub quitting: bool,
}

/// A frame as a mathematical value.
pub struct FrameView {
    pub commands: Seq<DrawCommand>,
    pub quitting: bool,
}

impl View for Frame {
    type V = FrameView;

    open spec fn view(&self) -> FrameView {
        FrameView { commands: self.commands@, quitting: self.quitting }
    }
}

} // verus!

//! The failures that rendering and playback can report.

use vstd::prelude::*;

verus! {

/// Why a frame could not be shown or playback stopped early.
#[derive(Clone, Copy, Debug, PartialEq, Eq, Structural)]
pub enum RenderError {
    /// The terminal leaves no room for even one glyph once the margins are
    /// taken off.
    TerminalTooSmall,
    /// Writing to the terminal failed.
    Io,
    /// The frame source failed to produce its next frame.
    FrameSource,
}

impl RenderError {
    /// The message shown to the user for this failure.
    pub fn message(&self) -> (text: &'static str)
        ensures
            text@ == match *self {
                RenderError::TerminalTooSmall => "I don't like zero sized terminals"@,
                RenderError::Io => "Writing to the terminal failed"@,
                RenderError::FrameSource => "The frame source failed to produce a frame"@,
            },
    {
        match self {
            RenderError::TerminalTooSmall => "I don't like zero sized terminals",
            RenderError::Io => "Writing to the terminal failed",
            RenderError::FrameSource => "The frame source failed to produce a frame",
        }
    }
}

} // verus!

//! Discrete input events consumed once per display frame.
//!
//! The surrounding application reads the windowing library's input state
//! and reduces it to these plain values; the interaction state machine
//! never sees the event source itself.

use vstd::prelude::*;

verus! {

/// Modifier keys held during a frame's key presses.
#[derive(Clone, Copy, Debug, PartialEq, Eq, Structural)]
pub struct Modifiers {
    pub shift: bool,
    pub ctrl: bool,
    pub alt: bool,
    pub mac_cmd: bool,
    pub command: bool,
}

impl Modifiers {
    /// No modifier held at all.
    pub open spec fn none_held(self) -> bool {
        !self.shift && !self.ctrl && !self.alt && !self.mac_cmd && !self.command
    }
}

/// The key presses and pointer actions of one frame that the
/// interaction state machine interprets.
#[derive(Clone, Copy, Debug, PartialEq, Eq, Structural)]
pub struct FrameInput {
    /// Escape was pressed.
    pub escape: bool,
    /// The `i` key was pressed.
    pub key_i: bool,
    /// The `r` key was pressed.
    pub key_r: bool,
    /// The `j` key was pressed.
    pub key_j: bool,
    /// The `k` key was pressed.
    pub key_k: bool,
    /// The `g` key was pressed.
    pub key_g: bool,
    /// The input field was clicked while it had focus.
    pub input_clicked: bool,
    /// Modifiers held during this frame's presses.
    pub modifiers: Modifiers,
}

impl FrameInput {
    /// A frame with no input at all.
    pub fn quiet() -> (r: FrameInput)
        ensures
            r == FrameInput::spec_quiet(),
    {
        FrameInput {
            escape: false,
            key_i: false,
            key_r: false,
            key_j: false,
            key_k: false,
            key_g: false,
            input_clicked: false,
            modifiers: Modifiers {
                shift: false,
                ctrl: false,
                alt: false,
                mac_cmd: false,
                command: false,
            },
        }
    }

    pub open spec fn spec_quiet() -> FrameInput {
        FrameInput {
            escape: false,
            key_i: false,
            key_r: false,
            key_j: false,
            key_k: false,
            key_g: false,
            input_clicked: false,
            modifiers: Modifiers {
                shift: false,
                ctrl: false,
                alt: false,
                mac_cmd: false,
                command: false,
            },
        }
    }
}

/// An `i` press with no modifier at all beside it: the one keystroke
/// that leaves Normal mode.
pub open spec fn plain_i(inp: FrameInput) -> bool {
    inp.key_i && inp.modifiers.none_held()
}

} // verus!

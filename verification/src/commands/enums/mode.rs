//! How a key is sent: pressed, held or released.

use vstd::prelude::*;

verus! {

/// How a key command acts on the key.
#[derive(Debug, Clone, Copy, PartialEq, Eq, Structural)]
pub enum Mode {
    Press,
    Hold,
    Release,
}

/// The `mode` parameter that a mode is sent as.
pub open spec fn mode_value(m: Mode) -> u8 {
    match m {
        Mode::Press => 0,
        Mode::Hold => 1,
        Mode::Release => 2,
    }
}

impl Mode {
    /// The `mode` parameter that this mode is sent as.
    pub fn value(&self) -> (v: u8)
        ensures
            v == mode_value(*self),
    {
        match self {
            Mode::Press => 0,
            Mode::Hold => 1,
            Mode::Release => 2,
        }
    }
}

} // verus!

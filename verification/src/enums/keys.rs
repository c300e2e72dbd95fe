//! The [`Key`] trait: anything that can be sent to the decoder as a key code.

pub mod key;

use vstd::prelude::*;

verus! {

/// A remote control key that knows its Linux input event code.
pub trait Key {
    /// The code sent in the `key` parameter of a command.
    fn get_code(&self) -> u16;
}

} // verus!

//! What a command asks of the decoder.

use vstd::prelude::*;

verus! {

/// The kind of command sent to the decoder.
#[derive(Debug, Clone, Copy, PartialEq, Eq, Structural)]
pub enum Operation {
    SendKey,
    ReadInfos,
    ChangeChannel,
}

/// The `operation` parameter that an operation is sent as.
pub open spec fn operation_value(o: Operation) -> u8 {
    match o {
        Operation::SendKey => 1,
        Operation::ReadInfos => 10,
        Operation::ChangeChannel => 9,
    }
}

impl Operation {
    /// The `operation` parameter that this operation is sent as.
    pub fn value(&self) -> (v: u8)
        ensures
            v == operation_value(*self),
    {
        match self {
            Operation::SendKey => 1,
            Operation::ReadInfos => 10,
            Operation::ChangeChannel => 9,
        }
    }
}

} // verus!

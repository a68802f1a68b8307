//! The conditions under which a hart stops making progress.
use vstd::prelude::*;

verus! {

/// Why a hart could not complete a step.
#[derive(Clone, Copy, Debug, PartialEq, Eq, Structural)]
pub enum HartError {
    /// The word's opcode is unknown or denotes a family without a format.
    Decode(u32),
    /// The decoded word matches no descriptor.
    Identify(u32),
    /// The word was identified, but its operation is not executed.
    Unimplemented(u32),
    /// An access touched an address outside memory.
    OutOfBounds(u32),
}

} // verus!

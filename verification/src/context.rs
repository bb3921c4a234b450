//! What an instruction handler is given besides its arguments.

use vstd::prelude::*;
use crate::program_id::ProgramId;

verus! {

/// The accounts of the `initialize` instruction: there are none.
#[derive(Clone, Copy, Debug, PartialEq, Eq, Structural)]
pub struct Initialize {}

/// The inputs of an instruction that are not its arguments.
pub struct Context<'info, T> {
    /// The identifier of the program that is running.
    pub program_id: &'info ProgramId,
    /// The accounts of the instruction. A handler may change them, and what it
    /// leaves here is what is kept.
    pub accounts: &'info mut T,
}

} // verus!

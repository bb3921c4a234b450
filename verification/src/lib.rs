//! A minimal on-chain program. It has one instruction, `initialize`, which takes
//! no accounts, changes nothing, and greets with the identifier of the program
//! that runs it. The handler computes the greeting; logging it is the caller's
//! part.

pub mod context;
pub mod instructions;
pub mod program_id;

pub use context::Context;
pub use context::Initialize;
pub use instructions::initialize;
pub use program_id::ProgramId;

//! The `clash_vault` on-chain program: one instruction, `initialize`, which
//! takes no accounts, changes no state and logs a greeting that names the
//! program.

pub mod key;
pub mod program;

pub use key::{id, ProgramKey};
pub use program::{entry, greeting_line, initialize, AccountState, Context, Initialize};

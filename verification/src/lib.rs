//! A minimal SDK for writing LEZ programs: explicit instruction routing,
//! structured errors, instruction outputs and explicit cross-program calls.

pub mod account;
pub mod codec;
pub mod error;
pub mod output;
pub mod router;
pub mod state;
pub mod counter;
pub mod cpi;
pub mod token_gate;
pub mod vault;
pub mod prelude;

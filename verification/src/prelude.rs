//! The items that programs written with the SDK use most.

pub use crate::account::{Account, AccountId, AccountPostState, AccountWithMetadata, ChainedCall, ProgramId};
pub use crate::error::{SdkError, SdkResult};
pub use crate::output::SdkOutput;
pub use crate::router::{InstructionHandler, InstructionRouter};

//! Cross-program invocation: explicit construction of chained calls.
//! Accounts and instruction data are always passed explicitly; nothing is
//! fetched implicitly.

use vstd::prelude::*;
use crate::account::{AccountWithMetadata, ChainedCall, ProgramId};

verus! {

/// Builder for a call to another program.
pub struct CpiCall {
    program_id: ProgramId,
    accounts: Vec<AccountWithMetadata>,
}

impl View for CpiCall {
    type V = (ProgramId, Seq<AccountWithMetadata>);

    /// The target program and the accounts handed to it.
    closed spec fn view(&self) -> (ProgramId, Seq<AccountWithMetadata>) {
        (self.program_id, self.accounts@)
    }
}

impl CpiCall {
    /// Creates a call targeting the given program, with no accounts.
    pub fn new(program_id: ProgramId) -> (call: CpiCall)
        ensures
            call@ == (program_id, Seq::<AccountWithMetadata>::empty()),
    {
        CpiCall { program_id, accounts: Vec::new() }
    }

    /// Sets the accounts to pass to the target program, replacing any set
    /// before.
    pub fn with_accounts(self, accounts: Vec<AccountWithMetadata>) -> (call: CpiCall)
        ensures
            call@ == (self@.0, accounts@),
    {
        CpiCall { program_id: self.program_id, accounts }
    }

    /// Builds the chained call from the serialized instruction words: the
    /// target program and accounts of the builder, and the words as given.
    pub fn build(self, instruction_data: Vec<u32>) -> (call: ChainedCall)
        ensures
            call.program_id == self@.0,
            call.pre_states@ == self@.1,
            call.instruction_data@ == instruction_data@,
    {
        ChainedCall::new(self.program_id, self.accounts, instruction_data)
    }
}

} // verus!

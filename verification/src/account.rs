//! The account records that instruction handlers receive and hand back.

use vstd::prelude::*;

verus! {

/// Identifier of a program: eight 32-bit words.
pub type ProgramId = [u32; 8];

/// Identifier of an account: 32 bytes.
#[derive(Clone, Copy, Debug, Default, PartialEq, Eq)]
pub struct AccountId {
    pub value: [u8; 32],
}

impl AccountId {
    /// Wraps the given 32 bytes as an account identifier.
    pub fn new(value: [u8; 32]) -> (id: AccountId)
        ensures
            id.value == value,
    {
        AccountId { value }
    }
}

/// The state of an account.
#[derive(Clone, Debug, Default)]
pub struct Account {
    pub program_owner: ProgramId,
    pub balance: u128,
    pub data: Vec<u8>,
    pub nonce: u128,
}

/// An account as it is handed to a program, with its identifier and
/// whether the caller authorized its use.
#[derive(Clone, Debug)]
pub struct AccountWithMetadata {
    pub account: Account,
    pub is_authorized: bool,
    pub account_id: AccountId,
}

/// The state of an account after an instruction, together with whether
/// the program claims the account.
#[derive(Clone, Debug)]
pub struct AccountPostState {
    pub account: Account,
    pub claim: bool,
}

impl AccountPostState {
    /// The post-state of `account`, without a claim.
    pub open spec fn unclaimed(account: Account) -> AccountPostState {
        AccountPostState { account, claim: false }
    }

    /// Builds the post-state of `account` without a claim.
    pub fn new(account: Account) -> (post: AccountPostState)
        ensures
            post == AccountPostState::unclaimed(account),
    {
        AccountPostState { account, claim: false }
    }
}

/// A call into another program, chained after the current instruction:
/// the target program, the accounts handed to it and the serialized
/// instruction words.
#[derive(Clone, Debug)]
pub struct ChainedCall {
    pub program_id: ProgramId,
    pub pre_states: Vec<AccountWithMetadata>,
    pub instruction_data: Vec<u32>,
}

impl ChainedCall {
    /// Builds a chained call from its parts, as given.
    pub fn new(
        program_id: ProgramId,
        pre_states: Vec<AccountWithMetadata>,
        instruction_data: Vec<u32>,
    ) -> (call: ChainedCall)
        ensures
            call.program_id == program_id,
            call.pre_states@ == pre_states@,
            call.instruction_data@ == instruction_data@,
    {
        ChainedCall { program_id, pre_states, instruction_data }
    }
}

} // verus!

//! Token gate program: checks that the caller authorized the instruction,
//! then deposits into the vault through a cross-program call.

use vstd::prelude::*;
use vstd::string::*;
use crate::account::{AccountPostState, AccountWithMetadata, ProgramId};
use crate::cpi::CpiCall;
use crate::error::{SdkError, SdkResult};
use crate::output::{unclaimed_post_states, SdkOutput};

verus! {

/// What gating a deposit answers: an unauthorized caller is refused;
/// otherwise the caller is handed back unclaimed, with one call to the vault
/// program that carries the vault account and the deposit instruction.
pub open spec fn gated_deposit_result(
    caller: AccountWithMetadata,
    vault_account: AccountWithMetadata,
    vault_program_id: ProgramId,
    deposit_instruction: Seq<u32>,
    r: SdkResult,
) -> bool {
    if !caller.is_authorized {
        r matches Err(SdkError::Unauthorized(s)) && s@ == "caller is not authorized"@
    } else {
        &&& r is Ok
        &&& r->Ok_0.post_states@ == unclaimed_post_states(seq![caller])
        &&& r->Ok_0.chained_calls@.len() == 1
        &&& r->Ok_0.chained_calls@[0].program_id == vault_program_id
        &&& r->Ok_0.chained_calls@[0].pre_states@ == seq![vault_account]
        &&& r->Ok_0.chained_calls@[0].instruction_data@ == deposit_instruction
    }
}

/// An authorized caller gets back exactly its own account, unclaimed, and
/// one call to the vault program that carries exactly the vault account and
/// the deposit instruction; an unauthorized caller is refused.
pub proof fn lemma_gated_deposit(
    caller: AccountWithMetadata,
    vault_account: AccountWithMetadata,
    vault_program_id: ProgramId,
    deposit_instruction: Seq<u32>,
    r: SdkResult,
)
    requires
        gated_deposit_result(caller, vault_account, vault_program_id, deposit_instruction, r),
    ensures
        caller.is_authorized ==> {
            &&& r is Ok
            &&& r->Ok_0.post_states@ == seq![AccountPostState { account: caller.account, claim: false }]
            &&& r->Ok_0.chained_calls@.len() == 1
            &&& r->Ok_0.chained_calls@[0].program_id == vault_program_id
            &&& r->Ok_0.chained_calls@[0].pre_states@ == seq![vault_account]
            &&& r->Ok_0.chained_calls@[0].instruction_data@ == deposit_instruction
        },
        !caller.is_authorized ==> r matches Err(SdkError::Unauthorized(_)),
{
    if caller.is_authorized {
        assert(unclaimed_post_states(seq![caller]) =~= seq![AccountPostState { account: caller.account, claim: false }]);
    }
}

/// Gates a deposit: checks the caller's authorization, then calls the vault
/// program with the vault account and the serialized deposit instruction.
pub fn gated_deposit(
    caller: AccountWithMetadata,
    vault_account: AccountWithMetadata,
    vault_program_id: ProgramId,
    deposit_instruction: Vec<u32>,
) -> (r: SdkResult)
    ensures
        gated_deposit_result(caller, vault_account, vault_program_id, deposit_instruction@, r),
{
    if !caller.is_authorized {
        return Err(SdkError::Unauthorized(String::from_str("caller is not authorized")));
    }
    let mut vault_accounts: Vec<AccountWithMetadata> = Vec::new();
    vault_accounts.push(vault_account);
    let cpi_call = CpiCall::new(vault_program_id).with_accounts(vault_accounts).build(deposit_instruction);
    let mut calls = Vec::new();
    calls.push(cpi_call);
    let mut callers: Vec<AccountWithMetadata> = Vec::new();
    callers.push(caller);
    proof {
        assert(vault_accounts@ =~= seq![vault_account]);
        assert(callers@ =~= seq![caller]);
    }
    Ok(SdkOutput::new(callers).with_calls(calls))
}

} // verus!

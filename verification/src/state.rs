//! A `u64` kept in an account's data in Borsh, as the counter and vault
//! programs store their state, and the outputs that write it back.

use vstd::prelude::*;
use crate::account::{AccountPostState, AccountWithMetadata, ChainedCall};
use crate::codec::{borsh_u64, borsh_u64_from_slice, borsh_u64_to_vec, lemma_borsh_u64_roundtrip, u64_le_bytes};
use crate::error::{SdkError, SdkResult};
use crate::output::{unclaimed_post_states, SdkOutput};

verus! {

/// The value that account data holds: account data that was never written
/// (no bytes) holds 0; otherwise the data is the Borsh `u64`. Data that does
/// not decode holds no value, and gives the decoder's message.
pub open spec fn stored_value(data: Seq<u8>) -> Result<u64, Seq<char>> {
    if data.len() == 0 {
        Ok(0)
    } else {
        borsh_u64(data)
    }
}

/// Whether `r` reports that the one account an instruction needs is missing.
pub open spec fn is_missing_account(r: SdkResult) -> bool {
    r matches Err(SdkError::AccountCountMismatch { expected, actual }) && expected == 1 && actual == 0
}

/// Whether `r` hands back `account` as its only post-state, unclaimed, with
/// its data replaced by the Borsh bytes of `value` and everything else of
/// the account kept, and chains no call.
pub open spec fn stored_output(account: AccountWithMetadata, value: u64, r: SdkResult) -> bool {
    &&& r is Ok
    &&& r->Ok_0.chained_calls@ == Seq::<ChainedCall>::empty()
    &&& r->Ok_0.post_states@.len() == 1
    &&& {
        let post: AccountPostState = r->Ok_0.post_states@[0];
        &&& !post.claim
        &&& post.account.program_owner == account.account.program_owner
        &&& post.account.balance == account.account.balance
        &&& post.account.nonce == account.account.nonce
        &&& post.account.data@ == u64_le_bytes(value)
    }
}

/// Whether `r` hands back `account` as it came, as its only post-state,
/// unclaimed, and chains no call.
pub open spec fn unchanged_output(account: AccountWithMetadata, r: SdkResult) -> bool {
    r matches Ok(out) && out.post_states@ == unclaimed_post_states(seq![account])
        && out.chained_calls@ == Seq::<ChainedCall>::empty()
}

/// `a + b`, held at `u64::MAX` where the sum passes it.
pub open spec fn saturating_add(a: u64, b: u64) -> u64 {
    if a + b > u64::MAX { u64::MAX } else { (a + b) as u64 }
}

/// `a - b`, held at 0 where `b` exceeds `a`.
pub open spec fn saturating_sub(a: u64, b: u64) -> u64 {
    if a < b { 0 } else { (a - b) as u64 }
}

/// What an update of the value in `account` answers: where the data holds a
/// value `v`, `update(v)` is written back; where it holds none, the account
/// is handed back as it came.
pub open spec fn update_result(account: AccountWithMetadata, update: spec_fn(u64) -> u64, r: SdkResult) -> bool {
    match stored_value(account.account.data@) {
        Ok(v) => stored_output(account, update(v), r),
        Err(_) => unchanged_output(account, r),
    }
}

/// Whether `r` hands back `account` as its only post-state, unclaimed, with
/// everything of the account kept but its data, whose stored value is now
/// `x`, and chains no call.
pub open spec fn holds_value(account: AccountWithMetadata, x: u64, r: SdkResult) -> bool {
    &&& r is Ok
    &&& r->Ok_0.chained_calls@.len() == 0
    &&& r->Ok_0.post_states@.len() == 1
    &&& !r->Ok_0.post_states@[0].claim
    &&& r->Ok_0.post_states@[0].account.program_owner == account.account.program_owner
    &&& r->Ok_0.post_states@[0].account.balance == account.account.balance
    &&& r->Ok_0.post_states@[0].account.nonce == account.account.nonce
    &&& stored_value(r->Ok_0.post_states@[0].account.data@) == Ok::<u64, Seq<char>>(x)
}

/// An output that writes `x` back into the account holds `x` when read.
pub proof fn lemma_stored_output_holds_value(account: AccountWithMetadata, x: u64, r: SdkResult)
    requires
        stored_output(account, x, r),
    ensures
        holds_value(account, x, r),
{
    lemma_stored_value_roundtrip(x);
}

/// What written account data holds is the value written.
pub proof fn lemma_stored_value_roundtrip(v: u64)
    ensures
        stored_value(u64_le_bytes(v)) == Ok::<u64, Seq<char>>(v),
{
    lemma_borsh_u64_roundtrip(v);
}

/// Reads the value that account data holds, if it holds one.
pub fn load_value(data: &[u8]) -> (r: Option<u64>)
    ensures
        match stored_value(data@) {
            Ok(v) => r == Some(v),
            Err(_) => r is None,
        },
{
    if data.len() == 0 {
        return Some(0);
    }
    match borsh_u64_from_slice(data) {
        Ok(v) => Some(v),
        Err(_) => None,
    }
}

/// Writes `value` into the data of `account` and hands the account back as
/// the only, unclaimed post-state.
pub fn store_value(account: AccountWithMetadata, value: u64) -> (r: SdkResult)
    ensures
        stored_output(account, value, r),
{
    let mut updated = account;
    updated.account.data = borsh_u64_to_vec(value);
    let mut accounts: Vec<AccountWithMetadata> = Vec::new();
    accounts.push(updated);
    let out = SdkOutput::new(accounts);
    proof {
        assert(accounts@ =~= seq![updated]);
        assert(out.post_states@[0] == AccountPostState::unclaimed(updated.account));
    }
    Ok(out)
}

/// Hands `account` back as it came, as the only, unclaimed post-state.
pub fn unchanged(account: AccountWithMetadata) -> (r: SdkResult)
    ensures
        unchanged_output(account, r),
{
    let mut accounts: Vec<AccountWithMetadata> = Vec::new();
    accounts.push(account);
    proof {
        assert(accounts@ =~= seq![account]);
    }
    Ok(SdkOutput::new(accounts))
}

/// Takes the first account as the one account an instruction works on;
/// the others are left unused.
pub fn first_account(accounts: Vec<AccountWithMetadata>) -> (r: Result<AccountWithMetadata, SdkError>)
    ensures
        accounts@.len() == 0 ==> (r matches Err(SdkError::AccountCountMismatch { expected, actual })
            && expected == 1 && actual == 0),
        accounts@.len() > 0 ==> (r matches Ok(a) && a == accounts@[0]),
{
    if accounts.len() == 0 {
        Err(SdkError::AccountCountMismatch { expected: 1, actual: 0 })
    } else {
        let mut accounts = accounts;
        Ok(accounts.remove(0))
    }
}

} // verus!

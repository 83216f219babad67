//! Instruction output types.

use vstd::prelude::*;
use crate::account::{AccountPostState, AccountWithMetadata, ChainedCall};

verus! {

/// Output from a LEZ program instruction handler: the post-states of the
/// accounts touched by the instruction, and the chained cross-program calls.
#[derive(Debug)]
pub struct SdkOutput {
    pub post_states: Vec<AccountPostState>,
    pub chained_calls: Vec<ChainedCall>,
}

/// The post-states of `accounts`: each account's state, without a claim,
/// in the order of the accounts.
pub open spec fn unclaimed_post_states(accounts: Seq<AccountWithMetadata>) -> Seq<AccountPostState> {
    accounts.map_values(|a: AccountWithMetadata| AccountPostState::unclaimed(a.account))
}

/// The post-states of a list of accounts are, one for one and in order,
/// the accounts' own states, each without a claim.
pub proof fn lemma_unclaimed_post_states(accounts: Seq<AccountWithMetadata>)
    ensures
        unclaimed_post_states(accounts).len() == accounts.len(),
        forall|i: int| 0 <= i < accounts.len() ==> #[trigger] unclaimed_post_states(accounts)[i]
            == (AccountPostState { account: accounts[i].account, claim: false }),
{
}

impl SdkOutput {
    /// Creates output from a list of accounts: each account becomes a
    /// post-state without a claim, and there are no chained calls.
    pub fn new(accounts: Vec<AccountWithMetadata>) -> (out: SdkOutput)
        ensures
            out.post_states@ == unclaimed_post_states(accounts@),
            out.chained_calls@ == Seq::<ChainedCall>::empty(),
    {
        let ghost input = accounts@;
        let mut post_states: Vec<AccountPostState> = Vec::new();
        for a in iter: accounts
            invariant
                iter.seq() == input,
                post_states@ == unclaimed_post_states(input.take(iter.index() as int)),
        {
            proof {
                assert(input.take(iter.index() + 1) =~= input.take(iter.index() as int).push(a));
            }
            post_states.push(AccountPostState::new(a.account));
        }
        proof {
            assert(input.take(input.len() as int) =~= input);
        }
        SdkOutput { post_states, chained_calls: Vec::new() }
    }

    /// Replaces the chained calls of the output with `calls`.
    pub fn with_calls(self, calls: Vec<ChainedCall>) -> (out: SdkOutput)
        ensures
            out.post_states@ == self.post_states@,
            out.chained_calls@ == calls@,
    {
        let mut out = self;
        out.chained_calls = calls;
        out
    }

    /// Creates empty output: no account post-states and no chained calls.
    pub fn empty() -> (out: SdkOutput)
        ensures
            out.post_states@ == Seq::<AccountPostState>::empty(),
            out.chained_calls@ == Seq::<ChainedCall>::empty(),
    {
        SdkOutput { post_states: Vec::new(), chained_calls: Vec::new() }
    }
}

} // verus!

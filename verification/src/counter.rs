//! Counter program: the minimal LEZ program, with explicit account
//! handling, Borsh argument decoding and an explicit instruction router.

use vstd::prelude::*;
use crate::account::{AccountPostState, AccountWithMetadata};
use crate::output::unclaimed_post_states;
use crate::codec::{borsh_u64, borsh_u64_from_slice, borsh_u64_to_vec, u64_le_bytes};
use crate::error::{SdkError, SdkResult};
use crate::state::{
    first_account, holds_value, is_missing_account, lemma_stored_output_holds_value, lemma_stored_value_roundtrip,
    load_value, saturating_add, store_value, stored_output, stored_value, unchanged, update_result,
};
use crate::router::{route, InstructionHandler, InstructionRouter};

verus! {

/// Counter state stored in an account.
#[derive(Debug)]
pub struct CounterState {
    pub value: u64,
}

impl Default for CounterState {
    fn default() -> (s: Self)
        ensures
            s.value == 0,
    {
        CounterState { value: 0 }
    }
}

impl CounterState {
    /// Decodes a counter state from the whole of `data` in Borsh; an error
    /// is rendered as its message.
    pub fn try_from_slice(data: &[u8]) -> (r: Result<CounterState, String>)
        ensures
            match r {
                Ok(s) => borsh_u64(data@) == Ok::<u64, Seq<char>>(s.value),
                Err(m) => borsh_u64(data@) == Err::<u64, Seq<char>>(m@),
            },
    {
        match borsh_u64_from_slice(data) {
            Ok(value) => Ok(CounterState { value }),
            Err(m) => Err(m),
        }
    }

    /// Encodes the counter state in Borsh.
    pub fn to_vec(&self) -> (bytes: Vec<u8>)
        ensures
            bytes@ == u64_le_bytes(self.value),
    {
        borsh_u64_to_vec(self.value)
    }
}

/// Instruction arguments for increment.
#[derive(Debug)]
pub struct IncrementArgs {
    pub amount: u64,
}

impl IncrementArgs {
    /// Decodes increment arguments from the whole of `data` in Borsh; an
    /// error is rendered as its message.
    pub fn try_from_slice(data: &[u8]) -> (r: Result<IncrementArgs, String>)
        ensures
            match r {
                Ok(a) => borsh_u64(data@) == Ok::<u64, Seq<char>>(a.amount),
                Err(m) => borsh_u64(data@) == Err::<u64, Seq<char>>(m@),
            },
    {
        match borsh_u64_from_slice(data) {
            Ok(amount) => Ok(IncrementArgs { amount }),
            Err(m) => Err(m),
        }
    }

    /// Encodes the arguments in Borsh.
    pub fn to_vec(&self) -> (bytes: Vec<u8>)
        ensures
            bytes@ == u64_le_bytes(self.amount),
    {
        borsh_u64_to_vec(self.amount)
    }
}

/// What incrementing `counter` by `amount` answers: the counter's stored
/// value plus `amount`, held at `u64::MAX`, written back into its data;
/// where the data holds no counter value, the account comes back as it was.
/// Increment never fails.
pub open spec fn increment_result(counter: AccountWithMetadata, amount: u64, r: SdkResult) -> bool {
    update_result(counter, |v: u64| saturating_add(v, amount), r)
}

/// Increments the counter by the given amount.
pub fn increment(counter: AccountWithMetadata, amount: u64) -> (r: SdkResult)
    ensures
        increment_result(counter, amount, r),
{
    match load_value(counter.account.data.as_slice()) {
        Some(value) => store_value(counter, value.saturating_add(amount)),
        None => unchanged(counter),
    }
}

/// Incrementing a counter that holds `v` by `amount`, where the sum fits,
/// leaves the counter holding exactly `v + amount`, in the same account.
pub proof fn lemma_increment_adds(counter: AccountWithMetadata, amount: u64, v: u64, r: SdkResult)
    requires
        increment_result(counter, amount, r),
        stored_value(counter.account.data@) == Ok::<u64, Seq<char>>(v),
        v + amount <= u64::MAX,
    ensures
        holds_value(counter, (v + amount) as u64, r),
{
    lemma_stored_output_holds_value(counter, (v + amount) as u64, r);
}

/// Incrementing a counter that holds `v` by `amount`, where the sum passes
/// `u64::MAX`, leaves the counter holding `u64::MAX`.
pub proof fn lemma_increment_saturates(counter: AccountWithMetadata, amount: u64, v: u64, r: SdkResult)
    requires
        increment_result(counter, amount, r),
        stored_value(counter.account.data@) == Ok::<u64, Seq<char>>(v),
        v + amount > u64::MAX,
    ensures
        holds_value(counter, u64::MAX, r),
{
    lemma_stored_output_holds_value(counter, u64::MAX, r);
}

/// Incrementing an account whose data holds no counter value hands the
/// account back exactly as it came, unclaimed, and chains no call.
pub proof fn lemma_increment_keeps_account_without_value(counter: AccountWithMetadata, amount: u64, r: SdkResult)
    requires
        increment_result(counter, amount, r),
        stored_value(counter.account.data@) is Err,
    ensures
        r is Ok,
        r->Ok_0.post_states@ == seq![AccountPostState { account: counter.account, claim: false }],
        r->Ok_0.chained_calls@.len() == 0,
{
    assert(unclaimed_post_states(seq![counter]) =~= seq![AccountPostState { account: counter.account, claim: false }]);
}

/// Resetting a counter and then incrementing it by `amount` leaves it
/// holding exactly `amount`.
pub proof fn lemma_reset_then_increment(
    counter: AccountWithMetadata,
    after_reset: AccountWithMetadata,
    amount: u64,
    r1: SdkResult,
    r2: SdkResult,
)
    requires
        stored_output(counter, 0, r1),
        after_reset.account == r1->Ok_0.post_states@[0].account,
        increment_result(after_reset, amount, r2),
    ensures
        holds_value(after_reset, amount, r2),
        stored_value(r2->Ok_0.post_states@[0].account.data@) == Ok::<u64, Seq<char>>(amount),
{
    lemma_stored_value_roundtrip(0);
    lemma_increment_adds(after_reset, amount, 0, r2);
}

/// Resets the counter to zero.
pub fn reset(counter: AccountWithMetadata) -> (r: SdkResult)
    ensures
        stored_output(counter, 0, r),
{
    store_value(counter, 0)
}

/// The counter's instructions, as the router dispatches them.
#[derive(Clone, Copy, Debug, PartialEq, Eq)]
pub enum CounterInstruction {
    /// Decodes `IncrementArgs` from the instruction bytes and increments
    /// the counter account.
    Increment,
    /// Resets the counter account.
    Reset,
}

impl InstructionHandler for CounterInstruction {
    open spec fn handles(&self, accounts: Seq<AccountWithMetadata>, data: Seq<u8>, result: SdkResult) -> bool {
        match self {
            CounterInstruction::Increment => match borsh_u64(data) {
                Err(m) => result matches Err(SdkError::DecodeError(s)) && s@ == m,
                Ok(amount) => if accounts.len() == 0 {
                    is_missing_account(result)
                } else {
                    increment_result(accounts[0], amount, result)
                },
            },
            CounterInstruction::Reset => if accounts.len() == 0 {
                is_missing_account(result)
            } else {
                stored_output(accounts[0], 0, result)
            },
        }
    }

    fn handle(&self, accounts: Vec<AccountWithMetadata>, data: &[u8]) -> (result: SdkResult) {
        match self {
            CounterInstruction::Increment => {
                let args = match IncrementArgs::try_from_slice(data) {
                    Ok(args) => args,
                    Err(m) => return Err(SdkError::DecodeError(m)),
                };
                let counter = match first_account(accounts) {
                    Ok(a) => a,
                    Err(e) => return Err(e),
                };
                increment(counter, args.amount)
            },
            CounterInstruction::Reset => {
                let counter = match first_account(accounts) {
                    Ok(a) => a,
                    Err(e) => return Err(e),
                };
                reset(counter)
            },
        }
    }
}

/// The routing table of the counter: discriminant 0 increments,
/// discriminant 1 resets.
pub open spec fn counter_table() -> Seq<(u32, CounterInstruction)> {
    seq![(0u32, CounterInstruction::Increment), (1u32, CounterInstruction::Reset)]
}

/// The counter routes discriminant 0 to `Increment`, 1 to `Reset`, and no
/// other discriminant.
pub proof fn lemma_counter_routes(d: u32)
    ensures
        route(counter_table(), d) == if d == 0 {
            Some(CounterInstruction::Increment)
        } else if d == 1 {
            Some(CounterInstruction::Reset)
        } else {
            None::<CounterInstruction>
        },
{
    reveal_with_fuel(route, 3);
}

/// Dispatching discriminant 0 through the counter's table, with the Borsh
/// bytes of `amount` and a first account whose counter holds `v`, increments
/// that first account by `amount` (where the sum fits), whatever accounts
/// follow it.
pub proof fn lemma_counter_dispatch_increment(
    accounts: Seq<AccountWithMetadata>,
    data: Seq<u8>,
    amount: u64,
    v: u64,
    r: SdkResult,
)
    requires
        match route(counter_table(), 0u32) {
            Some(h) => h.handles(accounts, data, r),
            None => false,
        },
        borsh_u64(data) == Ok::<u64, Seq<char>>(amount),
        accounts.len() > 0,
        stored_value(accounts[0].account.data@) == Ok::<u64, Seq<char>>(v),
        v + amount <= u64::MAX,
    ensures
        holds_value(accounts[0], (v + amount) as u64, r),
{
    lemma_counter_routes(0);
    lemma_increment_adds(accounts[0], amount, v, r);
}

/// Through the counter's table, an increment whose bytes are not a Borsh
/// `u64` is refused with the decoder's message, before any account is
/// looked at; an increment or reset without accounts is refused as missing
/// its one account.
pub proof fn lemma_counter_dispatch_refusals(d: u32, accounts: Seq<AccountWithMetadata>, data: Seq<u8>, r: SdkResult)
    requires
        match route(counter_table(), d) {
            Some(h) => h.handles(accounts, data, r),
            None => false,
        },
    ensures
        d == 0 && borsh_u64(data) is Err ==> (r matches Err(SdkError::DecodeError(m)) && m@ == borsh_u64(data)->Err_0),
        (d == 1 || (d == 0 && borsh_u64(data) is Ok)) && accounts.len() == 0 ==> (r matches Err(
            SdkError::AccountCountMismatch { expected, actual },
        ) && expected == 1 && actual == 0),
{
    lemma_counter_routes(d);
}

/// Dispatching discriminant 1 through the counter's table with at least one
/// account leaves the first account holding 0, whatever accounts follow it.
pub proof fn lemma_counter_dispatch_reset(accounts: Seq<AccountWithMetadata>, data: Seq<u8>, r: SdkResult)
    requires
        match route(counter_table(), 1u32) {
            Some(h) => h.handles(accounts, data, r),
            None => false,
        },
        accounts.len() > 0,
    ensures
        holds_value(accounts[0], 0, r),
{
    lemma_counter_routes(1);
    lemma_stored_output_holds_value(accounts[0], 0, r);
}

/// Builds the instruction router of the counter.
pub fn router() -> (r: InstructionRouter<CounterInstruction>)
    ensures
        r@ == counter_table(),
{
    let r = InstructionRouter::new().register(0, CounterInstruction::Increment).register(1, CounterInstruction::Reset);
    proof {
        assert(r@ =~= seq![(0u32, CounterInstruction::Increment), (1u32, CounterInstruction::Reset)]);
    }
    r
}

} // verus!

//! Vault program: keeps a `u64` balance in an account and exposes deposit
//! and withdrawal instructions, the target of cross-program calls.

use vstd::prelude::*;
use crate::account::{AccountPostState, AccountWithMetadata};
use crate::output::unclaimed_post_states;
use crate::codec::{borsh_u64, borsh_u64_from_slice, borsh_u64_to_vec, u64_le_bytes};
use crate::error::{SdkError, SdkResult};
use crate::router::{route, InstructionHandler, InstructionRouter};
use crate::state::{
    first_account, holds_value, is_missing_account, lemma_stored_output_holds_value, load_value, saturating_add,
    saturating_sub, store_value, stored_value, unchanged, update_result,
};

verus! {

/// Vault state stored in an account.
#[derive(Debug)]
pub struct VaultState {
    pub balance: u64,
}

impl Default for VaultState {
    fn default() -> (s: Self)
        ensures
            s.balance == 0,
    {
        VaultState { balance: 0 }
    }
}

impl VaultState {
    /// Decodes a vault state from the whole of `data` in Borsh; an error is
    /// rendered as its message.
    pub fn try_from_slice(data: &[u8]) -> (r: Result<VaultState, String>)
        ensures
            match r {
                Ok(s) => borsh_u64(data@) == Ok::<u64, Seq<char>>(s.balance),
                Err(m) => borsh_u64(data@) == Err::<u64, Seq<char>>(m@),
            },
    {
        match borsh_u64_from_slice(data) {
            Ok(balance) => Ok(VaultState { balance }),
            Err(m) => Err(m),
        }
    }

    /// Encodes the vault state in Borsh.
    pub fn to_vec(&self) -> (bytes: Vec<u8>)
        ensures
            bytes@ == u64_le_bytes(self.balance),
    {
        borsh_u64_to_vec(self.balance)
    }
}

/// What depositing `amount` into `vault_account` answers: the stored
/// balance plus `amount`, held at `u64::MAX`, written back; where the data
/// holds no balance, the account comes back as it was.
pub open spec fn deposit_result(vault_account: AccountWithMetadata, amount: u64, r: SdkResult) -> bool {
    update_result(vault_account, |v: u64| saturating_add(v, amount), r)
}

/// What withdrawing `amount` from `vault_account` answers: the stored
/// balance less `amount`, held at 0, written back; where the data holds no
/// balance, the account comes back as it was.
pub open spec fn withdraw_result(vault_account: AccountWithMetadata, amount: u64, r: SdkResult) -> bool {
    update_result(vault_account, |v: u64| saturating_sub(v, amount), r)
}

/// Deposits funds into the vault.
pub fn deposit(vault_account: AccountWithMetadata, amount: u64) -> (r: SdkResult)
    ensures
        deposit_result(vault_account, amount, r),
{
    match load_value(vault_account.account.data.as_slice()) {
        Some(balance) => store_value(vault_account, balance.saturating_add(amount)),
        None => unchanged(vault_account),
    }
}

/// Withdraws funds from the vault.
pub fn withdraw(vault_account: AccountWithMetadata, amount: u64) -> (r: SdkResult)
    ensures
        withdraw_result(vault_account, amount, r),
{
    match load_value(vault_account.account.data.as_slice()) {
        Some(balance) => store_value(vault_account, balance.saturating_sub(amount)),
        None => unchanged(vault_account),
    }
}

/// Depositing `amount` into a vault that holds balance `b`, where the sum
/// fits, leaves the vault holding exactly `b + amount`, in the same account.
pub proof fn lemma_deposit_adds(vault_account: AccountWithMetadata, amount: u64, b: u64, r: SdkResult)
    requires
        deposit_result(vault_account, amount, r),
        stored_value(vault_account.account.data@) == Ok::<u64, Seq<char>>(b),
        b + amount <= u64::MAX,
    ensures
        holds_value(vault_account, (b + amount) as u64, r),
{
    lemma_stored_output_holds_value(vault_account, (b + amount) as u64, r);
}

/// Withdrawing `amount` from a vault that holds balance `b`, where `amount`
/// is at most `b`, leaves the vault holding exactly `b - amount`, in the
/// same account.
pub proof fn lemma_withdraw_subtracts(vault_account: AccountWithMetadata, amount: u64, b: u64, r: SdkResult)
    requires
        withdraw_result(vault_account, amount, r),
        stored_value(vault_account.account.data@) == Ok::<u64, Seq<char>>(b),
        amount <= b,
    ensures
        holds_value(vault_account, (b - amount) as u64, r),
{
    lemma_stored_output_holds_value(vault_account, (b - amount) as u64, r);
}

/// A deposit whose sum passes `u64::MAX` leaves the vault holding
/// `u64::MAX`; a withdrawal of more than the balance leaves it holding 0.
pub proof fn lemma_vault_saturates(vault_account: AccountWithMetadata, amount: u64, b: u64, r1: SdkResult, r2: SdkResult)
    requires
        stored_value(vault_account.account.data@) == Ok::<u64, Seq<char>>(b),
        deposit_result(vault_account, amount, r1),
        withdraw_result(vault_account, amount, r2),
    ensures
        b + amount > u64::MAX ==> holds_value(vault_account, u64::MAX, r1),
        amount > b ==> holds_value(vault_account, 0, r2),
{
    if b + amount > u64::MAX {
        lemma_stored_output_holds_value(vault_account, u64::MAX, r1);
    }
    if amount > b {
        lemma_stored_output_holds_value(vault_account, 0, r2);
    }
}

/// A deposit or a withdrawal on an account whose data holds no balance hands
/// the account back exactly as it came, unclaimed, and chains no call.
pub proof fn lemma_vault_keeps_account_without_value(
    vault_account: AccountWithMetadata,
    amount: u64,
    r1: SdkResult,
    r2: SdkResult,
)
    requires
        stored_value(vault_account.account.data@) is Err,
        deposit_result(vault_account, amount, r1),
        withdraw_result(vault_account, amount, r2),
    ensures
        r1 is Ok,
        r1->Ok_0.post_states@ == seq![AccountPostState { account: vault_account.account, claim: false }],
        r1->Ok_0.chained_calls@.len() == 0,
        r2 is Ok,
        r2->Ok_0.post_states@ == seq![AccountPostState { account: vault_account.account, claim: false }],
        r2->Ok_0.chained_calls@.len() == 0,
{
    assert(unclaimed_post_states(seq![vault_account]) =~= seq![AccountPostState { account: vault_account.account, claim: false }]);
}

/// A deposit followed by a withdrawal of the same amount leaves the vault
/// holding the balance it started with.
pub proof fn lemma_deposit_then_withdraw(
    vault_account: AccountWithMetadata,
    after_deposit: AccountWithMetadata,
    amount: u64,
    b: u64,
    r1: SdkResult,
    r2: SdkResult,
)
    requires
        deposit_result(vault_account, amount, r1),
        stored_value(vault_account.account.data@) == Ok::<u64, Seq<char>>(b),
        b + amount <= u64::MAX,
        after_deposit.account == r1->Ok_0.post_states@[0].account,
        withdraw_result(after_deposit, amount, r2),
    ensures
        holds_value(after_deposit, b, r2),
        r2->Ok_0.post_states@[0].account.balance == vault_account.account.balance,
{
    lemma_deposit_adds(vault_account, amount, b, r1);
    lemma_withdraw_subtracts(after_deposit, amount, (b + amount) as u64, r2);
}

/// The vault's instructions, as its router dispatches them. Both read the
/// amount as a Borsh `u64` from the instruction bytes.
#[derive(Clone, Copy, Debug, PartialEq, Eq)]
pub enum VaultHandler {
    /// Deposits the amount into the vault account.
    Deposit,
    /// Withdraws the amount from the vault account.
    Withdraw,
}

impl InstructionHandler for VaultHandler {
    open spec fn handles(&self, accounts: Seq<AccountWithMetadata>, data: Seq<u8>, result: SdkResult) -> bool {
        match borsh_u64(data) {
            Err(m) => result matches Err(SdkError::DecodeError(s)) && s@ == m,
            Ok(amount) => if accounts.len() == 0 {
                is_missing_account(result)
            } else {
                match self {
                    VaultHandler::Deposit => deposit_result(accounts[0], amount, result),
                    VaultHandler::Withdraw => withdraw_result(accounts[0], amount, result),
                }
            },
        }
    }

    fn handle(&self, accounts: Vec<AccountWithMetadata>, data: &[u8]) -> (result: SdkResult) {
        let amount = match borsh_u64_from_slice(data) {
            Ok(amount) => amount,
            Err(m) => return Err(SdkError::DecodeError(m)),
        };
        let vault_account = match first_account(accounts) {
            Ok(a) => a,
            Err(e) => return Err(e),
        };
        match self {
            VaultHandler::Deposit => deposit(vault_account, amount),
            VaultHandler::Withdraw => withdraw(vault_account, amount),
        }
    }
}

/// The routing table of the vault: discriminant 0 deposits, discriminant 1
/// withdraws.
pub open spec fn vault_table() -> Seq<(u32, VaultHandler)> {
    seq![(0u32, VaultHandler::Deposit), (1u32, VaultHandler::Withdraw)]
}

/// The vault routes discriminant 0 to `Deposit`, 1 to `Withdraw`, and no
/// other discriminant.
pub proof fn lemma_vault_routes(d: u32)
    ensures
        route(vault_table(), d) == if d == 0 {
            Some(VaultHandler::Deposit)
        } else if d == 1 {
            Some(VaultHandler::Withdraw)
        } else {
            None::<VaultHandler>
        },
{
    reveal_with_fuel(route, 3);
}

/// Dispatching through the vault's table, with the Borsh bytes of `amount`
/// and a first account that holds balance `b`: discriminant 0 leaves that
/// first account holding `b + amount` (where it fits), discriminant 1 leaves
/// it holding `b - amount` (where `amount` is at most `b`), whatever
/// accounts follow it.
pub proof fn lemma_vault_dispatch(
    d: u32,
    accounts: Seq<AccountWithMetadata>,
    data: Seq<u8>,
    amount: u64,
    b: u64,
    r: SdkResult,
)
    requires
        match route(vault_table(), d) {
            Some(h) => h.handles(accounts, data, r),
            None => false,
        },
        borsh_u64(data) == Ok::<u64, Seq<char>>(amount),
        accounts.len() > 0,
        stored_value(accounts[0].account.data@) == Ok::<u64, Seq<char>>(b),
    ensures
        d == 0 && b + amount <= u64::MAX ==> holds_value(accounts[0], (b + amount) as u64, r),
        d == 1 && amount <= b ==> holds_value(accounts[0], (b - amount) as u64, r),
{
    lemma_vault_routes(d);
    if d == 0 && b + amount <= u64::MAX {
        lemma_deposit_adds(accounts[0], amount, b, r);
    }
    if d == 1 && amount <= b {
        lemma_withdraw_subtracts(accounts[0], amount, b, r);
    }
}

/// Through the vault's table, an instruction whose bytes are not a Borsh
/// `u64` is refused with the decoder's message, before any account is
/// looked at; one without accounts is refused as missing its one account.
pub proof fn lemma_vault_dispatch_refusals(d: u32, accounts: Seq<AccountWithMetadata>, data: Seq<u8>, r: SdkResult)
    requires
        match route(vault_table(), d) {
            Some(h) => h.handles(accounts, data, r),
            None => false,
        },
    ensures
        borsh_u64(data) is Err ==> (r matches Err(SdkError::DecodeError(m)) && m@ == borsh_u64(data)->Err_0),
        borsh_u64(data) is Ok && accounts.len() == 0 ==> (r matches Err(
            SdkError::AccountCountMismatch { expected, actual },
        ) && expected == 1 && actual == 0),
{
    lemma_vault_routes(d);
}

/// Builds the instruction router of the vault.
pub fn vault_router() -> (r: InstructionRouter<VaultHandler>)
    ensures
        r@ == vault_table(),
{
    let r = InstructionRouter::new().register(0, VaultHandler::Deposit).register(1, VaultHandler::Withdraw);
    proof {
        assert(r@ =~= vault_table());
    }
    r
}

} // verus!

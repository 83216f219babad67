use lez_sdk::account::{Account, AccountId, AccountWithMetadata, ProgramId};
use lez_sdk::error::SdkError;
use lez_sdk::token_gate;
use lez_sdk::vault::{self, vault_router, VaultState};

fn make_account(id: u8, authorized: bool) -> AccountWithMetadata {
    AccountWithMetadata {
        account_id: AccountId::new([id; 32]),
        account: Account::default(),
        is_authorized: authorized,
    }
}

fn vault_program_id() -> ProgramId {
    [1u32; 8]
}

/// The serialized words of the vault's deposit instruction, as the caller
/// of `gated_deposit` hands them over.
fn deposit_words(amount: u64) -> Vec<u32> {
    vec![0, amount as u32, (amount >> 32) as u32]
}

#[test]
fn vault_deposit_works() {
    let vault = make_account(1, false);
    let result = vault::deposit(vault, 100);
    assert!(result.is_ok());
    let out = result.unwrap();
    assert_eq!(VaultState::try_from_slice(&out.post_states[0].account.data).unwrap().balance, 100);
}

#[test]
fn vault_withdraw_works() {
    let vault = make_account(1, false);
    let result = vault::withdraw(vault, 50);
    assert!(result.is_ok());
    let out = result.unwrap();
    assert_eq!(VaultState::try_from_slice(&out.post_states[0].account.data).unwrap().balance, 0);
}

#[test]
fn vault_withdraw_takes_from_the_balance() {
    let mut vault = make_account(1, false);
    vault.account.data = VaultState { balance: 80 }.to_vec();
    let out = vault::withdraw(vault, 50).unwrap();
    assert_eq!(VaultState::try_from_slice(&out.post_states[0].account.data).unwrap().balance, 30);
}

#[test]
fn vault_deposit_holds_the_balance_at_its_maximum() {
    let mut vault = make_account(1, false);
    vault.account.data = VaultState { balance: u64::MAX }.to_vec();
    let out = vault::deposit(vault, 1).unwrap();
    assert_eq!(VaultState::try_from_slice(&out.post_states[0].account.data).unwrap().balance, u64::MAX);
}

#[test]
fn vault_hands_back_an_account_without_a_balance() {
    let mut vault = make_account(1, false);
    vault.account.data = vec![9; 12];
    let out = vault::deposit(vault, 5).unwrap();
    assert_eq!(out.post_states[0].account.data, vec![9; 12]);
}

#[test]
fn gated_deposit_authorized_caller_succeeds() {
    let caller = make_account(1, true);
    let vault = make_account(2, false);
    let result = token_gate::gated_deposit(caller, vault, vault_program_id(), deposit_words(100));
    assert!(result.is_ok());
    let output = result.unwrap();
    assert_eq!(output.chained_calls.len(), 1);
}

#[test]
fn gated_deposit_unauthorized_caller_rejected() {
    let caller = make_account(1, false);
    let vault = make_account(2, false);
    let result = token_gate::gated_deposit(caller, vault, vault_program_id(), deposit_words(100));
    assert!(matches!(result, Err(SdkError::Unauthorized(_))));
    if let Err(e) = token_gate::gated_deposit(make_account(1, false), make_account(2, false), vault_program_id(), vec![]) {
        assert_eq!(e.to_string(), "unauthorized: caller is not authorized");
        assert_eq!(e.code(), 1003);
    }
}

#[test]
fn gated_deposit_produces_cpi_call() {
    let caller = make_account(1, true);
    let vault = make_account(2, false);
    let result = token_gate::gated_deposit(caller, vault, vault_program_id(), deposit_words(250));
    let output = result.unwrap();
    assert_eq!(
        output.chained_calls.len(),
        1,
        "should produce exactly one CPI call to vault"
    );
    let call = &output.chained_calls[0];
    assert_eq!(call.program_id, vault_program_id());
    assert_eq!(call.pre_states.len(), 1);
    assert_eq!(call.pre_states[0].account_id, AccountId::new([2; 32]));
    assert_eq!(call.instruction_data, deposit_words(250));
    assert_eq!(output.post_states.len(), 1);
    assert!(!output.post_states[0].claim);
}

#[test]
fn vault_router_dispatches_deposit() {
    let r = vault_router();
    let args = borsh::to_vec(&(100u64,)).unwrap();
    let result = r.dispatch(0, vec![make_account(1, false)], &args);
    assert!(result.is_ok());
}

#[test]
fn vault_router_dispatches_withdraw() {
    let r = vault_router();
    let mut vault = make_account(1, false);
    vault.account.data = VaultState { balance: 7 }.to_vec();
    let args = borsh::to_vec(&7u64).unwrap();
    let out = r.dispatch(1, vec![vault], &args).unwrap();
    assert_eq!(out.post_states[0].account.data, vec![0u8; 8]);
}

#[test]
fn vault_router_rejects_unknown() {
    let r = vault_router();
    let result = r.dispatch(99, vec![make_account(1, false)], &[]);
    assert!(matches!(result, Err(SdkError::UnknownInstruction(99))));
}

#[test]
fn vault_router_rejects_malformed_args_and_missing_accounts() {
    let r = vault_router();
    assert!(matches!(r.dispatch(0, vec![make_account(1, false)], &[1]), Err(SdkError::DecodeError(_))));
    let args = borsh::to_vec(&1u64).unwrap();
    assert!(matches!(
        r.dispatch(0, vec![], &args),
        Err(SdkError::AccountCountMismatch { expected: 1, actual: 0 })
    ));
}

use lez_sdk::account::{Account, AccountId, AccountPostState, AccountWithMetadata, ChainedCall, ProgramId};
use lez_sdk::cpi::CpiCall;
use lez_sdk::error::SdkError;
use lez_sdk::output::SdkOutput;

fn make_account(id: u8, authorized: bool) -> AccountWithMetadata {
    AccountWithMetadata {
        account_id: AccountId::new([id; 32]),
        account: Account::default(),
        is_authorized: authorized,
    }
}

fn vault_program_id() -> ProgramId {
    [1u32; 8]
}

#[test]
fn error_codes_per_variant() {
    assert_eq!(SdkError::AccountCountMismatch { expected: 1, actual: 0 }.code(), 1000);
    assert_eq!(SdkError::DecodeError("x".to_string()).code(), 1001);
    assert_eq!(SdkError::UnknownInstruction(4).code(), 1002);
    assert_eq!(SdkError::Unauthorized("x".to_string()).code(), 1003);
    assert_eq!(SdkError::Custom { code: 0, message: String::new() }.code(), 6000);
    assert_eq!(SdkError::Custom { code: 42, message: String::new() }.code(), 6042);
    assert_eq!(SdkError::Custom { code: u32::MAX - 6000, message: String::new() }.code(), u32::MAX);
}

#[test]
fn error_messages() {
    assert_eq!(
        SdkError::AccountCountMismatch { expected: 2, actual: 0 }.to_string(),
        "expected 2 accounts, got 0"
    );
    assert_eq!(
        SdkError::AccountCountMismatch { expected: 1234567, actual: 10 }.to_string(),
        "expected 1234567 accounts, got 10"
    );
    assert_eq!(
        SdkError::DecodeError("bad".to_string()).to_string(),
        "failed to decode instruction arguments: bad"
    );
    assert_eq!(SdkError::UnknownInstruction(99).to_string(), "unknown instruction discriminant: 99");
    assert_eq!(
        SdkError::UnknownInstruction(u32::MAX).to_string(),
        "unknown instruction discriminant: 4294967295"
    );
    assert_eq!(
        SdkError::Unauthorized("caller is not authorized".to_string()).to_string(),
        "unauthorized: caller is not authorized"
    );
    assert_eq!(
        SdkError::Custom { code: 7, message: "vault is locked".to_string() }.to_string(),
        "program error 7: vault is locked"
    );
}

#[test]
fn output_new_converts_accounts_in_order() {
    let mut a = make_account(1, true);
    a.account.balance = 10;
    let mut b = make_account(2, false);
    b.account.nonce = 3;
    let out = SdkOutput::new(vec![a, b]);
    assert_eq!(out.post_states.len(), 2);
    assert_eq!(out.post_states[0].account.balance, 10);
    assert_eq!(out.post_states[1].account.nonce, 3);
    assert!(out.post_states.iter().all(|p| !p.claim));
    assert!(out.chained_calls.is_empty());
}

#[test]
fn output_empty_and_with_calls() {
    let out = SdkOutput::empty();
    assert!(out.post_states.is_empty());
    assert!(out.chained_calls.is_empty());
    let call = ChainedCall::new(vault_program_id(), vec![], vec![1, 2]);
    let out = SdkOutput::new(vec![make_account(1, true)]).with_calls(vec![call]);
    assert_eq!(out.post_states.len(), 1);
    assert_eq!(out.chained_calls.len(), 1);
    assert_eq!(out.chained_calls[0].instruction_data, vec![1, 2]);
}

#[test]
fn post_state_new_has_no_claim() {
    let mut acc = Account::default();
    acc.balance = 5;
    let post = AccountPostState::new(acc);
    assert_eq!(post.account.balance, 5);
    assert!(!post.claim);
}

#[test]
fn cpi_call_passes_accounts_and_data_explicitly() {
    let call = CpiCall::new(vault_program_id())
        .with_accounts(vec![make_account(2, false), make_account(3, true)])
        .build(vec![0, 100, 0]);
    assert_eq!(call.program_id, vault_program_id());
    assert_eq!(call.pre_states.len(), 2);
    assert_eq!(call.pre_states[0].account_id, AccountId::new([2; 32]));
    assert!(call.pre_states[1].is_authorized);
    assert_eq!(call.instruction_data, vec![0, 100, 0]);
}

#[test]
fn cpi_call_with_accounts_replaces_earlier_accounts() {
    let call = CpiCall::new([9u32; 8])
        .with_accounts(vec![make_account(2, false)])
        .with_accounts(vec![])
        .build(vec![]);
    assert_eq!(call.program_id, [9u32; 8]);
    assert!(call.pre_states.is_empty());
    assert!(call.instruction_data.is_empty());
}

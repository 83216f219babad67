use lez_sdk::account::{Account, AccountId, AccountWithMetadata};
use lez_sdk::counter::{self, router, CounterInstruction, CounterState, IncrementArgs};
use lez_sdk::error::SdkError;
use lez_sdk::router::InstructionRouter;

fn make_account() -> AccountWithMetadata {
    AccountWithMetadata {
        account_id: AccountId::new([1u8; 32]),
        account: Account::default(),
        is_authorized: true,
    }
}

#[test]
fn increment_returns_ok() {
    let account = make_account();
    let result = counter::increment(account, 10);
    assert!(result.is_ok());
    let out = result.unwrap();
    assert_eq!(CounterState::try_from_slice(&out.post_states[0].account.data).unwrap().value, 10);
}

#[test]
fn reset_returns_ok() {
    let account = make_account();
    let result = counter::reset(account);
    assert!(result.is_ok());
    assert_eq!(result.unwrap().post_states[0].account.data, vec![0u8; 8]);
}

#[test]
fn router_dispatches_increment() {
    let r = router();
    let args = borsh::to_vec(&5u64).unwrap();
    let result = r.dispatch(0, vec![make_account()], &args);
    assert!(result.is_ok());
}

#[test]
fn router_dispatches_reset() {
    let r = router();
    let result = r.dispatch(1, vec![make_account()], &[]);
    assert!(result.is_ok());
}

#[test]
fn router_rejects_unknown_discriminant() {
    let r = router();
    let result = r.dispatch(99, vec![make_account()], &[]);
    assert!(matches!(result, Err(SdkError::UnknownInstruction(99))));
}

#[test]
fn router_rejects_malformed_args() {
    let r = router();
    let result = r.dispatch(0, vec![make_account()], &[0xFF]);
    assert!(matches!(result, Err(SdkError::DecodeError(_))));
}

#[test]
fn increment_adds_the_amount_to_the_stored_counter() {
    let mut account = make_account();
    account.account.balance = 42;
    account.account.nonce = 7;
    account.account.data = CounterState { value: 40 }.to_vec();
    let out = counter::increment(account, 3).unwrap();
    assert_eq!(out.post_states.len(), 1);
    assert_eq!(out.post_states[0].account.balance, 42);
    assert_eq!(out.post_states[0].account.nonce, 7);
    assert_eq!(CounterState::try_from_slice(&out.post_states[0].account.data).unwrap().value, 43);
    assert!(!out.post_states[0].claim);
    assert!(out.chained_calls.is_empty());
}

#[test]
fn increment_of_a_fresh_counter_starts_from_zero() {
    let out = counter::increment(make_account(), 10).unwrap();
    assert_eq!(out.post_states[0].account.data, borsh::to_vec(&10u64).unwrap());
}

#[test]
fn reset_sets_the_counter_to_zero() {
    let mut account = make_account();
    account.account.balance = 9;
    account.account.data = CounterState { value: 5 }.to_vec();
    let out = counter::reset(account).unwrap();
    assert_eq!(out.post_states[0].account.data, vec![0u8; 8]);
    assert_eq!(out.post_states[0].account.balance, 9);
    assert!(out.chained_calls.is_empty());
}

#[test]
fn increment_holds_the_counter_at_its_maximum() {
    let mut account = make_account();
    account.account.data = CounterState { value: u64::MAX - 1 }.to_vec();
    let out = counter::increment(account, 2).unwrap();
    assert_eq!(out.post_states[0].account.data, vec![0xff; 8]);
    let mut account = make_account();
    account.account.data = CounterState { value: u64::MAX - 1 }.to_vec();
    let out = counter::increment(account, 1).unwrap();
    assert_eq!(out.post_states[0].account.data, vec![0xff; 8]);
}

#[test]
fn increment_hands_back_an_account_without_a_counter_value() {
    let mut account = make_account();
    account.account.data = vec![1, 2, 3];
    account.account.balance = 4;
    let out = counter::increment(account, 1).unwrap();
    assert_eq!(out.post_states.len(), 1);
    assert_eq!(out.post_states[0].account.data, vec![1, 2, 3]);
    assert_eq!(out.post_states[0].account.balance, 4);
    assert!(!out.post_states[0].claim);
    assert!(out.chained_calls.is_empty());
}

#[test]
fn dispatch_takes_only_the_first_account() {
    let r = router();
    let mut first = make_account();
    first.account.balance = 1;
    let mut second = make_account();
    second.account.balance = 2;
    let out = r.dispatch(1, vec![first, second], &[]).unwrap();
    assert_eq!(out.post_states.len(), 1);
    assert_eq!(out.post_states[0].account.balance, 1);
}

#[test]
fn dispatched_increment_updates_the_counter() {
    let r = router();
    let mut account = make_account();
    account.account.data = CounterState { value: 100 }.to_vec();
    let args = IncrementArgs { amount: 5 }.to_vec();
    let out = r.dispatch(0, vec![account], &args).unwrap();
    assert_eq!(CounterState::try_from_slice(&out.post_states[0].account.data).unwrap().value, 105);
}

#[test]
fn dispatch_without_accounts_is_an_account_count_mismatch() {
    let r = router();
    let result = r.dispatch(1, vec![], &[]);
    assert!(matches!(result, Err(SdkError::AccountCountMismatch { expected: 1, actual: 0 })));
    let args = IncrementArgs { amount: 5 }.to_vec();
    let result = r.dispatch(0, vec![], &args);
    assert!(matches!(result, Err(SdkError::AccountCountMismatch { expected: 1, actual: 0 })));
}

#[test]
fn malformed_args_are_reported_before_missing_accounts() {
    let r = router();
    match r.dispatch(0, vec![], &[1, 2, 3]) {
        Err(SdkError::DecodeError(m)) => assert_eq!(m, "Unexpected length of input"),
        _ => panic!("expected a decode error"),
    }
}

#[test]
fn trailing_bytes_are_a_decode_error() {
    let r = router();
    match r.dispatch(0, vec![make_account()], &[0u8; 9]) {
        Err(SdkError::DecodeError(m)) => assert_eq!(m, "Not all bytes read"),
        _ => panic!("expected a decode error"),
    }
}

#[test]
fn increment_args_encoding_matches_the_documented_format() {
    let bytes = IncrementArgs { amount: 100 }.to_vec();
    assert_eq!(bytes, vec![0x64, 0x00, 0x00, 0x00, 0x00, 0x00, 0x00, 0x00]);
    let bytes = IncrementArgs { amount: 0x0102030405060708 }.to_vec();
    assert_eq!(bytes, vec![8, 7, 6, 5, 4, 3, 2, 1]);
}

#[test]
fn increment_args_roundtrip() {
    for amount in [0u64, 1, 100, 0xdead_beef, u64::MAX] {
        let bytes = IncrementArgs { amount }.to_vec();
        assert_eq!(IncrementArgs::try_from_slice(&bytes).unwrap().amount, amount);
    }
}

#[test]
fn increment_args_decoding_reads_little_endian() {
    let args = IncrementArgs::try_from_slice(&[1, 2, 0, 0, 0, 0, 0, 0x80]).unwrap();
    assert_eq!(args.amount, 0x8000_0000_0000_0201);
}

#[test]
fn counter_state_default_is_zero_and_roundtrips() {
    let s = CounterState::default();
    assert_eq!(s.value, 0);
    let bytes = CounterState { value: 9 }.to_vec();
    assert_eq!(bytes, vec![9, 0, 0, 0, 0, 0, 0, 0]);
    assert_eq!(CounterState::try_from_slice(&bytes).unwrap().value, 9);
    assert_eq!(CounterState::try_from_slice(&[]).unwrap_err(), "Unexpected length of input");
}

#[test]
fn first_registration_of_a_discriminant_wins() {
    let r = InstructionRouter::new()
        .register(0, CounterInstruction::Reset)
        .register(0, CounterInstruction::Increment);
    // Reset ignores the instruction bytes; Increment would reject them.
    assert!(r.dispatch(0, vec![make_account()], &[0xFF]).is_ok());
}

#[test]
fn empty_router_rejects_every_discriminant() {
    let r: InstructionRouter<CounterInstruction> = InstructionRouter::new();
    for d in [0u32, 1, 7, u32::MAX] {
        assert!(matches!(r.dispatch(d, vec![make_account()], &[]), Err(SdkError::UnknownInstruction(x)) if x == d));
    }
    let r: InstructionRouter<CounterInstruction> = Default::default();
    assert!(matches!(r.dispatch(0, vec![], &[]), Err(SdkError::UnknownInstruction(0))));
}

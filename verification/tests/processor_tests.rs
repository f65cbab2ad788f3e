use fair_launch_escrow::errors::{
    EscrowError, ERR_CANCEL_AFTER_TOO_FAR, ERR_INVALID_CANCEL_AFTER, ERR_TOO_EARLY_TO_CANCEL,
    ERR_UNAUTHORIZED, ERR_ZERO_AMOUNT,
};
use fair_launch_escrow::events::{
    EVENT_ESCROW_CANCELLED, EVENT_ESCROW_CREATED, EVENT_ESCROW_FINISHED,
    FLAG_CANCEL_AUTHORITY, FLAG_CANCEL_PERMISSIONLESS,
};
use fair_launch_escrow::processor::{
    cancel_escrow, create_escrow, finish_escrow, process_instruction,
    process_instruction_with_clock, AccountState, Effects, MAX_ESCROW_DURATION,
    UNSUPPORTED_SYSVAR_CODE,
};
use fair_launch_escrow::state::EscrowVault;

const PROGRAM: [u8; 32] = [0xaa; 32];
const PLATFORM: [u8; 32] = [0xbb; 32];
const BUYER: [u8; 32] = [0x11; 32];
const DEST: [u8; 32] = [0x22; 32];
const ESCROW: [u8; 32] = [0x33; 32];
const STRANGER: [u8; 32] = [0x44; 32];
const SYSTEM: [u8; 32] = [0u8; 32];
const NOW: i64 = 1_700_000_000;
const RENT: u64 = 2_011_440;

fn account(key: [u8; 32], lamports: u64, is_signer: bool, is_writable: bool) -> AccountState {
    AccountState { key, owner: SYSTEM, lamports, is_signer, is_writable, data: Vec::new() }
}

fn create_data(amount: u64, cancel_after: i64) -> Vec<u8> {
    let mut d = Vec::new();
    d.extend_from_slice(&amount.to_le_bytes());
    d.extend_from_slice(&cancel_after.to_le_bytes());
    d.extend_from_slice(&[0x55u8; 32]);
    d.extend_from_slice(&9u64.to_le_bytes());
    d.push(253);
    d
}

fn create_accounts() -> Vec<AccountState> {
    vec![
        account(BUYER, 10_000_000_000, true, true),
        account(DEST, 0, false, false),
        account(PLATFORM, 1, true, false),
        account(ESCROW, 0, false, true),
        account(SYSTEM, 1, false, false),
    ]
}

fn vault(amount: u64, cancel_after: i64) -> EscrowVault {
    EscrowVault {
        _discriminator: [0u8; 8],
        buyer: BUYER,
        destination: DEST,
        authority: PLATFORM,
        amount,
        cancel_after,
        launch_id: [0x55u8; 32],
        nonce: 9,
        bump: 253,
    }
}

fn escrow_account(amount: u64, cancel_after: i64, lamports: u64) -> AccountState {
    AccountState {
        key: ESCROW,
        owner: PROGRAM,
        lamports,
        is_signer: false,
        is_writable: true,
        data: vault(amount, cancel_after).to_bytes(),
    }
}

fn writes(fx: &Effects) -> Vec<(usize, u64)> {
    fx.lamport_writes.iter().map(|w| (w.account, w.lamports)).collect()
}

fn err_of(r: Result<Effects, EscrowError>) -> EscrowError {
    match r {
        Ok(_) => panic!("expected an error"),
        Err(e) => e,
    }
}

// ── create_escrow ────────────────────────────────────────────────────────────

#[test]
fn create_success_effects() {
    let data = create_data(1_000_000_000, NOW + 3600);
    let fx = create_escrow(&PROGRAM, &create_accounts(), &data, &PLATFORM, Ok(NOW)).unwrap();
    let call = fx.create_account.as_ref().unwrap();
    assert_eq!(call.from, 0);
    assert_eq!(call.to, 3);
    assert_eq!(call.lamports, RENT + 1_000_000_000);
    assert_eq!(call.space, 161);
    assert_eq!(call.owner, PROGRAM);
    assert_eq!(call.seeds[0], b"escrow".to_vec());
    assert_eq!(call.seeds[1], BUYER.to_vec());
    assert_eq!(call.seeds[2], vec![0x55u8; 32]);
    assert_eq!(call.seeds[3], 9u64.to_le_bytes().to_vec());
    assert_eq!(call.seeds[4], vec![253]);
    assert!(fx.lamport_writes.is_empty());
    let w = fx.data_write.as_ref().unwrap();
    assert_eq!(w.account, 3);
    assert_eq!(w.bytes, vault(1_000_000_000, NOW + 3600).to_bytes());
    assert_eq!(fx.event.event_type, EVENT_ESCROW_CREATED);
    assert_eq!(fx.event.flags, 0);
    assert_eq!(fx.event.buyer, BUYER);
    assert_eq!(fx.event.escrow_pda, ESCROW);
    assert_eq!(fx.event.counterparty, DEST);
    assert_eq!(fx.event.amount, 1_000_000_000);
    assert_eq!(fx.event.timestamp_or_cancel_after, NOW + 3600);
    assert_eq!(fx.event.nonce, 9);
    assert_eq!(fx.event.bump, 253);
    assert_eq!(fx.zero_data, None);
}

#[test]
fn create_stored_vault_reads_back() {
    let data = create_data(77, NOW + 1);
    let fx = create_escrow(&PROGRAM, &create_accounts(), &data, &PLATFORM, Ok(NOW)).unwrap();
    let v = EscrowVault::load(&fx.data_write.unwrap().bytes);
    assert_eq!(v.buyer, BUYER);
    assert_eq!(v.destination, DEST);
    assert_eq!(v.authority, PLATFORM);
    assert_eq!(v.amount, 77);
    assert_eq!(v.cancel_after, NOW + 1);
}

#[test]
fn create_short_data() {
    let data = create_data(1, NOW + 1);
    assert_eq!(
        err_of(create_escrow(&PROGRAM, &create_accounts(), &data[..56], &PLATFORM, Ok(NOW))),
        EscrowError::InvalidInstructionData
    );
}

#[test]
fn create_not_enough_accounts() {
    let data = create_data(1, NOW + 1);
    let accounts = create_accounts();
    assert_eq!(
        err_of(create_escrow(&PROGRAM, &accounts[..4], &data, &PLATFORM, Ok(NOW))),
        EscrowError::NotEnoughAccountKeys
    );
}

#[test]
fn create_missing_signatures() {
    let data = create_data(1, NOW + 1);
    let mut accounts = create_accounts();
    accounts[2].is_signer = false;
    assert_eq!(
        err_of(create_escrow(&PROGRAM, &accounts, &data, &PLATFORM, Ok(NOW))),
        EscrowError::MissingRequiredSignature
    );
    let mut accounts = create_accounts();
    accounts[0].is_signer = false;
    assert_eq!(
        err_of(create_escrow(&PROGRAM, &accounts, &data, &PLATFORM, Ok(NOW))),
        EscrowError::MissingRequiredSignature
    );
}

#[test]
fn create_readonly_escrow() {
    let data = create_data(1, NOW + 1);
    let mut accounts = create_accounts();
    accounts[3].is_writable = false;
    assert_eq!(
        err_of(create_escrow(&PROGRAM, &accounts, &data, &PLATFORM, Ok(NOW))),
        EscrowError::InvalidAccountData
    );
}

#[test]
fn create_wrong_authority() {
    let data = create_data(1, NOW + 1);
    let mut accounts = create_accounts();
    accounts[2].key = STRANGER;
    let e = err_of(create_escrow(&PROGRAM, &accounts, &data, &PLATFORM, Ok(NOW)));
    assert_eq!(e, EscrowError::Unauthorized);
    assert_eq!(e.custom_code(), Some(ERR_UNAUTHORIZED));
    assert_eq!(e.custom_code(), Some(6004));
}

#[test]
fn create_clock_error_passes_through() {
    let data = create_data(0, NOW + 1);
    assert_eq!(
        err_of(create_escrow(&PROGRAM, &create_accounts(), &data, &PLATFORM, Err(UNSUPPORTED_SYSVAR_CODE))),
        EscrowError::Runtime(73014444032)
    );
}

#[test]
fn create_zero_amount() {
    let data = create_data(0, NOW + 1);
    let e = err_of(create_escrow(&PROGRAM, &create_accounts(), &data, &PLATFORM, Ok(NOW)));
    assert_eq!(e, EscrowError::ZeroAmount);
    assert_eq!(e.custom_code(), Some(ERR_ZERO_AMOUNT));
    assert_eq!(ERR_ZERO_AMOUNT, 6000);
}

#[test]
fn create_cancel_after_not_in_future() {
    let data = create_data(1, NOW);
    let e = err_of(create_escrow(&PROGRAM, &create_accounts(), &data, &PLATFORM, Ok(NOW)));
    assert_eq!(e, EscrowError::InvalidCancelAfter);
    assert_eq!(e.custom_code(), Some(ERR_INVALID_CANCEL_AFTER));
    assert_eq!(ERR_INVALID_CANCEL_AFTER, 6001);
}

#[test]
fn create_cancel_after_window_edges() {
    assert_eq!(MAX_ESCROW_DURATION, 5_184_000);
    let data = create_data(1, NOW + MAX_ESCROW_DURATION);
    assert!(create_escrow(&PROGRAM, &create_accounts(), &data, &PLATFORM, Ok(NOW)).is_ok());
    let data = create_data(1, NOW + MAX_ESCROW_DURATION + 1);
    let e = err_of(create_escrow(&PROGRAM, &create_accounts(), &data, &PLATFORM, Ok(NOW)));
    assert_eq!(e, EscrowError::CancelAfterTooFar);
    assert_eq!(e.custom_code(), Some(ERR_CANCEL_AFTER_TOO_FAR));
    assert_eq!(ERR_CANCEL_AFTER_TOO_FAR, 6002);
}

#[test]
fn create_total_overflow() {
    let data = create_data(u64::MAX - RENT + 1, NOW + 1);
    assert_eq!(
        err_of(create_escrow(&PROGRAM, &create_accounts(), &data, &PLATFORM, Ok(NOW))),
        EscrowError::ArithmeticOverflow
    );
    let data = create_data(u64::MAX - RENT, NOW + 1);
    let fx = create_escrow(&PROGRAM, &create_accounts(), &data, &PLATFORM, Ok(NOW)).unwrap();
    assert_eq!(fx.create_account.unwrap().lamports, u64::MAX);
}

// ── finish_escrow ────────────────────────────────────────────────────────────

fn finish_accounts() -> Vec<AccountState> {
    vec![
        account(PLATFORM, 1_000, true, true),
        escrow_account(500_000, NOW + 10, 500_000 + RENT),
        account(DEST, 50, false, true),
    ]
}

#[test]
fn finish_pays_destination_and_returns_rent() {
    let fx = finish_escrow(&PROGRAM, &finish_accounts(), Ok(NOW)).unwrap();
    assert_eq!(writes(&fx), vec![(1, 0), (2, 500_050), (0, 1_000 + RENT)]);
    let before = 1_000 + 500_000 + RENT + 50;
    let after: u64 = fx.lamport_writes.iter().map(|w| w.lamports).sum();
    assert_eq!(before, after);
    assert!(fx.create_account.is_none());
    assert!(fx.data_write.is_none());
    assert_eq!(fx.zero_data, Some(1));
    assert_eq!(fx.event.event_type, EVENT_ESCROW_FINISHED);
    assert_eq!(fx.event.flags, 0);
    assert_eq!(fx.event.buyer, BUYER);
    assert_eq!(fx.event.escrow_pda, ESCROW);
    assert_eq!(fx.event.counterparty, DEST);
    assert_eq!(fx.event.amount, 500_000);
    assert_eq!(fx.event.timestamp_or_cancel_after, NOW);
    assert_eq!(fx.event.launch_id, [0x55u8; 32]);
}

#[test]
fn finish_errors_in_order() {
    let accounts = finish_accounts();
    assert_eq!(err_of(finish_escrow(&PROGRAM, &accounts[..2], Ok(NOW))), EscrowError::NotEnoughAccountKeys);

    let mut a = finish_accounts();
    a[0].is_signer = false;
    assert_eq!(err_of(finish_escrow(&PROGRAM, &a, Ok(NOW))), EscrowError::MissingRequiredSignature);

    let mut a = finish_accounts();
    a[2].is_writable = false;
    assert_eq!(err_of(finish_escrow(&PROGRAM, &a, Ok(NOW))), EscrowError::InvalidAccountData);

    let mut a = finish_accounts();
    a[2].key = PLATFORM;
    assert_eq!(err_of(finish_escrow(&PROGRAM, &a, Ok(NOW))), EscrowError::InvalidAccountData);

    let mut a = finish_accounts();
    a[1].owner = STRANGER;
    assert_eq!(err_of(finish_escrow(&PROGRAM, &a, Ok(NOW))), EscrowError::IllegalOwner);

    let mut a = finish_accounts();
    a[1].data.truncate(160);
    assert_eq!(err_of(finish_escrow(&PROGRAM, &a, Ok(NOW))), EscrowError::InvalidAccountData);

    let mut a = finish_accounts();
    a[0].key = STRANGER;
    assert_eq!(err_of(finish_escrow(&PROGRAM, &a, Ok(NOW))), EscrowError::Unauthorized);

    let mut a = finish_accounts();
    a[2].key = STRANGER;
    assert_eq!(err_of(finish_escrow(&PROGRAM, &a, Ok(NOW))), EscrowError::Unauthorized);

    let mut a = finish_accounts();
    a[1].lamports = 499_999;
    assert_eq!(err_of(finish_escrow(&PROGRAM, &a, Ok(NOW))), EscrowError::ArithmeticOverflow);

    let mut a = finish_accounts();
    a[2].lamports = u64::MAX;
    assert_eq!(err_of(finish_escrow(&PROGRAM, &a, Ok(NOW))), EscrowError::ArithmeticOverflow);

    let mut a = finish_accounts();
    a[0].lamports = u64::MAX;
    assert_eq!(err_of(finish_escrow(&PROGRAM, &a, Ok(NOW))), EscrowError::ArithmeticOverflow);

    assert_eq!(
        err_of(finish_escrow(&PROGRAM, &finish_accounts(), Err(UNSUPPORTED_SYSVAR_CODE))),
        EscrowError::Runtime(UNSUPPORTED_SYSVAR_CODE)
    );
}

// ── cancel_escrow ────────────────────────────────────────────────────────────

fn cancel_accounts(canceller: [u8; 32]) -> Vec<AccountState> {
    vec![
        account(canceller, 300, true, true),
        escrow_account(400_000, NOW, 400_000 + RENT),
        account(BUYER, 20, false, true),
    ]
}

#[test]
fn cancel_by_authority_before_expiry() {
    let fx = cancel_escrow(&PROGRAM, &cancel_accounts(PLATFORM), Ok(NOW - 100)).unwrap();
    assert_eq!(writes(&fx), vec![(1, 0), (2, 400_020), (0, 300 + RENT)]);
    assert_eq!(fx.event.event_type, EVENT_ESCROW_CANCELLED);
    assert_eq!(fx.event.flags, FLAG_CANCEL_AUTHORITY);
    assert_eq!(fx.event.flags, 2);
    assert_eq!(fx.event.counterparty, PLATFORM);
    assert_eq!(fx.event.buyer, BUYER);
    assert_eq!(fx.event.timestamp_or_cancel_after, NOW - 100);
    assert_eq!(fx.zero_data, Some(1));
}

#[test]
fn cancel_permissionless_after_expiry() {
    let fx = cancel_escrow(&PROGRAM, &cancel_accounts(STRANGER), Ok(NOW + 1)).unwrap();
    assert_eq!(writes(&fx), vec![(1, 0), (2, 400_020), (0, 300 + RENT)]);
    assert_eq!(fx.event.flags, FLAG_CANCEL_PERMISSIONLESS);
    assert_eq!(fx.event.flags, 1);
    assert_eq!(fx.event.counterparty, STRANGER);
    let before = 300 + 400_000 + RENT + 20;
    let after: u64 = fx.lamport_writes.iter().map(|w| w.lamports).sum();
    assert_eq!(before, after);
}

#[test]
fn cancel_too_early_for_stranger() {
    let e = err_of(cancel_escrow(&PROGRAM, &cancel_accounts(STRANGER), Ok(NOW)));
    assert_eq!(e, EscrowError::TooEarlyToCancel);
    assert_eq!(e.custom_code(), Some(ERR_TOO_EARLY_TO_CANCEL));
    assert_eq!(ERR_TOO_EARLY_TO_CANCEL, 6003);
}

#[test]
fn cancel_by_buyer_single_write() {
    let mut accounts = cancel_accounts(BUYER);
    accounts[0].lamports = 20;
    let fx = cancel_escrow(&PROGRAM, &accounts, Ok(NOW + 5)).unwrap();
    assert_eq!(writes(&fx), vec![(1, 0), (2, 20 + 400_000 + RENT)]);
    assert_eq!(fx.event.flags, FLAG_CANCEL_PERMISSIONLESS);
    assert_eq!(fx.event.counterparty, BUYER);
}

#[test]
fn cancel_errors_in_order() {
    let a = cancel_accounts(PLATFORM);
    assert_eq!(err_of(cancel_escrow(&PROGRAM, &a[..2], Ok(NOW))), EscrowError::NotEnoughAccountKeys);

    let mut a = cancel_accounts(PLATFORM);
    a[0].is_signer = false;
    assert_eq!(err_of(cancel_escrow(&PROGRAM, &a, Ok(NOW))), EscrowError::MissingRequiredSignature);

    let mut a = cancel_accounts(PLATFORM);
    a[1].is_writable = false;
    assert_eq!(err_of(cancel_escrow(&PROGRAM, &a, Ok(NOW))), EscrowError::InvalidAccountData);

    let mut a = cancel_accounts(PLATFORM);
    a[1].owner = SYSTEM;
    assert_eq!(err_of(cancel_escrow(&PROGRAM, &a, Ok(NOW))), EscrowError::IllegalOwner);

    let mut a = cancel_accounts(PLATFORM);
    a[1].data = Vec::new();
    assert_eq!(err_of(cancel_escrow(&PROGRAM, &a, Ok(NOW))), EscrowError::InvalidAccountData);

    let mut a = cancel_accounts(PLATFORM);
    a[2].key = STRANGER;
    assert_eq!(err_of(cancel_escrow(&PROGRAM, &a, Ok(NOW))), EscrowError::Unauthorized);

    assert_eq!(
        err_of(cancel_escrow(&PROGRAM, &cancel_accounts(PLATFORM), Err(UNSUPPORTED_SYSVAR_CODE))),
        EscrowError::Runtime(UNSUPPORTED_SYSVAR_CODE)
    );

    let mut a = cancel_accounts(PLATFORM);
    a[1].lamports = 1;
    assert_eq!(err_of(cancel_escrow(&PROGRAM, &a, Ok(NOW))), EscrowError::ArithmeticOverflow);

    let mut a = cancel_accounts(PLATFORM);
    a[2].lamports = u64::MAX;
    assert_eq!(err_of(cancel_escrow(&PROGRAM, &a, Ok(NOW))), EscrowError::ArithmeticOverflow);

    let mut a = cancel_accounts(PLATFORM);
    a[0].lamports = u64::MAX;
    assert_eq!(err_of(cancel_escrow(&PROGRAM, &a, Ok(NOW))), EscrowError::ArithmeticOverflow);
}

// ── dispatch ─────────────────────────────────────────────────────────────────

#[test]
fn dispatch_by_first_byte() {
    let mut data = vec![0u8];
    data.extend_from_slice(&create_data(5, NOW + 1));
    let fx = process_instruction_with_clock(&PROGRAM, &create_accounts(), &data, &PLATFORM, Ok(NOW)).unwrap();
    assert_eq!(fx.event.event_type, EVENT_ESCROW_CREATED);

    let fx = process_instruction_with_clock(&PROGRAM, &finish_accounts(), &[1], &PLATFORM, Ok(NOW)).unwrap();
    assert_eq!(fx.event.event_type, EVENT_ESCROW_FINISHED);

    let fx = process_instruction_with_clock(&PROGRAM, &cancel_accounts(PLATFORM), &[2, 99], &PLATFORM, Ok(NOW)).unwrap();
    assert_eq!(fx.event.event_type, EVENT_ESCROW_CANCELLED);
}

#[test]
fn dispatch_rejects_unknown_and_empty() {
    assert_eq!(
        err_of(process_instruction_with_clock(&PROGRAM, &finish_accounts(), &[3], &PLATFORM, Ok(NOW))),
        EscrowError::InvalidInstructionData
    );
    assert_eq!(
        err_of(process_instruction_with_clock(&PROGRAM, &finish_accounts(), &[], &PLATFORM, Ok(NOW))),
        EscrowError::InvalidInstructionData
    );
    assert_eq!(
        err_of(process_instruction(&PROGRAM, &finish_accounts(), &[255], &PLATFORM)),
        EscrowError::InvalidInstructionData
    );
}

#[test]
fn process_instruction_reads_clock() {
    // Off-chain the clock sysvar is unavailable, so a create that passes every
    // check before the clock is refused with the runtime's error.
    let mut data = vec![0u8];
    data.extend_from_slice(&create_data(5, NOW + 1));
    assert_eq!(
        err_of(process_instruction(&PROGRAM, &create_accounts(), &data, &PLATFORM)),
        EscrowError::Runtime(UNSUPPORTED_SYSVAR_CODE)
    );
    // Checks before the clock decide alone.
    let mut accounts = create_accounts();
    accounts[2].key = STRANGER;
    assert_eq!(
        err_of(process_instruction(&PROGRAM, &accounts, &data, &PLATFORM)),
        EscrowError::Unauthorized
    );
}

#[test]
fn paid_out_escrow_cannot_pay_again() {
    let fx = finish_escrow(&PROGRAM, &finish_accounts(), Ok(NOW)).unwrap();
    assert_eq!(fx.zero_data, Some(1));
    let mut a = finish_accounts();
    a[1].data.fill(0);
    a[1].lamports = RENT;
    assert_eq!(err_of(finish_escrow(&PROGRAM, &a, Ok(NOW))), EscrowError::Unauthorized);

    let mut c = cancel_accounts(PLATFORM);
    c[1].data.fill(0);
    assert_eq!(err_of(cancel_escrow(&PROGRAM, &c, Ok(NOW + 10))), EscrowError::Unauthorized);
    let mut c = cancel_accounts(STRANGER);
    c[1].data.fill(0);
    assert_eq!(err_of(cancel_escrow(&PROGRAM, &c, Ok(NOW + 10))), EscrowError::Unauthorized);
}

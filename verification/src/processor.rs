//! The program's instructions over plain account values: what each one checks,
//! in which order, and which effects it asks the runtime to perform.
use crate::codec::keys_equal;
use crate::errors::EscrowError;
use crate::events::{
    EscrowEvent, EventModel, EVENT_ESCROW_CANCELLED, EVENT_ESCROW_CREATED, EVENT_ESCROW_FINISHED,
    FLAG_CANCEL_AUTHORITY, FLAG_CANCEL_PERMISSIONLESS,
};
use crate::instruction::{
    decode_create_args, escrow_seeds, escrow_seeds_spec, parse_create_args, CreateArgsModel,
    CREATE_ARGS_LEN,
};
use crate::state::{decode_vault, encode_vault, EscrowVault, VaultModel, VAULT_LEN};
use pinocchio::sysvars::clock::Clock;
use pinocchio::sysvars::Sysvar;
use vstd::prelude::*;

verus! {

/// Longest time an escrow may stay locked before anyone may cancel it (60 days, in seconds).
pub const MAX_ESCROW_DURATION: i64 = 60 * 24 * 60 * 60;

/// Rent-exempt lamports per byte of account space
/// (lamports per byte-year 3480 times the exemption threshold of two years).
pub const RENT_PER_BYTE: u64 = 6960;

/// Bytes of account metadata that rent is charged for besides the data.
pub const ACCOUNT_STORAGE_OVERHEAD: u64 = 128;

/// Lamports that make the vault account rent-exempt.
pub open spec fn rent_lamports() -> int {
    (VAULT_LEN + ACCOUNT_STORAGE_OVERHEAD) * RENT_PER_BYTE
}

/// An account as the instruction sees it.
pub struct AccountState {
    pub key: [u8; 32],
    pub owner: [u8; 32],
    pub lamports: u64,
    pub is_signer: bool,
    pub is_writable: bool,
    pub data: Vec<u8>,
}

/// A `CreateAccount` call to the system program, signed with the escrow's seeds.
pub struct CreateAccountCall {
    /// Index of the funding account.
    pub from: usize,
    /// Index of the new account.
    pub to: usize,
    pub lamports: u64,
    pub space: u64,
    pub owner: [u8; 32],
    pub seeds: Vec<Vec<u8>>,
}

pub struct CreateAccountModel {
    pub from: usize,
    pub to: usize,
    pub lamports: u64,
    pub space: u64,
    pub owner: Seq<u8>,
    pub seeds: Seq<Seq<u8>>,
}

impl View for CreateAccountCall {
    type V = CreateAccountModel;

    open spec fn view(&self) -> CreateAccountModel {
        CreateAccountModel {
            from: self.from,
            to: self.to,
            lamports: self.lamports,
            space: self.space,
            owner: self.owner@,
            seeds: self.seeds.deep_view(),
        }
    }
}

/// Sets the balance of the account at `account` to `lamports`.
#[derive(Clone, Copy)]
pub struct LamportWrite {
    pub account: usize,
    pub lamports: u64,
}

/// Writes `bytes` at the start of the data of the account at `account`.
pub struct DataWrite {
    pub account: usize,
    pub bytes: Vec<u8>,
}

pub struct DataWriteModel {
    pub account: usize,
    pub bytes: Seq<u8>,
}

impl View for DataWrite {
    type V = DataWriteModel;

    open spec fn view(&self) -> DataWriteModel {
        DataWriteModel { account: self.account, bytes: self.bytes@ }
    }
}

/// What an accepted instruction asks the runtime to do, in this order:
/// the system-program call (whose failure refuses the instruction), the
/// balance writes, the data write, the event log, and the zeroing of an
/// account's data.
pub struct Effects {
    pub create_account: Option<CreateAccountCall>,
    pub lamport_writes: Vec<LamportWrite>,
    pub data_write: Option<DataWrite>,
    pub event: EscrowEvent,
    pub zero_data: Option<usize>,
}

pub struct EffectsModel {
    pub create_account: Option<CreateAccountModel>,
    pub lamport_writes: Seq<LamportWrite>,
    pub data_write: Option<DataWriteModel>,
    pub event: EventModel,
    pub zero_data: Option<usize>,
}

impl View for Effects {
    type V = EffectsModel;

    open spec fn view(&self) -> EffectsModel {
        EffectsModel {
            create_account: match self.create_account {
                Some(c) => Some(c@),
                None => None,
            },
            lamport_writes: self.lamport_writes@,
            data_write: match self.data_write {
                Some(w) => Some(w@),
                None => None,
            },
            event: self.event@,
            zero_data: self.zero_data,
        }
    }
}

/// The model of an instruction's outcome.
pub open spec fn outcome_view(r: Result<Effects, EscrowError>) -> Result<EffectsModel, EscrowError> {
    match r {
        Ok(fx) => Ok(fx@),
        Err(e) => Err(e),
    }
}

// ── create_escrow ────────────────────────────────────────────────────────────
//
// Accounts: 0 buyer [signer, writable], 1 destination, 2 authority [signer],
//           3 escrow [writable], 4 system program.
/// The vault that `create_escrow` stores.
pub open spec fn created_vault(accounts: Seq<AccountState>, args: CreateArgsModel) -> VaultModel {
    VaultModel {
        discriminator: Seq::new(8, |i: int| 0u8),
        buyer: accounts[0].key@,
        destination: accounts[1].key@,
        authority: accounts[2].key@,
        amount: args.amount,
        cancel_after: args.cancel_after,
        launch_id: args.launch_id,
        nonce: args.nonce,
        bump: args.bump,
    }
}

/// The effects of an accepted `create_escrow`: fund and create the vault with
/// rent plus the escrowed amount, store the vault, and report the creation.
pub open spec fn created_effects(
    program_id: Seq<u8>,
    accounts: Seq<AccountState>,
    args: CreateArgsModel,
) -> EffectsModel {
    EffectsModel {
        create_account: Some(
            CreateAccountModel {
                from: 0,
                to: 3,
                lamports: (rent_lamports() + args.amount) as u64,
                space: VAULT_LEN as u64,
                owner: program_id,
                seeds: escrow_seeds_spec(accounts[0].key@, args.launch_id, args.nonce, args.bump),
            },
        ),
        lamport_writes: Seq::empty(),
        data_write: Some(
            DataWriteModel { account: 3, bytes: encode_vault(created_vault(accounts, args)) },
        ),
        event: EventModel {
            event_type: EVENT_ESCROW_CREATED,
            flags: 0,
            buyer: accounts[0].key@,
            escrow_pda: accounts[3].key@,
            counterparty: accounts[1].key@,
            amount: args.amount,
            timestamp_or_cancel_after: args.cancel_after,
            launch_id: args.launch_id,
            nonce: args.nonce,
            bump: args.bump,
        },
        zero_data: None,
    }
}

/// The outcome of `create_escrow`: its checks in order, then its effects.
pub open spec fn create_escrow_spec(
    program_id: Seq<u8>,
    accounts: Seq<AccountState>,
    data: Seq<u8>,
    platform_authority: Seq<u8>,
    clock: Result<i64, u64>,
) -> Result<EffectsModel, EscrowError> {
    if data.len() < CREATE_ARGS_LEN {
        Err(EscrowError::InvalidInstructionData)
    } else if accounts.len() < 5 {
        Err(EscrowError::NotEnoughAccountKeys)
    } else if !accounts[0].is_signer || !accounts[2].is_signer {
        Err(EscrowError::MissingRequiredSignature)
    } else if !accounts[0].is_writable || !accounts[3].is_writable {
        Err(EscrowError::InvalidAccountData)
    } else if accounts[2].key@ != platform_authority {
        Err(EscrowError::Unauthorized)
    } else {
        match clock {
            Err(code) => Err(EscrowError::Runtime(code)),
            Ok(now) => {
                let args = decode_create_args(data);
                if args.amount == 0 {
                    Err(EscrowError::ZeroAmount)
                } else if args.cancel_after <= now {
                    Err(EscrowError::InvalidCancelAfter)
                } else if args.cancel_after > now + MAX_ESCROW_DURATION {
                    Err(EscrowError::CancelAfterTooFar)
                } else if rent_lamports() + args.amount > u64::MAX {
                    Err(EscrowError::ArithmeticOverflow)
                } else {
                    Ok(created_effects(program_id, accounts, args))
                }
            },
        }
    }
}

/// Creates an escrow: checks the instruction, then asks for the vault account to
/// be created and funded, stored and reported. `clock` is the outcome of reading
/// the cluster clock (its unix timestamp, or the runtime's error code).
pub fn create_escrow(
    program_id: &[u8; 32],
    accounts: &[AccountState],
    data: &[u8],
    platform_authority: &[u8; 32],
    clock: Result<i64, u64>,
) -> (r: Result<Effects, EscrowError>)
    ensures
        outcome_view(r) == create_escrow_spec(
            program_id@,
            accounts@,
            data@,
            platform_authority@,
            clock,
        ),
{
    let args = match parse_create_args(data) {
        Some(a) => a,
        None => return Err(EscrowError::InvalidInstructionData),
    };
    if accounts.len() < 5 {
        return Err(EscrowError::NotEnoughAccountKeys);
    }
    let buyer = &accounts[0];
    let destination = &accounts[1];
    let authority = &accounts[2];
    let escrow = &accounts[3];

    // Both buyer and authority must sign.
    if !buyer.is_signer || !authority.is_signer {
        return Err(EscrowError::MissingRequiredSignature);
    }
    if !buyer.is_writable || !escrow.is_writable {
        return Err(EscrowError::InvalidAccountData);
    }
    // Only the platform authority may co-sign an escrow into existence.
    if !keys_equal(&authority.key, platform_authority) {
        return Err(EscrowError::Unauthorized);
    }
    let now = match clock {
        Ok(t) => t,
        Err(code) => return Err(EscrowError::Runtime(code)),
    };
    if args.amount == 0 {
        return Err(EscrowError::ZeroAmount);
    }
    if args.cancel_after <= now {
        return Err(EscrowError::InvalidCancelAfter);
    }
    if (args.cancel_after as i128) > (now as i128) + (MAX_ESCROW_DURATION as i128) {
        return Err(EscrowError::CancelAfterTooFar);
    }
    let rent: u64 = (VAULT_LEN as u64 + ACCOUNT_STORAGE_OVERHEAD) * RENT_PER_BYTE;
    let total = match rent.checked_add(args.amount) {
        Some(t) => t,
        None => return Err(EscrowError::ArithmeticOverflow),
    };
    let seeds = escrow_seeds(&buyer.key, &args.launch_id, args.nonce, args.bump);
    let vault = EscrowVault {
        _discriminator: [0u8; 8],
        buyer: buyer.key,
        destination: destination.key,
        authority: authority.key,
        amount: args.amount,
        cancel_after: args.cancel_after,
        launch_id: args.launch_id,
        nonce: args.nonce,
        bump: args.bump,
    };
    assert(vault@.discriminator =~= Seq::new(8, |i: int| 0u8));
    assert(vault@ == created_vault(accounts@, args@));
    let bytes = vault.to_bytes();
    let event = EscrowEvent {
        event_type: EVENT_ESCROW_CREATED,
        flags: 0,
        buyer: buyer.key,
        escrow_pda: escrow.key,
        counterparty: destination.key,
        amount: args.amount,
        timestamp_or_cancel_after: args.cancel_after,
        launch_id: args.launch_id,
        nonce: args.nonce,
        bump: args.bump,
    };
    let call = CreateAccountCall {
        from: 0,
        to: 3,
        lamports: total,
        space: VAULT_LEN as u64,
        owner: *program_id,
        seeds,
    };
    let lamport_writes: Vec<LamportWrite> = Vec::new();
    let fx = Effects {
        create_account: Some(call),
        lamport_writes,
        data_write: Some(DataWrite { account: 3, bytes }),
        event,
        zero_data: None,
    };
    assert(fx@.lamport_writes =~= Seq::<LamportWrite>::empty());
    Ok(fx)
}

// ── finish_escrow ────────────────────────────────────────────────────────────
//
// Called by the platform when the launch goal is reached: the escrowed amount
// goes to the destination, the rent back to the authority.
// Accounts: 0 authority [signer, writable], 1 escrow [writable],
//           2 destination [writable] (must match the vault, must differ from authority).
/// The effects of an accepted `finish_escrow`.
pub open spec fn finished_effects(accounts: Seq<AccountState>, vault: VaultModel, now: i64) -> EffectsModel {
    let escrow = accounts[1];
    let rent_portion = escrow.lamports - vault.amount;
    EffectsModel {
        create_account: None,
        lamport_writes: seq![
            LamportWrite { account: 1, lamports: 0 },
            LamportWrite { account: 2, lamports: (accounts[2].lamports + vault.amount) as u64 },
            LamportWrite { account: 0, lamports: (accounts[0].lamports + rent_portion) as u64 },
        ],
        data_write: None,
        event: EventModel {
            event_type: EVENT_ESCROW_FINISHED,
            flags: 0,
            buyer: vault.buyer,
            escrow_pda: escrow.key@,
            counterparty: accounts[2].key@,
            amount: vault.amount,
            timestamp_or_cancel_after: now,
            launch_id: vault.launch_id,
            nonce: vault.nonce,
            bump: vault.bump,
        },
        zero_data: Some(1),
    }
}

/// The outcome of `finish_escrow`: its checks in order, then its effects.
pub open spec fn finish_escrow_spec(
    program_id: Seq<u8>,
    accounts: Seq<AccountState>,
    clock: Result<i64, u64>,
) -> Result<EffectsModel, EscrowError> {
    if accounts.len() < 3 {
        Err(EscrowError::NotEnoughAccountKeys)
    } else if !accounts[0].is_signer {
        Err(EscrowError::MissingRequiredSignature)
    } else if !accounts[0].is_writable || !accounts[1].is_writable || !accounts[2].is_writable {
        Err(EscrowError::InvalidAccountData)
    } else if accounts[0].key@ == accounts[2].key@ {
        Err(EscrowError::InvalidAccountData)
    } else if accounts[1].owner@ != program_id {
        Err(EscrowError::IllegalOwner)
    } else if accounts[1].data@.len() < VAULT_LEN {
        Err(EscrowError::InvalidAccountData)
    } else {
        let vault = decode_vault(accounts[1].data@);
        if accounts[0].key@ != vault.authority {
            Err(EscrowError::Unauthorized)
        } else if accounts[2].key@ != vault.destination {
            Err(EscrowError::Unauthorized)
        } else if accounts[1].lamports < vault.amount {
            Err(EscrowError::ArithmeticOverflow)
        } else if accounts[2].lamports + vault.amount > u64::MAX {
            Err(EscrowError::ArithmeticOverflow)
        } else if accounts[0].lamports + (accounts[1].lamports - vault.amount) > u64::MAX {
            Err(EscrowError::ArithmeticOverflow)
        } else {
            match clock {
                Err(code) => Err(EscrowError::Runtime(code)),
                Ok(now) => Ok(finished_effects(accounts, vault, now)),
            }
        }
    }
}

/// Finishes an escrow: the stored authority sends the escrowed amount to the
/// stored destination and takes the rent back; the vault is emptied and zeroed.
pub fn finish_escrow(program_id: &[u8; 32], accounts: &[AccountState], clock: Result<i64, u64>) -> (r:
    Result<Effects, EscrowError>)
    ensures
        outcome_view(r) == finish_escrow_spec(program_id@, accounts@, clock),
{
    if accounts.len() < 3 {
        return Err(EscrowError::NotEnoughAccountKeys);
    }
    let authority = &accounts[0];
    let escrow = &accounts[1];
    let destination = &accounts[2];

    if !authority.is_signer {
        return Err(EscrowError::MissingRequiredSignature);
    }
    if !authority.is_writable || !escrow.is_writable || !destination.is_writable {
        return Err(EscrowError::InvalidAccountData);
    }
    // The same account in both slots would corrupt the lamport accounting.
    if keys_equal(&authority.key, &destination.key) {
        return Err(EscrowError::InvalidAccountData);
    }
    if !keys_equal(&escrow.owner, program_id) {
        return Err(EscrowError::IllegalOwner);
    }
    if escrow.data.len() < VAULT_LEN {
        return Err(EscrowError::InvalidAccountData);
    }
    let vault = EscrowVault::load(escrow.data.as_slice());

    // Only the authority stored at creation may finish, and only to the stored destination.
    if !keys_equal(&authority.key, &vault.authority) {
        return Err(EscrowError::Unauthorized);
    }
    if !keys_equal(&destination.key, &vault.destination) {
        return Err(EscrowError::Unauthorized);
    }

    // All new balances are computed before anything is written.
    let total = escrow.lamports;
    let rent_portion = match total.checked_sub(vault.amount) {
        Some(v) => v,
        None => return Err(EscrowError::ArithmeticOverflow),
    };
    let new_dest = match destination.lamports.checked_add(vault.amount) {
        Some(v) => v,
        None => return Err(EscrowError::ArithmeticOverflow),
    };
    let new_auth = match authority.lamports.checked_add(rent_portion) {
        Some(v) => v,
        None => return Err(EscrowError::ArithmeticOverflow),
    };
    let now = match clock {
        Ok(t) => t,
        Err(code) => return Err(EscrowError::Runtime(code)),
    };

    let mut lamport_writes: Vec<LamportWrite> = Vec::new();
    lamport_writes.push(LamportWrite { account: 1, lamports: 0 });
    lamport_writes.push(LamportWrite { account: 2, lamports: new_dest });
    lamport_writes.push(LamportWrite { account: 0, lamports: new_auth });
    let event = EscrowEvent {
        event_type: EVENT_ESCROW_FINISHED,
        flags: 0,
        buyer: vault.buyer,
        escrow_pda: escrow.key,
        counterparty: destination.key,
        amount: vault.amount,
        timestamp_or_cancel_after: now,
        launch_id: vault.launch_id,
        nonce: vault.nonce,
        bump: vault.bump,
    };
    let fx = Effects {
        create_account: None,
        lamport_writes,
        data_write: None,
        event,
        zero_data: Some(1),
    };
    assert(fx@.lamport_writes =~= finished_effects(accounts@, vault@, now).lamport_writes);
    Ok(fx)
}

// ── cancel_escrow ────────────────────────────────────────────────────────────
//
// Returns the escrowed amount to the buyer. Two authorised paths: the stored
// authority at any time, or anyone once `cancel_after` has passed. A canceller
// other than the buyer receives the rent; a buyer who cancels receives all.
// Accounts: 0 canceller [signer, writable], 1 escrow [writable],
//           2 buyer [writable] (must match the vault).
/// The effects of an accepted `cancel_escrow`.
pub open spec fn cancelled_effects(accounts: Seq<AccountState>, vault: VaultModel, now: i64) -> EffectsModel {
    let canceller = accounts[0];
    let escrow = accounts[1];
    let buyer = accounts[2];
    let is_authority = canceller.key@ == vault.authority;
    let is_self_cancel = canceller.key@ == buyer.key@;
    let rent_portion = escrow.lamports - vault.amount;
    EffectsModel {
        create_account: None,
        lamport_writes: if is_self_cancel {
            seq![
                LamportWrite { account: 1, lamports: 0 },
                LamportWrite { account: 2, lamports: (buyer.lamports + escrow.lamports) as u64 },
            ]
        } else {
            seq![
                LamportWrite { account: 1, lamports: 0 },
                LamportWrite { account: 2, lamports: (buyer.lamports + vault.amount) as u64 },
                LamportWrite { account: 0, lamports: (canceller.lamports + rent_portion) as u64 },
            ]
        },
        data_write: None,
        event: EventModel {
            event_type: EVENT_ESCROW_CANCELLED,
            flags: if is_authority {
                FLAG_CANCEL_AUTHORITY
            } else {
                FLAG_CANCEL_PERMISSIONLESS
            },
            buyer: vault.buyer,
            escrow_pda: escrow.key@,
            counterparty: canceller.key@,
            amount: vault.amount,
            timestamp_or_cancel_after: now,
            launch_id: vault.launch_id,
            nonce: vault.nonce,
            bump: vault.bump,
        },
        zero_data: Some(1),
    }
}

/// The outcome of `cancel_escrow`: its checks in order, then its effects.
pub open spec fn cancel_escrow_spec(
    program_id: Seq<u8>,
    accounts: Seq<AccountState>,
    clock: Result<i64, u64>,
) -> Result<EffectsModel, EscrowError> {
    if accounts.len() < 3 {
        Err(EscrowError::NotEnoughAccountKeys)
    } else if !accounts[0].is_signer {
        Err(EscrowError::MissingRequiredSignature)
    } else if !accounts[0].is_writable || !accounts[1].is_writable || !accounts[2].is_writable {
        Err(EscrowError::InvalidAccountData)
    } else if accounts[1].owner@ != program_id {
        Err(EscrowError::IllegalOwner)
    } else if accounts[1].data@.len() < VAULT_LEN {
        Err(EscrowError::InvalidAccountData)
    } else {
        let vault = decode_vault(accounts[1].data@);
        if accounts[2].key@ != vault.buyer {
            Err(EscrowError::Unauthorized)
        } else {
            match clock {
                Err(code) => Err(EscrowError::Runtime(code)),
                Ok(now) => {
                    let canceller = accounts[0];
                    let escrow = accounts[1];
                    let buyer = accounts[2];
                    let is_authority = canceller.key@ == vault.authority;
                    let is_expired = now > vault.cancel_after;
                    let is_self_cancel = canceller.key@ == buyer.key@;
                    if !is_authority && !is_expired {
                        Err(EscrowError::TooEarlyToCancel)
                    } else if escrow.lamports < vault.amount {
                        Err(EscrowError::ArithmeticOverflow)
                    } else if buyer.lamports + (if is_self_cancel {
                        escrow.lamports
                    } else {
                        vault.amount
                    }) > u64::MAX {
                        Err(EscrowError::ArithmeticOverflow)
                    } else if !is_self_cancel && canceller.lamports + (escrow.lamports
                        - vault.amount) > u64::MAX {
                        Err(EscrowError::ArithmeticOverflow)
                    } else {
                        Ok(cancelled_effects(accounts, vault, now))
                    }
                },
            }
        }
    }
}

/// Cancels an escrow: the buyer gets the escrowed amount back, whoever cancels.
pub fn cancel_escrow(program_id: &[u8; 32], accounts: &[AccountState], clock: Result<i64, u64>) -> (r:
    Result<Effects, EscrowError>)
    ensures
        outcome_view(r) == cancel_escrow_spec(program_id@, accounts@, clock),
{
    if accounts.len() < 3 {
        return Err(EscrowError::NotEnoughAccountKeys);
    }
    let canceller = &accounts[0];
    let escrow = &accounts[1];
    let buyer = &accounts[2];

    if !canceller.is_signer {
        return Err(EscrowError::MissingRequiredSignature);
    }
    if !canceller.is_writable || !escrow.is_writable || !buyer.is_writable {
        return Err(EscrowError::InvalidAccountData);
    }
    if !keys_equal(&escrow.owner, program_id) {
        return Err(EscrowError::IllegalOwner);
    }
    if escrow.data.len() < VAULT_LEN {
        return Err(EscrowError::InvalidAccountData);
    }
    let vault = EscrowVault::load(escrow.data.as_slice());

    // The buyer account given must be the one stored in the vault.
    if !keys_equal(&buyer.key, &vault.buyer) {
        return Err(EscrowError::Unauthorized);
    }
    let now = match clock {
        Ok(t) => t,
        Err(code) => return Err(EscrowError::Runtime(code)),
    };
    let is_authority = keys_equal(&canceller.key, &vault.authority);
    let is_expired = now > vault.cancel_after;
    if !is_authority && !is_expired {
        return Err(EscrowError::TooEarlyToCancel);
    }

    let total = escrow.lamports;
    let rent_portion = match total.checked_sub(vault.amount) {
        Some(v) => v,
        None => return Err(EscrowError::ArithmeticOverflow),
    };
    // A buyer cancelling their own escrow occupies two slots with one account:
    // a single combined write keeps the escrowed lamports from being lost.
    let is_self_cancel = keys_equal(&canceller.key, &buyer.key);
    let credit = if is_self_cancel {
        total
    } else {
        vault.amount
    };
    let new_buyer = match buyer.lamports.checked_add(credit) {
        Some(v) => v,
        None => return Err(EscrowError::ArithmeticOverflow),
    };
    let mut lamport_writes: Vec<LamportWrite> = Vec::new();
    lamport_writes.push(LamportWrite { account: 1, lamports: 0 });
    lamport_writes.push(LamportWrite { account: 2, lamports: new_buyer });
    if !is_self_cancel {
        let new_canceller = match canceller.lamports.checked_add(rent_portion) {
            Some(v) => v,
            None => return Err(EscrowError::ArithmeticOverflow),
        };
        lamport_writes.push(LamportWrite { account: 0, lamports: new_canceller });
    }
    let event = EscrowEvent {
        event_type: EVENT_ESCROW_CANCELLED,
        flags: if is_authority {
            FLAG_CANCEL_AUTHORITY
        } else {
            FLAG_CANCEL_PERMISSIONLESS
        },
        buyer: vault.buyer,
        escrow_pda: escrow.key,
        counterparty: canceller.key,
        amount: vault.amount,
        timestamp_or_cancel_after: now,
        launch_id: vault.launch_id,
        nonce: vault.nonce,
        bump: vault.bump,
    };
    let fx = Effects {
        create_account: None,
        lamport_writes,
        data_write: None,
        event,
        zero_data: Some(1),
    };
    assert(fx@.lamport_writes =~= cancelled_effects(accounts@, vault@, now).lamport_writes);
    Ok(fx)
}

// ── dispatch ─────────────────────────────────────────────────────────────────
/// The runtime's code for an unsupported sysvar, the only error that reading the
/// clock reports.
pub const UNSUPPORTED_SYSVAR_CODE: u64 = 73014444032;

/// What reading the cluster clock can give back: any timestamp, or the
/// unsupported-sysvar error.
pub open spec fn is_clock_outcome(clock: Result<i64, u64>) -> bool {
    clock matches Err(code) ==> code == UNSUPPORTED_SYSVAR_CODE
}

/// Reads the cluster clock through pinocchio's `Clock::get` and gives back its
/// `unix_timestamp`, or the numeric code of the error it reported. The
/// timestamp is whatever the runtime holds: nothing is claimed of it. The only
/// error that `Clock::get` produces is `UnsupportedSysvar` (always so off-chain).
#[verifier::external_body]
fn read_clock() -> (r: Result<i64, u64>)
    ensures
        is_clock_outcome(r),
{
    match Clock::get() {
        Ok(clock) => Ok(clock.unix_timestamp),
        Err(e) => Err(u64::from(e)),
    }
}

/// The outcome of an instruction: its first byte selects `create_escrow` (0),
/// `finish_escrow` (1) or `cancel_escrow` (2); the rest are the arguments.
pub open spec fn process_instruction_spec(
    program_id: Seq<u8>,
    accounts: Seq<AccountState>,
    data: Seq<u8>,
    platform_authority: Seq<u8>,
    clock: Result<i64, u64>,
) -> Result<EffectsModel, EscrowError> {
    if data.len() == 0 {
        Err(EscrowError::InvalidInstructionData)
    } else if data[0] == 0 {
        create_escrow_spec(program_id, accounts, data.drop_first(), platform_authority, clock)
    } else if data[0] == 1 {
        finish_escrow_spec(program_id, accounts, clock)
    } else if data[0] == 2 {
        cancel_escrow_spec(program_id, accounts, clock)
    } else {
        Err(EscrowError::InvalidInstructionData)
    }
}

/// Decides an instruction, given the outcome of reading the cluster clock.
pub fn process_instruction_with_clock(
    program_id: &[u8; 32],
    accounts: &[AccountState],
    data: &[u8],
    platform_authority: &[u8; 32],
    clock: Result<i64, u64>,
) -> (r: Result<Effects, EscrowError>)
    ensures
        outcome_view(r) == process_instruction_spec(
            program_id@,
            accounts@,
            data@,
            platform_authority@,
            clock,
        ),
{
    if data.len() == 0 {
        return Err(EscrowError::InvalidInstructionData);
    }
    let disc = data[0];
    let rest = vstd::slice::slice_subrange(data, 1, data.len());
    assert(rest@ =~= data@.drop_first());
    match disc {
        0 => create_escrow(program_id, accounts, rest, platform_authority, clock),
        1 => finish_escrow(program_id, accounts, clock),
        2 => cancel_escrow(program_id, accounts, clock),
        _ => Err(EscrowError::InvalidInstructionData),
    }
}

/// Decides an instruction for the program with the given platform authority,
/// reading the cluster clock for it.
pub fn process_instruction(
    program_id: &[u8; 32],
    accounts: &[AccountState],
    data: &[u8],
    platform_authority: &[u8; 32],
) -> (r: Result<Effects, EscrowError>)
    ensures
        exists|clock: Result<i64, u64>|
            is_clock_outcome(clock) && outcome_view(r) == process_instruction_spec(
                program_id@,
                accounts@,
                data@,
                platform_authority@,
                clock,
            ),
{
    let clock = read_clock();
    process_instruction_with_clock(program_id, accounts, data, platform_authority, clock)
}

} // verus!

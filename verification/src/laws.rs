//! Properties of the program that span its instructions and its layouts.
use crate::errors::EscrowError;
use crate::events::{
    EVENT_ESCROW_CANCELLED, EVENT_ESCROW_FINISHED, FLAG_CANCEL_AUTHORITY, FLAG_CANCEL_PERMISSIONLESS,
};
use crate::instruction::{decode_create_args, CREATE_ARGS_LEN};
use crate::processor::{
    cancel_escrow_spec, create_escrow_spec, created_vault, finish_escrow_spec,
    process_instruction_spec, rent_lamports, AccountState, EffectsModel, LamportWrite,
    MAX_ESCROW_DURATION,
};
use crate::state::{
    decode_vault, encode_vault, lemma_vault_decode_encode, lemma_vault_field_bytes, VAULT_LEN,
};
use vstd::bytes::{spec_u64_from_le_bytes, spec_u64_to_le_bytes};
use vstd::prelude::*;

verus! {

/// The lamports that a list of balance writes sets, added up.
pub open spec fn written_total(writes: Seq<LamportWrite>) -> int
    decreases writes.len(),
{
    if writes.len() == 0 {
        0
    } else {
        writes.last().lamports + written_total(writes.drop_last())
    }
}

/// The lamports that the accounts named by a list of balance writes held before.
pub open spec fn held_total(accounts: Seq<AccountState>, writes: Seq<LamportWrite>) -> int
    decreases writes.len(),
{
    if writes.len() == 0 {
        0
    } else {
        accounts[writes.last().account as int].lamports + held_total(accounts, writes.drop_last())
    }
}

/// No account is written twice, and every written account exists.
pub open spec fn writes_distinct(accounts: Seq<AccountState>, writes: Seq<LamportWrite>) -> bool {
    &&& forall|i: int| 0 <= i < writes.len() ==> #[trigger] writes[i].account < accounts.len()
    &&& forall|i: int, j: int|
        0 <= i < j < writes.len() ==> #[trigger] writes[i].account != #[trigger] writes[j].account
}

/// The balance that a list of writes gives account `i`, if it writes it.
pub open spec fn written_balance(writes: Seq<LamportWrite>, i: usize) -> Option<u64> {
    if exists|k: int| 0 <= k < writes.len() && writes[k].account == i {
        let k = choose|k: int| 0 <= k < writes.len() && writes[k].account == i;
        Some(writes[k].lamports)
    } else {
        None
    }
}

/// Finishing conserves lamports: the authority, escrow and destination end with
/// as many lamports together as they held; the escrow is emptied, the
/// destination gains exactly the escrowed amount, and the authority the rest.
pub proof fn lemma_finish_conserves_lamports(
    program_id: Seq<u8>,
    accounts: Seq<AccountState>,
    clock: Result<i64, u64>,
)
    requires
        finish_escrow_spec(program_id, accounts, clock) is Ok,
    ensures
        ({
            let fx = finish_escrow_spec(program_id, accounts, clock)->Ok_0;
            let vault = decode_vault(accounts[1].data@);
            &&& writes_distinct(accounts, fx.lamport_writes)
            &&& written_total(fx.lamport_writes) == held_total(accounts, fx.lamport_writes)
            &&& held_total(accounts, fx.lamport_writes) == accounts[0].lamports
                + accounts[1].lamports + accounts[2].lamports
            &&& written_balance(fx.lamport_writes, 1) == Some(0u64)
            &&& written_balance(fx.lamport_writes, 2) == Some(
                (accounts[2].lamports + vault.amount) as u64,
            )
            &&& written_balance(fx.lamport_writes, 0) == Some(
                (accounts[0].lamports + accounts[1].lamports - vault.amount) as u64,
            )
        }),
{
    let fx = finish_escrow_spec(program_id, accounts, clock)->Ok_0;
    let ws = fx.lamport_writes;
    reveal_with_fuel(written_total, 4);
    reveal_with_fuel(held_total, 4);
    assert(ws.drop_last().drop_last().drop_last() =~= Seq::<LamportWrite>::empty());
    assert(ws[1].account == 2);
    assert(ws[2].account == 0);
    assert(ws[0].account == 1);
}

/// Only the stored authority, signing, can finish an escrow, only in favour of
/// the stored destination, and only on a vault that this program owns.
pub proof fn lemma_finish_authorized(
    program_id: Seq<u8>,
    accounts: Seq<AccountState>,
    clock: Result<i64, u64>,
)
    requires
        finish_escrow_spec(program_id, accounts, clock) is Ok,
    ensures
        accounts.len() >= 3,
        accounts[0].is_signer,
        accounts[1].owner@ == program_id,
        accounts[1].data@.len() >= VAULT_LEN,
        accounts[0].key@ == decode_vault(accounts[1].data@).authority,
        accounts[2].key@ == decode_vault(accounts[1].data@).destination,
        accounts[0].key@ != accounts[2].key@,
{
}

/// Cancelling is allowed to the stored authority at any time and to anyone once
/// `cancel_after` has passed, always in favour of the stored buyer; the event
/// records which of the two paths was taken.
pub proof fn lemma_cancel_authorized(
    program_id: Seq<u8>,
    accounts: Seq<AccountState>,
    now: i64,
)
    requires
        cancel_escrow_spec(program_id, accounts, Ok(now)) is Ok,
    ensures
        ({
            let vault = decode_vault(accounts[1].data@);
            let fx = cancel_escrow_spec(program_id, accounts, Ok(now))->Ok_0;
            &&& accounts[0].is_signer
            &&& accounts[1].owner@ == program_id
            &&& accounts[2].key@ == vault.buyer
            &&& (accounts[0].key@ == vault.authority || now > vault.cancel_after)
            &&& fx.event.event_type == EVENT_ESCROW_CANCELLED
            &&& fx.event.flags == if accounts[0].key@ == vault.authority {
                FLAG_CANCEL_AUTHORITY
            } else {
                FLAG_CANCEL_PERMISSIONLESS
            }
        }),
{
}

/// Before `cancel_after` has passed, anyone but the stored authority is refused
/// with `TooEarlyToCancel` once the vault and buyer checks pass.
pub proof fn lemma_cancel_too_early(program_id: Seq<u8>, accounts: Seq<AccountState>, now: i64)
    requires
        accounts.len() >= 3,
        accounts[0].is_signer,
        accounts[0].is_writable && accounts[1].is_writable && accounts[2].is_writable,
        accounts[1].owner@ == program_id,
        accounts[1].data@.len() >= VAULT_LEN,
        accounts[2].key@ == decode_vault(accounts[1].data@).buyer,
        accounts[0].key@ != decode_vault(accounts[1].data@).authority,
        now <= decode_vault(accounts[1].data@).cancel_after,
    ensures
        cancel_escrow_spec(program_id, accounts, Ok(now)) == Err::<EffectsModel, EscrowError>(
            EscrowError::TooEarlyToCancel,
        ),
{
}

/// Cancelling conserves lamports and refunds the buyer: the escrow is emptied,
/// the buyer gains the escrowed amount (everything, when the buyer cancels),
/// and a different canceller gains the rent.
pub proof fn lemma_cancel_conserves_lamports(
    program_id: Seq<u8>,
    accounts: Seq<AccountState>,
    clock: Result<i64, u64>,
)
    requires
        cancel_escrow_spec(program_id, accounts, clock) is Ok,
    ensures
        ({
            let fx = cancel_escrow_spec(program_id, accounts, clock)->Ok_0;
            let vault = decode_vault(accounts[1].data@);
            let self_cancel = accounts[0].key@ == accounts[2].key@;
            &&& writes_distinct(accounts, fx.lamport_writes)
            &&& written_total(fx.lamport_writes) == held_total(accounts, fx.lamport_writes)
            &&& written_balance(fx.lamport_writes, 1) == Some(0u64)
            &&& self_cancel ==> {
                &&& held_total(accounts, fx.lamport_writes) == accounts[1].lamports
                    + accounts[2].lamports
                &&& written_balance(fx.lamport_writes, 2) == Some(
                    (accounts[2].lamports + accounts[1].lamports) as u64,
                )
                &&& written_balance(fx.lamport_writes, 0) is None
            }
            &&& !self_cancel ==> {
                &&& held_total(accounts, fx.lamport_writes) == accounts[0].lamports
                    + accounts[1].lamports + accounts[2].lamports
                &&& written_balance(fx.lamport_writes, 2) == Some(
                    (accounts[2].lamports + vault.amount) as u64,
                )
                &&& written_balance(fx.lamport_writes, 0) == Some(
                    (accounts[0].lamports + accounts[1].lamports - vault.amount) as u64,
                )
            }
        }),
{
    let fx = cancel_escrow_spec(program_id, accounts, clock)->Ok_0;
    let ws = fx.lamport_writes;
    reveal_with_fuel(written_total, 4);
    reveal_with_fuel(held_total, 4);
    if accounts[0].key@ == accounts[2].key@ {
        assert(ws.drop_last().drop_last() =~= Seq::<LamportWrite>::empty());
        assert(ws[0].account == 1);
        assert(ws[1].account == 2);
        assert(!(exists|k: int| 0 <= k < ws.len() && ws[k].account == 0usize));
    } else {
        assert(ws.drop_last().drop_last().drop_last() =~= Seq::<LamportWrite>::empty());
        assert(ws[0].account == 1);
        assert(ws[1].account == 2);
        assert(ws[2].account == 0);
    }
}

/// An escrow is only created when the buyer and the platform authority sign,
/// the amount is positive and `cancel_after` lies in the next 60 days; the new
/// account is funded with the rent plus the amount.
pub proof fn lemma_create_accepted(
    program_id: Seq<u8>,
    accounts: Seq<AccountState>,
    data: Seq<u8>,
    platform_authority: Seq<u8>,
    now: i64,
)
    requires
        create_escrow_spec(program_id, accounts, data, platform_authority, Ok(now)) is Ok,
    ensures
        ({
            let args = decode_create_args(data);
            let fx = create_escrow_spec(program_id, accounts, data, platform_authority, Ok(now))->Ok_0;
            &&& accounts[0].is_signer && accounts[2].is_signer
            &&& accounts[2].key@ == platform_authority
            &&& args.amount > 0
            &&& now < args.cancel_after <= now + MAX_ESCROW_DURATION
            &&& fx.create_account matches Some(call) && call.lamports == rent_lamports()
                + args.amount && call.owner == program_id && call.space == VAULT_LEN
        }),
{
}

/// What `create_escrow` stores is what `finish_escrow` and `cancel_escrow` read
/// back: the stored bytes decode to the buyer, destination and platform
/// authority of the creation, with its amount, deadline, launch, nonce and bump.
pub proof fn lemma_created_vault_reads_back(
    program_id: Seq<u8>,
    accounts: Seq<AccountState>,
    data: Seq<u8>,
    platform_authority: Seq<u8>,
    clock: Result<i64, u64>,
)
    requires
        create_escrow_spec(program_id, accounts, data, platform_authority, clock) is Ok,
    ensures
        ({
            let fx = create_escrow_spec(program_id, accounts, data, platform_authority, clock)->Ok_0;
            let args = decode_create_args(data);
            let stored = decode_vault(fx.data_write->Some_0.bytes);
            &&& fx.data_write is Some
            &&& fx.data_write->Some_0.bytes.len() == VAULT_LEN
            &&& stored == created_vault(accounts, args)
            &&& stored.buyer == accounts[0].key@
            &&& stored.destination == accounts[1].key@
            &&& stored.authority == platform_authority
            &&& stored.amount == args.amount
            &&& stored.cancel_after == args.cancel_after
        }),
{
    let args = decode_create_args(data);
    lemma_vault_decode_encode(created_vault(accounts, args));
}

/// An empty instruction, or one whose first byte is not 0, 1 or 2, is refused
/// as invalid instruction data, whatever the accounts and the clock.
pub proof fn lemma_unknown_instruction_refused(
    program_id: Seq<u8>,
    accounts: Seq<AccountState>,
    data: Seq<u8>,
    platform_authority: Seq<u8>,
    clock: Result<i64, u64>,
)
    requires
        data.len() == 0 || data[0] > 2,
    ensures
        process_instruction_spec(program_id, accounts, data, platform_authority, clock) == Err::<
            EffectsModel,
            EscrowError,
        >(EscrowError::InvalidInstructionData),
{
}

/// The key of all zero bytes, which a zeroed vault stores in every key field.
pub open spec fn zero_key() -> Seq<u8> {
    Seq::new(32, |i: int| 0u8)
}

/// Account data of which every byte is zero: what a payout leaves in the escrow.
pub open spec fn all_zero(data: Seq<u8>) -> bool {
    forall|i: int| 0 <= i < data.len() ==> data[i] == 0u8
}

/// An escrow pays out at most once: once finished or cancelled its data is all
/// zeros, and `finish_escrow` on it is refused (moving no lamports) for any
/// authority other than the zero key; when the account checks pass, the refusal
/// is `Unauthorized`, since the stored authority is now the zero key.
pub proof fn lemma_zeroed_escrow_cannot_finish(
    program_id: Seq<u8>,
    accounts: Seq<AccountState>,
    clock: Result<i64, u64>,
)
    requires
        accounts.len() >= 3,
        all_zero(accounts[1].data@),
        accounts[0].key@ != zero_key(),
    ensures
        finish_escrow_spec(program_id, accounts, clock) is Err,
        ({
            &&& accounts[0].is_signer
            &&& accounts[0].is_writable && accounts[1].is_writable && accounts[2].is_writable
            &&& accounts[0].key@ != accounts[2].key@
            &&& accounts[1].owner@ == program_id
            &&& accounts[1].data@.len() >= VAULT_LEN
        }) ==> finish_escrow_spec(program_id, accounts, clock) == Err::<EffectsModel, EscrowError>(
            EscrowError::Unauthorized,
        ),
{
    if accounts[1].data@.len() >= VAULT_LEN {
        assert(decode_vault(accounts[1].data@).authority =~= zero_key());
    }
}

/// An escrow is refunded at most once, and never after a payout: on all-zero
/// escrow data `cancel_escrow` is refused (moving no lamports) for any buyer
/// account other than the zero key; when the account checks pass, the refusal
/// is `Unauthorized`, since the stored buyer is now the zero key.
pub proof fn lemma_zeroed_escrow_cannot_cancel(
    program_id: Seq<u8>,
    accounts: Seq<AccountState>,
    clock: Result<i64, u64>,
)
    requires
        accounts.len() >= 3,
        all_zero(accounts[1].data@),
        accounts[2].key@ != zero_key(),
    ensures
        cancel_escrow_spec(program_id, accounts, clock) is Err,
        ({
            &&& accounts[0].is_signer
            &&& accounts[0].is_writable && accounts[1].is_writable && accounts[2].is_writable
            &&& accounts[1].owner@ == program_id
            &&& accounts[1].data@.len() >= VAULT_LEN
        }) ==> cancel_escrow_spec(program_id, accounts, clock) == Err::<EffectsModel, EscrowError>(
            EscrowError::Unauthorized,
        ),
{
    if accounts[1].data@.len() >= VAULT_LEN {
        assert(decode_vault(accounts[1].data@).buyer =~= zero_key());
    }
}

/// The platform authority may cancel at any time, and anyone may cancel once
/// `cancel_after` has passed: whenever the canceller's key is the authority
/// stored in bytes 72..104 of the vault, or the clock is past the deadline
/// stored in bytes 112..120, and the account and balance checks pass, the cancel
/// is accepted. It empties the escrow, credits the buyer with the amount stored in
/// bytes 104..112 (with everything when the buyer cancels, in a single write),
/// credits any other canceller with the rest, and logs a cancel event flagged by
/// who cancelled.
pub proof fn lemma_cancel_accepted(
    program_id: Seq<u8>,
    accounts: Seq<AccountState>,
    now: i64,
)
    requires
        accounts.len() >= 3,
        accounts[0].is_signer,
        accounts[0].is_writable && accounts[1].is_writable && accounts[2].is_writable,
        accounts[1].owner@ == program_id,
        accounts[1].data@.len() >= VAULT_LEN,
        accounts[2].key@ == accounts[1].data@.subrange(8, 40),
        accounts[0].key@ == accounts[1].data@.subrange(72, 104) || now
            > spec_u64_from_le_bytes(accounts[1].data@.subrange(112, 120)) as i64,
        accounts[1].lamports >= spec_u64_from_le_bytes(accounts[1].data@.subrange(104, 112)),
        accounts[0].key@ == accounts[2].key@ ==> accounts[2].lamports + accounts[1].lamports
            <= u64::MAX,
        accounts[0].key@ != accounts[2].key@ ==> {
            &&& accounts[2].lamports + spec_u64_from_le_bytes(accounts[1].data@.subrange(104, 112))
                <= u64::MAX
            &&& accounts[0].lamports + accounts[1].lamports - spec_u64_from_le_bytes(
                accounts[1].data@.subrange(104, 112),
            ) <= u64::MAX
        },
    ensures
        ({
            let r = cancel_escrow_spec(program_id, accounts, Ok(now));
            let d = accounts[1].data@;
            let amount = spec_u64_from_le_bytes(d.subrange(104, 112));
            let fx = r->Ok_0;
            let ws = fx.lamport_writes;
            &&& r is Ok
            &&& ws[0] == LamportWrite { account: 1, lamports: 0 }
            &&& accounts[0].key@ == accounts[2].key@ ==> {
                &&& ws.len() == 2
                &&& ws[1] == LamportWrite {
                    account: 2,
                    lamports: (accounts[2].lamports + accounts[1].lamports) as u64,
                }
            }
            &&& accounts[0].key@ != accounts[2].key@ ==> {
                &&& ws.len() == 3
                &&& ws[1] == LamportWrite {
                    account: 2,
                    lamports: (accounts[2].lamports + amount) as u64,
                }
                &&& ws[2] == LamportWrite {
                    account: 0,
                    lamports: (accounts[0].lamports + accounts[1].lamports - amount) as u64,
                }
            }
            &&& fx.create_account is None
            &&& fx.data_write is None
            &&& fx.zero_data == Some(1usize)
            &&& fx.event.event_type == EVENT_ESCROW_CANCELLED
            &&& fx.event.flags == if accounts[0].key@ == d.subrange(72, 104) {
                FLAG_CANCEL_AUTHORITY
            } else {
                FLAG_CANCEL_PERMISSIONLESS
            }
            &&& fx.event.buyer == d.subrange(8, 40)
            &&& fx.event.escrow_pda == accounts[1].key@
            &&& fx.event.counterparty == accounts[0].key@
            &&& fx.event.amount == amount
            &&& fx.event.timestamp_or_cancel_after == now
            &&& fx.event.launch_id == d.subrange(120, 152)
        }),
{
}

/// Finishing has no time limit: whenever the signer is the authority stored in
/// bytes 72..104 of the vault, the destination is the one stored in bytes 40..72,
/// the account checks pass and no balance overflows, the finish is accepted for
/// every clock value and every stored deadline. It empties the escrow, credits the
/// destination with the amount stored in bytes 104..112, gives the rest back to
/// the authority and logs a finish event.
pub proof fn lemma_finish_accepted(
    program_id: Seq<u8>,
    accounts: Seq<AccountState>,
    now: i64,
)
    requires
        accounts.len() >= 3,
        accounts[0].is_signer,
        accounts[0].is_writable && accounts[1].is_writable && accounts[2].is_writable,
        accounts[0].key@ != accounts[2].key@,
        accounts[1].owner@ == program_id,
        accounts[1].data@.len() >= VAULT_LEN,
        accounts[0].key@ == accounts[1].data@.subrange(72, 104),
        accounts[2].key@ == accounts[1].data@.subrange(40, 72),
        accounts[1].lamports >= spec_u64_from_le_bytes(accounts[1].data@.subrange(104, 112)),
        accounts[2].lamports + spec_u64_from_le_bytes(accounts[1].data@.subrange(104, 112))
            <= u64::MAX,
        accounts[0].lamports + accounts[1].lamports - spec_u64_from_le_bytes(
            accounts[1].data@.subrange(104, 112),
        ) <= u64::MAX,
    ensures
        ({
            let r = finish_escrow_spec(program_id, accounts, Ok(now));
            let d = accounts[1].data@;
            let amount = spec_u64_from_le_bytes(d.subrange(104, 112));
            let fx = r->Ok_0;
            &&& r is Ok
            &&& fx.lamport_writes == seq![
                LamportWrite { account: 1, lamports: 0 },
                LamportWrite { account: 2, lamports: (accounts[2].lamports + amount) as u64 },
                LamportWrite {
                    account: 0,
                    lamports: (accounts[0].lamports + accounts[1].lamports - amount) as u64,
                },
            ]
            &&& fx.create_account is None
            &&& fx.data_write is None
            &&& fx.zero_data == Some(1usize)
            &&& fx.event.event_type == EVENT_ESCROW_FINISHED
            &&& fx.event.flags == 0
            &&& fx.event.buyer == d.subrange(8, 40)
            &&& fx.event.escrow_pda == accounts[1].key@
            &&& fx.event.counterparty == accounts[2].key@
            &&& fx.event.amount == amount
            &&& fx.event.timestamp_or_cancel_after == now
        }),
{
}

/// The instruction data of `create_escrow` is read field by field in place:
/// amount from bytes 0..8, `cancel_after` from 8..16, the launch id as bytes
/// 16..48 in order, the nonce from 48..56 and the bump from byte 56.
pub proof fn lemma_create_args_in_place(data: Seq<u8>)
    requires
        data.len() >= CREATE_ARGS_LEN,
    ensures
        decode_create_args(data).amount == spec_u64_from_le_bytes(data.subrange(0, 8)),
        decode_create_args(data).cancel_after == spec_u64_from_le_bytes(data.subrange(8, 16)) as i64,
        decode_create_args(data).launch_id.len() == 32,
        forall|i: int| 0 <= i < 32 ==> #[trigger] decode_create_args(data).launch_id[i] == data[16 + i],
        decode_create_args(data).nonce == spec_u64_from_le_bytes(data.subrange(48, 56)),
        decode_create_args(data).bump == data[56],
{
}

/// An accepted `create_escrow` is signed with the seeds
/// `["escrow", buyer key, launch id, nonce (le), [bump]]`, every one of them the
/// very bytes given: the buyer's key in order, and bytes 16..48, 48..56 and 56 of
/// the instruction data. The vault it stores holds, at their offsets, the buyer,
/// destination and authority keys and the data's amount, deadline, launch id,
/// nonce and bump bytes unchanged; its event names the buyer, the escrow and the
/// destination.
pub proof fn lemma_create_uses_given_bytes(
    program_id: Seq<u8>,
    accounts: Seq<AccountState>,
    data: Seq<u8>,
    platform_authority: Seq<u8>,
    clock: Result<i64, u64>,
)
    requires
        create_escrow_spec(program_id, accounts, data, platform_authority, clock) is Ok,
    ensures
        ({
            let fx = create_escrow_spec(program_id, accounts, data, platform_authority, clock)->Ok_0;
            let call = fx.create_account->Some_0;
            let stored = fx.data_write->Some_0.bytes;
            &&& fx.create_account is Some
            &&& call.seeds.len() == 5
            &&& call.seeds[0] == seq![101u8, 115u8, 99u8, 114u8, 111u8, 119u8]
            &&& call.seeds[1] == accounts[0].key@
            &&& forall|i: int| 0 <= i < 32 ==> #[trigger] call.seeds[1][i] == accounts[0].key@[i]
            &&& call.seeds[2] == data.subrange(16, 48)
            &&& forall|i: int| 0 <= i < 32 ==> #[trigger] call.seeds[2][i] == data[16 + i]
            &&& call.seeds[3] == data.subrange(48, 56)
            &&& call.seeds[4] == seq![data[56]]
            &&& call.from == 0 && call.to == 3
            &&& fx.data_write is Some
            &&& fx.data_write->Some_0.account == 3
            &&& stored.len() == VAULT_LEN
            &&& forall|i: int| 0 <= i < 8 ==> #[trigger] stored[i] == 0u8
            &&& stored.subrange(8, 40) == accounts[0].key@
            &&& stored.subrange(40, 72) == accounts[1].key@
            &&& stored.subrange(72, 104) == accounts[2].key@
            &&& stored.subrange(104, 112) == data.subrange(0, 8)
            &&& stored.subrange(112, 120) == data.subrange(8, 16)
            &&& stored.subrange(120, 152) == data.subrange(16, 48)
            &&& stored.subrange(152, 160) == data.subrange(48, 56)
            &&& stored[160] == data[56]
            &&& fx.event.buyer == accounts[0].key@
            &&& fx.event.escrow_pda == accounts[3].key@
            &&& fx.event.counterparty == accounts[1].key@
            &&& fx.event.launch_id == data.subrange(16, 48)
        }),
{
    let args = decode_create_args(data);
    let m = created_vault(accounts, args);
    lemma_vault_field_bytes(m);
    vstd::bytes::lemma_auto_spec_u64_to_from_le_bytes();
    let y = spec_u64_from_le_bytes(data.subrange(8, 16));
    assert((y as i64) as u64 == y) by (bit_vector);
    assert(spec_u64_to_le_bytes(spec_u64_from_le_bytes(data.subrange(0, 8))) == data.subrange(0, 8));
    assert(spec_u64_to_le_bytes(spec_u64_from_le_bytes(data.subrange(8, 16))) == data.subrange(8, 16));
    assert(spec_u64_to_le_bytes(spec_u64_from_le_bytes(data.subrange(48, 56))) == data.subrange(48, 56));
    let stored = encode_vault(m);
    assert forall|i: int| 0 <= i < 8 implies #[trigger] stored[i] == 0u8 by {
        assert(stored[i] == stored.subrange(0, 8)[i]);
    }
    let fx = create_escrow_spec(program_id, accounts, data, platform_authority, clock)->Ok_0;
    assert(fx.create_account->Some_0.seeds[4] =~= seq![data[56]]);
}

/// The checks of `create_escrow` that come before the clock, in raw terms.
pub open spec fn create_accounts_ok(
    accounts: Seq<AccountState>,
    data: Seq<u8>,
    platform_authority: Seq<u8>,
) -> bool {
    &&& data.len() >= CREATE_ARGS_LEN
    &&& accounts.len() >= 5
    &&& accounts[0].is_signer && accounts[2].is_signer
    &&& accounts[0].is_writable && accounts[3].is_writable
    &&& accounts[2].key@ == platform_authority
}

/// A creation co-signed by buyer and platform authority, with a positive amount
/// (bytes 0..8), a deadline (bytes 8..16) in the next 60 days and a fundable
/// total, is accepted; otherwise the first failing window check decides the
/// refusal: a zero amount, then a deadline not in the future, then one too far.
pub proof fn lemma_create_window(
    program_id: Seq<u8>,
    accounts: Seq<AccountState>,
    data: Seq<u8>,
    platform_authority: Seq<u8>,
    now: i64,
)
    requires
        create_accounts_ok(accounts, data, platform_authority),
    ensures
        ({
            let amount = spec_u64_from_le_bytes(data.subrange(0, 8));
            let cancel_after = spec_u64_from_le_bytes(data.subrange(8, 16)) as i64;
            let r = create_escrow_spec(program_id, accounts, data, platform_authority, Ok(now));
            &&& amount == 0 ==> r == Err::<EffectsModel, EscrowError>(EscrowError::ZeroAmount)
            &&& amount != 0 && cancel_after <= now ==> r == Err::<EffectsModel, EscrowError>(
                EscrowError::InvalidCancelAfter,
            )
            &&& amount != 0 && cancel_after > now + 5_184_000 ==> r == Err::<
                EffectsModel,
                EscrowError,
            >(EscrowError::CancelAfterTooFar)
            &&& amount != 0 && now < cancel_after <= now + 5_184_000 && 2_011_440 + amount
                <= u64::MAX ==> r is Ok
            &&& amount != 0 && now < cancel_after <= now + 5_184_000 && 2_011_440 + amount
                > u64::MAX ==> r == Err::<EffectsModel, EscrowError>(
                EscrowError::ArithmeticOverflow,
            )
            &&& r is Ok ==> r->Ok_0.create_account->Some_0.lamports == 2_011_440 + amount
        }),
{
}

/// The first byte selects the instruction: 0 is `create_escrow` on the bytes that
/// follow, 1 is `finish_escrow` and 2 is `cancel_escrow`, whatever follows.
pub proof fn lemma_dispatch(
    program_id: Seq<u8>,
    accounts: Seq<AccountState>,
    rest: Seq<u8>,
    platform_authority: Seq<u8>,
    clock: Result<i64, u64>,
)
    ensures
        process_instruction_spec(program_id, accounts, seq![0u8] + rest, platform_authority, clock)
            == create_escrow_spec(program_id, accounts, rest, platform_authority, clock),
        process_instruction_spec(program_id, accounts, seq![1u8] + rest, platform_authority, clock)
            == finish_escrow_spec(program_id, accounts, clock),
        process_instruction_spec(program_id, accounts, seq![2u8] + rest, platform_authority, clock)
            == cancel_escrow_spec(program_id, accounts, clock),
{
    assert((seq![0u8] + rest).drop_first() =~= rest);
}

/// The program's own errors are reported under the codes 6000 to 6004, and the
/// runtime's builtin errors under none.
pub proof fn lemma_custom_codes()
    ensures
        EscrowError::ZeroAmount.spec_custom_code() == Some(6000u32),
        EscrowError::InvalidCancelAfter.spec_custom_code() == Some(6001u32),
        EscrowError::CancelAfterTooFar.spec_custom_code() == Some(6002u32),
        EscrowError::TooEarlyToCancel.spec_custom_code() == Some(6003u32),
        EscrowError::Unauthorized.spec_custom_code() == Some(6004u32),
        EscrowError::InvalidInstructionData.spec_custom_code() is None,
        EscrowError::NotEnoughAccountKeys.spec_custom_code() is None,
        EscrowError::MissingRequiredSignature.spec_custom_code() is None,
        EscrowError::InvalidAccountData.spec_custom_code() is None,
        EscrowError::IllegalOwner.spec_custom_code() is None,
        EscrowError::ArithmeticOverflow.spec_custom_code() is None,
        forall|code: u64| #[trigger] EscrowError::Runtime(code).spec_custom_code() == None::<u32>,
{
}

} // verus!

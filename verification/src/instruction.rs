//! Instruction data and the escrow's address seeds.
use crate::codec::{push_bytes, read_array};
use crate::state::i64_from_le;
use vstd::bytes::*;
use vstd::prelude::*;

verus! {

/// Byte length of the `create_escrow` arguments that follow the discriminant.
pub const CREATE_ARGS_LEN: usize = 57;

/// The arguments of `create_escrow`, little-endian after the discriminant:
///   [0..8] amount u64, [8..16] cancel_after i64, [16..48] launch_id,
///   [48..56] nonce u64, [56] bump u8.
#[derive(Clone, Copy)]
pub struct CreateArgs {
    /// Lamports to lock (excluding rent).
    pub amount: u64,
    /// Unix timestamp after which anyone may cancel.
    pub cancel_after: i64,
    pub launch_id: [u8; 32],
    /// Unique per (buyer, launch).
    pub nonce: u64,
    /// Canonical bump of the escrow's program address.
    pub bump: u8,
}

/// The arguments as mathematical values.
pub struct CreateArgsModel {
    pub amount: u64,
    pub cancel_after: i64,
    pub launch_id: Seq<u8>,
    pub nonce: u64,
    pub bump: u8,
}

impl View for CreateArgs {
    type V = CreateArgsModel;

    open spec fn view(&self) -> CreateArgsModel {
        CreateArgsModel {
            amount: self.amount,
            cancel_after: self.cancel_after,
            launch_id: self.launch_id@,
            nonce: self.nonce,
            bump: self.bump,
        }
    }
}

/// The arguments that the first `CREATE_ARGS_LEN` bytes of `s` hold.
pub open spec fn decode_create_args(s: Seq<u8>) -> CreateArgsModel {
    CreateArgsModel {
        amount: spec_u64_from_le_bytes(s.subrange(0, 8)),
        cancel_after: i64_from_le(s.subrange(8, 16)),
        launch_id: s.subrange(16, 48),
        nonce: spec_u64_from_le_bytes(s.subrange(48, 56)),
        bump: s[56],
    }
}

/// Reads the `create_escrow` arguments; `None` when fewer than `CREATE_ARGS_LEN`
/// bytes are given (bytes past them are ignored).
pub fn parse_create_args(data: &[u8]) -> (r: Option<CreateArgs>)
    ensures
        r is None <==> data@.len() < CREATE_ARGS_LEN,
        r matches Some(a) ==> a@ == decode_create_args(data@),
        r matches Some(a) ==> {
            &&& a.amount == spec_u64_from_le_bytes(data@.subrange(0, 8))
            &&& a.cancel_after == spec_u64_from_le_bytes(data@.subrange(8, 16)) as i64
            &&& a.launch_id@ == data@.subrange(16, 48)
            &&& forall|i: int| 0 <= i < 32 ==> #[trigger] a.launch_id@[i] == data@[16 + i]
            &&& a.nonce == spec_u64_from_le_bytes(data@.subrange(48, 56))
            &&& a.bump == data@[56]
        },
{
    if data.len() < CREATE_ARGS_LEN {
        return None;
    }
    let amount = u64_from_le_bytes(vstd::slice::slice_subrange(data, 0, 8));
    let cancel_after = u64_from_le_bytes(vstd::slice::slice_subrange(data, 8, 16)) as i64;
    let launch_id = read_array::<32>(data, 16);
    let nonce = u64_from_le_bytes(vstd::slice::slice_subrange(data, 48, 56));
    Some(CreateArgs { amount, cancel_after, launch_id, nonce, bump: data[56] })
}

/// The first seed of every escrow address: the bytes of `"escrow"`.
pub open spec fn escrow_seed_prefix() -> Seq<u8> {
    seq![101u8, 115u8, 99u8, 114u8, 111u8, 119u8]
}

/// The seeds that sign for the escrow's program address:
/// `["escrow", buyer, launch_id, nonce (le), [bump]]`.
pub open spec fn escrow_seeds_spec(buyer: Seq<u8>, launch_id: Seq<u8>, nonce: u64, bump: u8) -> Seq<
    Seq<u8>,
> {
    seq![escrow_seed_prefix(), buyer, launch_id, spec_u64_to_le_bytes(nonce), seq![bump]]
}

/// Builds the signer seeds of an escrow's program address.
pub fn escrow_seeds(buyer: &[u8; 32], launch_id: &[u8; 32], nonce: u64, bump: u8) -> (r: Vec<
    Vec<u8>,
>)
    ensures
        r.deep_view() == escrow_seeds_spec(buyer@, launch_id@, nonce, bump),
        r@.len() == 5,
        r@[0]@ == seq![101u8, 115u8, 99u8, 114u8, 111u8, 119u8],
        r@[1]@ == buyer@,
        forall|i: int| 0 <= i < 32 ==> #[trigger] r@[1]@[i] == buyer@[i],
        r@[2]@ == launch_id@,
        forall|i: int| 0 <= i < 32 ==> #[trigger] r@[2]@[i] == launch_id@[i],
        spec_u64_from_le_bytes(r@[3]@) == nonce,
        r@[3]@.len() == 8,
        r@[4]@ == seq![bump],
{
    proof {
        vstd::bytes::lemma_auto_spec_u64_to_from_le_bytes();
    }
    let prefix: Vec<u8> = vec![101u8, 115u8, 99u8, 114u8, 111u8, 119u8];
    let mut buyer_seed: Vec<u8> = Vec::new();
    push_bytes(&mut buyer_seed, buyer.as_slice());
    let mut launch_seed: Vec<u8> = Vec::new();
    push_bytes(&mut launch_seed, launch_id.as_slice());
    let nonce_seed = u64_to_le_bytes(nonce);
    let bump_seed: Vec<u8> = vec![bump];
    let mut seeds: Vec<Vec<u8>> = Vec::new();
    seeds.push(prefix);
    seeds.push(buyer_seed);
    seeds.push(launch_seed);
    seeds.push(nonce_seed);
    seeds.push(bump_seed);
    assert(seeds.deep_view()[0] =~= escrow_seed_prefix());
    assert(seeds.deep_view()[1] =~= buyer@);
    assert(seeds.deep_view()[2] =~= launch_id@);
    assert(seeds.deep_view()[3] =~= spec_u64_to_le_bytes(nonce));
    assert(seeds.deep_view()[4] =~= seq![bump]);
    assert(seeds.deep_view() =~= escrow_seeds_spec(buyer@, launch_id@, nonce, bump));
    seeds
}

} // verus!

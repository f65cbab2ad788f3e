//! The escrow vault: the program's on-chain account and its byte layout.
use crate::codec::{push_bytes, read_array};
use vstd::bytes::*;
use vstd::prelude::*;

verus! {

/// Byte length of the vault account (discriminator and fields, no padding).
pub const VAULT_LEN: usize = 161;

/// The state an escrow keeps on chain.
///
/// PDA seeds: `[b"escrow", buyer (32), launch_id (32), nonce_le (8)]` plus the bump.
///
/// Layout of its 161 bytes, little-endian:
///   offset   0 –   7 : discriminator [u8; 8]  (zeros)
///   offset   8 –  39 : buyer        public key
///   offset  40 –  71 : destination  public key
///   offset  72 – 103 : authority    public key
///   offset 104 – 111 : amount       u64
///   offset 112 – 119 : cancel_after i64
///   offset 120 – 151 : launch_id    [u8; 32]
///   offset 152 – 159 : nonce        u64
///   offset 160       : bump         u8
#[derive(Clone, Copy)]
pub struct EscrowVault {
    pub _discriminator: [u8; 8],
    pub buyer: [u8; 32],
    pub destination: [u8; 32],
    pub authority: [u8; 32],
    pub amount: u64,
    pub cancel_after: i64,
    pub launch_id: [u8; 32],
    pub nonce: u64,
    pub bump: u8,
}

/// The vault's fields as mathematical values: keys and identifiers as byte sequences.
pub struct VaultModel {
    pub discriminator: Seq<u8>,
    pub buyer: Seq<u8>,
    pub destination: Seq<u8>,
    pub authority: Seq<u8>,
    pub amount: u64,
    pub cancel_after: i64,
    pub launch_id: Seq<u8>,
    pub nonce: u64,
    pub bump: u8,
}

impl VaultModel {
    /// Every byte field has the length that the layout gives it.
    pub open spec fn well_formed(self) -> bool {
        &&& self.discriminator.len() == 8
        &&& self.buyer.len() == 32
        &&& self.destination.len() == 32
        &&& self.authority.len() == 32
        &&& self.launch_id.len() == 32
    }
}

impl View for EscrowVault {
    type V = VaultModel;

    open spec fn view(&self) -> VaultModel {
        VaultModel {
            discriminator: self._discriminator@,
            buyer: self.buyer@,
            destination: self.destination@,
            authority: self.authority@,
            amount: self.amount,
            cancel_after: self.cancel_after,
            launch_id: self.launch_id@,
            nonce: self.nonce,
            bump: self.bump,
        }
    }
}

/// The little-endian bytes of a signed 64-bit integer (two's complement).
pub open spec fn i64_le_bytes(x: i64) -> Seq<u8> {
    spec_u64_to_le_bytes(x as u64)
}

/// The signed 64-bit integer whose little-endian bytes are `s`.
pub open spec fn i64_from_le(s: Seq<u8>) -> i64 {
    spec_u64_from_le_bytes(s) as i64
}

/// The bytes of a vault, in the layout order.
pub open spec fn encode_vault(m: VaultModel) -> Seq<u8> {
    m.discriminator + m.buyer + m.destination + m.authority + spec_u64_to_le_bytes(m.amount)
        + i64_le_bytes(m.cancel_after) + m.launch_id + spec_u64_to_le_bytes(m.nonce) + seq![m.bump]
}

/// The vault that the first 161 bytes of `s` hold.
pub open spec fn decode_vault(s: Seq<u8>) -> VaultModel {
    VaultModel {
        discriminator: s.subrange(0, 8),
        buyer: s.subrange(8, 40),
        destination: s.subrange(40, 72),
        authority: s.subrange(72, 104),
        amount: spec_u64_from_le_bytes(s.subrange(104, 112)),
        cancel_after: i64_from_le(s.subrange(112, 120)),
        launch_id: s.subrange(120, 152),
        nonce: spec_u64_from_le_bytes(s.subrange(152, 160)),
        bump: s[160],
    }
}

impl EscrowVault {
    /// Byte length of the on-chain account.
    pub const LEN: usize = 161;

    /// Reads the vault that the first `LEN` bytes of account data hold.
    pub fn load(data: &[u8]) -> (v: EscrowVault)
        requires
            data@.len() >= VAULT_LEN,
        ensures
            v@ == decode_vault(data@),
    {
        let amount = u64_from_le_bytes(vstd::slice::slice_subrange(data, 104, 112));
        let cancel_after = u64_from_le_bytes(vstd::slice::slice_subrange(data, 112, 120)) as i64;
        let nonce = u64_from_le_bytes(vstd::slice::slice_subrange(data, 152, 160));
        EscrowVault {
            _discriminator: read_array::<8>(data, 0),
            buyer: read_array::<32>(data, 8),
            destination: read_array::<32>(data, 40),
            authority: read_array::<32>(data, 72),
            amount,
            cancel_after,
            launch_id: read_array::<32>(data, 120),
            nonce,
            bump: data[160],
        }
    }

    /// The `LEN` bytes that store this vault in an account.
    pub fn to_bytes(&self) -> (r: Vec<u8>)
        ensures
            r@ == encode_vault(self@),
    {
        let mut out: Vec<u8> = Vec::new();
        push_bytes(&mut out, self._discriminator.as_slice());
        push_bytes(&mut out, self.buyer.as_slice());
        push_bytes(&mut out, self.destination.as_slice());
        push_bytes(&mut out, self.authority.as_slice());
        let amount = u64_to_le_bytes(self.amount);
        push_bytes(&mut out, amount.as_slice());
        let cancel_after = u64_to_le_bytes(self.cancel_after as u64);
        push_bytes(&mut out, cancel_after.as_slice());
        push_bytes(&mut out, self.launch_id.as_slice());
        let nonce = u64_to_le_bytes(self.nonce);
        push_bytes(&mut out, nonce.as_slice());
        out.push(self.bump);
        assert(out@ =~= encode_vault(self@));
        out
    }
}

/// Every vault value has a well-formed model.
pub proof fn lemma_vault_view_well_formed(v: EscrowVault)
    ensures
        v@.well_formed(),
{
}

/// Reading back what was written: decoding the bytes of a well-formed vault gives
/// that vault, and its bytes are exactly `VAULT_LEN` long.
pub proof fn lemma_vault_decode_encode(m: VaultModel)
    requires
        m.well_formed(),
    ensures
        encode_vault(m).len() == VAULT_LEN,
        decode_vault(encode_vault(m)) == m,
{
    vstd::bytes::lemma_auto_spec_u64_to_from_le_bytes();
    let x = m.cancel_after;
    assert((x as u64) as i64 == x) by (bit_vector);
    let s = encode_vault(m);
    assert(s.subrange(0, 8) =~= m.discriminator);
    assert(s.subrange(8, 40) =~= m.buyer);
    assert(s.subrange(40, 72) =~= m.destination);
    assert(s.subrange(72, 104) =~= m.authority);
    assert(s.subrange(104, 112) =~= spec_u64_to_le_bytes(m.amount));
    assert(s.subrange(112, 120) =~= i64_le_bytes(m.cancel_after));
    assert(s.subrange(120, 152) =~= m.launch_id);
    assert(s.subrange(152, 160) =~= spec_u64_to_le_bytes(m.nonce));
}

/// Writing back what was read: the bytes of the vault decoded from `s` are the
/// first `VAULT_LEN` bytes of `s`.
pub proof fn lemma_vault_encode_decode(s: Seq<u8>)
    requires
        s.len() >= VAULT_LEN,
    ensures
        encode_vault(decode_vault(s)) == s.subrange(0, VAULT_LEN as int),
{
    vstd::bytes::lemma_auto_spec_u64_to_from_le_bytes();
    let y = spec_u64_from_le_bytes(s.subrange(112, 120));
    assert((y as i64) as u64 == y) by (bit_vector);
    assert(spec_u64_to_le_bytes(spec_u64_from_le_bytes(s.subrange(104, 112))) == s.subrange(104, 112));
    assert(spec_u64_to_le_bytes(spec_u64_from_le_bytes(s.subrange(112, 120))) == s.subrange(112, 120));
    assert(spec_u64_to_le_bytes(spec_u64_from_le_bytes(s.subrange(152, 160))) == s.subrange(152, 160));
    assert(encode_vault(decode_vault(s)) =~= s.subrange(0, VAULT_LEN as int));
}

/// Each field of a well-formed vault owns its own byte range of the layout, so
/// writing one field changes exactly the bytes of that range: the bytes of every
/// field are the encoding of that field alone.
pub proof fn lemma_vault_field_bytes(m: VaultModel)
    requires
        m.well_formed(),
    ensures
        encode_vault(m).len() == VAULT_LEN,
        encode_vault(m).subrange(0, 8) == m.discriminator,
        encode_vault(m).subrange(8, 40) == m.buyer,
        encode_vault(m).subrange(40, 72) == m.destination,
        encode_vault(m).subrange(72, 104) == m.authority,
        encode_vault(m).subrange(104, 112) == spec_u64_to_le_bytes(m.amount),
        encode_vault(m).subrange(112, 120) == i64_le_bytes(m.cancel_after),
        encode_vault(m).subrange(120, 152) == m.launch_id,
        encode_vault(m).subrange(152, 160) == spec_u64_to_le_bytes(m.nonce),
        encode_vault(m)[160] == m.bump,
{
    vstd::bytes::lemma_auto_spec_u64_to_from_le_bytes();
    let s = encode_vault(m);
    assert(s.subrange(0, 8) =~= m.discriminator);
    assert(s.subrange(8, 40) =~= m.buyer);
    assert(s.subrange(40, 72) =~= m.destination);
    assert(s.subrange(72, 104) =~= m.authority);
    assert(s.subrange(104, 112) =~= spec_u64_to_le_bytes(m.amount));
    assert(s.subrange(112, 120) =~= i64_le_bytes(m.cancel_after));
    assert(s.subrange(120, 152) =~= m.launch_id);
    assert(s.subrange(152, 160) =~= spec_u64_to_le_bytes(m.nonce));
}

} // verus!

//! The escrow event: a fixed 156-byte record that the program logs for indexers.
use crate::codec::put;
use crate::state::i64_le_bytes;
use vstd::bytes::*;
use vstd::prelude::*;

verus! {

/// Layout version written in the first byte of every event.
pub const EVENT_VERSION: u8 = 1;

/// Event type: an escrow was created.
pub const EVENT_ESCROW_CREATED: u8 = 0;

/// Event type: an escrow was finished (paid to its destination).
pub const EVENT_ESCROW_FINISHED: u8 = 1;

/// Event type: an escrow was cancelled (refunded to its buyer).
pub const EVENT_ESCROW_CANCELLED: u8 = 2;

/// Cancel flag: cancelled by anyone after expiry.
pub const FLAG_CANCEL_PERMISSIONLESS: u8 = 1;

/// Cancel flag: cancelled by the platform authority.
pub const FLAG_CANCEL_AUTHORITY: u8 = 2;

/// Byte length of an encoded event.
pub const EVENT_LEN: usize = 156;

/// What an event reports.
#[derive(Clone, Copy)]
pub struct EscrowEvent {
    pub event_type: u8,
    pub flags: u8,
    pub buyer: [u8; 32],
    pub escrow_pda: [u8; 32],
    pub counterparty: [u8; 32],
    pub amount: u64,
    pub timestamp_or_cancel_after: i64,
    pub launch_id: [u8; 32],
    pub nonce: u64,
    pub bump: u8,
}

/// An event's fields as mathematical values.
pub struct EventModel {
    pub event_type: u8,
    pub flags: u8,
    pub buyer: Seq<u8>,
    pub escrow_pda: Seq<u8>,
    pub counterparty: Seq<u8>,
    pub amount: u64,
    pub timestamp_or_cancel_after: i64,
    pub launch_id: Seq<u8>,
    pub nonce: u64,
    pub bump: u8,
}

impl View for EscrowEvent {
    type V = EventModel;

    open spec fn view(&self) -> EventModel {
        EventModel {
            event_type: self.event_type,
            flags: self.flags,
            buyer: self.buyer@,
            escrow_pda: self.escrow_pda@,
            counterparty: self.counterparty@,
            amount: self.amount,
            timestamp_or_cancel_after: self.timestamp_or_cancel_after,
            launch_id: self.launch_id@,
            nonce: self.nonce,
            bump: self.bump,
        }
    }
}

/// The logged bytes of an event:
///   [0] version, [1] type, [2] flags, [3..35] buyer, [35..67] escrow PDA,
///   [67..99] counterparty, [99..107] amount (le), [107..115] timestamp or
///   cancel_after (le), [115..147] launch_id, [147..155] nonce (le), [155] bump.
pub open spec fn encode_event(e: EventModel) -> Seq<u8> {
    seq![EVENT_VERSION, e.event_type, e.flags] + e.buyer + e.escrow_pda + e.counterparty
        + spec_u64_to_le_bytes(e.amount) + i64_le_bytes(e.timestamp_or_cancel_after) + e.launch_id
        + spec_u64_to_le_bytes(e.nonce) + seq![e.bump]
}

impl EscrowEvent {
    /// The `EVENT_LEN` bytes that the program logs for this event.
    pub fn encode(&self) -> (r: Vec<u8>)
        ensures
            r@ == encode_event(self@),
            r@.len() == EVENT_LEN,
            r@[0] == EVENT_VERSION,
            r@[1] == self.event_type,
            r@[2] == self.flags,
            forall|i: int| 0 <= i < 32 ==> #[trigger] r@[3 + i] == self.buyer@[i],
            forall|i: int| 0 <= i < 32 ==> #[trigger] r@[35 + i] == self.escrow_pda@[i],
            forall|i: int| 0 <= i < 32 ==> #[trigger] r@[67 + i] == self.counterparty@[i],
            spec_u64_from_le_bytes(r@.subrange(99, 107)) == self.amount,
            spec_u64_from_le_bytes(r@.subrange(107, 115)) as i64 == self.timestamp_or_cancel_after,
            forall|i: int| 0 <= i < 32 ==> #[trigger] r@[115 + i] == self.launch_id@[i],
            spec_u64_from_le_bytes(r@.subrange(147, 155)) == self.nonce,
            r@[155] == self.bump,
    {
        proof {
            vstd::bytes::lemma_auto_spec_u64_to_from_le_bytes();
        }
        let mut data: Vec<u8> = Vec::new();
        let mut i: usize = 0;
        while i < EVENT_LEN
            invariant
                i <= EVENT_LEN,
                data@.len() == i,
            decreases EVENT_LEN - i,
        {
            data.push(0u8);
            i = i + 1;
        }
        data.set(0, EVENT_VERSION);
        data.set(1, self.event_type);
        data.set(2, self.flags);
        put(&mut data, 3, self.buyer.as_slice());
        put(&mut data, 35, self.escrow_pda.as_slice());
        put(&mut data, 67, self.counterparty.as_slice());
        let amount_bytes = u64_to_le_bytes(self.amount);
        let timestamp_bytes = u64_to_le_bytes(self.timestamp_or_cancel_after as u64);
        let nonce_bytes = u64_to_le_bytes(self.nonce);
        put(&mut data, 99, amount_bytes.as_slice());
        put(&mut data, 107, timestamp_bytes.as_slice());
        put(&mut data, 115, self.launch_id.as_slice());
        put(&mut data, 147, nonce_bytes.as_slice());
        data.set(155, self.bump);
        assert(data@ =~= encode_event(self@));
        proof {
            lemma_event_field_bytes(self@);
        }
        data
    }
}

/// Each field of an event sits at its own offset of the encoding, in order:
/// reading the bytes of a field back gives that field.
pub proof fn lemma_event_field_bytes(e: EventModel)
    requires
        e.buyer.len() == 32,
        e.escrow_pda.len() == 32,
        e.counterparty.len() == 32,
        e.launch_id.len() == 32,
    ensures
        encode_event(e).len() == EVENT_LEN,
        encode_event(e)[0] == EVENT_VERSION,
        encode_event(e)[1] == e.event_type,
        encode_event(e)[2] == e.flags,
        forall|i: int| 0 <= i < 32 ==> #[trigger] encode_event(e)[3 + i] == e.buyer[i],
        forall|i: int| 0 <= i < 32 ==> #[trigger] encode_event(e)[35 + i] == e.escrow_pda[i],
        forall|i: int| 0 <= i < 32 ==> #[trigger] encode_event(e)[67 + i] == e.counterparty[i],
        spec_u64_from_le_bytes(encode_event(e).subrange(99, 107)) == e.amount,
        spec_u64_from_le_bytes(encode_event(e).subrange(107, 115)) as i64
            == e.timestamp_or_cancel_after,
        forall|i: int| 0 <= i < 32 ==> #[trigger] encode_event(e)[115 + i] == e.launch_id[i],
        spec_u64_from_le_bytes(encode_event(e).subrange(147, 155)) == e.nonce,
        encode_event(e)[155] == e.bump,
{
    vstd::bytes::lemma_auto_spec_u64_to_from_le_bytes();
    let s = encode_event(e);
    let x = e.timestamp_or_cancel_after;
    assert((x as u64) as i64 == x) by (bit_vector);
    assert(s.subrange(99, 107) =~= spec_u64_to_le_bytes(e.amount));
    assert(s.subrange(107, 115) =~= i64_le_bytes(e.timestamp_or_cancel_after));
    assert(s.subrange(147, 155) =~= spec_u64_to_le_bytes(e.nonce));
    assert forall|i: int| 0 <= i < 32 implies #[trigger] s[3 + i] == e.buyer[i] by {}
    assert forall|i: int| 0 <= i < 32 implies #[trigger] s[35 + i] == e.escrow_pda[i] by {}
    assert forall|i: int| 0 <= i < 32 implies #[trigger] s[67 + i] == e.counterparty[i] by {}
    assert forall|i: int| 0 <= i < 32 implies #[trigger] s[115 + i] == e.launch_id[i] by {}
}

} // verus!

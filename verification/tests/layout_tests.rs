use fair_launch_escrow::codec::{keys_equal, push_bytes, put, read_array};
use fair_launch_escrow::events::{
    EscrowEvent, EVENT_ESCROW_CANCELLED, EVENT_LEN, EVENT_VERSION, FLAG_CANCEL_AUTHORITY,
};
use fair_launch_escrow::instruction::{escrow_seeds, parse_create_args, CREATE_ARGS_LEN};
use fair_launch_escrow::state::{EscrowVault, VAULT_LEN};

fn sample_vault() -> EscrowVault {
    EscrowVault {
        _discriminator: [0u8; 8],
        buyer: [1u8; 32],
        destination: [2u8; 32],
        authority: [3u8; 32],
        amount: 0x0102_0304_0506_0708,
        cancel_after: -2,
        launch_id: [4u8; 32],
        nonce: 7,
        bump: 254,
    }
}

#[test]
fn vault_len_is_161() {
    assert_eq!(VAULT_LEN, 161);
    assert_eq!(EscrowVault::LEN, 161);
    assert_eq!(sample_vault().to_bytes().len(), 161);
}

#[test]
fn vault_bytes_follow_layout() {
    let bytes = sample_vault().to_bytes();
    assert_eq!(&bytes[0..8], &[0u8; 8]);
    assert_eq!(&bytes[8..40], &[1u8; 32]);
    assert_eq!(&bytes[40..72], &[2u8; 32]);
    assert_eq!(&bytes[72..104], &[3u8; 32]);
    assert_eq!(&bytes[104..112], &[8, 7, 6, 5, 4, 3, 2, 1]);
    assert_eq!(&bytes[112..120], &[0xfe, 0xff, 0xff, 0xff, 0xff, 0xff, 0xff, 0xff]);
    assert_eq!(&bytes[120..152], &[4u8; 32]);
    assert_eq!(&bytes[152..160], &[7, 0, 0, 0, 0, 0, 0, 0]);
    assert_eq!(bytes[160], 254);
}

#[test]
fn vault_load_reads_back_stored_bytes() {
    let v = sample_vault();
    let mut bytes = v.to_bytes();
    bytes.extend_from_slice(&[9, 9, 9]);
    let w = EscrowVault::load(&bytes);
    assert_eq!(w._discriminator, v._discriminator);
    assert_eq!(w.buyer, v.buyer);
    assert_eq!(w.destination, v.destination);
    assert_eq!(w.authority, v.authority);
    assert_eq!(w.amount, v.amount);
    assert_eq!(w.cancel_after, -2);
    assert_eq!(w.launch_id, v.launch_id);
    assert_eq!(w.nonce, 7);
    assert_eq!(w.bump, 254);
}

#[test]
fn vault_store_of_loaded_bytes_is_identity() {
    let mut data = Vec::new();
    for i in 0..161u32 {
        data.push((i * 37 % 251) as u8);
    }
    let v = EscrowVault::load(&data);
    assert_eq!(v.to_bytes(), data);
}

#[test]
fn vault_load_decodes_little_endian() {
    let mut data = vec![0u8; 161];
    data[104] = 0x10;
    data[105] = 0x27;
    data[112..120].copy_from_slice(&[0xff; 8]);
    data[152] = 1;
    data[159] = 0x80;
    let v = EscrowVault::load(&data);
    assert_eq!(v.amount, 10_000);
    assert_eq!(v.cancel_after, -1);
    assert_eq!(v.nonce, 0x8000_0000_0000_0001);
}

#[test]
fn event_bytes_follow_layout() {
    let e = EscrowEvent {
        event_type: EVENT_ESCROW_CANCELLED,
        flags: FLAG_CANCEL_AUTHORITY,
        buyer: [5u8; 32],
        escrow_pda: [6u8; 32],
        counterparty: [7u8; 32],
        amount: 1_000_000_000,
        timestamp_or_cancel_after: 1_700_000_000,
        launch_id: [8u8; 32],
        nonce: 0x0a0b,
        bump: 3,
    };
    let bytes = e.encode();
    assert_eq!(bytes.len(), EVENT_LEN);
    assert_eq!(bytes.len(), 156);
    assert_eq!(bytes[0], EVENT_VERSION);
    assert_eq!(bytes[0], 1);
    assert_eq!(bytes[1], 2);
    assert_eq!(bytes[2], 2);
    assert_eq!(&bytes[3..35], &[5u8; 32]);
    assert_eq!(&bytes[35..67], &[6u8; 32]);
    assert_eq!(&bytes[67..99], &[7u8; 32]);
    assert_eq!(&bytes[99..107], &1_000_000_000u64.to_le_bytes());
    assert_eq!(&bytes[107..115], &1_700_000_000i64.to_le_bytes());
    assert_eq!(&bytes[115..147], &[8u8; 32]);
    assert_eq!(&bytes[147..155], &[0x0b, 0x0a, 0, 0, 0, 0, 0, 0]);
    assert_eq!(bytes[155], 3);
}

#[test]
fn event_negative_timestamp_is_twos_complement() {
    let e = EscrowEvent {
        event_type: 0,
        flags: 0,
        buyer: [0u8; 32],
        escrow_pda: [0u8; 32],
        counterparty: [0u8; 32],
        amount: 0,
        timestamp_or_cancel_after: -256,
        launch_id: [0u8; 32],
        nonce: 0,
        bump: 0,
    };
    let bytes = e.encode();
    assert_eq!(&bytes[107..115], &[0x00, 0xff, 0xff, 0xff, 0xff, 0xff, 0xff, 0xff]);
}

fn create_data(amount: u64, cancel_after: i64, launch_id: [u8; 32], nonce: u64, bump: u8) -> Vec<u8> {
    let mut d = Vec::new();
    d.extend_from_slice(&amount.to_le_bytes());
    d.extend_from_slice(&cancel_after.to_le_bytes());
    d.extend_from_slice(&launch_id);
    d.extend_from_slice(&nonce.to_le_bytes());
    d.push(bump);
    d
}

#[test]
fn create_args_parse_fields() {
    let data = create_data(500, 1_700_000_123, [9u8; 32], 42, 255);
    assert_eq!(data.len(), CREATE_ARGS_LEN);
    let a = parse_create_args(&data).expect("57 bytes parse");
    assert_eq!(a.amount, 500);
    assert_eq!(a.cancel_after, 1_700_000_123);
    assert_eq!(a.launch_id, [9u8; 32]);
    assert_eq!(a.nonce, 42);
    assert_eq!(a.bump, 255);
}

#[test]
fn create_args_ignore_trailing_bytes() {
    let mut data = create_data(1, -5, [1u8; 32], 2, 3);
    data.push(77);
    let a = parse_create_args(&data).expect("58 bytes parse");
    assert_eq!(a.cancel_after, -5);
    assert_eq!(a.bump, 3);
}

#[test]
fn create_args_too_short() {
    let data = create_data(1, 2, [1u8; 32], 2, 3);
    assert!(parse_create_args(&data[..56]).is_none());
    assert!(parse_create_args(&[]).is_none());
}

#[test]
fn seeds_are_escrow_buyer_launch_nonce_bump() {
    let seeds = escrow_seeds(&[1u8; 32], &[2u8; 32], 0x0102, 9);
    assert_eq!(seeds.len(), 5);
    assert_eq!(seeds[0], b"escrow".to_vec());
    assert_eq!(seeds[1], vec![1u8; 32]);
    assert_eq!(seeds[2], vec![2u8; 32]);
    assert_eq!(seeds[3], vec![2, 1, 0, 0, 0, 0, 0, 0]);
    assert_eq!(seeds[4], vec![9]);
}

#[test]
fn codec_helpers() {
    let a = [3u8; 32];
    let mut b = [3u8; 32];
    assert!(keys_equal(&a, &b));
    b[31] = 4;
    assert!(!keys_equal(&a, &b));
    let arr: [u8; 4] = read_array::<4>(&[1, 2, 3, 4, 5, 6], 2);
    assert_eq!(arr, [3, 4, 5, 6]);
    let mut out = vec![1u8];
    push_bytes(&mut out, &[2, 3]);
    assert_eq!(out, vec![1, 2, 3]);
    let mut data = vec![0u8; 6];
    put(&mut data, 2, &[7, 8]);
    assert_eq!(data, vec![0, 0, 7, 8, 0, 0]);
}

#[test]
fn vault_field_write_touches_only_its_bytes() {
    let v = sample_vault();
    let before = v.to_bytes();
    let mut w = v;
    w.amount = 99;
    let after = w.to_bytes();
    assert_eq!(&after[104..112], &99u64.to_le_bytes());
    assert_eq!(&after[..104], &before[..104]);
    assert_eq!(&after[112..], &before[112..]);
    assert_eq!(EscrowVault::load(&after).amount, 99);
    assert_eq!(EscrowVault::load(&after).nonce, v.nonce);
}

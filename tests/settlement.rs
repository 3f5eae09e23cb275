use confidential_transfer::account::{record_slot, EncryptedBalanceAccount};
use confidential_transfer::circuits;
use confidential_transfer::codec::{encode_transfer, encode_wrap};
use confidential_transfer::error::ErrorCode;
use confidential_transfer::instructions::{
    transfer_callback, wrap_callback, ComputationOutputs, TransferCallback, WrapCallback,
};

// A toy cipher standing in for the cluster's encryption, so that tests can
// read the plaintext behind a record.
fn encrypt(balance: u64, nonce: u128, key: &[u8; 32]) -> [u8; 32] {
    let mut c = [0u8; 32];
    let pad = nonce.to_le_bytes();
    for (i, b) in balance.to_le_bytes().iter().enumerate() {
        c[i] = b ^ pad[i] ^ key[i];
    }
    c
}

fn decrypt(rec: &EncryptedBalanceAccount) -> u64 {
    let pad = rec.nonce.to_le_bytes();
    let mut b = [0u8; 8];
    for i in 0..8 {
        b[i] = rec.encrypted_balance[i] ^ pad[i] ^ rec.encryption_pubkey[i];
    }
    u64::from_le_bytes(b)
}

fn same(a: &EncryptedBalanceAccount, b: &EncryptedBalanceAccount) -> bool {
    a.encrypted_balance == b.encrypted_balance
        && a.nonce == b.nonce
        && a.encryption_pubkey == b.encryption_pubkey
}

// The cluster's side of a `wrap`.
fn cluster_wrap(amount: u64, key: [u8; 32], nonce: u128) -> ComputationOutputs {
    ComputationOutputs::Bytes(encode_wrap(&key, nonce, &encrypt(amount, nonce, &key)))
}

// The cluster's side of a `transfer`, with the fresh nonces it picks.
fn cluster_transfer(
    s: &EncryptedBalanceAccount,
    r: &EncryptedBalanceAccount,
    amount: u64,
    s_nonce: u128,
    r_nonce: u128,
) -> ComputationOutputs {
    let (flag, sb, rb) = circuits::transfer(decrypt(s), decrypt(r), amount);
    let sk = s.encryption_pubkey;
    let rk = r.encryption_pubkey;
    ComputationOutputs::Bytes(encode_transfer(
        flag,
        &sk,
        s_nonce,
        &encrypt(sb, s_nonce, &sk),
        &rk,
        r_nonce,
        &encrypt(rb, r_nonce, &rk),
    ))
}

fn funded(amount: u64, key: u8, nonce: u128) -> EncryptedBalanceAccount {
    let mut ctx = WrapCallback { encrypted_balance_account: None };
    wrap_callback(&mut ctx, &cluster_wrap(amount, [key; 32], nonce)).unwrap();
    ctx.encrypted_balance_account.unwrap()
}

#[test]
fn circuit_transfer_values() {
    assert_eq!(circuits::transfer(100, 0, 40), (1, 60, 40));
    assert_eq!(circuits::transfer(40, 5, 40), (1, 0, 45));
    assert_eq!(circuits::transfer(10, 0, 40), (0, 10, 0));
    assert_eq!(circuits::transfer(10, u64::MAX, 1), (0, 10, u64::MAX));
}

#[test]
fn wrap_creates_record() {
    let rec = funded(100, 7, 31);
    assert_eq!(rec.encryption_pubkey, [7u8; 32]);
    assert_eq!(rec.nonce, 31);
    assert_eq!(decrypt(&rec), 100);
}

#[test]
fn wrap_top_up_with_same_key_replaces_record() {
    let rec = funded(100, 7, 31);
    let mut ctx = WrapCallback { encrypted_balance_account: Some(rec) };
    wrap_callback(&mut ctx, &cluster_wrap(150, [7u8; 32], 32)).unwrap();
    let after = ctx.encrypted_balance_account.unwrap();
    assert_eq!(after.nonce, 32);
    assert_eq!(decrypt(&after), 150);
}

#[test]
fn wrap_with_other_key_is_refused() {
    let rec = funded(100, 7, 31);
    let mut ctx = WrapCallback { encrypted_balance_account: Some(rec) };
    let r = wrap_callback(&mut ctx, &cluster_wrap(150, [8u8; 32], 32));
    assert_eq!(r.unwrap_err(), ErrorCode::PubkeyMismatch);
    assert!(same(&ctx.encrypted_balance_account.unwrap(), &rec));
}

#[test]
fn wrap_aborted_changes_nothing() {
    let mut ctx = WrapCallback { encrypted_balance_account: None };
    let r = wrap_callback(&mut ctx, &ComputationOutputs::Aborted);
    assert_eq!(r.unwrap_err(), ErrorCode::AbortedComputation);
    assert!(ctx.encrypted_balance_account.is_none());
}

#[test]
fn wrap_malformed_changes_nothing() {
    let rec = funded(100, 7, 31);
    let mut ctx = WrapCallback { encrypted_balance_account: Some(rec) };
    let r = wrap_callback(&mut ctx, &ComputationOutputs::Bytes(vec![1u8; 79]));
    assert_eq!(r.unwrap_err(), ErrorCode::MalformedCallback);
    assert!(same(&ctx.encrypted_balance_account.unwrap(), &rec));
}

#[test]
fn wrap_then_transfer_moves_amount() {
    let a = funded(100, 1, 1001);
    let n1 = a.nonce;
    let b = funded(0, 2, 2001);
    let m0 = b.nonce;
    let out = cluster_transfer(&a, &b, 40, 1002, 2002);
    let mut ctx = TransferCallback { sender_account: Some(a), receiver_account: Some(b) };
    assert_eq!(transfer_callback(&mut ctx, &out), Ok(true));
    assert_ne!(ctx.sender_account.unwrap().nonce, n1);
    assert_ne!(ctx.receiver_account.unwrap().nonce, m0);
    assert_eq!(decrypt(&ctx.sender_account.unwrap()), 60);
    assert_eq!(decrypt(&ctx.receiver_account.unwrap()), 40);
    assert_eq!(ctx.sender_account.unwrap().encryption_pubkey, [1u8; 32]);
    assert_eq!(ctx.receiver_account.unwrap().encryption_pubkey, [2u8; 32]);
}

#[test]
fn insufficient_funds_leaves_records_identical() {
    let a = funded(10, 1, 1001);
    let b = funded(5, 2, 2001);
    let out = cluster_transfer(&a, &b, 40, 1002, 2002);
    if let ComputationOutputs::Bytes(bytes) = &out {
        assert_eq!(bytes[0], 0);
    }
    let mut ctx = TransferCallback { sender_account: Some(a), receiver_account: Some(b) };
    assert_eq!(transfer_callback(&mut ctx, &out), Ok(false));
    assert!(same(&ctx.sender_account.unwrap(), &a));
    assert!(same(&ctx.receiver_account.unwrap(), &b));
}

#[test]
fn transfer_aborted_and_malformed_change_nothing() {
    let a = funded(10, 1, 1001);
    let b = funded(5, 2, 2001);
    let mut ctx = TransferCallback { sender_account: Some(a), receiver_account: Some(b) };
    assert_eq!(
        transfer_callback(&mut ctx, &ComputationOutputs::Aborted),
        Err(ErrorCode::AbortedComputation)
    );
    let mut bad = vec![0u8; 161];
    bad[0] = 1;
    bad.push(0);
    assert_eq!(
        transfer_callback(&mut ctx, &ComputationOutputs::Bytes(bad)),
        Err(ErrorCode::MalformedCallback)
    );
    let mut flag = vec![0u8; 161];
    flag[0] = 3;
    assert_eq!(
        transfer_callback(&mut ctx, &ComputationOutputs::Bytes(flag)),
        Err(ErrorCode::MalformedCallback)
    );
    assert!(same(&ctx.sender_account.unwrap(), &a));
    assert!(same(&ctx.receiver_account.unwrap(), &b));
}

#[test]
fn pubkey_survives_many_settlements() {
    let mut a = funded(100, 1, 10);
    let mut b = funded(100, 2, 20);
    for round in 0..5u128 {
        let out = cluster_transfer(&a, &b, 7, 100 + round, 200 + round);
        let mut ctx = TransferCallback { sender_account: Some(a), receiver_account: Some(b) };
        transfer_callback(&mut ctx, &out).unwrap();
        a = ctx.sender_account.unwrap();
        b = ctx.receiver_account.unwrap();
        let mut w = WrapCallback { encrypted_balance_account: Some(a) };
        let top_up = cluster_wrap(decrypt(&a) + 1, [1u8; 32], 300 + round);
        wrap_callback(&mut w, &top_up).unwrap();
        a = w.encrypted_balance_account.unwrap();
        let mut w = WrapCallback { encrypted_balance_account: Some(a) };
        let _ = wrap_callback(&mut w, &cluster_wrap(1, [9u8; 32], 400 + round));
        a = w.encrypted_balance_account.unwrap();
        assert_eq!(a.encryption_pubkey, [1u8; 32]);
        assert_eq!(b.encryption_pubkey, [2u8; 32]);
    }
    assert_eq!(decrypt(&a), 100 - 35 + 5);
    assert_eq!(decrypt(&b), 135);
}

#[test]
fn opposite_transfers_settled_in_turn_commute() {
    let run = |first_a_to_b: bool| {
        let mut a = funded(50, 1, 10);
        let mut b = funded(30, 2, 20);
        for step in 0..2u128 {
            let a_sends = first_a_to_b == (step == 0);
            let (s, r, amt) = if a_sends { (a, b, 20) } else { (b, a, 25) };
            let out = cluster_transfer(&s, &r, amt, 100 + step, 200 + step);
            let mut ctx = TransferCallback { sender_account: Some(s), receiver_account: Some(r) };
            assert_eq!(transfer_callback(&mut ctx, &out), Ok(true));
            if a_sends {
                a = ctx.sender_account.unwrap();
                b = ctx.receiver_account.unwrap();
            } else {
                b = ctx.sender_account.unwrap();
                a = ctx.receiver_account.unwrap();
            }
        }
        (decrypt(&a), decrypt(&b))
    };
    assert_eq!(run(true), (55, 25));
    assert_eq!(run(false), (55, 25));
}

#[test]
fn wrap_with_stale_nonce_is_refused() {
    let rec = funded(100, 7, 31);
    let mut ctx = WrapCallback { encrypted_balance_account: Some(rec) };
    let r = wrap_callback(&mut ctx, &cluster_wrap(150, [7u8; 32], 31));
    assert_eq!(r.unwrap_err(), ErrorCode::StaleNonce);
    assert!(same(&ctx.encrypted_balance_account.unwrap(), &rec));
    // The same ciphertext under the same nonce is no change.
    assert_eq!(wrap_callback(&mut ctx, &cluster_wrap(100, [7u8; 32], 31)), Ok(()));
    assert!(same(&ctx.encrypted_balance_account.unwrap(), &rec));
}

#[test]
fn transfer_with_stale_nonce_is_refused() {
    let a = funded(100, 1, 1001);
    let b = funded(0, 2, 2001);
    for (sn, rn) in [(1001u128, 2002u128), (1002, 2001)] {
        let out = cluster_transfer(&a, &b, 40, sn, rn);
        let mut ctx = TransferCallback { sender_account: Some(a), receiver_account: Some(b) };
        assert_eq!(transfer_callback(&mut ctx, &out), Err(ErrorCode::StaleNonce));
        assert!(same(&ctx.sender_account.unwrap(), &a));
        assert!(same(&ctx.receiver_account.unwrap(), &b));
    }
}

#[test]
fn transfer_with_missing_record_is_refused() {
    let a = funded(100, 1, 1001);
    let b = funded(0, 2, 2001);
    let out = cluster_transfer(&a, &b, 40, 1002, 2002);
    let mut ctx = TransferCallback { sender_account: Some(a), receiver_account: None };
    assert_eq!(transfer_callback(&mut ctx, &out), Err(ErrorCode::InvalidArgument));
    assert!(same(&ctx.sender_account.unwrap(), &a));
    assert!(ctx.receiver_account.is_none());
}

#[test]
fn blank_record_has_no_balance() {
    let blank = EncryptedBalanceAccount { encrypted_balance: [0; 32], nonce: 0, encryption_pubkey: [0; 32] };
    assert!(record_slot(blank).is_none());
    let mut k = blank;
    k.encryption_pubkey[31] = 1;
    assert!(same(&record_slot(k).unwrap(), &k));
    let mut n = blank;
    n.nonce = 1;
    assert!(record_slot(n).is_some());
    let mut c = blank;
    c.encrypted_balance[0] = 9;
    assert!(record_slot(c).is_some());
}

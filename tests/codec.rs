use confidential_transfer::codec::{
    decode, decode_transfer, decode_wrap, DecodedResult, encode_transfer, encode_wrap, TransferResult,
    TRANSFER_OUTPUT_LEN, WRAP_OUTPUT_LEN,
};
use confidential_transfer::error::ErrorCode;
use confidential_transfer::request::ComputationKind;

fn key(b: u8) -> [u8; 32] {
    let mut k = [0u8; 32];
    for (i, x) in k.iter_mut().enumerate() {
        *x = b.wrapping_add(i as u8);
    }
    k
}

#[test]
fn wrap_payload_round_trips() {
    let nonce: u128 = 0x0102_0304_0506_0708_090a_0b0c_0d0e_0f10;
    let bytes = encode_wrap(&key(1), nonce, &key(100));
    assert_eq!(bytes.len(), WRAP_OUTPUT_LEN);
    let w = decode_wrap(&bytes).unwrap();
    assert_eq!(w.encryption_pubkey, key(1));
    assert_eq!(w.nonce, nonce);
    assert_eq!(w.ciphertext, key(100));
}

#[test]
fn wrap_nonce_is_little_endian() {
    let mut bytes = vec![0u8; 80];
    bytes[32] = 0x01;
    bytes[47] = 0x80;
    bytes[48] = 7;
    bytes[79] = 9;
    let w = decode_wrap(&bytes).unwrap();
    assert_eq!(w.nonce, 1u128 | (0x80u128 << 120));
    assert_eq!(w.ciphertext[0], 7);
    assert_eq!(w.ciphertext[31], 9);
    assert_eq!(w.encryption_pubkey, [0u8; 32]);
}

#[test]
fn encode_wrap_lays_out_fields() {
    let bytes = encode_wrap(&key(1), 5, &key(200));
    assert_eq!(&bytes[0..32], &key(1)[..]);
    assert_eq!(bytes[32], 5);
    assert!(bytes[33..48].iter().all(|b| *b == 0));
    assert_eq!(&bytes[48..80], &key(200)[..]);
}

#[test]
fn wrap_wrong_lengths_are_malformed() {
    for len in [0usize, 1, 79, 81, 161] {
        let bytes = vec![3u8; len];
        assert_eq!(decode_wrap(&bytes).unwrap_err(), ErrorCode::MalformedCallback);
    }
}

#[test]
fn transfer_wrong_lengths_are_malformed() {
    for len in [0usize, 80, 160, 162] {
        let bytes = vec![1u8; len];
        assert_eq!(decode_transfer(&bytes).unwrap_err(), ErrorCode::MalformedCallback);
    }
}

#[test]
fn transfer_unknown_flag_is_malformed() {
    let mut bytes = vec![0u8; TRANSFER_OUTPUT_LEN];
    bytes[0] = 2;
    assert_eq!(decode_transfer(&bytes).unwrap_err(), ErrorCode::MalformedCallback);
    bytes[0] = 255;
    assert_eq!(decode_transfer(&bytes).unwrap_err(), ErrorCode::MalformedCallback);
}

#[test]
fn transfer_declined_reads_nothing_else() {
    let mut bytes = vec![0xabu8; TRANSFER_OUTPUT_LEN];
    bytes[0] = 0;
    assert!(matches!(decode_transfer(&bytes), Ok(TransferResult::Declined)));
}

#[test]
fn transfer_settled_round_trips() {
    let bytes = encode_transfer(1, &key(1), 11, &key(50), &key(2), 22, &key(90));
    assert_eq!(bytes.len(), TRANSFER_OUTPUT_LEN);
    assert_eq!(bytes[0], 1);
    assert_eq!(&bytes[1..33], &key(1)[..]);
    assert_eq!(&bytes[81..113], &key(2)[..]);
    match decode_transfer(&bytes).unwrap() {
        TransferResult::Settled { sender, receiver } => {
            assert_eq!(sender.nonce, 11);
            assert_eq!(sender.ciphertext, key(50));
            assert_eq!(receiver.nonce, 22);
            assert_eq!(receiver.ciphertext, key(90));
        }
        TransferResult::Declined => panic!("expected a settled transfer"),
    }
}

#[test]
fn transfer_settled_field_offsets() {
    let mut bytes = vec![0u8; TRANSFER_OUTPUT_LEN];
    bytes[0] = 1;
    bytes[33] = 0x11;
    bytes[48] = 0x22;
    bytes[49] = 0x33;
    bytes[80] = 0x44;
    bytes[113] = 0x55;
    bytes[128] = 0x66;
    bytes[129] = 0x77;
    bytes[160] = 0x88;
    match decode_transfer(&bytes).unwrap() {
        TransferResult::Settled { sender, receiver } => {
            assert_eq!(sender.nonce, 0x11 | (0x22u128 << 120));
            assert_eq!(sender.ciphertext[0], 0x33);
            assert_eq!(sender.ciphertext[31], 0x44);
            assert_eq!(receiver.nonce, 0x55 | (0x66u128 << 120));
            assert_eq!(receiver.ciphertext[0], 0x77);
            assert_eq!(receiver.ciphertext[31], 0x88);
        }
        TransferResult::Declined => panic!("expected a settled transfer"),
    }
}

#[test]
fn decode_follows_the_kind() {
    let wrap_bytes = encode_wrap(&key(3), 9, &key(4));
    assert!(matches!(decode(ComputationKind::Wrap, &wrap_bytes), Ok(DecodedResult::WrapResult(w)) if w.nonce == 9));
    assert_eq!(decode(ComputationKind::Transfer, &wrap_bytes).unwrap_err(), ErrorCode::MalformedCallback);
    let transfer_bytes = encode_transfer(0, &key(1), 1, &key(2), &key(3), 2, &key(4));
    assert!(matches!(
        decode(ComputationKind::Transfer, &transfer_bytes),
        Ok(DecodedResult::TransferResult(TransferResult::Declined))
    ));
    assert_eq!(decode(ComputationKind::Wrap, &transfer_bytes).unwrap_err(), ErrorCode::MalformedCallback);
}

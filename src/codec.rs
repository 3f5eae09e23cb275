//! The fixed byte layout of the cluster's callback payloads.
use vstd::array::array_as_slice;
use vstd::bytes::{
    lemma_auto_spec_u128_to_from_le_bytes, spec_u128_from_le_bytes, spec_u128_to_le_bytes,
    u128_from_le_bytes, u128_to_le_bytes,
};
use vstd::prelude::*;
use vstd::slice::slice_subrange;

use crate::account::BalanceView;
use crate::error::ErrorCode;
use crate::request::ComputationKind;

verus! {

/// Length of a `wrap` payload: public key, nonce, ciphertext.
pub const WRAP_OUTPUT_LEN: usize = 80;
pub const WRAP_PUBKEY_AT: usize = 0;
pub const WRAP_NONCE_AT: usize = 32;
pub const WRAP_CIPHERTEXT_AT: usize = 48;

/// Length of a `transfer` payload: a flag byte, then the sender's and the
/// receiver's public key, nonce and ciphertext.
pub const TRANSFER_OUTPUT_LEN: usize = 161;
pub const TRANSFER_FLAG_AT: usize = 0;
pub const SENDER_PUBKEY_AT: usize = 1;
pub const SENDER_NONCE_AT: usize = 33;
pub const SENDER_CIPHERTEXT_AT: usize = 49;
pub const RECEIVER_PUBKEY_AT: usize = 81;
pub const RECEIVER_NONCE_AT: usize = 113;
pub const RECEIVER_CIPHERTEXT_AT: usize = 129;

pub const KEY_LEN: usize = 32;
pub const NONCE_LEN: usize = 16;

/// The transfer flag of a declined transfer.
pub const FLAG_DECLINED: u8 = 0;
/// The transfer flag of a settled transfer.
pub const FLAG_SETTLED: u8 = 1;

/// A decoded `wrap` result: the complete new balance record.
#[derive(Clone, Copy, Debug)]
pub struct WrapResult {
    pub encryption_pubkey: [u8; 32],
    pub nonce: u128,
    pub ciphertext: [u8; 32],
}

impl View for WrapResult {
    type V = BalanceView;

    open spec fn view(&self) -> BalanceView {
        BalanceView {
            ciphertext: self.ciphertext@,
            nonce: self.nonce,
            encryption_pubkey: self.encryption_pubkey@,
        }
    }
}

/// The new nonce and ciphertext of one side of a settled transfer.
#[derive(Clone, Copy, Debug)]
pub struct BalanceUpdate {
    pub nonce: u128,
    pub ciphertext: [u8; 32],
}

/// A decoded `transfer` result.
#[derive(Clone, Copy, Debug)]
pub enum TransferResult {
    /// The cluster declined the transfer (insufficient funds): no balance changed.
    Declined,
    /// The cluster settled the transfer and re-encrypted both balances.
    Settled { sender: BalanceUpdate, receiver: BalanceUpdate },
}

/// A decoded callback payload, tagged with its computation kind.
#[derive(Clone, Copy, Debug)]
pub enum DecodedResult {
    WrapResult(WrapResult),
    TransferResult(TransferResult),
}

/// The `len` bytes of `b` starting at `at`.
pub open spec fn field(b: Seq<u8>, at: int, len: int) -> Seq<u8> {
    b.subrange(at, at + len)
}

/// The little-endian 128-bit integer stored at `at`.
pub open spec fn nonce_field(b: Seq<u8>, at: int) -> u128 {
    spec_u128_from_le_bytes(field(b, at, NONCE_LEN as int))
}

/// The record that a well-formed `wrap` payload carries.
pub open spec fn wrap_record_of(b: Seq<u8>) -> BalanceView {
    BalanceView {
        ciphertext: field(b, WRAP_CIPHERTEXT_AT as int, KEY_LEN as int),
        nonce: nonce_field(b, WRAP_NONCE_AT as int),
        encryption_pubkey: field(b, WRAP_PUBKEY_AT as int, KEY_LEN as int),
    }
}

/// A `transfer` payload has the right length and a known flag.
pub open spec fn transfer_payload_ok(b: Seq<u8>) -> bool {
    &&& b.len() == TRANSFER_OUTPUT_LEN
    &&& (b[TRANSFER_FLAG_AT as int] == FLAG_DECLINED || b[TRANSFER_FLAG_AT as int] == FLAG_SETTLED)
}

/// A well-formed `transfer` payload whose flag says the transfer settled.
pub open spec fn transfer_settled(b: Seq<u8>) -> bool {
    b.len() == TRANSFER_OUTPUT_LEN && b[TRANSFER_FLAG_AT as int] == FLAG_SETTLED
}

/// What decoding the `transfer` payload `b` gives: declined for flag 0,
/// both new nonces and ciphertexts for flag 1, and a malformed-callback
/// error for any other flag or length.
pub open spec fn decode_transfer_post(b: Seq<u8>, r: Result<TransferResult, ErrorCode>) -> bool {
    match r {
        Ok(TransferResult::Declined) => transfer_payload_ok(b) && b[0] == FLAG_DECLINED,
        Ok(TransferResult::Settled { sender, receiver }) => {
            &&& transfer_settled(b)
            &&& sender.nonce == nonce_field(b, SENDER_NONCE_AT as int)
            &&& sender.ciphertext@ == field(b, SENDER_CIPHERTEXT_AT as int, KEY_LEN as int)
            &&& receiver.nonce == nonce_field(b, RECEIVER_NONCE_AT as int)
            &&& receiver.ciphertext@ == field(b, RECEIVER_CIPHERTEXT_AT as int, KEY_LEN as int)
        },
        Err(e) => !transfer_payload_ok(b) && e == ErrorCode::MalformedCallback,
    }
}

/// The bytes of a `wrap` payload for the given fields.
pub open spec fn wrap_bytes(pubkey: Seq<u8>, nonce: u128, ciphertext: Seq<u8>) -> Seq<u8> {
    pubkey + spec_u128_to_le_bytes(nonce) + ciphertext
}

/// The bytes of a `transfer` payload for the given flag and fields.
pub open spec fn transfer_bytes(
    flag: u8,
    sender_pubkey: Seq<u8>,
    sender_nonce: u128,
    sender_ciphertext: Seq<u8>,
    receiver_pubkey: Seq<u8>,
    receiver_nonce: u128,
    receiver_ciphertext: Seq<u8>,
) -> Seq<u8> {
    seq![flag] + wrap_bytes(sender_pubkey, sender_nonce, sender_ciphertext) + wrap_bytes(
        receiver_pubkey,
        receiver_nonce,
        receiver_ciphertext,
    )
}

fn read_key(b: &Vec<u8>, at: usize) -> (r: [u8; 32])
    requires
        at + KEY_LEN <= b@.len(),
    ensures
        r@ == field(b@, at as int, KEY_LEN as int),
{
    let len = b.len();
    let mut r: [u8; 32] = [0u8; 32];
    let mut i: usize = 0;
    while i < KEY_LEN
        invariant
            i <= KEY_LEN,
            len == b@.len(),
            at + KEY_LEN <= b@.len(),
            r@.len() == KEY_LEN,
            forall|j: int| 0 <= j < i ==> r@[j] == b@[at + j],
        decreases KEY_LEN - i,
    {
        r[i] = b[at + i];
        i = i + 1;
    }
    assert(r@ =~= field(b@, at as int, KEY_LEN as int));
    r
}

fn read_nonce(b: &Vec<u8>, at: usize) -> (r: u128)
    requires
        at + NONCE_LEN <= b@.len(),
    ensures
        r == nonce_field(b@, at as int),
{
    let len = b.len();
    assert(at + NONCE_LEN <= len);
    u128_from_le_bytes(slice_subrange(b.as_slice(), at, at + NONCE_LEN))
}

fn push_bytes(out: &mut Vec<u8>, src: &[u8])
    ensures
        final(out)@ == old(out)@ + src@,
{
    let mut i: usize = 0;
    while i < src.len()
        invariant
            i <= src@.len(),
            out@ == old(out)@ + src@.subrange(0, i as int),
        decreases src@.len() - i,
    {
        out.push(src[i]);
        i = i + 1;
        assert(src@.subrange(0, i as int) =~= src@.subrange(0, i - 1) + seq![src@[i - 1]]);
    }
    assert(src@.subrange(0, i as int) =~= src@);
}

fn push_record(out: &mut Vec<u8>, pubkey: &[u8; 32], nonce: u128, ciphertext: &[u8; 32])
    ensures
        final(out)@ == old(out)@ + wrap_bytes(pubkey@, nonce, ciphertext@),
{
    push_bytes(out, array_as_slice(pubkey));
    let n = u128_to_le_bytes(nonce);
    push_bytes(out, n.as_slice());
    push_bytes(out, array_as_slice(ciphertext));
    assert(final(out)@ =~= old(out)@ + wrap_bytes(pubkey@, nonce, ciphertext@));
}

/// Decodes a `wrap` payload; it is well formed exactly when it is 80 bytes long.
pub fn decode_wrap(b: &Vec<u8>) -> (r: Result<WrapResult, ErrorCode>)
    ensures
        match r {
            Ok(w) => b@.len() == WRAP_OUTPUT_LEN && w@ == wrap_record_of(b@),
            Err(e) => b@.len() != WRAP_OUTPUT_LEN && e == ErrorCode::MalformedCallback,
        },
{
    if b.len() != WRAP_OUTPUT_LEN {
        return Err(ErrorCode::MalformedCallback);
    }
    Ok(
        WrapResult {
            encryption_pubkey: read_key(b, WRAP_PUBKEY_AT),
            nonce: read_nonce(b, WRAP_NONCE_AT),
            ciphertext: read_key(b, WRAP_CIPHERTEXT_AT),
        },
    )
}

/// Decodes a `transfer` payload: 161 bytes whose first byte is 0 (declined,
/// nothing else is read) or 1 (settled, both new nonces and ciphertexts are
/// read; the public key slots are skipped).
pub fn decode_transfer(b: &Vec<u8>) -> (r: Result<TransferResult, ErrorCode>)
    ensures
        decode_transfer_post(b@, r),
{
    if b.len() != TRANSFER_OUTPUT_LEN {
        return Err(ErrorCode::MalformedCallback);
    }
    let flag = b[TRANSFER_FLAG_AT];
    if flag == FLAG_DECLINED {
        Ok(TransferResult::Declined)
    } else if flag == FLAG_SETTLED {
        let sender = BalanceUpdate {
            nonce: read_nonce(b, SENDER_NONCE_AT),
            ciphertext: read_key(b, SENDER_CIPHERTEXT_AT),
        };
        let receiver = BalanceUpdate {
            nonce: read_nonce(b, RECEIVER_NONCE_AT),
            ciphertext: read_key(b, RECEIVER_CIPHERTEXT_AT),
        };
        Ok(TransferResult::Settled { sender, receiver })
    } else {
        Err(ErrorCode::MalformedCallback)
    }
}

/// Decodes the payload of a computation of the given kind.
pub fn decode(kind: ComputationKind, b: &Vec<u8>) -> (r: Result<DecodedResult, ErrorCode>)
    ensures
        match kind {
            ComputationKind::Wrap => match r {
                Ok(DecodedResult::WrapResult(w)) => b@.len() == WRAP_OUTPUT_LEN && w@
                    == wrap_record_of(b@),
                Ok(DecodedResult::TransferResult(_)) => false,
                Err(e) => b@.len() != WRAP_OUTPUT_LEN && e == ErrorCode::MalformedCallback,
            },
            ComputationKind::Transfer => match r {
                Ok(DecodedResult::TransferResult(t)) => decode_transfer_post(b@, Ok(t)),
                Ok(DecodedResult::WrapResult(_)) => false,
                Err(e) => decode_transfer_post(b@, Err(e)),
            },
        },
{
    match kind {
        ComputationKind::Wrap => match decode_wrap(b) {
            Ok(w) => Ok(DecodedResult::WrapResult(w)),
            Err(e) => Err(e),
        },
        ComputationKind::Transfer => match decode_transfer(b) {
            Ok(t) => Ok(DecodedResult::TransferResult(t)),
            Err(e) => Err(e),
        },
    }
}

/// Lays out a `wrap` payload, as the cluster sends it.
pub fn encode_wrap(encryption_pubkey: &[u8; 32], nonce: u128, ciphertext: &[u8; 32]) -> (r: Vec<u8>)
    ensures
        r@ == wrap_bytes(encryption_pubkey@, nonce, ciphertext@),
{
    let mut out: Vec<u8> = Vec::new();
    push_record(&mut out, encryption_pubkey, nonce, ciphertext);
    assert(out@ =~= wrap_bytes(encryption_pubkey@, nonce, ciphertext@));
    out
}

/// Lays out a `transfer` payload, as the cluster sends it.
pub fn encode_transfer(
    flag: u8,
    sender_pubkey: &[u8; 32],
    sender_nonce: u128,
    sender_ciphertext: &[u8; 32],
    receiver_pubkey: &[u8; 32],
    receiver_nonce: u128,
    receiver_ciphertext: &[u8; 32],
) -> (r: Vec<u8>)
    ensures
        r@ == transfer_bytes(
            flag,
            sender_pubkey@,
            sender_nonce,
            sender_ciphertext@,
            receiver_pubkey@,
            receiver_nonce,
            receiver_ciphertext@,
        ),
{
    let mut out: Vec<u8> = Vec::new();
    out.push(flag);
    push_record(&mut out, sender_pubkey, sender_nonce, sender_ciphertext);
    push_record(&mut out, receiver_pubkey, receiver_nonce, receiver_ciphertext);
    assert(out@ =~= transfer_bytes(
        flag,
        sender_pubkey@,
        sender_nonce,
        sender_ciphertext@,
        receiver_pubkey@,
        receiver_nonce,
        receiver_ciphertext@,
    ));
    out
}

/// Decoding the `wrap` payload laid out from a key, a nonce and a
/// ciphertext gives back exactly those three fields.
pub proof fn lemma_wrap_round_trip(pubkey: Seq<u8>, nonce: u128, ciphertext: Seq<u8>)
    requires
        pubkey.len() == KEY_LEN,
        ciphertext.len() == KEY_LEN,
    ensures
        wrap_bytes(pubkey, nonce, ciphertext).len() == WRAP_OUTPUT_LEN,
        wrap_record_of(wrap_bytes(pubkey, nonce, ciphertext)) == (BalanceView {
            ciphertext,
            nonce,
            encryption_pubkey: pubkey,
        }),
{
    lemma_auto_spec_u128_to_from_le_bytes();
    let b = wrap_bytes(pubkey, nonce, ciphertext);
    assert(field(b, WRAP_PUBKEY_AT as int, KEY_LEN as int) =~= pubkey);
    assert(field(b, WRAP_NONCE_AT as int, NONCE_LEN as int) =~= spec_u128_to_le_bytes(nonce));
    assert(field(b, WRAP_CIPHERTEXT_AT as int, KEY_LEN as int) =~= ciphertext);
}

/// Every 80-byte `wrap` payload is the layout of the fields decoded from it.
pub proof fn lemma_wrap_layout_complete(b: Seq<u8>)
    requires
        b.len() == WRAP_OUTPUT_LEN,
    ensures
        wrap_bytes(
            wrap_record_of(b).encryption_pubkey,
            wrap_record_of(b).nonce,
            wrap_record_of(b).ciphertext,
        ) == b,
{
    lemma_auto_spec_u128_to_from_le_bytes();
    let n = field(b, WRAP_NONCE_AT as int, NONCE_LEN as int);
    assert(spec_u128_to_le_bytes(spec_u128_from_le_bytes(n)) == n);
    assert(wrap_bytes(
        wrap_record_of(b).encryption_pubkey,
        wrap_record_of(b).nonce,
        wrap_record_of(b).ciphertext,
    ) =~= b);
}

/// Decoding a `transfer` payload laid out with a known flag gives back that
/// flag and both sides' nonces and ciphertexts.
pub proof fn lemma_transfer_round_trip(
    flag: u8,
    sender_pubkey: Seq<u8>,
    sender_nonce: u128,
    sender_ciphertext: Seq<u8>,
    receiver_pubkey: Seq<u8>,
    receiver_nonce: u128,
    receiver_ciphertext: Seq<u8>,
)
    requires
        flag == FLAG_DECLINED || flag == FLAG_SETTLED,
        sender_pubkey.len() == KEY_LEN,
        sender_ciphertext.len() == KEY_LEN,
        receiver_pubkey.len() == KEY_LEN,
        receiver_ciphertext.len() == KEY_LEN,
    ensures
        ({
            let b = transfer_bytes(
                flag,
                sender_pubkey,
                sender_nonce,
                sender_ciphertext,
                receiver_pubkey,
                receiver_nonce,
                receiver_ciphertext,
            );
            &&& transfer_payload_ok(b)
            &&& b[TRANSFER_FLAG_AT as int] == flag
            &&& nonce_field(b, SENDER_NONCE_AT as int) == sender_nonce
            &&& field(b, SENDER_CIPHERTEXT_AT as int, KEY_LEN as int) == sender_ciphertext
            &&& nonce_field(b, RECEIVER_NONCE_AT as int) == receiver_nonce
            &&& field(b, RECEIVER_CIPHERTEXT_AT as int, KEY_LEN as int) == receiver_ciphertext
        }),
{
    lemma_auto_spec_u128_to_from_le_bytes();
    let b = transfer_bytes(
        flag,
        sender_pubkey,
        sender_nonce,
        sender_ciphertext,
        receiver_pubkey,
        receiver_nonce,
        receiver_ciphertext,
    );
    assert(field(b, SENDER_NONCE_AT as int, NONCE_LEN as int) =~= spec_u128_to_le_bytes(
        sender_nonce,
    ));
    assert(field(b, SENDER_CIPHERTEXT_AT as int, KEY_LEN as int) =~= sender_ciphertext);
    assert(field(b, RECEIVER_NONCE_AT as int, NONCE_LEN as int) =~= spec_u128_to_le_bytes(
        receiver_nonce,
    ));
    assert(field(b, RECEIVER_CIPHERTEXT_AT as int, KEY_LEN as int) =~= receiver_ciphertext);
}

} // verus!

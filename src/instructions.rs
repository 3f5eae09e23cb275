//! The ledger's instructions: queuing `wrap` and `transfer` computations,
//! and settling their callbacks on the balance records.
use vstd::prelude::*;

use crate::account::{slot_view, BalanceView, EncryptedBalanceAccount};
use crate::circuits::transfer_spec;
use crate::codec::{
    decode_transfer, decode_wrap, field, lemma_transfer_round_trip, nonce_field, transfer_bytes,
    transfer_payload_ok, wrap_record_of, TransferResult, FLAG_DECLINED, FLAG_SETTLED, KEY_LEN,
    RECEIVER_CIPHERTEXT_AT, RECEIVER_NONCE_AT, SENDER_CIPHERTEXT_AT, SENDER_NONCE_AT,
    TRANSFER_FLAG_AT, TRANSFER_OUTPUT_LEN, WRAP_OUTPUT_LEN,
};
use crate::error::ErrorCode;
use crate::request::{
    offset_in_flight, Argument, CallbackAccount, ComputationKind, ComputationRequest,
};

verus! {

/// What the cluster hands back for a computation.
#[derive(Clone, Debug)]
pub enum ComputationOutputs {
    /// The raw result bytes.
    Bytes(Vec<u8>),
    /// The cluster gave up on the computation.
    Aborted,
}

impl View for ComputationOutputs {
    type V = Option<Seq<u8>>;

    open spec fn view(&self) -> Option<Seq<u8>> {
        match self {
            ComputationOutputs::Bytes(b) => Some(b@),
            ComputationOutputs::Aborted => None,
        }
    }
}

/// The accounts of a `wrap`: the address of the record its callback writes.
#[derive(Clone, Copy, Debug)]
pub struct Wrap {
    pub encrypted_balance_account: [u8; 32],
}

/// The accounts of a `transfer`: both records, `None` where the owner has
/// no balance yet, and their addresses.
#[derive(Clone, Copy, Debug)]
pub struct Transfer {
    pub sender_account: Option<EncryptedBalanceAccount>,
    pub sender: [u8; 32],
    pub receiver_account: Option<EncryptedBalanceAccount>,
    pub receiver: [u8; 32],
}

/// The record a `wrap` callback settles on, `None` before the owner's
/// first `wrap`.
#[derive(Clone, Copy, Debug)]
pub struct WrapCallback {
    pub encrypted_balance_account: Option<EncryptedBalanceAccount>,
}

/// The two records a `transfer` callback settles on, `None` where the
/// owner has no balance.
#[derive(Clone, Copy, Debug)]
pub struct TransferCallback {
    pub sender_account: Option<EncryptedBalanceAccount>,
    pub receiver_account: Option<EncryptedBalanceAccount>,
}

/// The arguments of a `wrap` computation.
pub open spec fn wrap_args(amount: u64, pub_key: [u8; 32], nonce: u128) -> Seq<Argument> {
    seq![Argument::PlaintextU64(amount), Argument::ArcisPubkey(pub_key), Argument::PlaintextU128(nonce)]
}

/// The arguments of a `transfer` computation.
pub open spec fn transfer_args(
    sender: EncryptedBalanceAccount,
    receiver: EncryptedBalanceAccount,
    amount: u64,
) -> Seq<Argument> {
    seq![
        Argument::ArcisPubkey(sender.encryption_pubkey),
        Argument::PlaintextU128(sender.nonce),
        Argument::EncryptedU64(sender.encrypted_balance),
        Argument::ArcisPubkey(receiver.encryption_pubkey),
        Argument::PlaintextU128(receiver.nonce),
        Argument::EncryptedU64(receiver.encrypted_balance),
        Argument::PlaintextU64(amount),
    ]
}

/// A callback account the callback may write.
pub open spec fn writable(pubkey: [u8; 32]) -> CallbackAccount {
    CallbackAccount { pubkey, is_writable: true }
}

/// A new nonce and ciphertext for record `v` that would change its
/// ciphertext under the nonce it already has.
pub open spec fn stale(v: BalanceView, nonce: u128, ciphertext: Seq<u8>) -> bool {
    nonce == v.nonce && ciphertext != v.ciphertext
}

/// The record slot and the outcome after a `wrap` result: an abort or a
/// malformed payload changes nothing, a payload that would replace the
/// record's key, or change its ciphertext under the same nonce, is refused,
/// and otherwise the payload becomes the record.
pub open spec fn wrap_settlement(prev: Option<BalanceView>, out: Option<Seq<u8>>) -> (
    Option<BalanceView>,
    Result<(), ErrorCode>,
) {
    match out {
        None => (prev, Err(ErrorCode::AbortedComputation)),
        Some(b) => if b.len() != WRAP_OUTPUT_LEN {
            (prev, Err(ErrorCode::MalformedCallback))
        } else if prev is Some && prev->Some_0.encryption_pubkey
            != wrap_record_of(b).encryption_pubkey {
            (prev, Err(ErrorCode::PubkeyMismatch))
        } else if prev is Some && stale(
            prev->Some_0,
            wrap_record_of(b).nonce,
            wrap_record_of(b).ciphertext,
        ) {
            (prev, Err(ErrorCode::StaleNonce))
        } else {
            (Some(wrap_record_of(b)), Ok(()))
        },
    }
}

/// A record with a new nonce and ciphertext read from `b`, its key kept.
pub open spec fn reencrypted(v: BalanceView, b: Seq<u8>, nonce_at: int, ciphertext_at: int) -> BalanceView {
    BalanceView {
        ciphertext: field(b, ciphertext_at, KEY_LEN as int),
        nonce: nonce_field(b, nonce_at),
        encryption_pubkey: v.encryption_pubkey,
    }
}

/// The sender's and receiver's records and the outcome after a `transfer`
/// result: an abort or a malformed payload changes nothing, a declined
/// transfer completes with `false` and changes nothing, a settled one that
/// would change either ciphertext under that record's old nonce is refused
/// and changes nothing, and any other settled one re-encrypts both records
/// together and completes with `true`.
pub open spec fn transfer_settlement(
    sender: BalanceView,
    receiver: BalanceView,
    out: Option<Seq<u8>>,
) -> (BalanceView, BalanceView, Result<bool, ErrorCode>) {
    match out {
        None => (sender, receiver, Err(ErrorCode::AbortedComputation)),
        Some(b) => if !transfer_payload_ok(b) {
            (sender, receiver, Err(ErrorCode::MalformedCallback))
        } else if b[TRANSFER_FLAG_AT as int] == FLAG_DECLINED {
            (sender, receiver, Ok(false))
        } else if stale(
            sender,
            nonce_field(b, SENDER_NONCE_AT as int),
            field(b, SENDER_CIPHERTEXT_AT as int, KEY_LEN as int),
        ) || stale(
            receiver,
            nonce_field(b, RECEIVER_NONCE_AT as int),
            field(b, RECEIVER_CIPHERTEXT_AT as int, KEY_LEN as int),
        ) {
            (sender, receiver, Err(ErrorCode::StaleNonce))
        } else {
            (
                reencrypted(sender, b, SENDER_NONCE_AT as int, SENDER_CIPHERTEXT_AT as int),
                reencrypted(receiver, b, RECEIVER_NONCE_AT as int, RECEIVER_CIPHERTEXT_AT as int),
                Ok(true),
            )
        },
    }
}

/// Builds the `wrap` computation for `amount` tokens, to be encrypted for
/// `pub_key`. A zero amount is refused, and so is an offset still in flight.
pub fn wrap(
    ctx: &Wrap,
    computation_offset: u64,
    amount: u64,
    pub_key: [u8; 32],
    nonce: u128,
    in_flight: &Vec<u64>,
) -> (r: Result<ComputationRequest, ErrorCode>)
    ensures
        match r {
            Ok(req) => {
                &&& amount != 0
                &&& !in_flight@.contains(computation_offset)
                &&& req.computation_offset == computation_offset
                &&& req.kind == ComputationKind::Wrap
                &&& req.args@ == wrap_args(amount, pub_key, nonce)
                &&& req.callback_accounts@ == seq![writable(ctx.encrypted_balance_account)]
            },
            Err(e) => if amount == 0 {
                e == ErrorCode::InvalidArgument
            } else {
                in_flight@.contains(computation_offset) && e == ErrorCode::DuplicateOffset
            },
        },
{
    if amount == 0 {
        return Err(ErrorCode::InvalidArgument);
    }
    if offset_in_flight(computation_offset, in_flight) {
        return Err(ErrorCode::DuplicateOffset);
    }
    let args = vec![
        Argument::PlaintextU64(amount),
        Argument::ArcisPubkey(pub_key),
        Argument::PlaintextU128(nonce),
    ];
    let callback_accounts = vec![
        CallbackAccount { pubkey: ctx.encrypted_balance_account, is_writable: true },
    ];
    assert(args@ =~= wrap_args(amount, pub_key, nonce));
    assert(callback_accounts@ =~= seq![writable(ctx.encrypted_balance_account)]);
    Ok(ComputationRequest { computation_offset, kind: ComputationKind::Wrap, args, callback_accounts })
}

/// Builds the `transfer` computation of `amount` from the sender's record to
/// the receiver's. A zero amount or a missing record is refused, and so is
/// an offset still in flight. No funds are checked here: the cluster does
/// that on the encrypted balances.
pub fn transfer(ctx: &Transfer, computation_offset: u64, amount: u64, in_flight: &Vec<u64>) -> (r:
    Result<ComputationRequest, ErrorCode>)
    ensures
        match r {
            Ok(req) => {
                &&& amount != 0
                &&& ctx.sender_account is Some
                &&& ctx.receiver_account is Some
                &&& !in_flight@.contains(computation_offset)
                &&& req.computation_offset == computation_offset
                &&& req.kind == ComputationKind::Transfer
                &&& req.args@ == transfer_args(
                    ctx.sender_account->Some_0,
                    ctx.receiver_account->Some_0,
                    amount,
                )
                &&& req.callback_accounts@ == seq![writable(ctx.sender), writable(ctx.receiver)]
            },
            Err(e) => if amount == 0 || ctx.sender_account is None || ctx.receiver_account is None {
                e == ErrorCode::InvalidArgument
            } else {
                in_flight@.contains(computation_offset) && e == ErrorCode::DuplicateOffset
            },
        },
{
    if amount == 0 {
        return Err(ErrorCode::InvalidArgument);
    }
    let (sender, receiver) = match (ctx.sender_account, ctx.receiver_account) {
        (Some(s), Some(r)) => (s, r),
        _ => return Err(ErrorCode::InvalidArgument),
    };
    if offset_in_flight(computation_offset, in_flight) {
        return Err(ErrorCode::DuplicateOffset);
    }
    let args = vec![
        Argument::ArcisPubkey(sender.encryption_pubkey),
        Argument::PlaintextU128(sender.nonce),
        Argument::EncryptedU64(sender.encrypted_balance),
        Argument::ArcisPubkey(receiver.encryption_pubkey),
        Argument::PlaintextU128(receiver.nonce),
        Argument::EncryptedU64(receiver.encrypted_balance),
        Argument::PlaintextU64(amount),
    ];
    let callback_accounts = vec![
        CallbackAccount { pubkey: ctx.sender, is_writable: true },
        CallbackAccount { pubkey: ctx.receiver, is_writable: true },
    ];
    assert(args@ =~= transfer_args(sender, receiver, amount));
    assert(callback_accounts@ =~= seq![writable(ctx.sender), writable(ctx.receiver)]);
    Ok(
        ComputationRequest {
            computation_offset,
            kind: ComputationKind::Transfer,
            args,
            callback_accounts,
        },
    )
}

/// Settles a `wrap` result on the owner's record: creates or replaces it
/// with the decoded key, nonce and ciphertext as one unit. The record is
/// left as it was on an abort, a malformed payload, a payload whose key
/// differs from the record's, or one that changes the ciphertext but keeps
/// the record's nonce.
pub fn wrap_callback(ctx: &mut WrapCallback, output: &ComputationOutputs) -> (r: Result<(), ErrorCode>)
    ensures
        (slot_view(final(ctx).encrypted_balance_account), r) == wrap_settlement(
            slot_view(old(ctx).encrypted_balance_account),
            output@,
        ),
{
    let bytes = match output {
        ComputationOutputs::Bytes(bytes) => bytes,
        ComputationOutputs::Aborted => return Err(ErrorCode::AbortedComputation),
    };
    let decoded = match decode_wrap(bytes) {
        Ok(w) => w,
        Err(e) => return Err(e),
    };
    if let Some(prev) = ctx.encrypted_balance_account {
        if !same_bytes(&prev.encryption_pubkey, &decoded.encryption_pubkey) {
            return Err(ErrorCode::PubkeyMismatch);
        }
        if prev.nonce == decoded.nonce && !same_bytes(&prev.encrypted_balance, &decoded.ciphertext) {
            return Err(ErrorCode::StaleNonce);
        }
    }
    ctx.encrypted_balance_account = Some(
        EncryptedBalanceAccount {
            encrypted_balance: decoded.ciphertext,
            nonce: decoded.nonce,
            encryption_pubkey: decoded.encryption_pubkey,
        },
    );
    Ok(())
}

/// Settles a `transfer` result on both records. Returns `Ok(true)` when the
/// transfer settled and both records took their new nonce and ciphertext
/// together, `Ok(false)` when the cluster declined it; keys never change.
/// Nothing changes when a record is missing, on an abort, a malformed
/// payload, or a payload that keeps a record's nonce for a new ciphertext.
pub fn transfer_callback(ctx: &mut TransferCallback, output: &ComputationOutputs) -> (r: Result<
    bool,
    ErrorCode,
>)
    ensures
        match (old(ctx).sender_account, old(ctx).receiver_account) {
            (Some(s), Some(v)) => {
                &&& final(ctx).sender_account is Some
                &&& final(ctx).receiver_account is Some
                &&& (
                    final(ctx).sender_account->Some_0@,
                    final(ctx).receiver_account->Some_0@,
                    r,
                ) == transfer_settlement(s@, v@, output@)
            },
            _ => r == Err::<bool, ErrorCode>(ErrorCode::InvalidArgument) && *final(ctx) == *old(ctx),
        },
{
    let (mut s, mut v) = match (ctx.sender_account, ctx.receiver_account) {
        (Some(s), Some(v)) => (s, v),
        _ => return Err(ErrorCode::InvalidArgument),
    };
    let bytes = match output {
        ComputationOutputs::Bytes(bytes) => bytes,
        ComputationOutputs::Aborted => return Err(ErrorCode::AbortedComputation),
    };
    match decode_transfer(bytes) {
        Ok(TransferResult::Declined) => Ok(false),
        Ok(TransferResult::Settled { sender, receiver }) => {
            if (sender.nonce == s.nonce && !same_bytes(&sender.ciphertext, &s.encrypted_balance)) || (
            receiver.nonce == v.nonce && !same_bytes(&receiver.ciphertext, &v.encrypted_balance)) {
                return Err(ErrorCode::StaleNonce);
            }
            s.nonce = sender.nonce;
            s.encrypted_balance = sender.ciphertext;
            v.nonce = receiver.nonce;
            v.encrypted_balance = receiver.ciphertext;
            ctx.sender_account = Some(s);
            ctx.receiver_account = Some(v);
            Ok(true)
        },
        Err(e) => Err(e),
    }
}

/// Whether two 32-byte fields hold the same bytes.
fn same_bytes(a: &[u8; 32], b: &[u8; 32]) -> (r: bool)
    ensures
        r == (a@ == b@),
{
    let mut i: usize = 0;
    while i < KEY_LEN
        invariant
            i <= KEY_LEN,
            a@.len() == KEY_LEN,
            b@.len() == KEY_LEN,
            forall|j: int| 0 <= j < i ==> a@[j] == b@[j],
        decreases KEY_LEN - i,
    {
        if a[i] != b[i] {
            return false;
        }
        i = i + 1;
    }
    assert(a@ =~= b@);
    true
}

/// Settling a payload that the cluster laid out for a settled transfer
/// gives each record exactly the new nonce and ciphertext the payload
/// carries for it, keeps both keys, and completes with `true`, provided
/// neither record would get a new ciphertext under its old nonce.
pub proof fn lemma_settled_payload_reencrypts(
    sender: BalanceView,
    receiver: BalanceView,
    sender_pubkey: Seq<u8>,
    sender_nonce: u128,
    sender_ciphertext: Seq<u8>,
    receiver_pubkey: Seq<u8>,
    receiver_nonce: u128,
    receiver_ciphertext: Seq<u8>,
)
    requires
        sender_pubkey.len() == KEY_LEN,
        sender_ciphertext.len() == KEY_LEN,
        receiver_pubkey.len() == KEY_LEN,
        receiver_ciphertext.len() == KEY_LEN,
        !stale(sender, sender_nonce, sender_ciphertext),
        !stale(receiver, receiver_nonce, receiver_ciphertext),
    ensures
        transfer_settlement(
            sender,
            receiver,
            Some(
                transfer_bytes(
                    FLAG_SETTLED,
                    sender_pubkey,
                    sender_nonce,
                    sender_ciphertext,
                    receiver_pubkey,
                    receiver_nonce,
                    receiver_ciphertext,
                ),
            ),
        ) == (
            BalanceView {
                ciphertext: sender_ciphertext,
                nonce: sender_nonce,
                encryption_pubkey: sender.encryption_pubkey,
            },
            BalanceView {
                ciphertext: receiver_ciphertext,
                nonce: receiver_nonce,
                encryption_pubkey: receiver.encryption_pubkey,
            },
            Ok::<bool, ErrorCode>(true),
        ),
{
    lemma_transfer_round_trip(
        FLAG_SETTLED,
        sender_pubkey,
        sender_nonce,
        sender_ciphertext,
        receiver_pubkey,
        receiver_nonce,
        receiver_ciphertext,
    );
}

/// No settlement gives a record a new ciphertext under the nonce it had.
pub proof fn lemma_ciphertext_changes_with_nonce(
    prev: BalanceView,
    sender: BalanceView,
    receiver: BalanceView,
    out: Option<Seq<u8>>,
)
    ensures
        wrap_settlement(Some(prev), out).0 is Some,
        ({
            let next = wrap_settlement(Some(prev), out).0->Some_0;
            next.ciphertext != prev.ciphertext ==> next.nonce != prev.nonce
        }),
        ({
            let (s, v, _r) = transfer_settlement(sender, receiver, out);
            &&& (s.ciphertext != sender.ciphertext ==> s.nonce != sender.nonce)
            &&& (v.ciphertext != receiver.ciphertext ==> v.nonce != receiver.nonce)
        }),
{
}

/// A payload of the wrong length settles nothing: the records are left as
/// they were and the callback fails as malformed.
pub proof fn lemma_wrong_length_changes_nothing(
    prev: Option<BalanceView>,
    sender: BalanceView,
    receiver: BalanceView,
    b: Seq<u8>,
)
    ensures
        b.len() != WRAP_OUTPUT_LEN ==> wrap_settlement(prev, Some(b)) == (
            prev,
            Err::<(), ErrorCode>(ErrorCode::MalformedCallback),
        ),
        b.len() != TRANSFER_OUTPUT_LEN ==> transfer_settlement(sender, receiver, Some(b)) == (
            sender,
            receiver,
            Err::<bool, ErrorCode>(ErrorCode::MalformedCallback),
        ),
{
}

/// When the sender's plaintext balance does not cover the amount, the
/// payload carrying the computation's flag completes the transfer as
/// declined and leaves both records exactly as they were.
pub proof fn lemma_uncovered_transfer_changes_nothing(
    sender_balance: u64,
    receiver_balance: u64,
    amount: u64,
    sender: BalanceView,
    receiver: BalanceView,
    b: Seq<u8>,
)
    requires
        sender_balance < amount,
        b.len() == TRANSFER_OUTPUT_LEN,
        b[TRANSFER_FLAG_AT as int] == transfer_spec(sender_balance, receiver_balance, amount).0,
    ensures
        transfer_settlement(sender, receiver, Some(b)) == (sender, receiver, Ok::<bool, ErrorCode>(false)),
{
}

/// One settlement that touches an owner's record.
pub enum Settlement {
    /// A `wrap` callback for the owner, with its payload (`None`: aborted).
    Wrap { out: Option<Seq<u8>> },
    /// A `transfer` callback with the owner as sender.
    Send { receiver: BalanceView, out: Option<Seq<u8>> },
    /// A `transfer` callback with the owner as receiver.
    Receive { sender: BalanceView, out: Option<Seq<u8>> },
}

/// The owner's record after one settlement. A transfer callback runs only
/// on an existing record; without one it is not run.
pub open spec fn settle_one(rec: Option<BalanceView>, s: Settlement) -> Option<BalanceView> {
    match s {
        Settlement::Wrap { out } => wrap_settlement(rec, out).0,
        Settlement::Send { receiver, out } => match rec {
            Some(v) => Some(transfer_settlement(v, receiver, out).0),
            None => None,
        },
        Settlement::Receive { sender, out } => match rec {
            Some(v) => Some(transfer_settlement(sender, v, out).1),
            None => None,
        },
    }
}

/// The owner's record after the settlements of `ss`, in order.
pub open spec fn settle_all(rec: Option<BalanceView>, ss: Seq<Settlement>) -> Option<BalanceView>
    decreases ss.len(),
{
    if ss.len() == 0 {
        rec
    } else {
        settle_one(settle_all(rec, ss.drop_last()), ss.last())
    }
}

/// Once an owner's record exists, any sequence of `wrap` and `transfer`
/// settlements keeps it, under the same encryption key.
pub proof fn lemma_pubkey_fixed_once_set(v: BalanceView, ss: Seq<Settlement>)
    ensures
        settle_all(Some(v), ss) is Some,
        settle_all(Some(v), ss)->Some_0.encryption_pubkey == v.encryption_pubkey,
    decreases ss.len(),
{
    if ss.len() > 0 {
        lemma_pubkey_fixed_once_set(v, ss.drop_last());
    }
}

} // verus!

//! What the cluster computes, stated on plaintext balances.
//!
//! The cluster runs these computations on encrypted inputs and re-encrypts
//! the results; the ledger never sees the plaintexts.
use vstd::prelude::*;

use crate::codec::{FLAG_DECLINED, FLAG_SETTLED};

verus! {

/// The flag and the new sender and receiver balances of a transfer of
/// `amount`: it settles when the sender covers the amount and the receiver's
/// balance stays in range, and otherwise leaves both balances as they were.
pub open spec fn transfer_spec(sender_balance: u64, receiver_balance: u64, amount: u64) -> (
    u8,
    u64,
    u64,
) {
    if sender_balance >= amount && receiver_balance + amount <= u64::MAX {
        (FLAG_SETTLED, (sender_balance - amount) as u64, (receiver_balance + amount) as u64)
    } else {
        (FLAG_DECLINED, sender_balance, receiver_balance)
    }
}

/// The transfer computation on plaintext balances: returns the success flag
/// and the two new balances.
pub fn transfer(sender_balance: u64, receiver_balance: u64, amount: u64) -> (r: (u8, u64, u64))
    ensures
        r == transfer_spec(sender_balance, receiver_balance, amount),
{
    if sender_balance < amount || receiver_balance > u64::MAX - amount {
        (FLAG_DECLINED, sender_balance, receiver_balance)
    } else {
        (FLAG_SETTLED, sender_balance - amount, receiver_balance + amount)
    }
}

/// A transfer of a non-zero amount that the sender covers settles, takes
/// exactly `amount` from the sender, so that the sender's balance strictly
/// falls, and gives exactly `amount` to the receiver.
pub proof fn lemma_covered_transfer_moves_amount(
    sender_balance: u64,
    receiver_balance: u64,
    amount: u64,
)
    requires
        sender_balance >= amount,
        amount > 0,
        receiver_balance + amount <= u64::MAX,
    ensures
        transfer_spec(sender_balance, receiver_balance, amount).0 == FLAG_SETTLED,
        transfer_spec(sender_balance, receiver_balance, amount).1 == sender_balance - amount,
        transfer_spec(sender_balance, receiver_balance, amount).1 < sender_balance,
        transfer_spec(sender_balance, receiver_balance, amount).2 == receiver_balance + amount,
{
}

/// A transfer that the sender cannot cover is declined and leaves both
/// balances unchanged.
pub proof fn lemma_uncovered_transfer_declined(
    sender_balance: u64,
    receiver_balance: u64,
    amount: u64,
)
    requires
        sender_balance < amount,
    ensures
        transfer_spec(sender_balance, receiver_balance, amount) == (
            FLAG_DECLINED,
            sender_balance,
            receiver_balance,
        ),
{
}

/// Two transfers in opposite directions between the same two owners,
/// `a` to `b` of `x` and `b` to `a` of `y`, each computed on the balances
/// the other left, end in the same balances in either order when both
/// settle in both orders. This is sequential composition only: two
/// transfers computed on the same earlier balances are not covered, since
/// the later callback's records replace the earlier one's.
pub proof fn lemma_opposite_transfers_commute(a: u64, b: u64, x: u64, y: u64)
    requires
        transfer_spec(a, b, x).0 == FLAG_SETTLED,
        transfer_spec(transfer_spec(a, b, x).2, transfer_spec(a, b, x).1, y).0 == FLAG_SETTLED,
        transfer_spec(b, a, y).0 == FLAG_SETTLED,
        transfer_spec(transfer_spec(b, a, y).2, transfer_spec(b, a, y).1, x).0 == FLAG_SETTLED,
    ensures
        transfer_spec(transfer_spec(a, b, x).2, transfer_spec(a, b, x).1, y).2
            == transfer_spec(transfer_spec(b, a, y).2, transfer_spec(b, a, y).1, x).1,
        transfer_spec(transfer_spec(a, b, x).2, transfer_spec(a, b, x).1, y).1
            == transfer_spec(transfer_spec(b, a, y).2, transfer_spec(b, a, y).1, x).2,
{
}

} // verus!

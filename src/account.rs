use vstd::prelude::*;

verus! {

/// The durable record of one owner's confidential balance.
///
/// The three fields are always written together.
#[derive(Clone, Copy, Debug)]
pub struct EncryptedBalanceAccount {
    /// The balance, encrypted under `encryption_pubkey`.
    pub encrypted_balance: [u8; 32],
    /// The encryption nonce; it changes whenever the ciphertext does.
    pub nonce: u128,
    /// The key the balance is encrypted under, fixed at creation.
    pub encryption_pubkey: [u8; 32],
}

/// What a balance record holds, as sequences of bytes.
pub struct BalanceView {
    pub ciphertext: Seq<u8>,
    pub nonce: u128,
    pub encryption_pubkey: Seq<u8>,
}

impl View for EncryptedBalanceAccount {
    type V = BalanceView;

    open spec fn view(&self) -> BalanceView {
        BalanceView {
            ciphertext: self.encrypted_balance@,
            nonce: self.nonce,
            encryption_pubkey: self.encryption_pubkey@,
        }
    }
}

/// The view of a record slot: `None` while the owner has no balance yet.
pub open spec fn slot_view(slot: Option<EncryptedBalanceAccount>) -> Option<BalanceView> {
    match slot {
        Some(a) => Some(a@),
        None => None,
    }
}

/// A record of 32 zero bytes of ciphertext, a zero nonce and 32 zero bytes
/// of key: what the ledger holds at an address that no `wrap` has settled on.
pub open spec fn is_blank(v: BalanceView) -> bool {
    &&& v.ciphertext == Seq::new(32, |i: int| 0u8)
    &&& v.nonce == 0
    &&& v.encryption_pubkey == Seq::new(32, |i: int| 0u8)
}

fn all_zero(a: &[u8; 32]) -> (r: bool)
    ensures
        r == (a@ == Seq::new(32, |i: int| 0u8)),
{
    let mut i: usize = 0;
    while i < 32
        invariant
            i <= 32,
            a@.len() == 32,
            forall|j: int| 0 <= j < i ==> a@[j] == 0u8,
        decreases 32 - i,
    {
        if a[i] != 0 {
            assert(a@[i as int] != Seq::new(32, |k: int| 0u8)[i as int]);
            return false;
        }
        i = i + 1;
    }
    assert(a@ =~= Seq::new(32, |k: int| 0u8));
    true
}

/// The slot that a stored record stands for: `None` for a blank record,
/// which holds no balance yet, and the record itself otherwise.
pub fn record_slot(account: EncryptedBalanceAccount) -> (r: Option<EncryptedBalanceAccount>)
    ensures
        r == (if is_blank(account@) {
            None
        } else {
            Some(account)
        }),
{
    if all_zero(&account.encrypted_balance) && account.nonce == 0 && all_zero(
        &account.encryption_pubkey,
    ) {
        None
    } else {
        Some(account)
    }
}

} // verus!

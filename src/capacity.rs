//! Exact-fit capacity: the footprint of each record and the deposit that
//! funds it, moved between the owner and the record on every write.
use vstd::prelude::*;
use crate::state::{Account, Rent, Signer};

verus! {

/// Bytes that the host charges for on top of a record's own space.
pub const ACCOUNT_STORAGE_OVERHEAD: u64 = 128;

/// Space of a payload record without its variable-length fields: the
/// discriminator and the record's fixed layout.
pub const BYTE_ACCOUNT_FIXED_SPACE: usize = 112;

/// Space of a metadata record.
pub const METADATA_ACCOUNT_SPACE: usize = 512;

/// Space of a version counter record.
pub const VERSION_ACCOUNT_SPACE: usize = 88;

/// Space of a legacy store record without its payload.
pub const BYTE_STORE_FIXED_SPACE: usize = 125;

/// The footprint of a payload record holding fields of these lengths.
pub open spec fn byte_account_space_spec(bytes: nat, key: nat, iv: nat, tag: nat) -> nat {
    BYTE_ACCOUNT_FIXED_SPACE as nat + bytes + key + iv + tag
}

/// Computes the footprint of a payload record.
pub fn byte_account_space(bytes: usize, key: usize, iv: usize, tag: usize) -> (r: usize)
    requires
        byte_account_space_spec(bytes as nat, key as nat, iv as nat, tag as nat) <= usize::MAX,
    ensures
        r == byte_account_space_spec(bytes as nat, key as nat, iv as nat, tag as nat),
{
    BYTE_ACCOUNT_FIXED_SPACE + bytes + key + iv + tag
}

/// The deposit that keeps a record of `space` bytes funded.
pub open spec fn deposit_spec(rent: Rent, space: nat) -> int {
    (ACCOUNT_STORAGE_OVERHEAD + space) * rent.lamports_per_byte
}

/// The deposit for `space` bytes, `None` where it exceeds any balance.
pub fn minimum_balance(rent: &Rent, space: usize) -> (r: Option<u64>)
    ensures
        r == (if deposit_spec(*rent, space as nat) <= u64::MAX {
            Some(deposit_spec(*rent, space as nat) as u64)
        } else {
            None
        }),
{
    let s: u128 = space as u128 + ACCOUNT_STORAGE_OVERHEAD as u128;
    match s.checked_mul(rent.lamports_per_byte as u128) {
        Some(d) => {
            if d <= u64::MAX as u128 {
                Some(d as u64)
            } else {
                None
            }
        },
        None => {
            assert(deposit_spec(*rent, space as nat) > u64::MAX) by (nonlinear_arith)
                requires
                    s * rent.lamports_per_byte > u128::MAX,
                    deposit_spec(*rent, space as nat) == s * rent.lamports_per_byte,
            ;
            None
        },
    }
}

/// What the owner pays to bring a balance up to a deposit.
pub open spec fn funding_need(balance: int, deposit: int) -> int {
    if deposit > balance {
        deposit - balance
    } else {
        0
    }
}

/// Brings a record's balance to exactly `deposit`: the owner pays what is
/// missing, or gets back what is over.
pub fn settle<T>(owner: &mut Signer, account: &mut Account<T>, deposit: u64)
    requires
        old(owner).lamports >= funding_need(old(account).lamports as int, deposit as int),
        old(owner).lamports + old(account).lamports <= u64::MAX,
    ensures
        final(account).lamports == deposit,
        final(owner).lamports == old(owner).lamports + old(account).lamports - deposit,
        final(owner).key == old(owner).key,
        final(account).address == old(account).address,
        final(account).space == old(account).space,
        final(account).data == old(account).data,
{
    if deposit > account.lamports {
        owner.lamports = owner.lamports - (deposit - account.lamports);
    } else {
        owner.lamports = owner.lamports + (account.lamports - deposit);
    }
    account.lamports = deposit;
}

/// Closes a record: its data is gone, its space freed, and its whole
/// deposit returned to the owner.
pub fn close<T>(owner: &mut Signer, account: &mut Account<T>)
    requires
        old(owner).lamports + old(account).lamports <= u64::MAX,
    ensures
        final(account).data is None,
        final(account).lamports == 0,
        final(account).space == 0,
        final(account).address == old(account).address,
        final(owner).lamports == old(owner).lamports + old(account).lamports,
        final(owner).key == old(owner).key,
{
    owner.lamports = owner.lamports + account.lamports;
    account.lamports = 0;
    account.space = 0;
    account.data = None;
}

} // verus!

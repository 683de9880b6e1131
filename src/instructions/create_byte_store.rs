//! Create of a legacy single-record store.
use vstd::prelude::*;
use crate::address::{record_address, resolve, sha256, sha256_of, RecordKind};
use crate::capacity::{deposit_spec, funding_need, minimum_balance, settle, BYTE_STORE_FIXED_SPACE};
use crate::error::SolanaByteStoreError;
use crate::instructions::{at_address, check_at};
use crate::state::{Account, ByteStoreAccount, Rent, Signer};

verus! {

/// The records that creating a legacy store touches.
pub struct CreateByteStoreContext {
    pub byte_store_account: Account<ByteStoreAccount>,
    pub owner: Signer,
}

/// The footprint of a legacy store of `size` payload bytes.
pub open spec fn store_space(size: u32) -> nat {
    BYTE_STORE_FIXED_SPACE as nat + size as nat
}

/// The failure of creating a legacy store, in the order in which it is checked.
pub open spec fn create_store_error(
    ctx: CreateByteStoreContext,
    program_id: Seq<u8>,
    rent: Rent,
    id: Seq<u8>,
    size: u32,
    bytes: Seq<u8>,
) -> Option<SolanaByteStoreError> {
    let d = deposit_spec(rent, store_space(size));
    if !at_address(ctx.byte_store_account, record_address(RecordKind::ByteStore, program_id, ctx.owner.key@, id, 0)) {
        Some(SolanaByteStoreError::AddressMismatch)
    } else if ctx.byte_store_account.data is Some {
        Some(SolanaByteStoreError::AccountAlreadyInUse)
    } else if bytes.len() != size as int {
        Some(SolanaByteStoreError::CreateByteStoreByteSizeMismatch)
    } else if d > u64::MAX || funding_need(ctx.byte_store_account.lamports as int, d) > ctx.owner.lamports {
        Some(SolanaByteStoreError::InsufficientFunds)
    } else {
        None
    }
}

/// Creates the owner's legacy store `id` holding `bytes`, whose length must
/// be the declared `size`; the record holds the size and checksum beside
/// the payload.
pub fn invoke(
    ctx: &mut CreateByteStoreContext,
    program_id: &[u8; 32],
    rent: &Rent,
    id: [u8; 32],
    size: u32,
    bytes: Vec<u8>,
) -> (r: Result<(), SolanaByteStoreError>)
    requires
        old(ctx).owner.lamports + old(ctx).byte_store_account.lamports <= u64::MAX,
        store_space(size) <= usize::MAX,
    ensures
        r is Err <==> create_store_error(*old(ctx), program_id@, *rent, id@, size, bytes@) is Some,
        r matches Err(e) ==> create_store_error(*old(ctx), program_id@, *rent, id@, size, bytes@) == Some(e),
        r is Err ==> *final(ctx) == *old(ctx),
        r is Ok ==> {
            let d = deposit_spec(*rent, store_space(size));
            let bump = record_address(RecordKind::ByteStore, program_id@, old(ctx).owner.key@, id@, 0).unwrap().1;
            &&& final(ctx).byte_store_account.data matches Some(s) && s.id == id && s.bump == bump
                && s.size == size && s.bytes@ == bytes@ && s.checksum@ == sha256_of(bytes@)
                && s.size as int == s.bytes@.len() && s.checksum@ == sha256_of(s.bytes@)
            &&& final(ctx).byte_store_account.space == store_space(size)
            &&& final(ctx).byte_store_account.lamports == d
            &&& final(ctx).owner.lamports + d == old(ctx).owner.lamports + old(ctx).byte_store_account.lamports
            &&& final(ctx).owner.key == old(ctx).owner.key
            &&& final(ctx).byte_store_account.address == old(ctx).byte_store_account.address
        },
{
    let bump = match check_at(&ctx.byte_store_account, resolve(RecordKind::ByteStore, program_id, &ctx.owner.key, &id, 0)) {
        Some(b) => b,
        None => return Err(SolanaByteStoreError::AddressMismatch),
    };
    if ctx.byte_store_account.data.is_some() {
        return Err(SolanaByteStoreError::AccountAlreadyInUse);
    }
    if bytes.len() != size as usize {
        return Err(SolanaByteStoreError::CreateByteStoreByteSizeMismatch);
    }
    let space: usize = BYTE_STORE_FIXED_SPACE + size as usize;
    let d = match minimum_balance(rent, space) {
        Some(d) => d,
        None => return Err(SolanaByteStoreError::InsufficientFunds),
    };
    if d > ctx.byte_store_account.lamports && d - ctx.byte_store_account.lamports > ctx.owner.lamports {
        return Err(SolanaByteStoreError::InsufficientFunds);
    }
    let checksum = sha256(bytes.as_slice());
    settle(&mut ctx.owner, &mut ctx.byte_store_account, d);
    ctx.byte_store_account.space = space;
    ctx.byte_store_account.data = Some(ByteStoreAccount { id, bump, size, checksum, bytes });
    Ok(())
}

} // verus!

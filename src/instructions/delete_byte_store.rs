//! Delete of a legacy single-record store.
use vstd::prelude::*;
use crate::capacity::close;
use crate::error::SolanaByteStoreError;
use crate::instructions::{locate_store, store_locate_error};
use crate::state::{Account, ByteStoreAccount, Signer};

verus! {

/// The records that deleting a legacy store touches.
pub struct DeleteByteStoreContext {
    pub byte_store_account: Account<ByteStoreAccount>,
    pub owner: Signer,
}

/// Deletes the owner's legacy store, returning its deposit to the owner.
pub fn invoke(ctx: &mut DeleteByteStoreContext, program_id: &[u8; 32]) -> (r: Result<(), SolanaByteStoreError>)
    requires
        old(ctx).owner.lamports + old(ctx).byte_store_account.lamports <= u64::MAX,
    ensures
        r is Err <==> store_locate_error(old(ctx).byte_store_account, program_id@, old(ctx).owner.key@) is Some,
        r matches Err(e) ==> store_locate_error(old(ctx).byte_store_account, program_id@, old(ctx).owner.key@) == Some(e),
        r is Err ==> *final(ctx) == *old(ctx),
        r is Ok ==> {
            &&& final(ctx).byte_store_account.data is None
            &&& final(ctx).byte_store_account.lamports == 0 && final(ctx).byte_store_account.space == 0
            &&& final(ctx).owner.lamports == old(ctx).owner.lamports + old(ctx).byte_store_account.lamports
            &&& final(ctx).owner.key == old(ctx).owner.key
            &&& final(ctx).byte_store_account.address == old(ctx).byte_store_account.address
        },
{
    match locate_store(&ctx.byte_store_account, program_id, &ctx.owner.key) {
        Ok(_) => {},
        Err(e) => return Err(e),
    }
    close(&mut ctx.owner, &mut ctx.byte_store_account);
    Ok(())
}

} // verus!

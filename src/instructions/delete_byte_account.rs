//! Delete: closes a payload/metadata pair together.
use vstd::prelude::*;
use crate::capacity::close;
use crate::error::SolanaByteStoreError;
use crate::instructions::{locate_error, locate_pair};
use crate::state::{Account, ByteAccount, MetadataAccount, Signer};

verus! {

/// The records that a delete touches.
pub struct DeleteByteAccountContext {
    pub byte_account: Account<ByteAccount>,
    pub metadata_account: Account<MetadataAccount>,
    pub owner: Signer,
}

/// Deletes the owner's payload record and its metadata record together,
/// returning both deposits to the owner.
pub fn invoke(ctx: &mut DeleteByteAccountContext, program_id: &[u8; 32]) -> (r: Result<(), SolanaByteStoreError>)
    requires
        old(ctx).owner.lamports + old(ctx).byte_account.lamports + old(ctx).metadata_account.lamports <= u64::MAX,
    ensures
        r is Err <==> locate_error(old(ctx).byte_account, old(ctx).metadata_account, program_id@, old(ctx).owner.key@) is Some,
        r matches Err(e) ==> locate_error(old(ctx).byte_account, old(ctx).metadata_account, program_id@, old(ctx).owner.key@) == Some(e),
        r is Err ==> *final(ctx) == *old(ctx),
        r is Ok ==> {
            &&& final(ctx).byte_account.data is None && final(ctx).metadata_account.data is None
            &&& final(ctx).byte_account.lamports == 0 && final(ctx).metadata_account.lamports == 0
            &&& final(ctx).byte_account.space == 0 && final(ctx).metadata_account.space == 0
            &&& final(ctx).owner.lamports == old(ctx).owner.lamports + old(ctx).byte_account.lamports
                + old(ctx).metadata_account.lamports
            &&& final(ctx).owner.key == old(ctx).owner.key
            &&& final(ctx).byte_account.address == old(ctx).byte_account.address
            &&& final(ctx).metadata_account.address == old(ctx).metadata_account.address
        },
{
    match locate_pair(&ctx.byte_account, &ctx.metadata_account, program_id, &ctx.owner.key) {
        Ok(_) => {},
        Err(e) => return Err(e),
    }
    close(&mut ctx.owner, &mut ctx.byte_account);
    close(&mut ctx.owner, &mut ctx.metadata_account);
    Ok(())
}

} // verus!

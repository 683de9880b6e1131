//! Closes a version counter.
use vstd::prelude::*;
use crate::address::{record_address, resolve, RecordKind};
use crate::capacity::close;
use crate::error::SolanaByteStoreError;
use crate::instructions::{at_address, check_at};
use crate::state::{Account, Signer, VersionAccount};

verus! {

/// The records that closing a version counter touches.
pub struct DeleteVersionAccountContext {
    pub version_account: Account<VersionAccount>,
    pub owner: Signer,
}

/// The failure of closing a version counter.
pub open spec fn delete_version_error(ctx: DeleteVersionAccountContext, program_id: Seq<u8>) -> Option<SolanaByteStoreError> {
    match ctx.version_account.data {
        None => Some(SolanaByteStoreError::AccountNotFound),
        Some(v) => if at_address(ctx.version_account, record_address(RecordKind::Version, program_id, ctx.owner.key@, v.id@, 0)) {
            None
        } else {
            Some(SolanaByteStoreError::AddressMismatch)
        },
    }
}

/// Closes the owner's version counter for an identifier, returning its
/// deposit to the owner.
pub fn invoke(ctx: &mut DeleteVersionAccountContext, program_id: &[u8; 32]) -> (r: Result<(), SolanaByteStoreError>)
    requires
        old(ctx).owner.lamports + old(ctx).version_account.lamports <= u64::MAX,
    ensures
        r is Err <==> delete_version_error(*old(ctx), program_id@) is Some,
        r matches Err(e) ==> delete_version_error(*old(ctx), program_id@) == Some(e),
        r is Err ==> *final(ctx) == *old(ctx),
        r is Ok ==> {
            &&& final(ctx).version_account.data is None
            &&& final(ctx).version_account.lamports == 0 && final(ctx).version_account.space == 0
            &&& final(ctx).owner.lamports == old(ctx).owner.lamports + old(ctx).version_account.lamports
            &&& final(ctx).owner.key == old(ctx).owner.key
            &&& final(ctx).version_account.address == old(ctx).version_account.address
        },
{
    let id = match &ctx.version_account.data {
        Some(v) => v.id,
        None => return Err(SolanaByteStoreError::AccountNotFound),
    };
    if check_at(&ctx.version_account, resolve(RecordKind::Version, program_id, &ctx.owner.key, &id, 0)).is_none() {
        return Err(SolanaByteStoreError::AddressMismatch);
    }
    close(&mut ctx.owner, &mut ctx.version_account);
    Ok(())
}

} // verus!

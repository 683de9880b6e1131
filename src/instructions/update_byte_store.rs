//! Update of a legacy single-record store: the store is only checked to be
//! live at its address; its content is never rewritten in place.
use vstd::prelude::*;
use crate::error::SolanaByteStoreError;
use crate::instructions::{locate_store, store_locate_error};
use crate::state::{Account, ByteStoreAccount, Signer};

verus! {

/// The records that updating a legacy store touches.
pub struct UpdateByteStoreContext {
    pub byte_store_account: Account<ByteStoreAccount>,
    pub owner: Signer,
}

/// Checks that the owner's legacy store is live at its derived address; the
/// store itself is left as it is.
pub fn invoke(ctx: &UpdateByteStoreContext, program_id: &[u8; 32]) -> (r: Result<(), SolanaByteStoreError>)
    ensures
        r is Err <==> store_locate_error(ctx.byte_store_account, program_id@, ctx.owner.key@) is Some,
        r matches Err(e) ==> store_locate_error(ctx.byte_store_account, program_id@, ctx.owner.key@) == Some(e),
{
    match locate_store(&ctx.byte_store_account, program_id, &ctx.owner.key) {
        Ok(_) => Ok(()),
        Err(e) => Err(e),
    }
}

} // verus!

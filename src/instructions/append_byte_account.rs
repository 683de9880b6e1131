//! Append: extends a stored payload in place.
use vstd::prelude::*;
use crate::address::{sha256, sha256_of};
use crate::capacity::{byte_account_space, byte_account_space_spec, deposit_spec, funding_need, minimum_balance, settle};
use crate::error::SolanaByteStoreError;
use crate::instructions::{locate_error, locate_pair, records_consistent};
use crate::state::{Account, ByteAccount, MetadataAccount, Rent, Signer};

verus! {

/// The records that an append touches.
pub struct AppendByteAccountContext {
    pub byte_account: Account<ByteAccount>,
    pub metadata_account: Account<MetadataAccount>,
    pub owner: Signer,
}

/// The footprint of a payload record with `extra` more payload bytes.
pub open spec fn appended_space(b: ByteAccount, extra: nat) -> nat {
    byte_account_space_spec(b.bytes@.len() + extra, b.aes_key@.len(), b.aes_iv@.len(), b.aes_auth_tag@.len())
}

/// The failure of an append, in the order in which it is checked.
pub open spec fn append_error(
    ctx: AppendByteAccountContext,
    program_id: Seq<u8>,
    rent: Rent,
    bytes: Seq<u8>,
) -> Option<SolanaByteStoreError> {
    let located = locate_error(ctx.byte_account, ctx.metadata_account, program_id, ctx.owner.key@);
    if located is Some {
        located
    } else {
        let d = deposit_spec(rent, appended_space(ctx.byte_account.data.unwrap(), bytes.len()));
        if d > u64::MAX || funding_need(ctx.byte_account.lamports as int, d) > ctx.owner.lamports {
            Some(SolanaByteStoreError::InsufficientFunds)
        } else {
            None
        }
    }
}

/// Appends `bytes` to the owner's stored payload: the payload record grows
/// to fit exactly, and size, checksum and update time are refreshed for the
/// whole new payload.
pub fn invoke(
    ctx: &mut AppendByteAccountContext,
    program_id: &[u8; 32],
    rent: &Rent,
    now: u64,
    bytes: Vec<u8>,
) -> (r: Result<(), SolanaByteStoreError>)
    requires
        old(ctx).owner.lamports + old(ctx).byte_account.lamports <= u64::MAX,
        old(ctx).byte_account.data matches Some(b) ==> appended_space(b, bytes@.len()) <= usize::MAX,
    ensures
        r is Err <==> append_error(*old(ctx), program_id@, *rent, bytes@) is Some,
        r matches Err(e) ==> append_error(*old(ctx), program_id@, *rent, bytes@) == Some(e),
        r is Err ==> *final(ctx) == *old(ctx),
        r is Ok ==> {
            let ob = old(ctx).byte_account.data.unwrap();
            let om = old(ctx).metadata_account.data.unwrap();
            let b = final(ctx).byte_account.data.unwrap();
            let m = final(ctx).metadata_account.data.unwrap();
            let d = deposit_spec(*rent, appended_space(ob, bytes@.len()));
            &&& final(ctx).byte_account.data is Some && final(ctx).metadata_account.data is Some
            &&& b.bytes@ == ob.bytes@ + bytes@
            &&& b.aes_key == ob.aes_key && b.aes_iv == ob.aes_iv && b.aes_auth_tag == ob.aes_auth_tag
            &&& m.size as int == ob.bytes@.len() + bytes@.len()
            &&& m.checksum@ == sha256_of(ob.bytes@ + bytes@)
            &&& m.updated_at_ts == now
            &&& m.byte_account == old(ctx).byte_account.address
            &&& m.id == om.id && m.bump == om.bump && m.owner == om.owner && m.is_encrypted == om.is_encrypted
            &&& m.created_at_ts == om.created_at_ts && m.expires_at_ts == om.expires_at_ts && m.version == om.version
            &&& final(ctx).byte_account.space == appended_space(ob, bytes@.len())
            &&& final(ctx).byte_account.lamports == d
            &&& final(ctx).owner.lamports + d == old(ctx).owner.lamports + old(ctx).byte_account.lamports
            &&& final(ctx).owner.key == old(ctx).owner.key
            &&& final(ctx).byte_account.address == old(ctx).byte_account.address
            &&& final(ctx).metadata_account.address == old(ctx).metadata_account.address
            &&& final(ctx).metadata_account.lamports == old(ctx).metadata_account.lamports
            &&& final(ctx).metadata_account.space == old(ctx).metadata_account.space
        },
        r is Ok ==> records_consistent(final(ctx).byte_account.data.unwrap(), final(ctx).metadata_account.data.unwrap()),
{
    let (_baddr, bbump) = match locate_pair(&ctx.byte_account, &ctx.metadata_account, program_id, &ctx.owner.key) {
        Ok(p) => p,
        Err(e) => return Err(e),
    };
    let space = match &ctx.byte_account.data {
        Some(b) => byte_account_space(b.bytes.len() + bytes.len(), b.aes_key.len(), b.aes_iv.len(), b.aes_auth_tag.len()),
        None => return Err(SolanaByteStoreError::AccountNotFound),
    };
    let d = match minimum_balance(rent, space) {
        Some(d) => d,
        None => return Err(SolanaByteStoreError::InsufficientFunds),
    };
    if d > ctx.byte_account.lamports && d - ctx.byte_account.lamports > ctx.owner.lamports {
        return Err(SolanaByteStoreError::InsufficientFunds);
    }
    settle(&mut ctx.owner, &mut ctx.byte_account, d);
    ctx.byte_account.space = space;
    let mut b = ctx.byte_account.data.take().unwrap();
    let mut extra = bytes;
    b.bump = bbump;
    b.bytes.append(&mut extra);
    let checksum = sha256(b.bytes.as_slice());
    let size = b.bytes.len() as u64;
    ctx.byte_account.data = Some(b);
    let mut m = ctx.metadata_account.data.take().unwrap();
    m.size = size;
    m.updated_at_ts = now;
    m.checksum = checksum;
    m.byte_account = ctx.byte_account.address;
    ctx.metadata_account.data = Some(m);
    Ok(())
}

} // verus!

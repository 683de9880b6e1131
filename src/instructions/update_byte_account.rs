//! Update: replaces a stored payload and its envelope.
use vstd::prelude::*;
use crate::address::{sha256, sha256_of};
use crate::capacity::{byte_account_space, byte_account_space_spec, deposit_spec, funding_need, minimum_balance, settle};
use crate::error::SolanaByteStoreError;
use crate::instructions::{locate_error, locate_pair, records_consistent};
use crate::rules::{envelope_field, expiry_accepted, field_bytes, validate_expiry};
use crate::state::{Account, ByteAccount, MetadataAccount, Rent, Signer};

verus! {

/// The records that an update touches.
pub struct UpdateByteAccountContext {
    pub byte_account: Account<ByteAccount>,
    pub metadata_account: Account<MetadataAccount>,
    pub owner: Signer,
}

/// The arguments of an update.
pub struct UpdateByteAccountArgs {
    pub bytes: Vec<u8>,
    pub aes_key: Option<Vec<u8>>,
    pub aes_iv: Option<Vec<u8>>,
    pub aes_auth_tag: Option<Vec<u8>>,
    pub expires_at_ts: Option<u64>,
}

/// The footprint of the payload record after an update.
pub open spec fn updated_space(args: UpdateByteAccountArgs) -> nat {
    byte_account_space_spec(
        args.bytes@.len(),
        field_bytes(args.aes_key).len(),
        field_bytes(args.aes_iv).len(),
        field_bytes(args.aes_auth_tag).len(),
    )
}

/// The failure of an update, in the order in which it is checked.
pub open spec fn update_error(
    ctx: UpdateByteAccountContext,
    program_id: Seq<u8>,
    rent: Rent,
    now: u64,
    args: UpdateByteAccountArgs,
) -> Option<SolanaByteStoreError> {
    let located = locate_error(ctx.byte_account, ctx.metadata_account, program_id, ctx.owner.key@);
    let d = deposit_spec(rent, updated_space(args));
    if located is Some {
        located
    } else if !expiry_accepted(args.expires_at_ts, now) {
        Some(SolanaByteStoreError::UpdateByteAccountInvalidExpiresAtTs)
    } else if d > u64::MAX || funding_need(ctx.byte_account.lamports as int, d) > ctx.owner.lamports {
        Some(SolanaByteStoreError::InsufficientFunds)
    } else {
        None
    }
}

/// Replaces the owner's stored payload and envelope: the payload record is
/// resized to fit exactly, size, checksum, update time and the encryption
/// flag are refreshed, and a given expiry replaces the stored one (without
/// one, the stored expiry stays).
pub fn invoke(
    ctx: &mut UpdateByteAccountContext,
    program_id: &[u8; 32],
    rent: &Rent,
    now: u64,
    args: UpdateByteAccountArgs,
) -> (r: Result<(), SolanaByteStoreError>)
    requires
        old(ctx).owner.lamports + old(ctx).byte_account.lamports <= u64::MAX,
        updated_space(args) <= usize::MAX,
    ensures
        r is Err <==> update_error(*old(ctx), program_id@, *rent, now, args) is Some,
        r matches Err(e) ==> update_error(*old(ctx), program_id@, *rent, now, args) == Some(e),
        r is Err ==> *final(ctx) == *old(ctx),
        r is Ok ==> {
            let om = old(ctx).metadata_account.data.unwrap();
            let b = final(ctx).byte_account.data.unwrap();
            let m = final(ctx).metadata_account.data.unwrap();
            let d = deposit_spec(*rent, updated_space(args));
            &&& final(ctx).byte_account.data is Some && final(ctx).metadata_account.data is Some
            &&& b.bytes@ == args.bytes@
            &&& b.aes_key@ == field_bytes(args.aes_key) && b.aes_iv@ == field_bytes(args.aes_iv)
            &&& b.aes_auth_tag@ == field_bytes(args.aes_auth_tag)
            &&& m.size as int == args.bytes@.len()
            &&& m.checksum@ == sha256_of(args.bytes@)
            &&& m.is_encrypted == args.aes_key is Some
            &&& m.updated_at_ts == now
            &&& m.expires_at_ts == (match args.expires_at_ts {
                Some(t) => t,
                None => om.expires_at_ts,
            })
            &&& m.byte_account == old(ctx).byte_account.address
            &&& m.id == om.id && m.bump == om.bump && m.owner == om.owner
            &&& m.created_at_ts == om.created_at_ts && m.version == om.version
            &&& final(ctx).byte_account.space == updated_space(args)
            &&& final(ctx).byte_account.lamports == d
            &&& final(ctx).owner.lamports + d == old(ctx).owner.lamports + old(ctx).byte_account.lamports
            &&& final(ctx).owner.key == old(ctx).owner.key
            &&& final(ctx).byte_account.address == old(ctx).byte_account.address
            &&& final(ctx).metadata_account.address == old(ctx).metadata_account.address
            &&& final(ctx).metadata_account.lamports == old(ctx).metadata_account.lamports
            &&& final(ctx).metadata_account.space == old(ctx).metadata_account.space
        },
        r is Ok ==> records_consistent(final(ctx).byte_account.data.unwrap(), final(ctx).metadata_account.data.unwrap()),
{
    let UpdateByteAccountArgs { bytes, aes_key, aes_iv, aes_auth_tag, expires_at_ts } = args;
    let (_baddr, bbump) = match locate_pair(&ctx.byte_account, &ctx.metadata_account, program_id, &ctx.owner.key) {
        Ok(p) => p,
        Err(e) => return Err(e),
    };
    if !validate_expiry(expires_at_ts, now) {
        return Err(SolanaByteStoreError::UpdateByteAccountInvalidExpiresAtTs);
    }
    let is_encrypted = aes_key.is_some();
    let aes_key = envelope_field(aes_key);
    let aes_iv = envelope_field(aes_iv);
    let aes_auth_tag = envelope_field(aes_auth_tag);
    let space = byte_account_space(bytes.len(), aes_key.len(), aes_iv.len(), aes_auth_tag.len());
    let d = match minimum_balance(rent, space) {
        Some(d) => d,
        None => return Err(SolanaByteStoreError::InsufficientFunds),
    };
    if d > ctx.byte_account.lamports && d - ctx.byte_account.lamports > ctx.owner.lamports {
        return Err(SolanaByteStoreError::InsufficientFunds);
    }
    let checksum = sha256(bytes.as_slice());
    let size = bytes.len() as u64;
    settle(&mut ctx.owner, &mut ctx.byte_account, d);
    ctx.byte_account.space = space;
    ctx.byte_account.data = Some(ByteAccount { bump: bbump, bytes, aes_key, aes_iv, aes_auth_tag });
    let mut m = ctx.metadata_account.data.take().unwrap();
    m.size = size;
    m.updated_at_ts = now;
    m.checksum = checksum;
    m.is_encrypted = is_encrypted;
    m.byte_account = ctx.byte_account.address;
    match expires_at_ts {
        Some(t) => {
            m.expires_at_ts = t;
        },
        None => {},
    }
    ctx.metadata_account.data = Some(m);
    Ok(())
}

} // verus!

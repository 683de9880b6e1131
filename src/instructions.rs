//! The instructions of the store, one module each, and what they share.
use vstd::prelude::*;
use crate::address::{record_address, sha256_of, RecordKind};
use crate::address::{address_view, resolve, same_key};
use crate::error::SolanaByteStoreError;
use crate::state::{Account, ByteAccount, ByteStoreAccount, MetadataAccount};

pub mod append_byte_account;
pub mod create_byte_account;
pub mod create_byte_store;
pub mod delete_byte_store;
pub mod delete_byte_account;
pub mod delete_version_account;
pub mod update_byte_account;
pub mod update_byte_store;






verus! {

/// A slot stands at the address resolved for it.
pub open spec fn at_address<T>(account: Account<T>, resolved: Option<(Seq<u8>, u8)>) -> bool {
    resolved is Some && resolved.unwrap().0 == account.address@
}

/// Checks a slot against the address resolved for it: the bump of that
/// address where the slot stands there, `None` where it does not or where no
/// address was found.
pub fn check_at<T>(account: &Account<T>, resolved: Option<([u8; 32], u8)>) -> (r: Option<u8>)
    ensures
        r is Some <==> at_address(*account, address_view(resolved)),
        r matches Some(b) ==> b == resolved.unwrap().1,
{
    match resolved {
        Some((address, bump)) => if same_key(&address, &account.address) {
            Some(bump)
        } else {
            None
        },
        None => None,
    }
}

/// A metadata record describes its payload record: the size is the payload's
/// length and the checksum is the payload's digest.
pub open spec fn records_consistent(byte: ByteAccount, meta: MetadataAccount) -> bool {
    meta.size as int == byte.bytes@.len() && meta.checksum@ == sha256_of(byte.bytes@)
}

/// Both halves of a payload/metadata pair are live and consistent.
pub open spec fn pair_consistent(byte: Account<ByteAccount>, meta: Account<MetadataAccount>) -> bool {
    byte.data is Some && meta.data is Some && records_consistent(byte.data.unwrap(), meta.data.unwrap())
}

/// The metadata record is live and both halves of the pair stand at the
/// addresses derived from the owner and the metadata's identifier and version.
pub open spec fn pair_located(
    byte: Account<ByteAccount>,
    meta: Account<MetadataAccount>,
    program_id: Seq<u8>,
    owner: Seq<u8>,
) -> bool {
    meta.data matches Some(m)
        && at_address(meta, record_address(RecordKind::Metadata, program_id, owner, m.id@, m.version))
        && at_address(byte, record_address(RecordKind::Byte, program_id, owner, m.id@, m.version))
}

/// The failure of locating a live payload/metadata pair, in the order in
/// which it is checked; `None` where the pair is found.
pub open spec fn locate_error(
    byte: Account<ByteAccount>,
    meta: Account<MetadataAccount>,
    program_id: Seq<u8>,
    owner: Seq<u8>,
) -> Option<SolanaByteStoreError> {
    if meta.data is None {
        Some(SolanaByteStoreError::AccountNotFound)
    } else if !pair_located(byte, meta, program_id, owner) {
        Some(SolanaByteStoreError::AddressMismatch)
    } else if byte.data is None {
        Some(SolanaByteStoreError::AccountNotFound)
    } else {
        None
    }
}

/// Finds the payload/metadata pair of the signing owner: returns the payload
/// record's address and bump.
pub fn locate_pair(
    byte: &Account<ByteAccount>,
    meta: &Account<MetadataAccount>,
    program_id: &[u8; 32],
    owner: &[u8; 32],
) -> (r: Result<([u8; 32], u8), SolanaByteStoreError>)
    ensures
        r is Err <==> locate_error(*byte, *meta, program_id@, owner@) is Some,
        r matches Err(e) ==> locate_error(*byte, *meta, program_id@, owner@) == Some(e),
        r matches Ok(p) ==> {
            let m = meta.data.unwrap();
            record_address(RecordKind::Byte, program_id@, owner@, m.id@, m.version) == Some((p.0@, p.1))
        },
{
    let (id, version) = match &meta.data {
        Some(m) => (m.id, m.version),
        None => return Err(SolanaByteStoreError::AccountNotFound),
    };
    let meta_at = check_at(meta, resolve(RecordKind::Metadata, program_id, owner, &id, version));
    let byte_at = check_at(byte, resolve(RecordKind::Byte, program_id, owner, &id, version));
    let bump = match (meta_at, byte_at) {
        (Some(_), Some(b)) => b,
        _ => return Err(SolanaByteStoreError::AddressMismatch),
    };
    if byte.data.is_none() {
        return Err(SolanaByteStoreError::AccountNotFound);
    }
    Ok((byte.address, bump))
}

/// The failure of locating a live legacy store of the signing owner.
pub open spec fn store_locate_error(
    store: Account<ByteStoreAccount>,
    program_id: Seq<u8>,
    owner: Seq<u8>,
) -> Option<SolanaByteStoreError> {
    match store.data {
        None => Some(SolanaByteStoreError::AccountNotFound),
        Some(s) => if at_address(store, record_address(RecordKind::ByteStore, program_id, owner, s.id@, 0)) {
            None
        } else {
            Some(SolanaByteStoreError::AddressMismatch)
        },
    }
}

/// Finds the live legacy store of the signing owner: returns its bump.
pub fn locate_store(
    store: &Account<ByteStoreAccount>,
    program_id: &[u8; 32],
    owner: &[u8; 32],
) -> (r: Result<u8, SolanaByteStoreError>)
    ensures
        r is Err <==> store_locate_error(*store, program_id@, owner@) is Some,
        r matches Err(e) ==> store_locate_error(*store, program_id@, owner@) == Some(e),
{
    let id = match &store.data {
        Some(s) => s.id,
        None => return Err(SolanaByteStoreError::AccountNotFound),
    };
    match check_at(store, resolve(RecordKind::ByteStore, program_id, owner, &id, 0)) {
        Some(b) => Ok(b),
        None => Err(SolanaByteStoreError::AddressMismatch),
    }
}

} // verus!

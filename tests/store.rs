use solana_byte_store::address::{resolve, seeds_for, version_seed, RecordKind};
use solana_byte_store::error::SolanaByteStoreError;
use solana_byte_store::instructions::append_byte_account::{self, AppendByteAccountContext};
use solana_byte_store::instructions::create_byte_account::{self, CreateByteAccountArgs, CreateByteAccountContext};
use solana_byte_store::instructions::create_byte_store::{self, CreateByteStoreContext};
use solana_byte_store::instructions::delete_byte_account::{self, DeleteByteAccountContext};
use solana_byte_store::instructions::delete_byte_store::{self, DeleteByteStoreContext};
use solana_byte_store::instructions::delete_version_account::{self, DeleteVersionAccountContext};
use solana_byte_store::instructions::update_byte_account::{self, UpdateByteAccountArgs, UpdateByteAccountContext};
use solana_byte_store::instructions::update_byte_store::{self, UpdateByteStoreContext};
use solana_byte_store::instructions::check_at;
use solana_byte_store::rules::validate_expiry;
use solana_byte_store::state::{Account, ByteAccount, MetadataAccount, Rent, Signer, VersionAccount};

const PROGRAM: [u8; 32] = [7u8; 32];
const OWNER: [u8; 32] = [1u8; 32];
const RENT: Rent = Rent { lamports_per_byte: 10 };
const NOW: u64 = 1_000;

const SHA_123: [u8; 32] = [
    3, 144, 88, 198, 242, 192, 203, 73, 44, 83, 59, 10, 77, 20, 239, 119, 204, 15, 120, 171, 204,
    206, 213, 40, 125, 132, 161, 162, 1, 28, 251, 129,
];
const SHA_12345: [u8; 32] = [
    116, 248, 31, 225, 103, 217, 155, 76, 180, 29, 109, 12, 205, 168, 34, 120, 202, 238, 159, 62,
    47, 37, 213, 229, 163, 147, 111, 243, 220, 236, 96, 208,
];
const SHA_99: [u8; 32] = [
    49, 96, 148, 38, 41, 115, 37, 189, 178, 140, 134, 171, 60, 238, 237, 74, 60, 67, 137, 102, 115,
    63, 214, 27, 138, 234, 0, 238, 139, 35, 183, 188,
];

fn slot<T>(kind: RecordKind, id: [u8; 32], version: u64) -> Account<T> {
    let (address, _) = resolve(kind, &PROGRAM, &OWNER, &id, version).unwrap();
    Account { address, lamports: 0, space: 0, data: None }
}

fn owner(lamports: u64) -> Signer {
    Signer { key: OWNER, lamports }
}

fn args(id: [u8; 32], version: u64, bytes: Vec<u8>) -> CreateByteAccountArgs {
    CreateByteAccountArgs {
        id,
        version,
        bytes,
        aes_key: None,
        aes_iv: None,
        aes_auth_tag: None,
        expires_at_ts: None,
    }
}

fn create_ctx(id: [u8; 32], version: u64, counter: Account<VersionAccount>, lamports: u64) -> CreateByteAccountContext {
    CreateByteAccountContext {
        version_account: counter,
        byte_account: slot(RecordKind::Byte, id, version),
        metadata_account: slot(RecordKind::Metadata, id, version),
        owner: owner(lamports),
    }
}

/// Creates version 1 of `id` holding `bytes`, returning its two records.
fn created_pair(id: [u8; 32], bytes: Vec<u8>, expires_at_ts: Option<u64>) -> (Account<ByteAccount>, Account<MetadataAccount>) {
    let mut ctx = create_ctx(id, 1, slot(RecordKind::Version, id, 0), 1_000_000);
    let mut a = args(id, 1, bytes);
    a.expires_at_ts = expires_at_ts;
    assert_eq!(create_byte_account::invoke(&mut ctx, &PROGRAM, &RENT, NOW, a), Ok(()));
    (ctx.byte_account, ctx.metadata_account)
}

#[test]
fn legacy_create_with_matching_size_succeeds() {
    let id = [3u8; 32];
    let mut ctx = CreateByteStoreContext { byte_store_account: slot(RecordKind::ByteStore, id, 0), owner: owner(1_000_000) };
    let r = create_byte_store::invoke(&mut ctx, &PROGRAM, &RENT, id, 3, vec![1, 2, 3]);
    assert_eq!(r, Ok(()));
    let s = ctx.byte_store_account.data.as_ref().unwrap();
    assert_eq!(s.size, 3);
    assert_eq!(s.bytes, vec![1, 2, 3]);
    assert_eq!(s.checksum, SHA_123);
    assert_eq!(ctx.byte_store_account.space, 128);
    assert_eq!(ctx.byte_store_account.lamports, (128 + 128) * 10);
    assert_eq!(ctx.owner.lamports, 1_000_000 - 2_560);
}

#[test]
fn legacy_create_with_size_mismatch_fails() {
    let id = [3u8; 32];
    let mut ctx = CreateByteStoreContext { byte_store_account: slot(RecordKind::ByteStore, id, 0), owner: owner(1_000_000) };
    let r = create_byte_store::invoke(&mut ctx, &PROGRAM, &RENT, id, 4, vec![1, 2, 3]);
    assert_eq!(r, Err(SolanaByteStoreError::CreateByteStoreByteSizeMismatch));
    assert!(ctx.byte_store_account.data.is_none());
    assert_eq!(ctx.owner.lamports, 1_000_000);
}

#[test]
fn legacy_delete_refunds_deposit() {
    let id = [3u8; 32];
    let mut ctx = CreateByteStoreContext { byte_store_account: slot(RecordKind::ByteStore, id, 0), owner: owner(1_000_000) };
    assert_eq!(create_byte_store::invoke(&mut ctx, &PROGRAM, &RENT, id, 3, vec![1, 2, 3]), Ok(()));
    let mut del = DeleteByteStoreContext { byte_store_account: ctx.byte_store_account, owner: ctx.owner };
    assert_eq!(delete_byte_store::invoke(&mut del, &PROGRAM), Ok(()));
    assert!(del.byte_store_account.data.is_none());
    assert_eq!(del.byte_store_account.lamports, 0);
    assert_eq!(del.owner.lamports, 1_000_000);
    assert_eq!(delete_byte_store::invoke(&mut del, &PROGRAM), Err(SolanaByteStoreError::AccountNotFound));
}

#[test]
fn versioned_creates_advance_counter() {
    let id = [5u8; 32];
    let mut ctx = create_ctx(id, 1, slot(RecordKind::Version, id, 0), 1_000_000);
    assert_eq!(create_byte_account::invoke(&mut ctx, &PROGRAM, &RENT, NOW, args(id, 1, vec![9, 9])), Ok(()));
    assert_eq!(ctx.version_account.data.as_ref().unwrap().current_version, 1);

    // Version 1 again: its records exist, but the version is what is refused.
    let counter = ctx.version_account.clone();
    let mut again = CreateByteAccountContext {
        version_account: counter.clone(),
        byte_account: ctx.byte_account.clone(),
        metadata_account: ctx.metadata_account.clone(),
        owner: ctx.owner.clone(),
    };
    let r = create_byte_account::invoke(&mut again, &PROGRAM, &RENT, NOW, args(id, 1, vec![9, 9]));
    assert_eq!(r, Err(SolanaByteStoreError::CreateByteAccountInvalidVersion));
    assert_eq!(again.version_account.data.as_ref().unwrap().current_version, 1);

    let mut next = create_ctx(id, 2, counter, ctx.owner.lamports);
    assert_eq!(create_byte_account::invoke(&mut next, &PROGRAM, &RENT, NOW, args(id, 2, vec![1, 2, 3])), Ok(()));
    assert_eq!(next.version_account.data.as_ref().unwrap().current_version, 2);
    assert_eq!(next.metadata_account.data.as_ref().unwrap().version, 2);
}

#[test]
fn versioned_create_skipping_a_version_fails() {
    let id = [5u8; 32];
    let mut ctx = create_ctx(id, 2, slot(RecordKind::Version, id, 0), 1_000_000);
    let r = create_byte_account::invoke(&mut ctx, &PROGRAM, &RENT, NOW, args(id, 2, vec![1]));
    assert_eq!(r, Err(SolanaByteStoreError::CreateByteAccountInvalidVersion));
    assert!(ctx.version_account.data.is_none());
    assert!(ctx.byte_account.data.is_none());
    assert_eq!(ctx.owner.lamports, 1_000_000);
}

#[test]
fn versioned_create_writes_consistent_records() {
    let id = [6u8; 32];
    let mut ctx = create_ctx(id, 1, slot(RecordKind::Version, id, 0), 1_000_000);
    let mut a = args(id, 1, vec![1, 2, 3]);
    a.aes_key = Some(vec![0xAA; 4]);
    a.aes_iv = Some(vec![0xBB; 2]);
    a.expires_at_ts = Some(NOW + 50);
    assert_eq!(create_byte_account::invoke(&mut ctx, &PROGRAM, &RENT, NOW, a), Ok(()));
    let b = ctx.byte_account.data.as_ref().unwrap();
    let m = ctx.metadata_account.data.as_ref().unwrap();
    assert_eq!(b.bytes, vec![1, 2, 3]);
    assert_eq!(b.aes_key, vec![0xAA; 4]);
    assert_eq!(b.aes_iv, vec![0xBB; 2]);
    assert!(b.aes_auth_tag.is_empty());
    assert_eq!(m.size, 3);
    assert_eq!(m.checksum, SHA_123);
    assert!(m.is_encrypted);
    assert_eq!(m.expires_at_ts, NOW + 50);
    assert_eq!(m.created_at_ts, NOW);
    assert_eq!(m.updated_at_ts, NOW);
    assert_eq!(m.owner, OWNER);
    assert_eq!(m.byte_account, ctx.byte_account.address);
    // 112 fixed bytes + 3 payload + 4 key + 2 iv.
    assert_eq!(ctx.byte_account.space, 121);
    assert_eq!(ctx.byte_account.lamports, (128 + 121) * 10);
    assert_eq!(ctx.metadata_account.lamports, (128 + 512) * 10);
    assert_eq!(ctx.version_account.lamports, (128 + 88) * 10);
    assert_eq!(ctx.owner.lamports, 1_000_000 - 2_490 - 6_400 - 2_160);
}

#[test]
fn versioned_create_rejects_past_expiry() {
    let id = [6u8; 32];
    let mut ctx = create_ctx(id, 1, slot(RecordKind::Version, id, 0), 1_000_000);
    let mut a = args(id, 1, vec![1]);
    a.expires_at_ts = Some(NOW);
    let r = create_byte_account::invoke(&mut ctx, &PROGRAM, &RENT, NOW, a);
    assert_eq!(r, Err(SolanaByteStoreError::CreateByteAccountInvalidExpiresAtTs));
    assert!(ctx.metadata_account.data.is_none());
}

#[test]
fn versioned_create_without_funds_fails() {
    let id = [6u8; 32];
    let mut ctx = create_ctx(id, 1, slot(RecordKind::Version, id, 0), 100);
    let r = create_byte_account::invoke(&mut ctx, &PROGRAM, &RENT, NOW, args(id, 1, vec![1]));
    assert_eq!(r, Err(SolanaByteStoreError::InsufficientFunds));
    assert!(ctx.version_account.data.is_none());
    assert_eq!(ctx.owner.lamports, 100);
}

#[test]
fn versioned_create_at_wrong_address_fails() {
    let id = [6u8; 32];
    let mut ctx = create_ctx(id, 1, slot(RecordKind::Version, id, 0), 1_000_000);
    ctx.byte_account = slot(RecordKind::Byte, id, 2);
    let r = create_byte_account::invoke(&mut ctx, &PROGRAM, &RENT, NOW, args(id, 1, vec![1]));
    assert_eq!(r, Err(SolanaByteStoreError::AddressMismatch));
}

#[test]
fn append_extends_payload() {
    let id = [8u8; 32];
    let (byte, meta) = created_pair(id, vec![1, 2, 3], None);
    let mut ctx = AppendByteAccountContext { byte_account: byte, metadata_account: meta, owner: owner(50_000) };
    assert_eq!(append_byte_account::invoke(&mut ctx, &PROGRAM, &RENT, NOW + 7, vec![4, 5]), Ok(()));
    let b = ctx.byte_account.data.as_ref().unwrap();
    let m = ctx.metadata_account.data.as_ref().unwrap();
    assert_eq!(b.bytes, vec![1, 2, 3, 4, 5]);
    assert_eq!(m.size, 5);
    assert_eq!(m.checksum, SHA_12345);
    assert_eq!(m.updated_at_ts, NOW + 7);
    assert_eq!(m.created_at_ts, NOW);
    assert_eq!(ctx.byte_account.space, 117);
    assert_eq!(ctx.byte_account.lamports, (128 + 117) * 10);
    assert_eq!(ctx.owner.lamports, 50_000 - 20);
}

#[test]
fn append_without_metadata_fails() {
    let id = [8u8; 32];
    let (byte, _) = created_pair(id, vec![1, 2, 3], None);
    let mut ctx = AppendByteAccountContext {
        byte_account: byte,
        metadata_account: slot(RecordKind::Metadata, id, 1),
        owner: owner(50_000),
    };
    let r = append_byte_account::invoke(&mut ctx, &PROGRAM, &RENT, NOW, vec![4]);
    assert_eq!(r, Err(SolanaByteStoreError::AccountNotFound));
    assert_eq!(ctx.byte_account.data.as_ref().unwrap().bytes, vec![1, 2, 3]);
}

#[test]
fn update_replaces_payload_and_keeps_expiry() {
    let id = [9u8; 32];
    let (byte, meta) = created_pair(id, vec![1, 2, 3, 4, 5], Some(NOW + 100));
    let mut ctx = UpdateByteAccountContext { byte_account: byte, metadata_account: meta, owner: owner(50_000) };
    let a = UpdateByteAccountArgs { bytes: vec![9, 9], aes_key: None, aes_iv: None, aes_auth_tag: None, expires_at_ts: None };
    assert_eq!(update_byte_account::invoke(&mut ctx, &PROGRAM, &RENT, NOW + 1, a), Ok(()));
    let b = ctx.byte_account.data.as_ref().unwrap();
    let m = ctx.metadata_account.data.as_ref().unwrap();
    assert_eq!(b.bytes, vec![9, 9]);
    assert_eq!(m.size, 2);
    assert_eq!(m.checksum, SHA_99);
    assert_eq!(m.expires_at_ts, NOW + 100);
    assert!(!m.is_encrypted);
    // The record shrank by three bytes: their deposit comes back.
    assert_eq!(ctx.byte_account.space, 114);
    assert_eq!(ctx.owner.lamports, 50_000 + 30);
}

#[test]
fn update_with_past_expiry_keeps_metadata() {
    let id = [9u8; 32];
    let (byte, meta) = created_pair(id, vec![1, 2, 3], Some(NOW + 100));
    let mut ctx = UpdateByteAccountContext { byte_account: byte, metadata_account: meta, owner: owner(50_000) };
    let a = UpdateByteAccountArgs { bytes: vec![9, 9], aes_key: None, aes_iv: None, aes_auth_tag: None, expires_at_ts: Some(NOW - 1) };
    let r = update_byte_account::invoke(&mut ctx, &PROGRAM, &RENT, NOW, a);
    assert_eq!(r, Err(SolanaByteStoreError::UpdateByteAccountInvalidExpiresAtTs));
    let m = ctx.metadata_account.data.as_ref().unwrap();
    assert_eq!(m.size, 3);
    assert_eq!(m.checksum, SHA_123);
    assert_eq!(m.expires_at_ts, NOW + 100);
    assert_eq!(ctx.byte_account.data.as_ref().unwrap().bytes, vec![1, 2, 3]);
}

#[test]
fn update_with_zero_expiry_clears_it() {
    let id = [9u8; 32];
    let (byte, meta) = created_pair(id, vec![1], Some(NOW + 100));
    let mut ctx = UpdateByteAccountContext { byte_account: byte, metadata_account: meta, owner: owner(50_000) };
    let a = UpdateByteAccountArgs { bytes: vec![1], aes_key: Some(vec![1]), aes_iv: None, aes_auth_tag: None, expires_at_ts: Some(0) };
    assert_eq!(update_byte_account::invoke(&mut ctx, &PROGRAM, &RENT, NOW, a), Ok(()));
    let m = ctx.metadata_account.data.as_ref().unwrap();
    assert_eq!(m.expires_at_ts, 0);
    assert!(m.is_encrypted);
}

#[test]
fn delete_removes_both_records() {
    let id = [10u8; 32];
    let (byte, meta) = created_pair(id, vec![1, 2, 3], None);
    let deposits = byte.lamports + meta.lamports;
    let mut ctx = DeleteByteAccountContext { byte_account: byte, metadata_account: meta, owner: owner(5) };
    assert_eq!(delete_byte_account::invoke(&mut ctx, &PROGRAM), Ok(()));
    assert!(ctx.byte_account.data.is_none());
    assert!(ctx.metadata_account.data.is_none());
    assert_eq!(ctx.byte_account.lamports, 0);
    assert_eq!(ctx.metadata_account.lamports, 0);
    assert_eq!(ctx.owner.lamports, 5 + deposits);
    assert_eq!(delete_byte_account::invoke(&mut ctx, &PROGRAM), Err(SolanaByteStoreError::AccountNotFound));
}

#[test]
fn delete_by_another_owner_fails() {
    let id = [10u8; 32];
    let (byte, meta) = created_pair(id, vec![1, 2, 3], None);
    let mut ctx = DeleteByteAccountContext { byte_account: byte, metadata_account: meta, owner: Signer { key: [2u8; 32], lamports: 0 } };
    assert_eq!(delete_byte_account::invoke(&mut ctx, &PROGRAM), Err(SolanaByteStoreError::AddressMismatch));
    assert!(ctx.byte_account.data.is_some());
    assert!(ctx.metadata_account.data.is_some());
}

#[test]
fn delete_version_account_closes_counter() {
    let id = [11u8; 32];
    let mut ctx = create_ctx(id, 1, slot(RecordKind::Version, id, 0), 1_000_000);
    assert_eq!(create_byte_account::invoke(&mut ctx, &PROGRAM, &RENT, NOW, args(id, 1, vec![1])), Ok(()));
    let deposit = ctx.version_account.lamports;
    let mut del = DeleteVersionAccountContext { version_account: ctx.version_account, owner: owner(0) };
    assert_eq!(delete_version_account::invoke(&mut del, &PROGRAM), Ok(()));
    assert!(del.version_account.data.is_none());
    assert_eq!(del.owner.lamports, deposit);
}

#[test]
fn expiry_rules() {
    assert!(validate_expiry(None, NOW));
    assert!(validate_expiry(Some(0), NOW));
    assert!(!validate_expiry(Some(NOW), NOW));
    assert!(!validate_expiry(Some(NOW - 1), NOW));
    assert!(validate_expiry(Some(NOW + 1), NOW));
}

#[test]
fn version_seeds_are_decimal() {
    assert_eq!(version_seed(0), b"0".to_vec());
    assert_eq!(version_seed(7), b"7".to_vec());
    assert_eq!(version_seed(120), b"120".to_vec());
    assert_eq!(version_seed(u64::MAX), u64::MAX.to_string().into_bytes());
}

#[test]
fn seed_lists_follow_the_record_family() {
    let id = [4u8; 32];
    let s = seeds_for(RecordKind::Metadata, &OWNER, &id, 12);
    assert_eq!(s, vec![b"metadata_account".to_vec(), OWNER.to_vec(), id.to_vec(), b"12".to_vec()]);
    let v = seeds_for(RecordKind::Version, &OWNER, &id, 12);
    assert_eq!(v, vec![b"version_account".to_vec(), OWNER.to_vec(), id.to_vec()]);
    let b = seeds_for(RecordKind::Byte, &OWNER, &id, 3);
    assert_eq!(b[0], b"byte_account".to_vec());
    let st = seeds_for(RecordKind::ByteStore, &OWNER, &id, 3);
    assert_eq!(st[0], b"byte_store_account".to_vec());
}

#[test]
fn addresses_differ_by_family_and_version() {
    let id = [4u8; 32];
    let byte1 = resolve(RecordKind::Byte, &PROGRAM, &OWNER, &id, 1).unwrap();
    let byte2 = resolve(RecordKind::Byte, &PROGRAM, &OWNER, &id, 2).unwrap();
    let meta1 = resolve(RecordKind::Metadata, &PROGRAM, &OWNER, &id, 1).unwrap();
    assert_ne!(byte1.0, byte2.0);
    assert_ne!(byte1.0, meta1.0);
    assert_eq!(byte1, resolve(RecordKind::Byte, &PROGRAM, &OWNER, &id, 1).unwrap());
}

#[test]
fn legacy_update_checks_the_store() {
    let id = [3u8; 32];
    let mut ctx = CreateByteStoreContext { byte_store_account: slot(RecordKind::ByteStore, id, 0), owner: owner(1_000_000) };
    let missing = UpdateByteStoreContext { byte_store_account: ctx.byte_store_account.clone(), owner: ctx.owner.clone() };
    assert_eq!(update_byte_store::invoke(&missing, &PROGRAM), Err(SolanaByteStoreError::AccountNotFound));
    assert_eq!(create_byte_store::invoke(&mut ctx, &PROGRAM, &RENT, id, 2, vec![9, 9]), Ok(()));
    let live = UpdateByteStoreContext { byte_store_account: ctx.byte_store_account.clone(), owner: ctx.owner.clone() };
    assert_eq!(update_byte_store::invoke(&live, &PROGRAM), Ok(()));
    let stranger = UpdateByteStoreContext { byte_store_account: ctx.byte_store_account, owner: owner(0) };
    let other = UpdateByteStoreContext { owner: Signer { key: [2u8; 32], lamports: 0 }, ..stranger };
    assert_eq!(update_byte_store::invoke(&other, &PROGRAM), Err(SolanaByteStoreError::AddressMismatch));
}

#[test]
fn slot_check_against_resolved_address() {
    let id = [4u8; 32];
    let s: Account<ByteAccount> = slot(RecordKind::Byte, id, 1);
    let resolved = resolve(RecordKind::Byte, &PROGRAM, &OWNER, &id, 1);
    assert_eq!(check_at(&s, resolved), Some(resolved.unwrap().1));
    assert_eq!(check_at(&s, resolve(RecordKind::Byte, &PROGRAM, &OWNER, &id, 2)), None);
    assert_eq!(check_at(&s, Some((s.address, 254))), Some(254));
    assert_eq!(check_at(&s, None), None);
}

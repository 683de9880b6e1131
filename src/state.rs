//! The persisted records and the account slots that hold them.
use vstd::prelude::*;

verus! {

/// The payload record: the stored bytes and the encryption envelope, each
/// field empty where it is not used.
#[derive(Clone, Debug)]
pub struct ByteAccount {
    pub bump: u8,
    pub bytes: Vec<u8>,
    pub aes_key: Vec<u8>,
    pub aes_iv: Vec<u8>,
    pub aes_auth_tag: Vec<u8>,
}

/// The descriptive companion of a payload record.
#[derive(Clone, Debug)]
pub struct MetadataAccount {
    pub id: [u8; 32],
    pub bump: u8,
    pub owner: [u8; 32],
    pub size: u64,
    pub checksum: [u8; 32],
    pub is_encrypted: bool,
    /// Weak back-reference: the address of the paired payload record.
    pub byte_account: [u8; 32],
    pub created_at_ts: u64,
    pub updated_at_ts: u64,
    /// Zero means that the record does not expire.
    pub expires_at_ts: u64,
    pub version: u64,
}

/// The per-(owner, identifier) counter of created versions.
#[derive(Clone, Debug)]
pub struct VersionAccount {
    pub id: [u8; 32],
    pub bump: u8,
    pub owner: [u8; 32],
    pub current_version: u64,
}

/// The single-record store of the earliest schema: payload, size and
/// checksum together, with no versioning.
#[derive(Clone, Debug)]
pub struct ByteStoreAccount {
    pub id: [u8; 32],
    pub bump: u8,
    pub size: u32,
    pub checksum: [u8; 32],
    pub bytes: Vec<u8>,
}

/// A record slot at an address: its lamport balance, its allocated space in
/// bytes, and its data, `None` while the slot is not live.
#[derive(Clone, Debug)]
pub struct Account<T> {
    pub address: [u8; 32],
    pub lamports: u64,
    pub space: usize,
    pub data: Option<T>,
}

/// The owner who signs an instruction and pays for (or is refunded) capacity.
#[derive(Clone, Debug)]
pub struct Signer {
    pub key: [u8; 32],
    pub lamports: u64,
}

/// The host's price of capacity, in lamports per byte.
#[derive(Clone, Copy, Debug)]
pub struct Rent {
    pub lamports_per_byte: u64,
}

} // verus!

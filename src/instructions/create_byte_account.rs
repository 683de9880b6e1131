//! Versioned create: a new payload/metadata pair at `counter + 1`.
use vstd::prelude::*;
use crate::address::{resolve, sha256, sha256_of, record_address, RecordKind};
use crate::capacity::{
    byte_account_space, byte_account_space_spec, deposit_spec, funding_need, minimum_balance,
    settle, METADATA_ACCOUNT_SPACE, VERSION_ACCOUNT_SPACE,
};
use crate::error::SolanaByteStoreError;
use crate::instructions::{at_address, check_at, records_consistent};
use crate::rules::{
    counter_value, current_version, envelope_field, expiry_accepted, field_bytes, stored_expiry,
    validate_expiry, validate_version, version_accepted,
};
use crate::state::{Account, ByteAccount, MetadataAccount, Rent, Signer, VersionAccount};

verus! {

/// The records that a versioned create touches.
pub struct CreateByteAccountContext {
    pub version_account: Account<VersionAccount>,
    pub byte_account: Account<ByteAccount>,
    pub metadata_account: Account<MetadataAccount>,
    pub owner: Signer,
}

/// The arguments of a versioned create.
pub struct CreateByteAccountArgs {
    pub id: [u8; 32],
    pub version: u64,
    pub bytes: Vec<u8>,
    pub aes_key: Option<Vec<u8>>,
    pub aes_iv: Option<Vec<u8>>,
    pub aes_auth_tag: Option<Vec<u8>>,
    pub expires_at_ts: Option<u64>,
}

/// The footprint of the payload record that a create allocates.
pub open spec fn new_byte_space(args: CreateByteAccountArgs) -> nat {
    byte_account_space_spec(
        args.bytes@.len(),
        field_bytes(args.aes_key).len(),
        field_bytes(args.aes_iv).len(),
        field_bytes(args.aes_auth_tag).len(),
    )
}

/// The deposit that the version counter holds after the create: unchanged
/// where it is live already.
pub open spec fn counter_deposit(ctx: CreateByteAccountContext, rent: Rent) -> int {
    if ctx.version_account.data is Some {
        ctx.version_account.lamports as int
    } else {
        deposit_spec(rent, VERSION_ACCOUNT_SPACE as nat)
    }
}

/// The owner can fund the three records.
pub open spec fn create_funded(ctx: CreateByteAccountContext, rent: Rent, args: CreateByteAccountArgs) -> bool {
    let dv = counter_deposit(ctx, rent);
    let db = deposit_spec(rent, new_byte_space(args));
    let dm = deposit_spec(rent, METADATA_ACCOUNT_SPACE as nat);
    dv <= u64::MAX && db <= u64::MAX && dm <= u64::MAX
        && funding_need(ctx.version_account.lamports as int, dv)
            + funding_need(ctx.byte_account.lamports as int, db)
            + funding_need(ctx.metadata_account.lamports as int, dm)
            <= ctx.owner.lamports
}

/// The failure of a create, in the order in which it is checked; `None`
/// where the create succeeds.
pub open spec fn create_error(
    ctx: CreateByteAccountContext,
    program_id: Seq<u8>,
    rent: Rent,
    now: u64,
    args: CreateByteAccountArgs,
) -> Option<SolanaByteStoreError> {
    let owner = ctx.owner.key@;
    if !at_address(ctx.version_account, record_address(RecordKind::Version, program_id, owner, args.id@, args.version))
        || !at_address(ctx.byte_account, record_address(RecordKind::Byte, program_id, owner, args.id@, args.version))
        || !at_address(ctx.metadata_account, record_address(RecordKind::Metadata, program_id, owner, args.id@, args.version)) {
        Some(SolanaByteStoreError::AddressMismatch)
    } else if !expiry_accepted(args.expires_at_ts, now) {
        Some(SolanaByteStoreError::CreateByteAccountInvalidExpiresAtTs)
    } else if !version_accepted(current_version(ctx.version_account), args.version) {
        Some(SolanaByteStoreError::CreateByteAccountInvalidVersion)
    } else if ctx.byte_account.data is Some || ctx.metadata_account.data is Some {
        Some(SolanaByteStoreError::AccountAlreadyInUse)
    } else if !create_funded(ctx, rent, args) {
        Some(SolanaByteStoreError::InsufficientFunds)
    } else {
        None
    }
}

/// The records after a successful create.
pub open spec fn created(
    old_ctx: CreateByteAccountContext,
    ctx: CreateByteAccountContext,
    program_id: Seq<u8>,
    rent: Rent,
    now: u64,
    args: CreateByteAccountArgs,
) -> bool {
    let owner = old_ctx.owner.key@;
    let vbump = record_address(RecordKind::Version, program_id, owner, args.id@, args.version).unwrap().1;
    let baddr = record_address(RecordKind::Byte, program_id, owner, args.id@, args.version).unwrap();
    let mbump = record_address(RecordKind::Metadata, program_id, owner, args.id@, args.version).unwrap().1;
    let dv = counter_deposit(old_ctx, rent);
    let db = deposit_spec(rent, new_byte_space(args));
    let dm = deposit_spec(rent, METADATA_ACCOUNT_SPACE as nat);
    &&& ctx.version_account.data matches Some(v) && v.id@ == args.id@ && v.owner@ == owner
        && v.current_version == args.version
        && (old_ctx.version_account.data is None ==> v.bump == vbump)
    &&& ctx.byte_account.data matches Some(b) && b.bump == baddr.1 && b.bytes@ == args.bytes@
        && b.aes_key@ == field_bytes(args.aes_key) && b.aes_iv@ == field_bytes(args.aes_iv)
        && b.aes_auth_tag@ == field_bytes(args.aes_auth_tag)
    &&& ctx.metadata_account.data matches Some(m) && m.id@ == args.id@ && m.bump == mbump
        && m.owner@ == owner && m.size as int == args.bytes@.len()
        && m.checksum@ == sha256_of(args.bytes@) && m.is_encrypted == args.aes_key is Some
        && m.byte_account@ == baddr.0 && m.created_at_ts == now && m.updated_at_ts == now
        && m.expires_at_ts == stored_expiry(args.expires_at_ts) && m.version == args.version
    &&& old_ctx.version_account.data is None ==> ctx.version_account.space == VERSION_ACCOUNT_SPACE
    &&& old_ctx.version_account.data is Some ==> ctx.version_account.space == old_ctx.version_account.space
    &&& ctx.byte_account.space == new_byte_space(args)
    &&& ctx.metadata_account.space == METADATA_ACCOUNT_SPACE
    &&& ctx.version_account.lamports == dv
    &&& ctx.byte_account.lamports == db
    &&& ctx.metadata_account.lamports == dm
    &&& ctx.owner.lamports + dv + db + dm == old_ctx.owner.lamports + old_ctx.version_account.lamports
        + old_ctx.byte_account.lamports + old_ctx.metadata_account.lamports
    &&& ctx.owner.key == old_ctx.owner.key
    &&& ctx.version_account.address == old_ctx.version_account.address
    &&& ctx.byte_account.address == old_ctx.byte_account.address
    &&& ctx.metadata_account.address == old_ctx.metadata_account.address
}

/// The number of successful creates in a run of outcomes.
pub open spec fn successes(outcomes: Seq<bool>) -> nat
    decreases outcomes.len(),
{
    if outcomes.len() == 0 {
        0
    } else {
        successes(outcomes.drop_last()) + if outcomes.last() { 1nat } else { 0nat }
    }
}

/// After a run of creates for one owner and identifier, starting from an
/// absent counter, the counter equals the number of creates that succeeded:
/// each success advances it by one (as `invoke` ensures) and each failure
/// leaves it as it was.
pub proof fn lemma_counter_counts_creates(counters: Seq<int>, outcomes: Seq<bool>)
    requires
        counters.len() == outcomes.len() + 1,
        counters[0] == 0,
        forall|i: int| 0 <= i < outcomes.len() && #[trigger] outcomes[i] ==> counters[i + 1] == counters[i] + 1,
        forall|i: int| 0 <= i < outcomes.len() && !#[trigger] outcomes[i] ==> counters[i + 1] == counters[i],
    ensures
        counters.last() == successes(outcomes),
    decreases outcomes.len(),
{
    if outcomes.len() > 0 {
        let n = outcomes.len() - 1;
        let cs = counters.drop_last();
        let os = outcomes.drop_last();
        assert forall|i: int| 0 <= i < os.len() && #[trigger] os[i] implies cs[i + 1] == cs[i] + 1 by {
            assert(outcomes[i]);
        }
        assert forall|i: int| 0 <= i < os.len() && !#[trigger] os[i] implies cs[i + 1] == cs[i] by {
            assert(!outcomes[i]);
        }
        lemma_counter_counts_creates(cs, os);
        assert(outcomes[n] ==> counters[n + 1] == counters[n] + 1);
        assert(!outcomes[n] ==> counters[n + 1] == counters[n]);
    }
}

/// Creates version `args.version` of the blob `args.id` for the signing
/// owner: advances the version counter (creating it if absent), allocates
/// the payload record to fit the payload and envelope exactly, and writes
/// the metadata record with size, checksum, timestamps and expiry.
pub fn invoke(
    ctx: &mut CreateByteAccountContext,
    program_id: &[u8; 32],
    rent: &Rent,
    now: u64,
    args: CreateByteAccountArgs,
) -> (r: Result<(), SolanaByteStoreError>)
    requires
        old(ctx).owner.lamports + old(ctx).version_account.lamports + old(ctx).byte_account.lamports
            + old(ctx).metadata_account.lamports <= u64::MAX,
        new_byte_space(args) <= usize::MAX,
    ensures
        r is Err <==> create_error(*old(ctx), program_id@, *rent, now, args) is Some,
        r matches Err(e) ==> create_error(*old(ctx), program_id@, *rent, now, args) == Some(e),
        r is Err ==> *final(ctx) == *old(ctx),
        r is Ok ==> created(*old(ctx), *final(ctx), program_id@, *rent, now, args),
        r is Ok ==> records_consistent(final(ctx).byte_account.data.unwrap(), final(ctx).metadata_account.data.unwrap()),
        r is Ok ==> current_version(final(ctx).version_account) == current_version(old(ctx).version_account) + 1,
        !version_accepted(current_version(old(ctx).version_account), args.version) ==> r is Err,
{
    let CreateByteAccountArgs { id, version, bytes, aes_key, aes_iv, aes_auth_tag, expires_at_ts } = args;
    let vbump = check_at(&ctx.version_account, resolve(RecordKind::Version, program_id, &ctx.owner.key, &id, version));
    let bbump = check_at(&ctx.byte_account, resolve(RecordKind::Byte, program_id, &ctx.owner.key, &id, version));
    let mbump = check_at(&ctx.metadata_account, resolve(RecordKind::Metadata, program_id, &ctx.owner.key, &id, version));
    let (vbump, bbump, mbump) = match (vbump, bbump, mbump) {
        (Some(v), Some(b), Some(m)) => (v, b, m),
        _ => return Err(SolanaByteStoreError::AddressMismatch),
    };
    if !validate_expiry(expires_at_ts, now) {
        return Err(SolanaByteStoreError::CreateByteAccountInvalidExpiresAtTs);
    }
    let counter_live = ctx.version_account.data.is_some();
    let current = counter_value(&ctx.version_account);
    if !validate_version(current, version) {
        return Err(SolanaByteStoreError::CreateByteAccountInvalidVersion);
    }
    if ctx.byte_account.data.is_some() || ctx.metadata_account.data.is_some() {
        return Err(SolanaByteStoreError::AccountAlreadyInUse);
    }
    let is_encrypted = aes_key.is_some();
    let aes_key = envelope_field(aes_key);
    let aes_iv = envelope_field(aes_iv);
    let aes_auth_tag = envelope_field(aes_auth_tag);
    let byte_space = byte_account_space(bytes.len(), aes_key.len(), aes_iv.len(), aes_auth_tag.len());
    let dv: u64 = if counter_live {
        ctx.version_account.lamports
    } else {
        match minimum_balance(rent, VERSION_ACCOUNT_SPACE) {
            Some(d) => d,
            None => return Err(SolanaByteStoreError::InsufficientFunds),
        }
    };
    let db = match minimum_balance(rent, byte_space) {
        Some(d) => d,
        None => return Err(SolanaByteStoreError::InsufficientFunds),
    };
    let dm = match minimum_balance(rent, METADATA_ACCOUNT_SPACE) {
        Some(d) => d,
        None => return Err(SolanaByteStoreError::InsufficientFunds),
    };
    let nv: u64 = if dv > ctx.version_account.lamports { dv - ctx.version_account.lamports } else { 0 };
    let nb: u64 = if db > ctx.byte_account.lamports { db - ctx.byte_account.lamports } else { 0 };
    let nm: u64 = if dm > ctx.metadata_account.lamports { dm - ctx.metadata_account.lamports } else { 0 };
    if nv as u128 + nb as u128 + nm as u128 > ctx.owner.lamports as u128 {
        return Err(SolanaByteStoreError::InsufficientFunds);
    }
    let checksum = sha256(bytes.as_slice());
    let size = bytes.len() as u64;

    settle(&mut ctx.owner, &mut ctx.version_account, dv);
    settle(&mut ctx.owner, &mut ctx.byte_account, db);
    settle(&mut ctx.owner, &mut ctx.metadata_account, dm);

    if !counter_live {
        ctx.version_account.space = VERSION_ACCOUNT_SPACE;
        ctx.version_account.data = Some(VersionAccount { id, bump: vbump, owner: ctx.owner.key, current_version: version });
    } else {
        let mut counter = ctx.version_account.data.take().unwrap();
        counter.id = id;
        counter.owner = ctx.owner.key;
        counter.current_version = version;
        ctx.version_account.data = Some(counter);
    }
    ctx.byte_account.space = byte_space;
    ctx.byte_account.data = Some(ByteAccount { bump: bbump, bytes, aes_key, aes_iv, aes_auth_tag });
    ctx.metadata_account.space = METADATA_ACCOUNT_SPACE;
    ctx.metadata_account.data = Some(MetadataAccount {
        id,
        bump: mbump,
        owner: ctx.owner.key,
        size,
        checksum,
        is_encrypted,
        byte_account: ctx.byte_account.address,
        created_at_ts: now,
        updated_at_ts: now,
        expires_at_ts: match expires_at_ts {
            Some(t) => t,
            None => 0,
        },
        version,
    });
    Ok(())
}

} // verus!

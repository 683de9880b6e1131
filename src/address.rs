//! Deterministic addressing of records: domain tags, seed lists, the
//! program-derived address that a seed list resolves to, and the content
//! checksum kept in metadata records.
use vstd::prelude::*;
use anchor_lang::solana_program::pubkey::Pubkey;

verus! {

/// SHA-256 digest of a byte sequence (the content checksum).
pub uninterp spec fn sha256_of(data: Seq<u8>) -> Seq<u8>;

/// The program-derived address and bump seed found for a seed list under a
/// program id, or `None` where no bump gives a valid address or the seeds are
/// too many or too long.
pub uninterp spec fn program_address_of(seeds: Seq<Seq<u8>>, program_id: Seq<u8>) -> Option<(Seq<u8>, u8)>;

/// Relies on solana_program::hash::hash: the SHA-256 digest of the bytes,
/// which depends on the bytes alone.
#[verifier::external_body]
pub(crate) fn sha256(data: &[u8]) -> (r: [u8; 32])
    ensures
        r@ == sha256_of(data@),
{
    anchor_lang::solana_program::hash::hash(data).to_bytes()
}

/// An address and bump seed as plain values.
pub open spec fn address_view(r: Option<([u8; 32], u8)>) -> Option<(Seq<u8>, u8)> {
    match r {
        Some(p) => Some((p.0@, p.1)),
        None => None,
    }
}

/// Relies on solana_program's Pubkey::try_find_program_address: a function of
/// the seeds and the program id alone, `None` where it finds no address.
#[verifier::external_body]
fn find_program_address(seeds: &Vec<Vec<u8>>, program_id: &[u8; 32]) -> (r: Option<([u8; 32], u8)>)
    ensures
        address_view(r) == program_address_of(seeds.deep_view(), program_id@),
{
    let refs: Vec<&[u8]> = seeds.iter().map(|s| s.as_slice()).collect();
    Pubkey::try_find_program_address(&refs, &Pubkey::new_from_array(*program_id)).map(
        |(k, b)| (k.to_bytes(), b),
    )
}

/// The decimal rendering of `v` as ASCII digits, most significant first.
pub open spec fn decimal_digits(v: nat) -> Seq<u8>
    decreases v,
{
    if v < 10 {
        seq![(48 + v) as u8]
    } else {
        decimal_digits(v / 10).push((48 + v % 10) as u8)
    }
}

/// Renders a version number in decimal ASCII, as it appears in seeds.
pub fn version_seed(v: u64) -> (r: Vec<u8>)
    ensures
        r@ == decimal_digits(v as nat),
    decreases v,
{
    if v < 10 {
        let r = vec![48u8 + v as u8];
        assert(r@ =~= decimal_digits(v as nat));
        r
    } else {
        let mut r = version_seed(v / 10);
        r.push(48u8 + (v % 10) as u8);
        r
    }
}

/// Copies a fixed-size key into a byte vector.
pub fn key_bytes(k: &[u8; 32]) -> (r: Vec<u8>)
    ensures
        r@ == k@,
{
    let mut r: Vec<u8> = Vec::new();
    let mut i: usize = 0;
    while i < 32
        invariant
            i <= 32,
            k@.len() == 32,
            r@ == k@.subrange(0, i as int),
        decreases 32 - i,
    {
        r.push(k[i]);
        i = i + 1;
        assert(r@ =~= k@.subrange(0, i as int));
    }
    assert(r@ =~= k@);
    r
}

/// Whether two fixed-size keys hold the same bytes.
pub fn same_key(a: &[u8; 32], b: &[u8; 32]) -> (r: bool)
    ensures
        r == (a@ == b@),
{
    let mut i: usize = 0;
    while i < 32
        invariant
            i <= 32,
            a@.len() == 32,
            b@.len() == 32,
            a@.subrange(0, i as int) == b@.subrange(0, i as int),
        decreases 32 - i,
    {
        if a[i] != b[i] {
            return false;
        }
        assert(a@.subrange(0, i + 1) =~= a@.subrange(0, i as int).push(a@[i as int]));
        assert(b@.subrange(0, i + 1) =~= b@.subrange(0, i as int).push(b@[i as int]));
        i = i + 1;
    }
    assert(a@ =~= a@.subrange(0, 32));
    assert(b@ =~= b@.subrange(0, 32));
    true
}

/// The domain tag `byte_account` as bytes.
pub open spec fn byte_account_tag_spec() -> Seq<u8> {
    seq![98u8, 121, 116, 101, 95, 97, 99, 99, 111, 117, 110, 116]
}

fn byte_account_tag() -> (r: Vec<u8>)
    ensures
        r@ == byte_account_tag_spec(),
{
    let r = vec![98u8, 121, 116, 101, 95, 97, 99, 99, 111, 117, 110, 116];
    assert(r@ =~= byte_account_tag_spec());
    r
}

/// The domain tag `metadata_account` as bytes.
pub open spec fn metadata_account_tag_spec() -> Seq<u8> {
    seq![109u8, 101, 116, 97, 100, 97, 116, 97, 95, 97, 99, 99, 111, 117, 110, 116]
}

fn metadata_account_tag() -> (r: Vec<u8>)
    ensures
        r@ == metadata_account_tag_spec(),
{
    let r = vec![109u8, 101, 116, 97, 100, 97, 116, 97, 95, 97, 99, 99, 111, 117, 110, 116];
    assert(r@ =~= metadata_account_tag_spec());
    r
}

/// The domain tag `version_account` as bytes.
pub open spec fn version_account_tag_spec() -> Seq<u8> {
    seq![118u8, 101, 114, 115, 105, 111, 110, 95, 97, 99, 99, 111, 117, 110, 116]
}

fn version_account_tag() -> (r: Vec<u8>)
    ensures
        r@ == version_account_tag_spec(),
{
    let r = vec![118u8, 101, 114, 115, 105, 111, 110, 95, 97, 99, 99, 111, 117, 110, 116];
    assert(r@ =~= version_account_tag_spec());
    r
}

/// The domain tag `byte_store_account` as bytes.
pub open spec fn byte_store_account_tag_spec() -> Seq<u8> {
    seq![98u8, 121, 116, 101, 95, 115, 116, 111, 114, 101, 95, 97, 99, 99, 111, 117, 110, 116]
}

fn byte_store_account_tag() -> (r: Vec<u8>)
    ensures
        r@ == byte_store_account_tag_spec(),
{
    let r = vec![98u8, 121, 116, 101, 95, 115, 116, 111, 114, 101, 95, 97, 99, 99, 111, 117, 110, 116];
    assert(r@ =~= byte_store_account_tag_spec());
    r
}

/// Seeds of a record addressed by owner and identifier.
pub open spec fn owner_seeds(tag: Seq<u8>, owner: Seq<u8>, id: Seq<u8>) -> Seq<Seq<u8>> {
    seq![tag, owner, id]
}

/// Seeds of a record addressed by owner, identifier and version.
pub open spec fn versioned_seeds(tag: Seq<u8>, owner: Seq<u8>, id: Seq<u8>, version: u64) -> Seq<Seq<u8>> {
    seq![tag, owner, id, decimal_digits(version as nat)]
}

/// The record families, each with its own domain tag.
#[derive(Clone, Copy, Debug, PartialEq, Eq, Structural)]
pub enum RecordKind {
    Version,
    Byte,
    Metadata,
    ByteStore,
}

pub open spec fn tag_of(kind: RecordKind) -> Seq<u8> {
    match kind {
        RecordKind::Version => version_account_tag_spec(),
        RecordKind::Byte => byte_account_tag_spec(),
        RecordKind::Metadata => metadata_account_tag_spec(),
        RecordKind::ByteStore => byte_store_account_tag_spec(),
    }
}

/// The seed list of a record: the payload and metadata records are keyed by
/// version as well, the version counter and the legacy store are not.
pub open spec fn record_seeds(kind: RecordKind, owner: Seq<u8>, id: Seq<u8>, version: u64) -> Seq<Seq<u8>> {
    match kind {
        RecordKind::Byte | RecordKind::Metadata => versioned_seeds(tag_of(kind), owner, id, version),
        _ => owner_seeds(tag_of(kind), owner, id),
    }
}

/// The address and bump of a record of the given family.
pub open spec fn record_address(
    kind: RecordKind,
    program_id: Seq<u8>,
    owner: Seq<u8>,
    id: Seq<u8>,
    version: u64,
) -> Option<(Seq<u8>, u8)> {
    program_address_of(record_seeds(kind, owner, id, version), program_id)
}

/// Builds the seed list of a record.
pub fn seeds_for(kind: RecordKind, owner: &[u8; 32], id: &[u8; 32], version: u64) -> (r: Vec<Vec<u8>>)
    ensures
        r.deep_view() == record_seeds(kind, owner@, id@, version),
{
    let tag = match kind {
        RecordKind::Version => version_account_tag(),
        RecordKind::Byte => byte_account_tag(),
        RecordKind::Metadata => metadata_account_tag(),
        RecordKind::ByteStore => byte_store_account_tag(),
    };
    let o = key_bytes(owner);
    let d = key_bytes(id);
    proof {
        assert(tag.deep_view() =~= tag@);
        assert(o.deep_view() =~= o@);
        assert(d.deep_view() =~= d@);
    }
    let mut r: Vec<Vec<u8>> = Vec::new();
    r.push(tag);
    r.push(o);
    r.push(d);
    match kind {
        RecordKind::Byte | RecordKind::Metadata => {
            let v = version_seed(version);
            assert(v.deep_view() =~= v@);
            r.push(v);
        },
        _ => {},
    }
    assert(r.deep_view() =~= record_seeds(kind, owner@, id@, version));
    r
}

proof fn lemma_decimal_nonempty(v: nat)
    ensures
        decimal_digits(v).len() >= 1,
    decreases v,
{
    if v >= 10 {
        lemma_decimal_nonempty(v / 10);
    }
}

/// Distinct version numbers render to distinct decimal seeds.
pub proof fn lemma_decimal_injective(a: nat, b: nat)
    requires
        decimal_digits(a) == decimal_digits(b),
    ensures
        a == b,
    decreases a,
{
    lemma_decimal_nonempty(a / 10);
    lemma_decimal_nonempty(b / 10);
    if a < 10 && b < 10 {
        let xa = (48 + a) as u8;
        let xb = (48 + b) as u8;
        assert(decimal_digits(a) == seq![xa]);
        assert(decimal_digits(b) == seq![xb]);
        assert(seq![xa][0] == xa);
        assert(seq![xb][0] == xb);
        assert(xa == xb);
        assert(xa as int == 48 + a);
        assert(xb as int == 48 + b);
    } else if a >= 10 && b >= 10 {
        let da = decimal_digits(a);
        let db = decimal_digits(b);
        assert(da == decimal_digits(a / 10).push((48 + a % 10) as u8));
        assert(db == decimal_digits(b / 10).push((48 + b % 10) as u8));
        assert(da.last() == db.last());
        assert(a % 10 == b % 10);
        assert(da.drop_last() =~= decimal_digits(a / 10));
        assert(db.drop_last() =~= decimal_digits(b / 10));
        lemma_decimal_injective(a / 10, b / 10);
        assert(a == 10 * (a / 10) + a % 10);
        assert(b == 10 * (b / 10) + b % 10);
        assert(a == b) by (nonlinear_arith)
            requires
                a / 10 == b / 10,
                a % 10 == b % 10,
                a == 10 * (a / 10) + a % 10,
                b == 10 * (b / 10) + b % 10,
        ;
    } else if a < 10 {
        assert(decimal_digits(b) == decimal_digits(b / 10).push((48 + b % 10) as u8));
        assert(decimal_digits(a).len() != decimal_digits(b).len());
    } else {
        assert(decimal_digits(a) == decimal_digits(a / 10).push((48 + a % 10) as u8));
        assert(decimal_digits(a).len() != decimal_digits(b).len());
    }
}

/// Seed lists never collide: equal seed lists come from the same record
/// family, owner and identifier, and, for the versioned families, the same
/// version. Distinct records thus always hand the address derivation
/// distinct inputs.
pub proof fn lemma_seeds_distinct(
    k1: RecordKind,
    o1: Seq<u8>,
    i1: Seq<u8>,
    v1: u64,
    k2: RecordKind,
    o2: Seq<u8>,
    i2: Seq<u8>,
    v2: u64,
)
    requires
        record_seeds(k1, o1, i1, v1) == record_seeds(k2, o2, i2, v2),
    ensures
        k1 == k2,
        o1 == o2,
        i1 == i2,
        (k1 == RecordKind::Byte || k1 == RecordKind::Metadata) ==> v1 == v2,
{
    let s1 = record_seeds(k1, o1, i1, v1);
    let s2 = record_seeds(k2, o2, i2, v2);
    assert(s1[0] == tag_of(k1));
    assert(s2[0] == tag_of(k2));
    assert(tag_of(k1).len() == tag_of(k2).len());
    assert(s1[1] == o1 && s2[1] == o2);
    assert(s1[2] == i1 && s2[2] == i2);
    if k1 == RecordKind::Byte || k1 == RecordKind::Metadata {
        assert(s1.len() == 4);
        if k1 != k2 {
            assert(tag_of(k1)[0] != tag_of(k2)[0]);
        }
        assert(s1[3] == s2[3]);
        lemma_decimal_injective(v1 as nat, v2 as nat);
    }
}

/// Resolves the address and bump of a record from the program id, the
/// owner's key, the identifier and (for versioned families) the version.
pub fn resolve(kind: RecordKind, program_id: &[u8; 32], owner: &[u8; 32], id: &[u8; 32], version: u64) -> (r: Option<([u8; 32], u8)>)
    ensures
        address_view(r) == record_address(kind, program_id@, owner@, id@, version),
{
    let seeds = seeds_for(kind, owner, id, version);
    find_program_address(&seeds, program_id)
}

} // verus!

//! Addresses of records.
//!
//! Every record has a key made of stable fields: a coupon, for one, of the
//! address of its promotion and its sequence number. The key is written out
//! as a list of seeds, a tag that names the kind of record followed by the
//! fields, and the address is derived from the seeds and the identity of
//! the program. Two different keys never have the same seeds, even when the
//! seeds are read as one run of bytes.

use vstd::prelude::*;
use anchor_lang::prelude::Pubkey;
use crate::identity::{lemma_identity_by_view, Identity};
use crate::state::badge::BadgeType;

verus! {

/// The stable fields that locate a record.
#[derive(Clone, Debug, PartialEq, Eq)]
pub enum RecordKey {
    /// The marketplace: there is one.
    Marketplace,
    /// The merchant of an authority.
    Merchant { authority: Identity },
    /// A promotion of a merchant, numbered by the count of coupons that
    /// the merchant had created when the promotion was made.
    Promotion { merchant: Identity, index: u64 },
    /// A coupon of a promotion, by its sequence number.
    Coupon { promotion: Identity, sequence: u32 },
    /// The listing of a coupon.
    Listing { coupon: Identity },
    /// The rating that a user gave a promotion.
    Rating { user: Identity, promotion: Identity },
    /// The comment that a user made on a promotion.
    Comment { user: Identity, promotion: Identity },
    /// A deal, by the bytes of its external identifier.
    ExternalDeal { external_id: Vec<u8> },
    /// A grid cell, by its identifier.
    GeoCell { cell_id: u64 },
    /// The badge of one type that a user earned.
    Badge { user: Identity, badge_type: BadgeType },
}

/// The address that the program `program_id` derives from `seeds`,
/// together with the bump that completes the seeds, or nothing where no
/// address can be derived from them.
pub uninterp spec fn program_address(seeds: Seq<Seq<u8>>, program_id: Seq<u8>) -> Option<
    (Seq<u8>, u8),
>;

/// Calls `Pubkey::try_find_program_address` of `solana_program`, as
/// `anchor_lang` exports it. Nothing is proved of it; the contract gives
/// its result a name: what comes back is `program_address` of the seeds and
/// the program's identity, the address read as its bytes.
#[verifier::external_body]
fn find_program_address(seeds: &Vec<Vec<u8>>, program_id: &Identity) -> (r: Option<(Identity, u8)>)
    ensures
        (match r {
            Some((address, bump)) => Some((address@, bump)),
            None => None,
        }) == program_address(seeds.deep_view(), program_id@),
{
    let slices: Vec<&[u8]> = seeds.iter().map(|seed| seed.as_slice()).collect();
    let program = Pubkey::new_from_array(program_id.bytes);
    match Pubkey::try_find_program_address(&slices, &program) {
        Some((address, bump)) => Some((Identity { bytes: address.to_bytes() }, bump)),
        None => None,
    }
}

/// The tag of marketplace records: the letters of `marketplace`.
pub open spec fn marketplace_tag() -> Seq<u8> {
    seq![109u8, 97u8, 114u8, 107u8, 101u8, 116u8, 112u8, 108u8, 97u8, 99u8, 101u8]
}

/// The tag of merchant records: the letters of `merchant`.
pub open spec fn merchant_tag() -> Seq<u8> {
    seq![109u8, 101u8, 114u8, 99u8, 104u8, 97u8, 110u8, 116u8]
}

/// The tag of promotion records: the letters of `promotion`.
pub open spec fn promotion_tag() -> Seq<u8> {
    seq![112u8, 114u8, 111u8, 109u8, 111u8, 116u8, 105u8, 111u8, 110u8]
}

/// The tag of coupon records: the letters of `coupon`.
pub open spec fn coupon_tag() -> Seq<u8> {
    seq![99u8, 111u8, 117u8, 112u8, 111u8, 110u8]
}

/// The tag of listing records: the letters of `listing`.
pub open spec fn listing_tag() -> Seq<u8> {
    seq![108u8, 105u8, 115u8, 116u8, 105u8, 110u8, 103u8]
}

/// The tag of rating records: the letters of `rating`.
pub open spec fn rating_tag() -> Seq<u8> {
    seq![114u8, 97u8, 116u8, 105u8, 110u8, 103u8]
}

/// The tag of comment records: the letters of `comment`.
pub open spec fn comment_tag() -> Seq<u8> {
    seq![99u8, 111u8, 109u8, 109u8, 101u8, 110u8, 116u8]
}

/// The tag of deal records: the letters of `external_deal`.
pub open spec fn external_deal_tag() -> Seq<u8> {
    seq![
        101u8,
        120u8,
        116u8,
        101u8,
        114u8,
        110u8,
        97u8,
        108u8,
        95u8,
        100u8,
        101u8,
        97u8,
        108u8,
    ]
}

/// The tag of grid cell records: the letters of `geocell`.
pub open spec fn geo_cell_tag() -> Seq<u8> {
    seq![103u8, 101u8, 111u8, 99u8, 101u8, 108u8, 108u8]
}

/// The tag of badge records: the letters of `badge`.
pub open spec fn badge_tag() -> Seq<u8> {
    seq![98u8, 97u8, 100u8, 103u8, 101u8]
}

impl RecordKey {
    /// The seeds of the key: the tag of its kind, then its fields, numbers
    /// in little-endian bytes and a badge type as the one byte of its code.
    pub open spec fn seeds(self) -> Seq<Seq<u8>> {
        match self {
            RecordKey::Marketplace => seq![marketplace_tag()],
            RecordKey::Merchant { authority } => seq![merchant_tag(), authority@],
            RecordKey::Promotion { merchant, index } => seq![
                promotion_tag(),
                merchant@,
                vstd::bytes::spec_u64_to_le_bytes(index),
            ],
            RecordKey::Coupon { promotion, sequence } => seq![
                coupon_tag(),
                promotion@,
                vstd::bytes::spec_u32_to_le_bytes(sequence),
            ],
            RecordKey::Listing { coupon } => seq![listing_tag(), coupon@],
            RecordKey::Rating { user, promotion } => seq![rating_tag(), user@, promotion@],
            RecordKey::Comment { user, promotion } => seq![comment_tag(), user@, promotion@],
            RecordKey::ExternalDeal { external_id } => seq![external_deal_tag(), external_id@],
            RecordKey::GeoCell { cell_id } => seq![
                geo_cell_tag(),
                vstd::bytes::spec_u64_to_le_bytes(cell_id),
            ],
            RecordKey::Badge { user, badge_type } => seq![
                badge_tag(),
                user@,
                seq![badge_type.spec_code() as u8],
            ],
        }
    }

    /// The address of the record under the program `program_id`, if one
    /// can be derived.
    pub open spec fn spec_address(self, program_id: Identity) -> Option<Seq<u8>> {
        match program_address(self.seeds(), program_id@) {
            Some((address, bump)) => Some(address),
            None => None,
        }
    }

    /// Writes out the seeds of the key.
    pub fn to_seeds(&self) -> (seeds: Vec<Vec<u8>>)
        ensures
            seeds.deep_view() == self.seeds(),
    {
        let mut seeds: Vec<Vec<u8>> = Vec::new();
        match self {
            RecordKey::Marketplace => {
                seeds.push(vec![109u8, 97u8, 114u8, 107u8, 101u8, 116u8, 112u8, 108u8, 97u8, 99u8, 101u8]);
            },
            RecordKey::Merchant { authority } => {
                seeds.push(vec![109u8, 101u8, 114u8, 99u8, 104u8, 97u8, 110u8, 116u8]);
                seeds.push(identity_bytes(authority));
            },
            RecordKey::Promotion { merchant, index } => {
                seeds.push(vec![112u8, 114u8, 111u8, 109u8, 111u8, 116u8, 105u8, 111u8, 110u8]);
                seeds.push(identity_bytes(merchant));
                seeds.push(vstd::bytes::u64_to_le_bytes(*index));
            },
            RecordKey::Coupon { promotion, sequence } => {
                seeds.push(vec![99u8, 111u8, 117u8, 112u8, 111u8, 110u8]);
                seeds.push(identity_bytes(promotion));
                seeds.push(vstd::bytes::u32_to_le_bytes(*sequence));
            },
            RecordKey::Listing { coupon } => {
                seeds.push(vec![108u8, 105u8, 115u8, 116u8, 105u8, 110u8, 103u8]);
                seeds.push(identity_bytes(coupon));
            },
            RecordKey::Rating { user, promotion } => {
                seeds.push(vec![114u8, 97u8, 116u8, 105u8, 110u8, 103u8]);
                seeds.push(identity_bytes(user));
                seeds.push(identity_bytes(promotion));
            },
            RecordKey::Comment { user, promotion } => {
                seeds.push(vec![99u8, 111u8, 109u8, 109u8, 101u8, 110u8, 116u8]);
                seeds.push(identity_bytes(user));
                seeds.push(identity_bytes(promotion));
            },
            RecordKey::ExternalDeal { external_id } => {
                seeds.push(
                    vec![
                        101u8,
                        120u8,
                        116u8,
                        101u8,
                        114u8,
                        110u8,
                        97u8,
                        108u8,
                        95u8,
                        100u8,
                        101u8,
                        97u8,
                        108u8,
                    ],
                );
                seeds.push(copy_bytes(external_id));
            },
            RecordKey::GeoCell { cell_id } => {
                seeds.push(vec![103u8, 101u8, 111u8, 99u8, 101u8, 108u8, 108u8]);
                seeds.push(vstd::bytes::u64_to_le_bytes(*cell_id));
            },
            RecordKey::Badge { user, badge_type } => {
                seeds.push(vec![98u8, 97u8, 100u8, 103u8, 101u8]);
                seeds.push(identity_bytes(user));
                seeds.push(vec![badge_type.code()]);
            },
        }
        assert(seeds.deep_view() =~~= self.seeds());
        seeds
    }

    /// Derives the address of the record under the program `program_id`.
    pub fn address(&self, program_id: &Identity) -> (r: Option<Identity>)
        ensures
            (match r {
                Some(address) => Some(address@),
                None => None,
            }) == self.spec_address(*program_id),
    {
        let seeds = self.to_seeds();
        select_address(find_program_address(&seeds, program_id))
    }
}

/// The address of a derivation, without its bump.
pub fn select_address(derived: Option<(Identity, u8)>) -> (r: Option<Identity>)
    ensures
        r == match derived {
            Some((address, bump)) => Some(address),
            None => None,
        },
{
    match derived {
        Some((address, _)) => Some(address),
        None => None,
    }
}

/// The bytes of an identity.
fn identity_bytes(identity: &Identity) -> (bytes: Vec<u8>)
    ensures
        bytes@ == identity@,
{
    let mut bytes: Vec<u8> = Vec::new();
    let mut i: usize = 0;
    while i < 32
        invariant
            i <= 32,
            bytes@.len() == i,
            forall|j: int| 0 <= j < i ==> bytes@[j] == identity.bytes@[j],
        decreases 32 - i,
    {
        bytes.push(identity.bytes[i]);
        i += 1;
    }
    bytes
}

/// A copy of a run of bytes.
fn copy_bytes(source: &Vec<u8>) -> (bytes: Vec<u8>)
    ensures
        bytes@ == source@,
{
    let mut bytes: Vec<u8> = Vec::new();
    let mut i: usize = 0;
    while i < source.len()
        invariant
            i <= source@.len(),
            bytes@.len() == i,
            forall|j: int| 0 <= j < i ==> bytes@[j] == source@[j],
        decreases source@.len() - i,
    {
        bytes.push(source[i]);
        i += 1;
    }
    bytes
}

/// The seeds read as one run of bytes.
pub open spec fn joined(seeds: Seq<Seq<u8>>) -> Seq<u8>
    decreases seeds.len(),
{
    if seeds.len() == 0 {
        Seq::empty()
    } else {
        joined(seeds.drop_last()) + seeds.last()
    }
}

impl RecordKey {
    /// Whether two keys are of the same kind and agree in every field.
    pub open spec fn same_record(self, other: RecordKey) -> bool {
        match (self, other) {
            (RecordKey::Marketplace, RecordKey::Marketplace) => true,
            (RecordKey::Merchant { authority: a }, RecordKey::Merchant { authority: b }) => a == b,
            (
                RecordKey::Promotion { merchant: a, index: m },
                RecordKey::Promotion { merchant: b, index: n },
            ) => a == b && m == n,
            (
                RecordKey::Coupon { promotion: a, sequence: m },
                RecordKey::Coupon { promotion: b, sequence: n },
            ) => a == b && m == n,
            (RecordKey::Listing { coupon: a }, RecordKey::Listing { coupon: b }) => a == b,
            (
                RecordKey::Rating { user: a, promotion: c },
                RecordKey::Rating { user: b, promotion: d },
            ) => a == b && c == d,
            (
                RecordKey::Comment { user: a, promotion: c },
                RecordKey::Comment { user: b, promotion: d },
            ) => a == b && c == d,
            (
                RecordKey::ExternalDeal { external_id: a },
                RecordKey::ExternalDeal { external_id: b },
            ) => a@ == b@,
            (RecordKey::GeoCell { cell_id: m }, RecordKey::GeoCell { cell_id: n }) => m == n,
            (
                RecordKey::Badge { user: a, badge_type: s },
                RecordKey::Badge { user: b, badge_type: t },
            ) => a == b && s == t,
            _ => false,
        }
    }
}

/// Two runs of bytes that are equal and split at the same place are equal
/// part by part.
proof fn lemma_split(a: Seq<u8>, b: Seq<u8>, c: Seq<u8>, d: Seq<u8>)
    requires
        a + b == c + d,
        a.len() == c.len(),
    ensures
        a == c,
        b == d,
{
    assert((c + d).subrange(0, c.len() as int) =~= c);
    assert((c + d).subrange(c.len() as int, (c + d).len() as int) =~= d);
}

/// What up to three seeds are when joined.
proof fn lemma_joined(a: Seq<u8>, b: Seq<u8>, c: Seq<u8>)
    ensures
        joined(seq![a]) == a,
        joined(seq![a, b]) == a + b,
        joined(seq![a, b, c]) == a + b + c,
{
    reveal_with_fuel(joined, 4);
}

/// The joined seeds of a key begin with the tag of its kind and have the
/// length of the tag and the fields together.
proof fn lemma_run(key: RecordKey)
    ensures
        joined(key.seeds()).len() == match key {
            RecordKey::Marketplace => 11,
            RecordKey::Merchant { .. } => 40,
            RecordKey::Promotion { .. } => 49,
            RecordKey::Coupon { .. } => 42,
            RecordKey::Listing { .. } => 39,
            RecordKey::Rating { .. } => 70,
            RecordKey::Comment { .. } => 71,
            RecordKey::ExternalDeal { external_id } => 13 + external_id@.len(),
            RecordKey::GeoCell { .. } => 15,
            RecordKey::Badge { .. } => 38,
        },
        joined(key.seeds())[0] == match key {
            RecordKey::Marketplace => 109u8,
            RecordKey::Merchant { .. } => 109u8,
            RecordKey::Promotion { .. } => 112u8,
            RecordKey::Coupon { .. } => 99u8,
            RecordKey::Listing { .. } => 108u8,
            RecordKey::Rating { .. } => 114u8,
            RecordKey::Comment { .. } => 99u8,
            RecordKey::ExternalDeal { .. } => 101u8,
            RecordKey::GeoCell { .. } => 103u8,
            RecordKey::Badge { .. } => 98u8,
        },
{
    vstd::bytes::lemma_auto_spec_u64_to_from_le_bytes();
    vstd::bytes::lemma_auto_spec_u32_to_from_le_bytes();
    let seeds = key.seeds();
    if seeds.len() == 1 {
        lemma_joined(seeds[0], seeds[0], seeds[0]);
    } else if seeds.len() == 2 {
        lemma_joined(seeds[0], seeds[1], seeds[1]);
    } else {
        lemma_joined(seeds[0], seeds[1], seeds[2]);
    }
}

/// No two keys share their seeds: keys whose seeds, read as one run of
/// bytes, are the same are of the same kind and agree in every field.
pub proof fn lemma_seeds_injective(a: RecordKey, b: RecordKey)
    requires
        joined(a.seeds()) == joined(b.seeds()),
    ensures
        a.same_record(b),
        a.seeds() == b.seeds(),
{
    vstd::bytes::lemma_auto_spec_u64_to_from_le_bytes();
    vstd::bytes::lemma_auto_spec_u32_to_from_le_bytes();
    lemma_run(a);
    lemma_run(b);
    let x = a.seeds();
    let y = b.seeds();
    if x.len() == 2 {
        lemma_joined(x[0], x[1], x[1]);
        lemma_joined(y[0], y[1], y[1]);
        lemma_split(x[0], x[1], y[0], y[1]);
    } else if x.len() == 3 {
        lemma_joined(x[0], x[1], x[2]);
        lemma_joined(y[0], y[1], y[2]);
        assert(x[0] + x[1] + x[2] =~= x[0] + (x[1] + x[2]));
        assert(y[0] + y[1] + y[2] =~= y[0] + (y[1] + y[2]));
        lemma_split(x[0], x[1] + x[2], y[0], y[1] + y[2]);
        lemma_split(x[1], x[2], y[1], y[2]);
    }
    match (a, b) {
        (RecordKey::Merchant { authority: p }, RecordKey::Merchant { authority: q }) => {
            lemma_identity_by_view(p, q);
        },
        (
            RecordKey::Promotion { merchant: p, index: m },
            RecordKey::Promotion { merchant: q, index: n },
        ) => {
            lemma_identity_by_view(p, q);
        },
        (
            RecordKey::Coupon { promotion: p, sequence: m },
            RecordKey::Coupon { promotion: q, sequence: n },
        ) => {
            lemma_identity_by_view(p, q);
        },
        (RecordKey::Listing { coupon: p }, RecordKey::Listing { coupon: q }) => {
            lemma_identity_by_view(p, q);
        },
        (
            RecordKey::Rating { user: p, promotion: r },
            RecordKey::Rating { user: q, promotion: s },
        ) => {
            lemma_identity_by_view(p, q);
            lemma_identity_by_view(r, s);
        },
        (
            RecordKey::Comment { user: p, promotion: r },
            RecordKey::Comment { user: q, promotion: s },
        ) => {
            lemma_identity_by_view(p, q);
            lemma_identity_by_view(r, s);
        },
        (
            RecordKey::Badge { user: p, badge_type: s },
            RecordKey::Badge { user: q, badge_type: t },
        ) => {
            lemma_identity_by_view(p, q);
            assert(seq![s.spec_code() as u8][0] == seq![t.spec_code() as u8][0]);
        },
        _ => {},
    }
}

/// Keys with the same seeds have the same address: the address of a
/// record is a function of its key and the program alone.
pub proof fn lemma_address_determined(a: RecordKey, b: RecordKey, program_id: Identity)
    requires
        a.seeds() == b.seeds(),
    ensures
        a.spec_address(program_id) == b.spec_address(program_id),
{
}

} // verus!

//! What the record database stores: the rows written for configured records,
//! how an update combines with the stored record, and issued access tokens.
use vstd::prelude::*;
use crate::config::{record_type_text, DdnsProvider, DdnsRecord};
use crate::models::Record;
use crate::clock::{opt_text, rfc3339_text, timestamp_text, utc_now_timestamp};
use crate::text::{concat_str, owned};

verus! {

broadcast use vstd::string::group_string_axioms;

/// The stored form of the `proxied` switch: 1 for on, 0 for off.
pub fn proxied_flag(proxied: bool) -> (r: i64)
    ensures
        r == (if proxied { 1i64 } else { 0i64 }),
{
    if proxied {
        1
    } else {
        0
    }
}

/// Reads the stored `proxied` column: any non-zero value is on.
pub fn proxied_from_flag(flag: i64) -> (r: bool)
    ensures
        r == (flag != 0),
{
    flag != 0
}

/// Reading back a stored switch gives the switch that was stored.
pub proof fn lemma_proxied_round_trip(proxied: bool)
    ensures
        (if proxied { 1i64 } else { 0i64 }) != 0 <==> proxied,
{
}

/// One row of the `records` table, before the database gives it an id.
#[derive(Debug)]
pub struct RecordRow {
    pub fqdn: String,
    pub record_type: String,
    pub proxied: i64,
    pub ttl: i64,
}

/// The row written for a configured record.
pub open spec fn row_of(row: RecordRow, rec: DdnsRecord) -> bool {
    &&& row.fqdn@ == rec.fqdn@
    &&& row.record_type@ == record_type_text(rec.record_type)
    &&& row.proxied == (if rec.proxied { 1i64 } else { 0i64 })
    &&& row.ttl == rec.ttl as i64
}

/// All records of all providers, provider by provider, each in its listed order.
pub open spec fn all_records(providers: Seq<DdnsProvider>) -> Seq<DdnsRecord>
    decreases providers.len(),
{
    if providers.len() == 0 {
        Seq::empty()
    } else {
        all_records(providers.drop_last()) + providers.last().records@
    }
}

/// Seeding takes every record of every provider, the first provider
/// included: one provider gives exactly its records, and the records of two
/// lists of providers are those of the first list followed by those of the
/// second.
pub proof fn lemma_all_records_of_every_provider(a: Seq<DdnsProvider>, b: Seq<DdnsProvider>, p: DdnsProvider)
    ensures
        all_records(seq![p]) == p.records@,
        all_records(a + b) == all_records(a) + all_records(b),
    decreases b.len(),
{
    assert(seq![p].drop_last() =~= Seq::<DdnsProvider>::empty());
    assert(seq![p].last() == p);
    assert(all_records(Seq::<DdnsProvider>::empty()) == Seq::<DdnsRecord>::empty());
    assert(all_records(seq![p]) == all_records(seq![p].drop_last()) + seq![p].last().records@);
    assert(Seq::<DdnsRecord>::empty() + p.records@ =~= p.records@);
    if b.len() == 0 {
        assert(a + b =~= a);
        assert(all_records(a) + Seq::<DdnsRecord>::empty() =~= all_records(a));
    } else {
        lemma_all_records_of_every_provider(a, b.drop_last(), p);
        assert((a + b).drop_last() =~= a + b.drop_last());
        assert((a + b).last() == b.last());
        assert(all_records(a) + all_records(b.drop_last()) + b.last().records@ =~= all_records(a)
            + (all_records(b.drop_last()) + b.last().records@));
    }
}

/// The row that is seeded for one configured record.
pub fn record_row(rec: &DdnsRecord) -> (row: RecordRow)
    ensures
        row_of(row, *rec),
{
    RecordRow {
        fqdn: owned(rec.fqdn.as_str()),
        record_type: rec.record_type.to_string(),
        proxied: proxied_flag(rec.proxied),
        ttl: rec.ttl as i64,
    }
}

/// The rows seeded into an empty or existing database: one per configured
/// record, in order (rows whose name is already stored are then ignored by
/// the database).
pub fn seed_rows(providers: &Vec<DdnsProvider>) -> (rows: Vec<RecordRow>)
    ensures
        rows@.len() == all_records(providers@).len(),
        forall|k: int| 0 <= k < rows@.len() ==> row_of(#[trigger] rows@[k], all_records(providers@)[k]),
{
    let mut rows: Vec<RecordRow> = Vec::new();
    let mut i: usize = 0;
    assert(providers@.take(0) =~= Seq::<DdnsProvider>::empty());
    while i < providers.len()
        invariant
            i <= providers@.len(),
            rows@.len() == all_records(providers@.take(i as int)).len(),
            forall|k: int|
                0 <= k < rows@.len() ==> row_of(
                    #[trigger] rows@[k],
                    all_records(providers@.take(i as int))[k],
                ),
        decreases providers.len() - i,
    {
        let ghost before = all_records(providers@.take(i as int));
        let recs = &providers[i].records;
        assert(providers@.take(i + 1).drop_last() =~= providers@.take(i as int));
        assert(all_records(providers@.take(i + 1)) == before + recs@);
        let mut j: usize = 0;
        while j < recs.len()
            invariant
                j <= recs@.len(),
                rows@.len() == before.len() + j,
                forall|k: int|
                    0 <= k < rows@.len() ==> row_of(#[trigger] rows@[k], (before + recs@)[k]),
            decreases recs.len() - j,
        {
            let row = record_row(&recs[j]);
            rows.push(row);
            j = j + 1;
        }
        i = i + 1;
    }
    assert(providers@.take(providers@.len() as int) =~= providers@);
    rows
}

/// The record that an update leaves: each given field replaces the stored
/// one, each absent field keeps it, and the id does not change.
pub open spec fn merged(
    existing: Record,
    fqdn: Option<Seq<char>>,
    record_type: Option<Seq<char>>,
    proxied: Option<bool>,
    ttl: Option<u32>,
    r: Record,
) -> bool {
    &&& r.id == existing.id
    &&& r.fqdn@ == (match fqdn {
        Some(f) => f,
        None => existing.fqdn@,
    })
    &&& r.record_type@ == (match record_type {
        Some(t) => t,
        None => existing.record_type@,
    })
    &&& r.proxied == (match proxied {
        Some(p) => p,
        None => existing.proxied,
    })
    &&& r.ttl == (match ttl {
        Some(t) => t,
        None => existing.ttl,
    })
}

/// A field given in an update replaces the stored one whatever the stored
/// value was, a field left out keeps it, and the id never changes; so two
/// stored records updated with the same given field agree on it.
pub proof fn lemma_given_fields_replace(
    existing: Record,
    fqdn: Option<Seq<char>>,
    record_type: Option<Seq<char>>,
    proxied: Option<bool>,
    ttl: Option<u32>,
    r: Record,
    other: Record,
    r2: Record,
)
    requires
        merged(existing, fqdn, record_type, proxied, ttl, r),
        merged(other, fqdn, record_type, proxied, ttl, r2),
    ensures
        r.id == existing.id,
        fqdn matches Some(f) ==> r.fqdn@ == f && r2.fqdn@ == f,
        fqdn is None ==> r.fqdn@ == existing.fqdn@,
        record_type matches Some(t) ==> r.record_type@ == t && r2.record_type@ == t,
        record_type is None ==> r.record_type@ == existing.record_type@,
        proxied matches Some(p) ==> r.proxied == p && r2.proxied == p,
        proxied is None ==> r.proxied == existing.proxied,
        ttl matches Some(t) ==> r.ttl == t && r2.ttl == t,
        ttl is None ==> r.ttl == existing.ttl,
{
}

/// The view of an optional borrowed string.
pub open spec fn opt_view(s: Option<&str>) -> Option<Seq<char>> {
    match s {
        Some(v) => Some(v@),
        None => None,
    }
}

/// Combines an update with the stored record.
pub fn merge_update(
    existing: &Record,
    fqdn: Option<&str>,
    record_type: Option<&str>,
    proxied: Option<bool>,
    ttl: Option<u32>,
) -> (r: Record)
    ensures
        merged(*existing, opt_view(fqdn), opt_view(record_type), proxied, ttl, r),
{
    let new_fqdn = match fqdn {
        Some(f) => owned(f),
        None => owned(existing.fqdn.as_str()),
    };
    let new_type = match record_type {
        Some(t) => owned(t),
        None => owned(existing.record_type.as_str()),
    };
    let new_proxied = match proxied {
        Some(p) => p,
        None => existing.proxied,
    };
    let new_ttl = match ttl {
        Some(t) => t,
        None => existing.ttl,
    };
    Record { id: existing.id, fqdn: new_fqdn, record_type: new_type, proxied: new_proxied, ttl: new_ttl }
}

/// Applying an update twice leaves what applying it once leaves.
pub proof fn lemma_merge_idempotent(
    existing: Record,
    fqdn: Option<Seq<char>>,
    record_type: Option<Seq<char>>,
    proxied: Option<bool>,
    ttl: Option<u32>,
    once: Record,
    twice: Record,
)
    requires
        merged(existing, fqdn, record_type, proxied, ttl, once),
        merged(once, fqdn, record_type, proxied, ttl, twice),
    ensures
        twice.id == once.id,
        twice.fqdn@ == once.fqdn@,
        twice.record_type@ == once.record_type@,
        twice.proxied == once.proxied,
        twice.ttl == once.ttl,
{
}

/// An update with no field given leaves the record as it was.
pub proof fn lemma_empty_update_keeps_record(existing: Record, r: Record)
    requires
        merged(existing, None, None, None, None, r),
    ensures
        r.id == existing.id,
        r.fqdn@ == existing.fqdn@,
        r.record_type@ == existing.record_type@,
        r.proxied == existing.proxied,
        r.ttl == existing.ttl,
{
}

/// The prefix that marks the service's access tokens.
pub open spec fn token_prefix() -> Seq<char> {
    "meshops_"@
}

/// A random (version 4, RFC 4122 variant) UUID in lower-case hyphenated
/// form: 36 characters, hyphens at 8, 13, 18 and 23, lower-case hexadecimal
/// digits elsewhere, the version digit `4` at 14 and one of `8`, `9`, `a`, `b`
/// at 19.
pub open spec fn is_hyphenated_uuid(u: Seq<char>) -> bool {
    &&& u.len() == 36
    &&& u[14] == '4'
    &&& (u[19] == '8' || u[19] == '9' || u[19] == 'a' || u[19] == 'b')
    &&& forall|i: int|
        0 <= i < 36 ==> if i == 8 || i == 13 || i == 18 || i == 23 {
            u[i] == '-'
        } else {
            ('0' <= #[trigger] u[i] && u[i] <= '9') || ('a' <= u[i] && u[i] <= 'f')
        }
}

/// A fresh random (version 4) UUID, hyphenated: `uuid::Uuid::new_v4` then
/// its `Display`. Claimed: the text has the hyphenated lower-case form that
/// uuid's `Display` writes, with the version and variant digits that
/// `new_v4` sets (`Builder::from_random_bytes`); which UUID comes out is
/// random and is not stated.
#[verifier::external_body]
fn random_uuid_text() -> (r: String)
    ensures
        is_hyphenated_uuid(r@),
{
    uuid::Uuid::new_v4().to_string()
}

/// The access token built from a UUID's text.
pub fn access_token_from(uuid_text: &str) -> (r: String)
    ensures
        r@ == token_prefix() + uuid_text@,
{
    proof {
        reveal_strlit("meshops_");
    }
    concat_str("meshops_", uuid_text)
}

/// A new random access token: the prefix followed by a fresh UUID.
pub fn new_access_token() -> (r: String)
    ensures
        r@.len() == 44,
        r@.subrange(0, 8) == token_prefix(),
        is_hyphenated_uuid(r@.subrange(8, 44)),
{
    let u = random_uuid_text();
    let r = access_token_from(u.as_str());
    proof {
        reveal_strlit("meshops_");
        assert(r@.subrange(0, 8) =~= token_prefix());
        assert(r@.subrange(8, 44) =~= u@);
    }
    r
}

/// When a token issued at the Unix time `(now, nanos)` with a lifetime of
/// `ttl_secs` seconds expires, as RFC 3339 text; `None` when that time is
/// beyond what can be written.
pub open spec fn expiry_at(now: i64, nanos: u32, ttl_secs: i64) -> Option<Seq<char>> {
    if i64::MIN <= now + ttl_secs <= i64::MAX {
        rfc3339_text((now + ttl_secs) as i64, nanos)
    } else {
        None
    }
}

/// A token expires at its issue time plus its whole lifetime, however long:
/// the expiry is the text of that instant whenever it fits in an `i64`, so
/// only the sum of issue time and lifetime matters, and a lifetime of zero
/// gives the issue time itself.
pub proof fn lemma_expiry_is_issue_time_plus_lifetime(now: i64, nanos: u32, ttl_secs: i64, shift: i64)
    requires
        i64::MIN <= now + ttl_secs <= i64::MAX,
        i64::MIN <= now + shift <= i64::MAX,
        i64::MIN <= ttl_secs - shift <= i64::MAX,
    ensures
        expiry_at(now, nanos, ttl_secs) == rfc3339_text((now + ttl_secs) as i64, nanos),
        expiry_at(now, nanos, ttl_secs) == expiry_at((now + shift) as i64, nanos, (ttl_secs - shift) as i64),
        expiry_at(now, nanos, 0) == rfc3339_text(now, nanos),
{
}

/// When a token issued at the Unix time `(now, nanos)` with a lifetime of
/// `ttl_secs` seconds expires, as RFC 3339 text.
pub fn expiry_from(now: i64, nanos: u32, ttl_secs: i64) -> (r: Option<String>)
    ensures
        opt_text(r) == expiry_at(now, nanos, ttl_secs),
{
    match now.checked_add(ttl_secs) {
        Some(at) => timestamp_text(at, nanos),
        None => None,
    }
}

/// When a token issued now with a lifetime of `ttl_secs` seconds expires,
/// as RFC 3339 text; `None` when that time cannot be represented.
pub fn token_expiry(ttl_secs: i64) -> (r: Option<String>)
    ensures
        exists|now: i64, nanos: u32|
            now >= 0 && nanos < 1_000_000_000 && rfc3339_text(now, nanos) is Some && opt_text(r)
                == expiry_at(now, nanos, ttl_secs),
{
    let (now, nanos) = utc_now_timestamp();
    expiry_from(now, nanos, ttl_secs)
}

} // verus!

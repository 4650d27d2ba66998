use meshops::config::{DdnsProvider, DdnsRecord, DnsRecordType};
use meshops::models::Record;
use meshops::store::{
    access_token_from, merge_update, new_access_token, proxied_flag, proxied_from_flag, record_row,
    seed_rows,
};

fn rec(fqdn: &str, t: DnsRecordType, proxied: bool, ttl: u32) -> DdnsRecord {
    DdnsRecord { fqdn: fqdn.to_string(), record_type: t, proxied, ttl }
}

fn prov(records: Vec<DdnsRecord>) -> DdnsProvider {
    DdnsProvider {
        kind: "cloudflare".to_string(),
        email: "e".to_string(),
        token: "t".to_string(),
        cache_timeout_secs: 1,
        records,
    }
}

fn stored() -> Record {
    Record { id: 7, fqdn: "a.example.com".to_string(), record_type: "A".to_string(), proxied: true, ttl: 120 }
}

#[test]
fn proxied_flag_round_trip() {
    assert_eq!(proxied_flag(true), 1);
    assert_eq!(proxied_flag(false), 0);
    assert!(proxied_from_flag(1));
    assert!(proxied_from_flag(-3));
    assert!(!proxied_from_flag(0));
    for b in [true, false] {
        assert_eq!(proxied_from_flag(proxied_flag(b)), b);
    }
}

#[test]
fn rows_follow_providers_and_records_in_order() {
    let providers = vec![
        prov(vec![rec("a.example.com", DnsRecordType::A, true, 60), rec("b.example.com", DnsRecordType::Aaaa, false, 120)]),
        prov(vec![]),
        prov(vec![rec("c.example.org", DnsRecordType::A, false, 300)]),
    ];
    let rows = seed_rows(&providers);
    let got: Vec<(String, String, i64, i64)> =
        rows.into_iter().map(|r| (r.fqdn, r.record_type, r.proxied, r.ttl)).collect();
    assert_eq!(
        got,
        vec![
            ("a.example.com".to_string(), "A".to_string(), 1, 60),
            ("b.example.com".to_string(), "AAAA".to_string(), 0, 120),
            ("c.example.org".to_string(), "A".to_string(), 0, 300),
        ]
    );
    let one = record_row(&rec("x.y", DnsRecordType::Aaaa, true, 5));
    assert_eq!((one.fqdn.as_str(), one.record_type.as_str(), one.proxied, one.ttl), ("x.y", "AAAA", 1, 5));
}

#[test]
fn update_replaces_given_fields_only() {
    let r = merge_update(&stored(), Some("b.example.com"), None, Some(false), None);
    assert_eq!(r.id, 7);
    assert_eq!(r.fqdn, "b.example.com");
    assert_eq!(r.record_type, "A");
    assert!(!r.proxied);
    assert_eq!(r.ttl, 120);
    let all = merge_update(&stored(), Some("c.d"), Some("AAAA"), Some(true), Some(30));
    assert_eq!((all.fqdn.as_str(), all.record_type.as_str(), all.proxied, all.ttl), ("c.d", "AAAA", true, 30));
}

#[test]
fn empty_update_keeps_record_and_update_is_idempotent() {
    let r = merge_update(&stored(), None, None, None, None);
    assert_eq!((r.id, r.fqdn.as_str(), r.record_type.as_str(), r.proxied, r.ttl), (7, "a.example.com", "A", true, 120));
    let once = merge_update(&stored(), None, Some("AAAA"), None, Some(5));
    let twice = merge_update(&once, None, Some("AAAA"), None, Some(5));
    assert_eq!((once.fqdn, once.record_type, once.ttl), (twice.fqdn, twice.record_type, twice.ttl));
}

#[test]
fn access_tokens_have_prefix_and_uuid() {
    assert_eq!(access_token_from("abc"), "meshops_abc");
    let t = new_access_token();
    assert_eq!(t.len(), 44);
    assert!(t.starts_with("meshops_"));
    let u = &t[8..];
    for (i, c) in u.chars().enumerate() {
        if [8, 13, 18, 23].contains(&i) {
            assert_eq!(c, '-');
        } else {
            assert!(c.is_ascii_digit() || ('a'..='f').contains(&c));
        }
    }
    assert_eq!(u.chars().nth(14), Some('4'));
    assert!(matches!(u.chars().nth(19), Some('8' | '9' | 'a' | 'b')));
    assert_ne!(new_access_token(), t);
}

#[test]
fn token_expiry_is_now_plus_lifetime() {
    let before = chrono::Utc::now().timestamp();
    let text = meshops::store::token_expiry(3600).unwrap();
    let after = chrono::Utc::now().timestamp();
    let at = chrono::DateTime::parse_from_rfc3339(&text).unwrap().timestamp();
    assert!(at >= before + 3600 && at <= after + 3600);
    assert!(meshops::store::token_expiry(i64::MAX).is_none());
    assert!(meshops::store::token_expiry(10_000_000_000_000).is_none());
}

#[test]
fn expiry_and_timestamps_from_a_reading() {
    assert_eq!(meshops::store::expiry_from(0, 0, 3600).unwrap(), "1970-01-01T01:00:00+00:00");
    assert_eq!(meshops::store::expiry_from(1_700_000_000, 5, 60).unwrap(), "2023-11-14T22:14:20.000000005+00:00");
    assert!(meshops::store::expiry_from(i64::MAX, 0, 1).is_none());
    assert_eq!(meshops::clock::timestamp_text(86_400, 0).unwrap(), "1970-01-02T00:00:00+00:00");
    let now = meshops::clock::now_rfc3339();
    assert!(chrono::DateTime::parse_from_rfc3339(&now).is_ok());
}

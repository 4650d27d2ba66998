use meshops::cloudflare::{
    apex_zone, dns_record_from, plan_update, record_lookup_url, record_update_url, update_comment,
    update_outcome, zone_id_from, zone_lookup_url, CloudflareClient, CloudflareError, DnsRecordRef,
    UpsertAction, UpsertRun,
};
use meshops::models::Record;

fn record() -> Record {
    Record { id: 1, fqdn: "home.example.com".to_string(), record_type: "A".to_string(), proxied: false, ttl: 120 }
}

#[test]
fn apex_zone_keeps_last_two_labels() {
    assert_eq!(apex_zone("home.example.com"), "example.com");
    assert_eq!(apex_zone("a.b.c.example.co"), "example.co");
    assert_eq!(apex_zone("example.com"), "example.com");
    assert_eq!(apex_zone("localhost"), "localhost");
    assert_eq!(apex_zone(""), "");
    assert_eq!(apex_zone("trailing.dot."), "dot.");
    assert_eq!(apex_zone(".com"), ".com");
}

#[test]
fn request_urls() {
    assert_eq!(zone_lookup_url("example.com"), "https://api.cloudflare.com/client/v4/zones?name=example.com");
    assert_eq!(
        record_lookup_url("z1", "home.example.com", "AAAA"),
        "https://api.cloudflare.com/client/v4/zones/z1/dns_records?name=home.example.com&type=AAAA"
    );
    assert_eq!(record_update_url("z1", "r9"), "https://api.cloudflare.com/client/v4/zones/z1/dns_records/r9");
}

#[test]
fn first_zone_and_record_are_taken() {
    assert_eq!(zone_id_from(vec!["z1".to_string(), "z2".to_string()], "example.com").unwrap(), "z1");
    let e = zone_id_from(vec![], "example.com").unwrap_err();
    assert_eq!(e.message(), "cloudflare zone not found: example.com");
    let found = dns_record_from(
        vec![DnsRecordRef { id: "r1".to_string(), content: "1.1.1.1".to_string() },
             DnsRecordRef { id: "r2".to_string(), content: "2.2.2.2".to_string() }],
        "home.example.com",
        "A",
    )
    .unwrap();
    assert_eq!((found.id.as_str(), found.content.as_str()), ("r1", "1.1.1.1"));
    let e = dns_record_from(vec![], "home.example.com", "AAAA").unwrap_err();
    assert_eq!(e.message(), "cloudflare record not found: home.example.com (AAAA)");
}

#[test]
fn unchanged_record_is_not_updated() {
    let found = DnsRecordRef { id: "r1".to_string(), content: "203.0.113.7".to_string() };
    assert!(plan_update(&record(), "z1", &found, "203.0.113.7").is_none());
}

#[test]
fn changed_record_gets_full_payload() {
    let found = DnsRecordRef { id: "r1".to_string(), content: "203.0.113.7".to_string() };
    let p = plan_update(&record(), "z1", &found, "203.0.113.8").unwrap();
    assert_eq!(p.url, "https://api.cloudflare.com/client/v4/zones/z1/dns_records/r1");
    assert_eq!(p.payload.record_type, "A");
    assert_eq!(p.payload.name, "home.example.com");
    assert_eq!(p.payload.content, "203.0.113.8");
    assert_eq!(p.payload.ttl, 120);
    assert!(!p.payload.proxied);
    assert!(p.payload.comment.starts_with("modified since "));
    assert!(p.payload.comment.len() > "modified since ".len());
    assert!(update_comment().starts_with("modified since 20"));
}

#[test]
fn update_answer() {
    assert_eq!(update_outcome(true).unwrap(), true);
    let e = update_outcome(false).unwrap_err();
    assert_eq!(e.message(), "cloudflare update failed");
}

#[test]
fn client_and_headers() {
    let c = CloudflareClient::new("you@example.com".to_string(), "secret".to_string()).unwrap();
    assert_eq!(c.email, "you@example.com");
    let h = c.auth_headers().unwrap();
    assert_eq!(h.email, "you@example.com");
    assert_eq!(h.authorization, "Bearer secret");
    assert_eq!(h.content_type, "application/json");
    let bad = CloudflareClient::new("you@example.com".to_string(), "line\nbreak".to_string()).unwrap();
    assert!(matches!(bad.auth_headers(), Err(CloudflareError::InvalidHeaderValue)));
    let bad_mail = CloudflareClient::new("a\u{7f}b".to_string(), "ok".to_string()).unwrap();
    assert!(matches!(bad_mail.auth_headers(), Err(CloudflareError::InvalidHeaderValue)));
    let tab_ok = CloudflareClient::new("a\tb".to_string(), "é".to_string()).unwrap();
    assert!(tab_ok.auth_headers().is_ok());
    assert_eq!(CloudflareError::ClientBuild.message(), "failed to build cloudflare client");
    assert_eq!(CloudflareError::InvalidHeaderValue.message(), "failed to parse header value");
}

#[test]
fn upsert_run_updates_only_a_stale_record() {
    let (mut run, action) = UpsertRun::new(record(), "203.0.113.8".to_string());
    match action {
        UpsertAction::LookupZone { url } => {
            assert_eq!(url, "https://api.cloudflare.com/client/v4/zones?name=example.com")
        }
        _ => panic!("expected zone lookup"),
    }
    match run.on_zones(vec!["z1".to_string()]).unwrap() {
        UpsertAction::LookupRecord { url } => assert_eq!(
            url,
            "https://api.cloudflare.com/client/v4/zones/z1/dns_records?name=home.example.com&type=A"
        ),
        _ => panic!("expected record lookup"),
    }
    let stale = vec![DnsRecordRef { id: "r1".to_string(), content: "203.0.113.7".to_string() }];
    match run.on_records(stale).unwrap() {
        UpsertAction::Update { plan } => {
            assert_eq!(plan.url, "https://api.cloudflare.com/client/v4/zones/z1/dns_records/r1");
            assert_eq!(plan.payload.content, "203.0.113.8");
        }
        _ => panic!("expected update"),
    }
    assert!(matches!(run.on_updated(true).unwrap(), UpsertAction::Finish { changed: true }));

    let (mut same, _) = UpsertRun::new(record(), "203.0.113.7".to_string());
    same.on_zones(vec!["z1".to_string()]).unwrap();
    let current = vec![DnsRecordRef { id: "r1".to_string(), content: "203.0.113.7".to_string() }];
    assert!(matches!(same.on_records(current).unwrap(), UpsertAction::Finish { changed: false }));

    let (mut failing, _) = UpsertRun::new(record(), "203.0.113.8".to_string());
    assert_eq!(failing.on_zones(vec![]).unwrap_err().message(), "cloudflare zone not found: example.com");
    let (mut missing, _) = UpsertRun::new(record(), "203.0.113.8".to_string());
    missing.on_zones(vec!["z1".to_string()]).unwrap();
    assert!(missing.on_records(vec![]).is_err());
    let (mut refused, _) = UpsertRun::new(record(), "203.0.113.8".to_string());
    refused.on_zones(vec!["z1".to_string()]).unwrap();
    refused.on_records(vec![DnsRecordRef { id: "r".to_string(), content: "x".to_string() }]).unwrap();
    assert_eq!(refused.on_updated(false).unwrap_err().message(), "cloudflare update failed");
}

#[test]
fn comment_from_a_reading() {
    assert_eq!(meshops::cloudflare::comment_from(0, 0), "modified since 1970-01-01T00:00:00+00:00");
    assert_eq!(meshops::cloudflare::comment_from(i64::MAX, 0), "modified since ");
    let c = update_comment();
    assert!(chrono::DateTime::parse_from_rfc3339(&c["modified since ".len()..]).is_ok());
}

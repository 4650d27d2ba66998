use meshops::config::{
    AppConfig, AuthConfig, DdnsConfig, DdnsProvider, GeneralConfig, MetricsConfig, RateLimitConfig,
    RetryConfig, SchedulerConfig, ServerConfig, StorageConfig, WebhookConfig,
};
use meshops::models::Record;
use meshops::sync::{
    disabled_notice, find_cloudflare_provider, snapshot, start_sync, SyncAction, SyncError, SyncRun,
    SyncStart,
};

fn provider(kind: &str) -> DdnsProvider {
    DdnsProvider { kind: kind.to_string(), email: "e".to_string(), token: "t".to_string(), cache_timeout_secs: 1, records: vec![] }
}

fn config(enabled: bool, providers: Vec<DdnsProvider>) -> AppConfig {
    AppConfig {
        server: ServerConfig::default(),
        auth: AuthConfig::default(),
        general: GeneralConfig::default(),
        scheduler: SchedulerConfig::default(),
        ddns: DdnsConfig { enabled, providers },
        storage: StorageConfig::default(),
        metrics: MetricsConfig::default(),
        retry: RetryConfig::default(),
        rate_limit: RateLimitConfig::default(),
        webhooks: WebhookConfig::default(),
    }
}

fn rec(id: i64, fqdn: &str, t: &str) -> Record {
    Record { id, fqdn: fqdn.to_string(), record_type: t.to_string(), proxied: false, ttl: 120 }
}

#[test]
fn disabled_ddns_is_noted() {
    let note = disabled_notice(&config(false, vec![])).unwrap();
    assert_eq!((note.status.as_str(), note.message.as_str(), note.ip), ("skipped", "ddns disabled", None));
    assert!(disabled_notice(&config(true, vec![])).is_none());
}

#[test]
fn provider_is_found_in_any_case() {
    let ps = vec![provider("route53"), provider("CloudFlare"), provider("cloudflare")];
    assert_eq!(find_cloudflare_provider(&ps), Some(1));
    assert_eq!(find_cloudflare_provider(&vec![provider("route53")]), None);
}

#[test]
fn no_records_skips_and_no_provider_fails() {
    match start_sync(&config(true, vec![provider("cloudflare")]), vec![]) {
        SyncStart::Skipped(n) => {
            assert_eq!((n.status.as_str(), n.message.as_str(), n.ip), ("skipped", "no records configured", None))
        }
        _ => panic!("unexpected start"),
    }
    match start_sync(&config(true, vec![provider("other")]), vec![rec(1, "a.b", "A")]) {
        SyncStart::Failed(e) => {
            assert_eq!(e, SyncError::ProviderNotConfigured);
            assert_eq!(e.message(), "cloudflare provider not configured");
        }
        _ => panic!("unexpected start"),
    }
}

/// Drives a run: `ips` gives the looked-up address per record, `stored`
/// the address stored per record, `changes` whether the provider changed.
fn drive(run: &mut SyncRun, ips: &[&str], stored: &[Option<&str>], changes: &[bool]) -> Vec<String> {
    let mut log = Vec::new();
    loop {
        match run.action() {
            SyncAction::FetchIp { record } => {
                log.push(format!("fetch {}", record));
                run.on_ip(ips[record].to_string());
            }
            SyncAction::ReadState { key } => {
                log.push(format!("read {}", key));
                run.on_previous(stored[run.next()].map(|s| s.to_string()));
            }
            SyncAction::Upsert { record, ip } => {
                log.push(format!("upsert {} {}", record, ip));
                run.on_upserted(changes[record]);
            }
            SyncAction::WriteState { key, value } => {
                log.push(format!("write {}={}", key, value));
                run.on_written();
            }
            SyncAction::AddHistory { status, message, ip } => {
                log.push(format!("history {} {} {:?}", status, message, ip));
                run.on_written();
            }
            SyncAction::Finish { message, changed } => {
                log.push(format!("finish {} {}", changed, message));
                return log;
            }
        }
    }
}

#[test]
fn run_skips_unchanged_and_updates_the_rest() {
    let records = vec![rec(1, "a.example.com", "A"), rec(2, "b.example.com", "AAAA"), rec(3, "c.example.com", "A")];
    let mut run = match start_sync(&config(true, vec![provider("cloudflare")]), records) {
        SyncStart::Run { run, provider } => {
            assert_eq!(provider, 0);
            run
        }
        _ => panic!("unexpected start"),
    };
    let log = drive(
        &mut run,
        &["1.1.1.1", "2001:db8::1", "1.1.1.2"],
        &[Some("1.1.1.1"), None, Some("1.1.1.1")],
        &[false, true, false],
    );
    assert_eq!(
        log,
        vec![
            "fetch 0",
            "read last_public_ip:A:a.example.com",
            "fetch 1",
            "read last_public_ip:AAAA:b.example.com",
            "upsert 1 2001:db8::1",
            "write last_public_ip:AAAA:b.example.com=2001:db8::1",
            "fetch 2",
            "read last_public_ip:A:c.example.com",
            "upsert 2 1.1.1.2",
            "write last_public_ip:A:c.example.com=1.1.1.2",
            "write last_public_ip=1.1.1.2",
            "history ok sync completed, changed records: 1, skipped local unchanged: 1 Some(\"1.1.1.2\")",
            "finish 1 sync completed, changed records: 1, skipped local unchanged: 1",
        ]
    );
    assert_eq!((run.changed(), run.skipped(), run.next()), (1, 1, 3));
    assert_eq!(run.record_count(), 3);
    assert_eq!(run.record(2).fqdn, "c.example.com");
}

#[test]
fn run_where_everything_is_unchanged_writes_no_address() {
    let mut run = SyncRun::new(vec![rec(1, "a.example.com", "A")]);
    let log = drive(&mut run, &["9.9.9.9"], &[Some("9.9.9.9")], &[false]);
    assert_eq!(
        log,
        vec![
            "fetch 0",
            "read last_public_ip:A:a.example.com",
            "history ok sync completed, changed records: 0, skipped local unchanged: 1 None",
            "finish 0 sync completed, changed records: 0, skipped local unchanged: 1",
        ]
    );
}

#[test]
fn status_snapshot() {
    let s = snapshot(Some("1.2.3.4".to_string()), Some(("t".to_string(), "ok".to_string(), "m".to_string())));
    assert_eq!(s.last_public_ip.as_deref(), Some("1.2.3.4"));
    assert_eq!(s.last_sync_at.as_deref(), Some("t"));
    assert_eq!(s.last_sync_status.as_deref(), Some("ok"));
    assert_eq!(s.last_sync_message.as_deref(), Some("m"));
    let empty = snapshot(None, None);
    assert!(empty.last_public_ip.is_none() && empty.last_sync_at.is_none());
    assert!(empty.last_sync_status.is_none() && empty.last_sync_message.is_none());
}

/// Drives a run against a stored-state map, as the database would hold it.
fn drive_with_store(run: &mut SyncRun, ip: &str, store: &mut std::collections::HashMap<String, String>) -> (usize, String) {
    let mut upserts = 0;
    loop {
        match run.action() {
            SyncAction::FetchIp { .. } => run.on_ip(ip.to_string()),
            SyncAction::ReadState { key } => run.on_previous(store.get(&key).cloned()),
            SyncAction::Upsert { .. } => {
                upserts += 1;
                run.on_upserted(true);
            }
            SyncAction::WriteState { key, value } => {
                store.insert(key, value);
                run.on_written();
            }
            SyncAction::AddHistory { .. } => run.on_written(),
            SyncAction::Finish { message, .. } => return (upserts, message),
        }
    }
}

#[test]
fn two_records_of_one_type_are_both_updated() {
    let mut store = std::collections::HashMap::new();
    store.insert("last_public_ip:A:a.example.com".to_string(), "198.51.100.1".to_string());
    store.insert("last_public_ip:A:b.example.com".to_string(), "198.51.100.1".to_string());
    let mut run = SyncRun::new(vec![rec(1, "a.example.com", "A"), rec(2, "b.example.com", "A")]);
    let (upserts, message) = drive_with_store(&mut run, "203.0.113.7", &mut store);
    assert_eq!(upserts, 2);
    assert_eq!(message, "sync completed, changed records: 2, skipped local unchanged: 0");
    assert_eq!(store["last_public_ip:A:b.example.com"], "203.0.113.7");
    assert_eq!(store["last_public_ip"], "203.0.113.7");
    let mut again = SyncRun::new(vec![rec(1, "a.example.com", "A"), rec(2, "b.example.com", "A")]);
    let (upserts, message) = drive_with_store(&mut again, "203.0.113.7", &mut store);
    assert_eq!(upserts, 0);
    assert_eq!(message, "sync completed, changed records: 0, skipped local unchanged: 2");
}

#[test]
fn run_stopped_at_a_failed_update_asks_for_no_ok_entry() {
    let mut run = SyncRun::new(vec![rec(1, "a.example.com", "A"), rec(2, "b.example.com", "A")]);
    let mut asked = Vec::new();
    // The caller gives up when the second record's provider update fails.
    loop {
        let action = run.action();
        asked.push(format!("{:?}", action));
        match action {
            SyncAction::FetchIp { .. } => run.on_ip("1.2.3.4".to_string()),
            SyncAction::ReadState { .. } => run.on_previous(None),
            SyncAction::Upsert { record, .. } => {
                if record == 1 {
                    break;
                }
                run.on_upserted(true);
            }
            SyncAction::WriteState { .. } => run.on_written(),
            SyncAction::AddHistory { .. } | SyncAction::Finish { .. } => panic!("asked too early"),
        }
    }
    assert_eq!(run.changed(), 1);
    assert_eq!(run.next(), 1);
    assert!(asked.iter().all(|a| !a.starts_with("AddHistory") && !a.starts_with("Finish")));
    assert_eq!(asked.len(), 7);
}

use meshops::config::{
    default_admin_password, default_admin_username, default_cache_timeout, default_fetch_timeout,
    default_host, default_interval_secs, default_metrics_path, default_port, default_query_api,
    default_rate_limit, default_record_ttl, default_retry_attempts, default_retry_base,
    default_retry_max, default_scheduler_mode, default_sqlite_path, default_state_path,
    default_token_ttl, default_true, default_unix_time, AppConfig, AuthConfig, ConfigError,
    DdnsConfig, DdnsProvider, DdnsRecord, DnsRecordType, GeneralConfig, MetricsConfig,
    RateLimitConfig, RetryConfig, SchedulerConfig, SchedulerMode, ServerConfig, StorageConfig,
    WebhookConfig,
};

fn record(fqdn: &str) -> DdnsRecord {
    DdnsRecord { fqdn: fqdn.to_string(), record_type: DnsRecordType::A, proxied: false, ttl: 120 }
}

fn provider(kind: &str, records: Vec<DdnsRecord>) -> DdnsProvider {
    DdnsProvider {
        kind: kind.to_string(),
        email: "you@example.com".to_string(),
        token: "tok".to_string(),
        cache_timeout_secs: 172_800,
        records,
    }
}

fn base_config() -> AppConfig {
    AppConfig {
        server: ServerConfig::default(),
        auth: AuthConfig::default(),
        general: GeneralConfig::default(),
        scheduler: SchedulerConfig::default(),
        ddns: DdnsConfig { enabled: true, providers: vec![provider("cloudflare", vec![record("example.com")])] },
        storage: StorageConfig::default(),
        metrics: MetricsConfig::default(),
        retry: RetryConfig::default(),
        rate_limit: RateLimitConfig::default(),
        webhooks: WebhookConfig::default(),
    }
}

#[test]
fn default_values_match_documented_defaults() {
    assert_eq!(default_host(), "0.0.0.0");
    assert_eq!(default_port(), 8080);
    assert_eq!(default_admin_username(), "admin");
    assert_eq!(default_admin_password(), "change-me");
    assert_eq!(default_token_ttl(), 86_400);
    assert_eq!(default_query_api(), "ipify");
    assert_eq!(default_fetch_timeout(), 8);
    assert_eq!(default_state_path(), ".dumps/state.json");
    assert_eq!(default_scheduler_mode(), SchedulerMode::Interval);
    assert_eq!(default_interval_secs(), 300);
    assert_eq!(default_unix_time(), "03:00:00");
    assert!(default_true());
    assert_eq!(default_cache_timeout(), 172_800);
    assert_eq!(default_record_ttl(), 120);
    assert_eq!(default_sqlite_path(), ".dumps/meshops.db");
    assert_eq!(default_metrics_path(), "/metrics");
    assert_eq!(default_retry_attempts(), 3);
    assert_eq!(default_retry_base(), 300);
    assert_eq!(default_retry_max(), 5_000);
    assert_eq!(default_rate_limit(), 120);
}

#[test]
fn section_defaults_use_the_field_defaults() {
    let s = ServerConfig::default();
    assert_eq!((s.host.as_str(), s.port), ("0.0.0.0", 8080));
    let a = AuthConfig::default();
    assert_eq!((a.admin_username.as_str(), a.admin_password.as_str(), a.token_ttl_secs), ("admin", "change-me", 86_400));
    let g = GeneralConfig::default();
    assert_eq!((g.query_api.as_str(), g.fetch_timeout_secs, g.state_path.as_str()), ("ipify", 8, ".dumps/state.json"));
    let sc = SchedulerConfig::default();
    assert_eq!((sc.mode, sc.interval_secs, sc.unix_time_utc.as_str()), (SchedulerMode::Interval, 300, "03:00:00"));
    assert_eq!(StorageConfig::default().sqlite_path, ".dumps/meshops.db");
    let m = MetricsConfig::default();
    assert!(m.enabled);
    assert_eq!(m.path, "/metrics");
    let r = RetryConfig::default();
    assert_eq!((r.max_attempts, r.base_delay_ms, r.max_delay_ms), (3, 300, 5_000));
    assert_eq!(RateLimitConfig::default().requests_per_minute, 120);
    let w = WebhookConfig::default();
    assert!(!w.enabled && w.endpoints.is_empty() && w.shared_secret.is_none());
}

#[test]
fn missing_ddns_section_turns_ddns_off() {
    let d = DdnsConfig::default();
    assert!(!d.enabled);
    assert!(d.providers.is_empty());
}

#[test]
fn record_type_names() {
    assert_eq!(DnsRecordType::A.as_str(), "A");
    assert_eq!(DnsRecordType::Aaaa.as_str(), "AAAA");
    assert_eq!(DnsRecordType::Aaaa.to_string(), "AAAA");
}

#[test]
fn valid_configuration_passes() {
    assert_eq!(base_config().validate(), Ok(()));
}

#[test]
fn port_zero_is_refused() {
    let mut c = base_config();
    c.server.port = 0;
    assert_eq!(c.validate(), Err(ConfigError::InvalidPort));
    assert_eq!(ConfigError::InvalidPort.message(), "server.port must be a valid TCP port");
}

#[test]
fn short_token_lifetime_is_refused() {
    let mut c = base_config();
    c.auth.token_ttl_secs = 59;
    assert_eq!(c.validate(), Err(ConfigError::TokenTtlTooShort));
    c.auth.token_ttl_secs = 60;
    assert_eq!(c.validate(), Ok(()));
    assert_eq!(ConfigError::TokenTtlTooShort.message(), "auth.token_ttl_secs must be at least 60 seconds");
}

#[test]
fn enabled_ddns_needs_providers() {
    let mut c = base_config();
    c.ddns.providers.clear();
    assert_eq!(c.validate(), Err(ConfigError::NoProviders));
    c.ddns.enabled = false;
    assert_eq!(c.validate(), Ok(()));
    assert_eq!(ConfigError::NoProviders.message(), "ddns.providers cannot be empty while ddns.enabled=true");
}

#[test]
fn every_provider_needs_records() {
    let mut c = base_config();
    c.ddns.providers.push(provider("cloudflare", vec![]));
    assert_eq!(c.validate(), Err(ConfigError::ProviderWithoutRecords));
    assert_eq!(ConfigError::ProviderWithoutRecords.message(), "ddns provider records cannot be empty");
}

#[test]
fn checks_run_in_order() {
    let mut c = base_config();
    c.server.port = 0;
    c.auth.token_ttl_secs = 1;
    c.ddns.providers.clear();
    assert_eq!(c.validate(), Err(ConfigError::InvalidPort));
    c.server.port = 1;
    assert_eq!(c.validate(), Err(ConfigError::TokenTtlTooShort));
}

#[test]
fn environment_references_are_expanded() {
    let plain = "server:\n  port: 8080\n";
    assert_eq!(meshops::config::expand_env_vars(plain).unwrap(), plain);
    assert_eq!(
        meshops::config::expand_env_vars("x: ${MESHOPS_SURELY_UNSET_VAR:-fallback}").unwrap(),
        "x: fallback"
    );
    let e = meshops::config::expand_env_vars("x: ${MESHOPS_SURELY_UNSET_VAR}").unwrap_err();
    assert!(e.message.contains("MESHOPS_SURELY_UNSET_VAR"));
}

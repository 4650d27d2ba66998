//! The service configuration: its sections, the value each setting takes
//! when the file leaves it out, and the checks a loaded configuration must pass.
use vstd::prelude::*;
use crate::text::owned;

verus! {

broadcast use vstd::string::group_string_axioms;

/// The whole configuration file.
#[derive(Debug, Clone)]
pub struct AppConfig {
    pub server: ServerConfig,
    pub auth: AuthConfig,
    pub general: GeneralConfig,
    pub scheduler: SchedulerConfig,
    pub ddns: DdnsConfig,
    pub storage: StorageConfig,
    pub metrics: MetricsConfig,
    pub retry: RetryConfig,
    pub rate_limit: RateLimitConfig,
    pub webhooks: WebhookConfig,
}

/// Where the HTTP API listens.
#[derive(Debug, Clone)]
pub struct ServerConfig {
    pub host: String,
    pub port: u16,
}

/// The administrator's credentials and the lifetime of issued tokens.
#[derive(Debug, Clone)]
pub struct AuthConfig {
    pub admin_username: String,
    pub admin_password: String,
    pub token_ttl_secs: i64,
}

/// How the public address is looked up.
#[derive(Debug, Clone)]
pub struct GeneralConfig {
    pub query_api: String,
    pub fetch_timeout_secs: u64,
    pub state_path: String,
}

/// When synchronisation runs.
#[derive(Debug, Clone)]
pub struct SchedulerConfig {
    pub mode: SchedulerMode,
    pub interval_secs: u64,
    pub unix_time_utc: String,
}

/// Run every `interval_secs`, or once a day at `unix_time_utc`.
#[derive(Debug, Clone, Copy, PartialEq, Eq, Structural)]
pub enum SchedulerMode {
    Interval,
    UnixEpoch,
}

/// Dynamic DNS: whether it runs, and with which providers.
#[derive(Debug, Clone)]
pub struct DdnsConfig {
    pub enabled: bool,
    pub providers: Vec<DdnsProvider>,
}

/// One DNS provider account and the records kept up to date there.
#[derive(Debug, Clone)]
pub struct DdnsProvider {
    pub kind: String,
    pub email: String,
    pub token: String,
    pub cache_timeout_secs: u64,
    pub records: Vec<DdnsRecord>,
}

/// One record to keep pointed at the public address.
#[derive(Debug, Clone)]
pub struct DdnsRecord {
    pub fqdn: String,
    pub record_type: DnsRecordType,
    pub proxied: bool,
    pub ttl: u32,
}

/// IPv4 (`A`) or IPv6 (`AAAA`) address record.
#[derive(Debug, Clone, Copy, PartialEq, Eq, Structural)]
pub enum DnsRecordType {
    A,
    Aaaa,
}

/// Where the record database lives.
#[derive(Debug, Clone)]
pub struct StorageConfig {
    pub sqlite_path: String,
}

/// The metrics endpoint.
#[derive(Debug, Clone)]
pub struct MetricsConfig {
    pub enabled: bool,
    pub path: String,
}

/// Retry with exponential backoff.
#[derive(Debug, Clone)]
pub struct RetryConfig {
    pub max_attempts: u32,
    pub base_delay_ms: u64,
    pub max_delay_ms: u64,
}

/// Request rate limit of the API.
#[derive(Debug, Clone)]
pub struct RateLimitConfig {
    pub requests_per_minute: u32,
}

/// Outgoing notifications.
#[derive(Debug, Clone)]
pub struct WebhookConfig {
    pub enabled: bool,
    pub endpoints: Vec<String>,
    pub shared_secret: Option<String>,
}

/// The textual name of a record type, as DNS and the API write it.
pub open spec fn record_type_text(t: DnsRecordType) -> Seq<char> {
    match t {
        DnsRecordType::A => seq!['A'],
        DnsRecordType::Aaaa => seq!['A', 'A', 'A', 'A'],
    }
}

impl DnsRecordType {
    /// `"A"` or `"AAAA"`.
    pub fn as_str(&self) -> (r: &'static str)
        ensures
            r@ == record_type_text(*self),
    {
        proof {
            reveal_strlit("A");
            reveal_strlit("AAAA");
        }
        match self {
            DnsRecordType::A => "A",
            DnsRecordType::Aaaa => "AAAA",
        }
    }

    /// `"A"` or `"AAAA"`, owned.
    pub fn to_string(&self) -> (r: String)
        ensures
            r@ == record_type_text(*self),
    {
        owned(self.as_str())
    }
}

/// Listen address used when the file gives none.
pub fn default_host() -> (r: String)
    ensures
        r@ == "0.0.0.0"@,
{
    owned("0.0.0.0")
}

/// Listen port used when the file gives none.
pub fn default_port() -> (r: u16)
    ensures
        r == 8080,
{
    8080
}

/// Administrator name used when the file gives none.
pub fn default_admin_username() -> (r: String)
    ensures
        r@ == "admin"@,
{
    owned("admin")
}

/// Administrator password used when the file gives none.
pub fn default_admin_password() -> (r: String)
    ensures
        r@ == "change-me"@,
{
    owned("change-me")
}

/// Token lifetime (one day) used when the file gives none.
pub fn default_token_ttl() -> (r: i64)
    ensures
        r == 86_400,
{
    86_400
}

/// Address lookup service used when the file gives none.
pub fn default_query_api() -> (r: String)
    ensures
        r@ == "ipify"@,
{
    owned("ipify")
}

/// Address lookup timeout used when the file gives none.
pub fn default_fetch_timeout() -> (r: u64)
    ensures
        r == 8,
{
    8
}

/// State file used when the file gives none.
pub fn default_state_path() -> (r: String)
    ensures
        r@ == ".dumps/state.json"@,
{
    owned(".dumps/state.json")
}

/// Scheduler mode used when the file gives none.
pub fn default_scheduler_mode() -> (r: SchedulerMode)
    ensures
        r == SchedulerMode::Interval,
{
    SchedulerMode::Interval
}

/// Sync interval (five minutes) used when the file gives none.
pub fn default_interval_secs() -> (r: u64)
    ensures
        r == 300,
{
    300
}

/// Daily sync time used when the file gives none.
pub fn default_unix_time() -> (r: String)
    ensures
        r@ == "03:00:00"@,
{
    owned("03:00:00")
}

/// Default of the switches that are on unless the file says otherwise.
pub fn default_true() -> (r: bool)
    ensures
        r,
{
    true
}

/// Provider cache lifetime (two days) used when the file gives none.
pub fn default_cache_timeout() -> (r: u64)
    ensures
        r == 172_800,
{
    172_800
}

/// Record TTL used when the file gives none.
pub fn default_record_ttl() -> (r: u32)
    ensures
        r == 120,
{
    120
}

/// Database file used when the file gives none.
pub fn default_sqlite_path() -> (r: String)
    ensures
        r@ == ".dumps/meshops.db"@,
{
    owned(".dumps/meshops.db")
}

/// Metrics path used when the file gives none.
pub fn default_metrics_path() -> (r: String)
    ensures
        r@ == "/metrics"@,
{
    owned("/metrics")
}

/// Retry attempts used when the file gives none.
pub fn default_retry_attempts() -> (r: u32)
    ensures
        r == 3,
{
    3
}

/// First retry delay used when the file gives none.
pub fn default_retry_base() -> (r: u64)
    ensures
        r == 300,
{
    300
}

/// Longest retry delay used when the file gives none.
pub fn default_retry_max() -> (r: u64)
    ensures
        r == 5_000,
{
    5_000
}

/// Requests per minute used when the file gives none.
pub fn default_rate_limit() -> (r: u32)
    ensures
        r == 120,
{
    120
}

impl Default for ServerConfig {
    fn default() -> (r: Self)
        ensures
            r.host@ == "0.0.0.0"@,
            r.port == 8080,
    {
        ServerConfig { host: default_host(), port: default_port() }
    }
}

impl Default for AuthConfig {
    fn default() -> (r: Self)
        ensures
            r.admin_username@ == "admin"@,
            r.admin_password@ == "change-me"@,
            r.token_ttl_secs == 86_400,
    {
        AuthConfig {
            admin_username: default_admin_username(),
            admin_password: default_admin_password(),
            token_ttl_secs: default_token_ttl(),
        }
    }
}

impl Default for GeneralConfig {
    fn default() -> (r: Self)
        ensures
            r.query_api@ == "ipify"@,
            r.fetch_timeout_secs == 8,
            r.state_path@ == ".dumps/state.json"@,
    {
        GeneralConfig {
            query_api: default_query_api(),
            fetch_timeout_secs: default_fetch_timeout(),
            state_path: default_state_path(),
        }
    }
}

impl Default for SchedulerConfig {
    fn default() -> (r: Self)
        ensures
            r.mode == SchedulerMode::Interval,
            r.interval_secs == 300,
            r.unix_time_utc@ == "03:00:00"@,
    {
        SchedulerConfig {
            mode: default_scheduler_mode(),
            interval_secs: default_interval_secs(),
            unix_time_utc: default_unix_time(),
        }
    }
}

impl Default for DdnsConfig {
    /// A missing `ddns` section turns dynamic DNS off, with no providers.
    fn default() -> (r: Self)
        ensures
            !r.enabled,
            r.providers@.len() == 0,
    {
        DdnsConfig { enabled: false, providers: Vec::new() }
    }
}

impl Default for StorageConfig {
    fn default() -> (r: Self)
        ensures
            r.sqlite_path@ == ".dumps/meshops.db"@,
    {
        StorageConfig { sqlite_path: default_sqlite_path() }
    }
}

impl Default for MetricsConfig {
    fn default() -> (r: Self)
        ensures
            r.enabled,
            r.path@ == "/metrics"@,
    {
        MetricsConfig { enabled: default_true(), path: default_metrics_path() }
    }
}

impl Default for RetryConfig {
    fn default() -> (r: Self)
        ensures
            r.max_attempts == 3,
            r.base_delay_ms == 300,
            r.max_delay_ms == 5_000,
    {
        RetryConfig {
            max_attempts: default_retry_attempts(),
            base_delay_ms: default_retry_base(),
            max_delay_ms: default_retry_max(),
        }
    }
}

impl Default for RateLimitConfig {
    fn default() -> (r: Self)
        ensures
            r.requests_per_minute == 120,
    {
        RateLimitConfig { requests_per_minute: default_rate_limit() }
    }
}

impl Default for WebhookConfig {
    fn default() -> (r: Self)
        ensures
            !r.enabled,
            r.endpoints@.len() == 0,
            r.shared_secret is None,
    {
        WebhookConfig { enabled: false, endpoints: Vec::new(), shared_secret: None }
    }
}

/// Why a configuration was refused.
#[derive(Debug, Clone, Copy, PartialEq, Eq, Structural)]
pub enum ConfigError {
    /// `server.port` is 0.
    InvalidPort,
    /// `auth.token_ttl_secs` is under 60.
    TokenTtlTooShort,
    /// Dynamic DNS is on but no provider is listed.
    NoProviders,
    /// Dynamic DNS is on and some provider lists no record.
    ProviderWithoutRecords,
}

impl ConfigError {
    /// The message that explains the refusal.
    pub fn message(&self) -> (r: String)
        ensures
            r@ == config_error_text(*self),
    {
        match self {
            ConfigError::InvalidPort => owned("server.port must be a valid TCP port"),
            ConfigError::TokenTtlTooShort => owned("auth.token_ttl_secs must be at least 60 seconds"),
            ConfigError::NoProviders => owned("ddns.providers cannot be empty while ddns.enabled=true"),
            ConfigError::ProviderWithoutRecords => owned("ddns provider records cannot be empty"),
        }
    }
}

/// The text of each refusal.
pub open spec fn config_error_text(e: ConfigError) -> Seq<char> {
    match e {
        ConfigError::InvalidPort => "server.port must be a valid TCP port"@,
        ConfigError::TokenTtlTooShort => "auth.token_ttl_secs must be at least 60 seconds"@,
        ConfigError::NoProviders => "ddns.providers cannot be empty while ddns.enabled=true"@,
        ConfigError::ProviderWithoutRecords => "ddns provider records cannot be empty"@,
    }
}

/// The first check that `cfg` fails, in the order they are made, or `None`.
pub open spec fn config_violation(cfg: AppConfig) -> Option<ConfigError> {
    if cfg.server.port == 0 {
        Some(ConfigError::InvalidPort)
    } else if cfg.auth.token_ttl_secs < 60 {
        Some(ConfigError::TokenTtlTooShort)
    } else if cfg.ddns.enabled && cfg.ddns.providers@.len() == 0 {
        Some(ConfigError::NoProviders)
    } else if cfg.ddns.enabled && exists|i: int|
        0 <= i < cfg.ddns.providers@.len() && #[trigger] cfg.ddns.providers@[i].records@.len()
            == 0 {
        Some(ConfigError::ProviderWithoutRecords)
    } else {
        None
    }
}

impl AppConfig {
    /// Checks the settings that the service cannot run without.
    pub fn validate(&self) -> (r: Result<(), ConfigError>)
        ensures
            r == (match config_violation(*self) {
                Some(e) => Err(e),
                None => Ok(()),
            }),
    {
        if self.server.port == 0 {
            return Err(ConfigError::InvalidPort);
        }
        if self.auth.token_ttl_secs < 60 {
            return Err(ConfigError::TokenTtlTooShort);
        }
        if self.ddns.enabled {
            if self.ddns.providers.len() == 0 {
                return Err(ConfigError::NoProviders);
            }
            let mut i: usize = 0;
            while i < self.ddns.providers.len()
                invariant
                    self.server.port != 0,
                    self.auth.token_ttl_secs >= 60,
                    self.ddns.enabled,
                    self.ddns.providers@.len() != 0,
                    i <= self.ddns.providers@.len(),
                    forall|k: int| 0 <= k < i ==> #[trigger] self.ddns.providers@[k].records@.len() != 0,
                decreases self.ddns.providers.len() - i,
            {
                if self.ddns.providers[i].records.len() == 0 {
                    assert(self.ddns.providers@[i as int].records@.len() == 0);
                    return Err(ConfigError::ProviderWithoutRecords);
                }
                i = i + 1;
            }
        }
        Ok(())
    }
}

/// Validation accepts exactly the settings with a non-zero port, a token
/// lifetime of at least a minute and, when dynamic DNS is on, at least one
/// provider with every provider (the first one too) listing records; a
/// refusal names the first of these that fails, in that order.
pub proof fn lemma_validation_accepts_exactly(cfg: AppConfig)
    ensures
        config_violation(cfg) is None <==> (cfg.server.port != 0 && cfg.auth.token_ttl_secs >= 60
            && (cfg.ddns.enabled ==> cfg.ddns.providers@.len() > 0 && forall|i: int|
            0 <= i < cfg.ddns.providers@.len() ==> #[trigger] cfg.ddns.providers@[i].records@.len()
                > 0)),
        cfg.server.port == 0 ==> config_violation(cfg) == Some(ConfigError::InvalidPort),
        cfg.server.port != 0 && cfg.auth.token_ttl_secs < 60 ==> config_violation(cfg) == Some(
            ConfigError::TokenTtlTooShort,
        ),
        cfg.server.port != 0 && cfg.auth.token_ttl_secs >= 60 && cfg.ddns.enabled
            && cfg.ddns.providers@.len() == 0 ==> config_violation(cfg) == Some(
            ConfigError::NoProviders,
        ),
{
}

/// With dynamic DNS on, a provider at any index, the first included, that
/// lists no records makes validation fail with `ProviderWithoutRecords` once
/// the port and the token lifetime pass.
pub proof fn lemma_provider_without_records_refused(cfg: AppConfig, i: int)
    requires
        cfg.server.port != 0,
        cfg.auth.token_ttl_secs >= 60,
        cfg.ddns.enabled,
        0 <= i < cfg.ddns.providers@.len(),
        cfg.ddns.providers@[i].records@.len() == 0,
    ensures
        config_violation(cfg) == Some(ConfigError::ProviderWithoutRecords),
{
}

/// Why `${...}` references in the configuration text could not be expanded.
#[derive(Debug)]
pub struct EnvExpandError {
    /// shellexpand's description: the variable and why it could not be read.
    pub message: String,
}

/// Expands `$VAR`, `${VAR}` and `${VAR:-default}` references from the process
/// environment: `shellexpand::env`. Claimed: text holding no `$` comes back
/// unchanged (shellexpand returns its input when it finds no `$`). What a
/// reference expands to depends on the environment and is not stated; a
/// failure carries shellexpand's message.
#[verifier::external_body]
fn shellexpand_env(raw: &str) -> (r: Result<String, EnvExpandError>)
    ensures
        !raw@.contains('$') ==> r is Ok,
        r matches Ok(s) ==> (!raw@.contains('$') ==> s@ == raw@),
{
    match shellexpand::env(raw) {
        Ok(expanded) => Ok(expanded.into_owned()),
        Err(e) => Err(EnvExpandError { message: e.to_string() }),
    }
}

/// The configuration text with its environment references expanded; text
/// without a `$` is kept as it is.
pub fn expand_env_vars(raw: &str) -> (r: Result<String, EnvExpandError>)
    ensures
        !raw@.contains('$') ==> (r matches Ok(s) && s@ == raw@),
{
    shellexpand_env(raw)
}

} // verus!

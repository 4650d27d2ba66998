//! The values that the API reads and answers with.
use vstd::prelude::*;

verus! {

/// A DNS record kept in sync.
#[derive(Debug, Clone)]
pub struct Record {
    pub id: i64,
    pub fqdn: String,
    pub record_type: String,
    pub proxied: bool,
    pub ttl: u32,
}

/// What the status endpoint reports of the last synchronisation.
#[derive(Debug, Clone)]
pub struct SyncSnapshot {
    pub last_public_ip: Option<String>,
    pub last_sync_at: Option<String>,
    pub last_sync_status: Option<String>,
    pub last_sync_message: Option<String>,
}

/// Credentials sent to the login endpoint.
#[derive(Debug, Clone)]
pub struct LoginRequest {
    pub username: String,
    pub password: String,
}

/// An issued access token and when it stops being accepted.
#[derive(Debug, Clone)]
pub struct LoginResponse {
    pub access_token: String,
    pub expires_at: String,
}

/// A record to add.
#[derive(Debug, Clone)]
pub struct CreateRecordRequest {
    pub fqdn: String,
    pub record_type: String,
    pub proxied: bool,
    pub ttl: u32,
}

/// The fields of a record to change; the absent ones keep their value.
#[derive(Debug, Clone)]
pub struct UpdateRecordRequest {
    pub fqdn: Option<String>,
    pub record_type: Option<String>,
    pub proxied: Option<bool>,
    pub ttl: Option<u32>,
}

} // verus!

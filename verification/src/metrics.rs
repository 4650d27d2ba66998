//! Service counters and their Prometheus text exposition.
use vstd::prelude::*;
use crate::text::{decimal, owned, u64_to_decimal};

verus! {

broadcast use vstd::string::group_string_axioms;

/// Counters of syncs, changed records, failed syncs and logins. Each counter
/// wraps around at 2^64, as an atomic `fetch_add` does.
#[derive(Debug, Clone, Copy, PartialEq, Eq, Structural)]
pub struct Metrics {
    pub sync_total: u64,
    pub sync_changed_records: u64,
    pub sync_failed_total: u64,
    pub auth_login_total: u64,
}

/// `a + b` modulo 2^64.
pub open spec fn wrap_add(a: u64, b: u64) -> u64 {
    ((a as int + b as int) % 0x1_0000_0000_0000_0000) as u64
}

/// A counter moves by exactly the amount added while it stays below 2^64,
/// and wraps to zero past its largest value.
pub proof fn lemma_counter_adds_exactly(a: u64, b: u64)
    ensures
        a as int + b as int <= u64::MAX ==> wrap_add(a, b) == a + b,
        wrap_add(u64::MAX, 1) == 0,
{
}

impl Metrics {
    /// All counters at zero.
    pub fn new() -> (m: Self)
        ensures
            m.sync_total == 0,
            m.sync_changed_records == 0,
            m.sync_failed_total == 0,
            m.auth_login_total == 0,
    {
        Metrics { sync_total: 0, sync_changed_records: 0, sync_failed_total: 0, auth_login_total: 0 }
    }

    /// Counts a completed sync that changed `changed` records.
    pub fn record_sync(&mut self, changed: u64)
        ensures
            final(self).sync_total == wrap_add(old(self).sync_total, 1),
            final(self).sync_changed_records == wrap_add(old(self).sync_changed_records, changed),
            final(self).sync_failed_total == old(self).sync_failed_total,
            final(self).auth_login_total == old(self).auth_login_total,
    {
        self.sync_total = self.sync_total.wrapping_add(1);
        self.sync_changed_records = self.sync_changed_records.wrapping_add(changed);
    }

    /// Counts a failed sync.
    pub fn record_sync_failure(&mut self)
        ensures
            final(self).sync_failed_total == wrap_add(old(self).sync_failed_total, 1),
            final(self).sync_total == old(self).sync_total,
            final(self).sync_changed_records == old(self).sync_changed_records,
            final(self).auth_login_total == old(self).auth_login_total,
    {
        self.sync_failed_total = self.sync_failed_total.wrapping_add(1);
    }

    /// Counts a successful login.
    pub fn record_login(&mut self)
        ensures
            final(self).auth_login_total == wrap_add(old(self).auth_login_total, 1),
            final(self).sync_total == old(self).sync_total,
            final(self).sync_changed_records == old(self).sync_changed_records,
            final(self).sync_failed_total == old(self).sync_failed_total,
    {
        self.auth_login_total = self.auth_login_total.wrapping_add(1);
    }

    /// The metrics endpoint's body: one `name value` line per counter.
    pub fn render(&self) -> (r: String)
        ensures
            r@ == exposition(*self),
    {
        let mut r = owned("meshops_sync_total ");
        r.append(u64_to_decimal(self.sync_total).as_str());
        r.append("\nmeshops_sync_changed_records_total ");
        r.append(u64_to_decimal(self.sync_changed_records).as_str());
        r.append("\nmeshops_sync_failed_total ");
        r.append(u64_to_decimal(self.sync_failed_total).as_str());
        r.append("\nmeshops_auth_login_total ");
        r.append(u64_to_decimal(self.auth_login_total).as_str());
        r.append("\n");
        r
    }
}

/// The Prometheus text of the counters.
pub open spec fn exposition(m: Metrics) -> Seq<char> {
    "meshops_sync_total "@ + decimal(m.sync_total as nat) + "\nmeshops_sync_changed_records_total "@
        + decimal(m.sync_changed_records as nat) + "\nmeshops_sync_failed_total "@ + decimal(
        m.sync_failed_total as nat,
    ) + "\nmeshops_auth_login_total "@ + decimal(m.auth_login_total as nat) + "\n"@
}

} // verus!

//! Cloudflare DNS: the zone a record lives in, the request URLs and headers,
//! and the steps of bringing one DNS record up to date.
use vstd::prelude::*;
use crate::clock::{rfc3339_text, timestamp_text, utc_now_timestamp};
use crate::http::{build_default_client, header_value_accepted, header_value_ok};
use crate::models::Record;
use crate::text::{
    chars_of, concat_str, lemma_split_nonempty, lemma_split_plain, lemma_split_sep_then_plain, owned, push_char, split_on, str_eq, string_from_chars,
};

verus! {

broadcast use vstd::string::group_string_axioms;

/// The zone of a fully qualified name: its last two dot-separated labels,
/// joined by a dot, or the whole name when it has a single label.
pub open spec fn apex_zone_of(fqdn: Seq<char>) -> Seq<char> {
    let parts = split_on(fqdn, '.');
    if parts.len() >= 2 {
        parts[parts.len() - 2] + seq!['.'] + parts[parts.len() - 1]
    } else {
        fqdn
    }
}

/// The pieces of `done@` followed by `cur@`, as sequences of characters.
pub open spec fn pieces_view(done: Seq<Vec<char>>, cur: Seq<char>) -> Seq<Seq<char>> {
    done.map_values(|p: Vec<char>| p@).push(cur)
}

/// The zone that a fully qualified domain name belongs to.
pub fn apex_zone(fqdn: &str) -> (r: String)
    ensures
        r@ == apex_zone_of(fqdn@),
{
    let v = chars_of(fqdn);
    let mut done: Vec<Vec<char>> = Vec::new();
    let mut cur: Vec<char> = Vec::new();
    let mut i: usize = 0;
    assert(v@.take(0) =~= Seq::<char>::empty());
    assert(pieces_view(done@, cur@) =~= split_on(v@.take(0), '.'));
    while i < v.len()
        invariant
            v@ == fqdn@,
            i <= v@.len(),
            pieces_view(done@, cur@) == split_on(v@.take(i as int), '.'),
        decreases v.len() - i,
    {
        let ghost before = v@.take(i as int);
        assert(v@.take(i + 1).drop_last() =~= before);
        assert(v@.take(i + 1).last() == v@[i as int]);
        proof {
            lemma_split_nonempty(before, '.');
        }
        if v[i] == '.' {
            let finished = cur;
            done.push(finished);
            cur = Vec::new();
            assert(pieces_view(done@, cur@) =~= split_on(before, '.').push(Seq::<char>::empty()));
        } else {
            cur.push(v[i]);
            let ghost p = split_on(before, '.');
            assert(pieces_view(done@, cur@) =~= p.update(p.len() - 1, p.last().push(v@[i as int])));
        }
        i = i + 1;
    }
    assert(v@.take(v@.len() as int) =~= v@);
    let ghost parts = split_on(fqdn@, '.');
    assert(parts.len() == done@.len() + 1);
    if done.len() >= 1 {
        let k = done.len() - 1;
        assert(parts[parts.len() - 2] == done@[k as int]@);
        assert(parts[parts.len() - 1] == cur@);
        let mut r = string_from_chars(&done[k], 0, done[k].len());
        assert(done@[k as int]@.subrange(0, done@[k as int]@.len() as int) =~= done@[k as int]@);
        push_char(&mut r, '.');
        let tail = string_from_chars(&cur, 0, cur.len());
        assert(cur@.subrange(0, cur@.len() as int) =~= cur@);
        r.append(tail.as_str());
        assert(r@ =~= apex_zone_of(fqdn@));
        r
    } else {
        owned(fqdn)
    }
}

/// The zone of a name is its last two labels, whatever comes before them:
/// only a dot separates labels.
pub proof fn lemma_apex_zone_is_last_two_labels(front: Seq<char>, b: Seq<char>, c: Seq<char>)
    requires
        !b.contains('.'),
        !c.contains('.'),
    ensures
        apex_zone_of(front + seq!['.'] + b + seq!['.'] + c) == b + seq!['.'] + c,
{
    lemma_split_sep_then_plain(front, b, '.');
    lemma_split_sep_then_plain(front + seq!['.'] + b, c, '.');
    let parts = split_on(front, '.').push(b).push(c);
    assert(parts[parts.len() - 2] == b);
    assert(parts[parts.len() - 1] == c);
}

/// A name of two labels is its own zone, and so is a name of one label.
pub proof fn lemma_apex_zone_of_short_names(b: Seq<char>, c: Seq<char>)
    requires
        !b.contains('.'),
        !c.contains('.'),
    ensures
        apex_zone_of(b + seq!['.'] + c) == b + seq!['.'] + c,
        apex_zone_of(c) == c,
{
    lemma_split_plain(b, '.');
    lemma_split_sep_then_plain(b, c, '.');
    lemma_split_plain(c, '.');
    let parts = seq![b].push(c);
    assert(parts[parts.len() - 2] == b);
    assert(parts[parts.len() - 1] == c);
}

/// The start of every Cloudflare API URL.
pub open spec fn api_base() -> Seq<char> {
    "https://api.cloudflare.com/client/v4/zones"@
}

/// The URL that looks a zone up by name.
pub open spec fn zone_lookup_url_of(zone_name: Seq<char>) -> Seq<char> {
    api_base() + "?name="@ + zone_name
}

/// The URL that looks a record up by name and type within a zone.
pub open spec fn record_lookup_url_of(zone_id: Seq<char>, fqdn: Seq<char>, record_type: Seq<char>) -> Seq<char> {
    api_base() + "/"@ + zone_id + "/dns_records?name="@ + fqdn + "&type="@ + record_type
}

/// The URL that replaces one record of a zone.
pub open spec fn record_update_url_of(zone_id: Seq<char>, record_id: Seq<char>) -> Seq<char> {
    api_base() + "/"@ + zone_id + "/dns_records/"@ + record_id
}

/// The URL that looks a zone up by name.
pub fn zone_lookup_url(zone_name: &str) -> (r: String)
    ensures
        r@ == zone_lookup_url_of(zone_name@),
{
    let mut r = owned("https://api.cloudflare.com/client/v4/zones");
    r.append("?name=");
    r.append(zone_name);
    r
}

/// The URL that looks a record up by name and type within a zone.
pub fn record_lookup_url(zone_id: &str, fqdn: &str, record_type: &str) -> (r: String)
    ensures
        r@ == record_lookup_url_of(zone_id@, fqdn@, record_type@),
{
    let mut r = owned("https://api.cloudflare.com/client/v4/zones");
    r.append("/");
    r.append(zone_id);
    r.append("/dns_records?name=");
    r.append(fqdn);
    r.append("&type=");
    r.append(record_type);
    r
}

/// The URL that replaces one record of a zone.
pub fn record_update_url(zone_id: &str, record_id: &str) -> (r: String)
    ensures
        r@ == record_update_url_of(zone_id@, record_id@),
{
    let mut r = owned("https://api.cloudflare.com/client/v4/zones");
    r.append("/");
    r.append(zone_id);
    r.append("/dns_records/");
    r.append(record_id);
    r
}

/// Why talking to Cloudflare failed.
#[derive(Debug)]
pub enum CloudflareError {
    /// The HTTP client could not be set up.
    ClientBuild,
    /// The account e-mail or token cannot stand in an HTTP header.
    InvalidHeaderValue,
    /// No zone of this name is in the account.
    ZoneNotFound { zone_name: String },
    /// The zone holds no record of this name and type.
    RecordNotFound { fqdn: String, record_type: String },
    /// Cloudflare answered the update without success.
    UpdateFailed,
}

/// The text of each failure.
pub open spec fn cloudflare_error_text(e: CloudflareError) -> Seq<char> {
    match e {
        CloudflareError::ClientBuild => "failed to build cloudflare client"@,
        CloudflareError::InvalidHeaderValue => "failed to parse header value"@,
        CloudflareError::ZoneNotFound { zone_name } => "cloudflare zone not found: "@ + zone_name@,
        CloudflareError::RecordNotFound { fqdn, record_type } => "cloudflare record not found: "@
            + fqdn@ + " ("@ + record_type@ + ")"@,
        CloudflareError::UpdateFailed => "cloudflare update failed"@,
    }
}

impl CloudflareError {
    /// The message that explains the failure.
    pub fn message(&self) -> (r: String)
        ensures
            r@ == cloudflare_error_text(*self),
    {
        match self {
            CloudflareError::ClientBuild => owned("failed to build cloudflare client"),
            CloudflareError::InvalidHeaderValue => owned("failed to parse header value"),
            CloudflareError::ZoneNotFound { zone_name } => concat_str(
                "cloudflare zone not found: ",
                zone_name.as_str(),
            ),
            CloudflareError::RecordNotFound { fqdn, record_type } => {
                let mut r = concat_str("cloudflare record not found: ", fqdn.as_str());
                r.append(" (");
                r.append(record_type.as_str());
                r.append(")");
                r
            },
            CloudflareError::UpdateFailed => owned("cloudflare update failed"),
        }
    }
}

/// A client for one Cloudflare account.
pub struct CloudflareClient {
    pub client: reqwest::Client,
    pub email: String,
    pub token: String,
}

/// The three headers sent with every request.
#[derive(Debug)]
pub struct AuthHeaders {
    /// Value of `X-Auth-Email`.
    pub email: String,
    /// Value of `Authorization`.
    pub authorization: String,
    /// Value of `Content-Type`.
    pub content_type: String,
}

/// The `Authorization` value for a token.
pub open spec fn bearer_of(token: Seq<char>) -> Seq<char> {
    "Bearer "@ + token
}

impl CloudflareClient {
    /// A client for the account with this e-mail and API token.
    pub fn new(email: String, token: String) -> (r: Result<CloudflareClient, CloudflareError>)
        ensures
            r matches Ok(c) ==> c.email@ == email@ && c.token@ == token@,
            r matches Err(e) ==> e is ClientBuild,
    {
        match build_default_client() {
            Ok(client) => Ok(CloudflareClient { client, email, token }),
            Err(_) => Err(CloudflareError::ClientBuild),
        }
    }

    /// The headers that authenticate a request, when the e-mail and the
    /// token can stand in a header.
    pub fn auth_headers(&self) -> (r: Result<AuthHeaders, CloudflareError>)
        ensures
            header_value_ok(self.email@) && header_value_ok(bearer_of(self.token@)) ==> (r matches Ok(
                h,
            ) && h.email@ == self.email@ && h.authorization@ == bearer_of(self.token@)
                && h.content_type@ == "application/json"@),
            !(header_value_ok(self.email@) && header_value_ok(bearer_of(self.token@))) ==> (r matches Err(
                e,
            ) && e is InvalidHeaderValue),
    {
        if !header_value_accepted(self.email.as_str()) {
            return Err(CloudflareError::InvalidHeaderValue);
        }
        let authorization = concat_str("Bearer ", self.token.as_str());
        if !header_value_accepted(authorization.as_str()) {
            return Err(CloudflareError::InvalidHeaderValue);
        }
        Ok(
            AuthHeaders {
                email: owned(self.email.as_str()),
                authorization,
                content_type: owned("application/json"),
            },
        )
    }
}

/// The zone lookup's answer: the id of the first zone found.
pub fn zone_id_from(zone_ids: Vec<String>, zone_name: &str) -> (r: Result<String, CloudflareError>)
    ensures
        zone_ids@.len() > 0 ==> r == Ok::<String, CloudflareError>(zone_ids@[0]),
        zone_ids@.len() == 0 ==> (r matches Err(CloudflareError::ZoneNotFound { zone_name: z })
            && z@ == zone_name@),
{
    if zone_ids.len() > 0 {
        let mut ids = zone_ids;
        let first = ids.swap_remove(0);
        Ok(first)
    } else {
        Err(CloudflareError::ZoneNotFound { zone_name: owned(zone_name) })
    }
}

/// A DNS record as the lookup returns it: its id and its current content.
#[derive(Debug)]
pub struct DnsRecordRef {
    pub id: String,
    pub content: String,
}

/// The record lookup's answer: the first record found.
pub fn dns_record_from(records: Vec<DnsRecordRef>, fqdn: &str, record_type: &str) -> (r: Result<
    DnsRecordRef,
    CloudflareError,
>)
    ensures
        records@.len() > 0 ==> (r matches Ok(d) && d == records@[0]),
        records@.len() == 0 ==> (r matches Err(CloudflareError::RecordNotFound { fqdn: f, record_type: t })
            && f@ == fqdn@ && t@ == record_type@),
{
    if records.len() > 0 {
        let mut rs = records;
        let first = rs.swap_remove(0);
        Ok(first)
    } else {
        Err(
            CloudflareError::RecordNotFound { fqdn: owned(fqdn), record_type: owned(record_type) },
        )
    }
}

/// The body of a record update.
#[derive(Debug)]
pub struct UpdateDnsRecord {
    pub record_type: String,
    pub name: String,
    pub content: String,
    pub ttl: u32,
    pub proxied: bool,
    pub comment: String,
}

/// A record update to send.
#[derive(Debug)]
pub struct UpdatePlan {
    pub url: String,
    pub payload: UpdateDnsRecord,
}

/// The prefix of the comment left on an updated record; the current time follows.
pub open spec fn comment_prefix() -> Seq<char> {
    "modified since "@
}

/// The comment for an update made at the Unix time `(secs, nanos)`: the
/// prefix and that time as RFC 3339 text.
pub open spec fn comment_at(secs: i64, nanos: u32) -> Seq<char> {
    match rfc3339_text(secs, nanos) {
        Some(t) => comment_prefix() + t,
        None => comment_prefix(),
    }
}

/// The comment for an update made at the Unix time `(secs, nanos)`.
pub fn comment_from(secs: i64, nanos: u32) -> (r: String)
    ensures
        r@ == comment_at(secs, nanos),
{
    match timestamp_text(secs, nanos) {
        Some(now) => concat_str("modified since ", now.as_str()),
        None => owned("modified since "),
    }
}

/// Whether `comment` is the comment of an update made now: the prefix and
/// the RFC 3339 text of some clock reading.
pub open spec fn is_current_comment(comment: Seq<char>) -> bool {
    exists|secs: i64, nanos: u32|
        secs >= 0 && nanos < 1_000_000_000 && rfc3339_text(secs, nanos) is Some && comment
            == comment_at(secs, nanos)
}

/// The comment left on an updated record: the prefix and the current time.
pub fn update_comment() -> (r: String)
    ensures
        r@.len() >= comment_prefix().len(),
        r@.subrange(0, comment_prefix().len() as int) == comment_prefix(),
        is_current_comment(r@),
{
    let (secs, nanos) = utc_now_timestamp();
    let r = comment_from(secs, nanos);
    proof {
        reveal_strlit("modified since ");
        let t = rfc3339_text(secs, nanos)->0;
        assert(r@ == comment_prefix() + t);
        assert(r@.subrange(0, comment_prefix().len() as int) =~= comment_prefix());
    }
    r
}

/// The update that points `record` at `ip`, or `None` when the record found
/// at Cloudflare already holds `ip`.
pub fn plan_update(record: &Record, zone_id: &str, found: &DnsRecordRef, ip: &str) -> (r: Option<
    UpdatePlan,
>)
    ensures
        found.content@ == ip@ <==> r is None,
        r matches Some(p) ==> {
            &&& p.url@ == record_update_url_of(zone_id@, found.id@)
            &&& p.payload.record_type@ == record.record_type@
            &&& p.payload.name@ == record.fqdn@
            &&& p.payload.content@ == ip@
            &&& p.payload.ttl == record.ttl
            &&& p.payload.proxied == record.proxied
            &&& p.payload.comment@.len() >= comment_prefix().len()
            &&& p.payload.comment@.subrange(0, comment_prefix().len() as int) == comment_prefix()
            &&& is_current_comment(p.payload.comment@)
        },
{
    if str_eq(found.content.as_str(), ip) {
        return None;
    }
    let payload = UpdateDnsRecord {
        record_type: owned(record.record_type.as_str()),
        name: owned(record.fqdn.as_str()),
        content: owned(ip),
        ttl: record.ttl,
        proxied: record.proxied,
        comment: update_comment(),
    };
    Some(UpdatePlan { url: record_update_url(zone_id, found.id.as_str()), payload })
}

/// The update's answer: the record changed, or the update failed.
pub fn update_outcome(success: bool) -> (r: Result<bool, CloudflareError>)
    ensures
        success ==> r == Ok::<bool, CloudflareError>(true),
        !success ==> (r matches Err(e) && e is UpdateFailed),
{
    if success {
        Ok(true)
    } else {
        Err(CloudflareError::UpdateFailed)
    }
}

/// Where bringing one record up to date stands.
#[derive(Debug)]
pub enum UpsertPhase {
    /// Waiting for the zones that carry the record's zone name.
    FindingZone,
    /// Waiting for the records of that name and type in zone `zone_id`.
    FindingRecord { zone_id: String },
    /// Waiting for Cloudflare's answer to the update.
    Updating,
    /// Finished: `changed` says whether an update was made.
    Done { changed: bool },
}

/// What the caller is to do next to bring the record up to date.
#[derive(Debug)]
pub enum UpsertAction {
    /// GET `url`, and hand the ids of the zones found to `on_zones`.
    LookupZone { url: String },
    /// GET `url`, and hand the records found to `on_records`.
    LookupRecord { url: String },
    /// PUT the plan's payload to its URL, and hand the answer's success flag to `on_updated`.
    Update { plan: UpdatePlan },
    /// Finished: whether the record had to change.
    Finish { changed: bool },
}

/// Bringing one DNS record at Cloudflare to an address: find the zone, find
/// the record in it, and update it only when it holds another address.
pub struct UpsertRun {
    pub record: Record,
    pub ip: String,
    /// The zone that the record's name belongs to.
    pub zone_name: String,
    pub phase: UpsertPhase,
}

impl UpsertRun {
    /// Starts with looking up the record's zone.
    pub fn new(record: Record, ip: String) -> (r: (UpsertRun, UpsertAction))
        ensures
            r.0.record == record,
            r.0.ip == ip,
            r.0.zone_name@ == apex_zone_of(record.fqdn@),
            r.0.phase is FindingZone,
            r.1 matches UpsertAction::LookupZone { url } && url@ == zone_lookup_url_of(
                apex_zone_of(record.fqdn@),
            ),
    {
        let zone_name = apex_zone(record.fqdn.as_str());
        let url = zone_lookup_url(zone_name.as_str());
        (UpsertRun { record, ip, zone_name, phase: UpsertPhase::FindingZone }, UpsertAction::LookupZone { url })
    }

    /// The zones found under the zone name: the first is used, and its record
    /// is looked up by name and type; none is a failure.
    pub fn on_zones(&mut self, zone_ids: Vec<String>) -> (r: Result<UpsertAction, CloudflareError>)
        requires
            old(self).phase is FindingZone,
        ensures
            final(self).record == old(self).record,
            final(self).ip == old(self).ip,
            final(self).zone_name == old(self).zone_name,
            zone_ids@.len() > 0 ==> {
                &&& final(self).phase == (UpsertPhase::FindingRecord { zone_id: zone_ids@[0] })
                &&& r matches Ok(UpsertAction::LookupRecord { url })
                &&& url@ == record_lookup_url_of(
                    zone_ids@[0]@,
                    old(self).record.fqdn@,
                    old(self).record.record_type@,
                )
            },
            zone_ids@.len() == 0 ==> (r matches Err(CloudflareError::ZoneNotFound { zone_name: z })
                && z@ == old(self).zone_name@ && final(self).phase is FindingZone),
    {
        match zone_id_from(zone_ids, self.zone_name.as_str()) {
            Err(e) => Err(e),
            Ok(zone_id) => {
                let url = record_lookup_url(
                    zone_id.as_str(),
                    self.record.fqdn.as_str(),
                    self.record.record_type.as_str(),
                );
                self.phase = UpsertPhase::FindingRecord { zone_id };
                Ok(UpsertAction::LookupRecord { url })
            },
        }
    }

    /// The records found: the first is used. When it already holds the
    /// address the run is finished without a change; otherwise the update is
    /// to be sent. None found is a failure.
    pub fn on_records(&mut self, records: Vec<DnsRecordRef>) -> (r: Result<UpsertAction, CloudflareError>)
        requires
            old(self).phase is FindingRecord,
        ensures
            final(self).record == old(self).record,
            final(self).ip == old(self).ip,
            final(self).zone_name == old(self).zone_name,
            records@.len() == 0 ==> (r matches Err(
                CloudflareError::RecordNotFound { fqdn: f, record_type: t },
            ) && f@ == old(self).record.fqdn@ && t@ == old(self).record.record_type@
                && final(self).phase == old(self).phase),
            records@.len() > 0 && records@[0].content@ == old(self).ip@ ==> (r matches Ok(
                UpsertAction::Finish { changed: false },
            ) && final(self).phase == (UpsertPhase::Done { changed: false })),
            records@.len() > 0 && records@[0].content@ != old(self).ip@ ==> ({
                let zone_id = old(self).phase->FindingRecord_zone_id;
                let rec = old(self).record;
                &&& final(self).phase is Updating
                &&& r matches Ok(UpsertAction::Update { plan })
                &&& plan.url@ == record_update_url_of(zone_id@, records@[0].id@)
                &&& plan.payload.record_type@ == rec.record_type@
                &&& plan.payload.name@ == rec.fqdn@
                &&& plan.payload.content@ == old(self).ip@
                &&& plan.payload.ttl == rec.ttl
                &&& plan.payload.proxied == rec.proxied
                &&& plan.payload.comment@.len() >= comment_prefix().len()
                &&& plan.payload.comment@.subrange(0, comment_prefix().len() as int)
                    == comment_prefix()
                &&& is_current_comment(plan.payload.comment@)
            }),
    {
        let zone_id = match &self.phase {
            UpsertPhase::FindingRecord { zone_id } => zone_id.clone(),
            _ => String::new(),
        };
        let found = match dns_record_from(
            records,
            self.record.fqdn.as_str(),
            self.record.record_type.as_str(),
        ) {
            Err(e) => return Err(e),
            Ok(d) => d,
        };
        match plan_update(&self.record, zone_id.as_str(), &found, self.ip.as_str()) {
            None => {
                self.phase = UpsertPhase::Done { changed: false };
                Ok(UpsertAction::Finish { changed: false })
            },
            Some(plan) => {
                self.phase = UpsertPhase::Updating;
                Ok(UpsertAction::Update { plan })
            },
        }
    }

    /// Cloudflare answered the update: finished with a change when it
    /// reports success, a failure otherwise.
    pub fn on_updated(&mut self, success: bool) -> (r: Result<UpsertAction, CloudflareError>)
        requires
            old(self).phase is Updating,
        ensures
            final(self).record == old(self).record,
            final(self).ip == old(self).ip,
            final(self).zone_name == old(self).zone_name,
            success ==> (r matches Ok(UpsertAction::Finish { changed: true })
                && final(self).phase == (UpsertPhase::Done { changed: true })),
            !success ==> (r matches Err(e) && e is UpdateFailed && final(self).phase
                is Updating),
    {
        match update_outcome(success) {
            Ok(_) => {
                self.phase = UpsertPhase::Done { changed: true };
                Ok(UpsertAction::Finish { changed: true })
            },
            Err(e) => Err(e),
        }
    }
}

} // verus!

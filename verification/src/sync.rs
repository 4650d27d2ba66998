//! One synchronisation run, as a state machine: the caller performs each
//! action (address lookups, database reads and writes, provider updates) and
//! feeds back what came of it; the run decides what happens next.
use vstd::prelude::*;
use crate::config::{AppConfig, DdnsProvider};
use crate::models::{Record, SyncSnapshot};
use crate::text::{
    ascii_lower, concat_str, decimal, eq_ignore_ascii_case, owned, str_eq, u64_to_decimal,
};

verus! {

broadcast use vstd::string::group_string_axioms;

/// Whether a provider entry names Cloudflare (in any ASCII case).
pub open spec fn is_cloudflare(p: DdnsProvider) -> bool {
    ascii_lower(p.kind@) == "cloudflare"@
}

/// The first provider entry that names Cloudflare.
pub fn find_cloudflare_provider(providers: &Vec<DdnsProvider>) -> (r: Option<usize>)
    ensures
        match r {
            Some(i) => i < providers@.len() && is_cloudflare(providers@[i as int]) && forall|k: int|
                0 <= k < i ==> !is_cloudflare(#[trigger] providers@[k]),
            None => forall|k: int| 0 <= k < providers@.len() ==> !is_cloudflare(#[trigger] providers@[k]),
        },
{
    let mut i: usize = 0;
    while i < providers.len()
        invariant
            i <= providers@.len(),
            forall|k: int| 0 <= k < i ==> !is_cloudflare(#[trigger] providers@[k]),
        decreases providers.len() - i,
    {
        proof {
            reveal_strlit("cloudflare");
        }
        let hit = eq_ignore_ascii_case(providers[i].kind.as_str(), "cloudflare");
        proof {
            assert(ascii_lower("cloudflare"@) =~= "cloudflare"@);
        }
        if hit {
            return Some(i);
        }
        i = i + 1;
    }
    None
}

/// Why a run could not go ahead.
#[derive(Debug, Clone, Copy, PartialEq, Eq, Structural)]
pub enum SyncError {
    /// No provider entry names Cloudflare.
    ProviderNotConfigured,
}

impl SyncError {
    /// The message that explains the failure.
    pub fn message(&self) -> (r: String)
        ensures
            r@ == "cloudflare provider not configured"@,
    {
        owned("cloudflare provider not configured")
    }
}

/// The state key under which the last address of one record is kept: the
/// record's type and name, so that every record is compared with its own
/// stored address.
pub open spec fn state_key_of(record_type: Seq<char>, fqdn: Seq<char>) -> Seq<char> {
    "last_public_ip:"@ + record_type + ":"@ + fqdn
}

/// Two records get the same state key only when they have the same type and
/// name, when neither type holds a colon (the types are `A` and `AAAA`).
pub proof fn lemma_state_keys_distinct(t1: Seq<char>, f1: Seq<char>, t2: Seq<char>, f2: Seq<char>)
    requires
        !t1.contains(':'),
        !t2.contains(':'),
        state_key_of(t1, f1) == state_key_of(t2, f2),
    ensures
        t1 == t2,
        f1 == f2,
{
    reveal_strlit("last_public_ip:");
    reveal_strlit(":");
    let p = "last_public_ip:"@;
    let k1 = state_key_of(t1, f1);
    let k2 = state_key_of(t2, f2);
    assert(p.len() == 15);
    assert(k1 == p + t1 + seq![':'] + f1) by {
        assert(":"@ =~= seq![':']);
    }
    assert(k2 == p + t2 + seq![':'] + f2) by {
        assert(":"@ =~= seq![':']);
    }
    if t1.len() < t2.len() {
        let i: int = 15 + t1.len() as int;
        assert(k1[i] == ':');
        assert(k2[i] == t2[t1.len() as int]);
        assert(t2.contains(t2[t1.len() as int]));
        assert(false);
    } else if t2.len() < t1.len() {
        let i: int = 15 + t2.len() as int;
        assert(k2[i] == ':');
        assert(k1[i] == t1[t2.len() as int]);
        assert(t1.contains(t1[t2.len() as int]));
        assert(false);
    }
    assert(t1 =~= k1.subrange(15, 15 + t1.len() as int));
    assert(t2 =~= k2.subrange(15, 15 + t2.len() as int));
    assert(f1 =~= k1.subrange(16 + t1.len() as int, k1.len() as int));
    assert(f2 =~= k2.subrange(16 + t2.len() as int, k2.len() as int));
}

/// The state key under which the last address of any record is kept.
pub open spec fn last_ip_key() -> Seq<char> {
    "last_public_ip"@
}

/// The message of a completed run.
pub open spec fn sync_message(changed: nat, skipped: nat) -> Seq<char> {
    "sync completed, changed records: "@ + decimal(changed) + ", skipped local unchanged: "@
        + decimal(skipped)
}

/// The message, and history note, of a run that dynamic DNS being off stops.
pub open spec fn disabled_message() -> Seq<char> {
    "ddns disabled"@
}

/// The message, and history note, of a run that finds no records.
pub open spec fn no_records_message() -> Seq<char> {
    "no records configured"@
}

/// What became of one record in a run: the address looked up, the address
/// stored before, and whether the provider's entry changed.
pub type RecordOutcome = (Seq<char>, Option<Seq<char>>, bool);

/// The record was skipped: the stored address already matched.
pub open spec fn is_skip(o: RecordOutcome) -> bool {
    o.1 == Some(o.0)
}

/// The number of skipped records.
pub open spec fn count_skipped(h: Seq<RecordOutcome>) -> nat
    decreases h.len(),
{
    if h.len() == 0 {
        0
    } else {
        count_skipped(h.drop_last()) + if is_skip(h.last()) {
            1nat
        } else {
            0nat
        }
    }
}

/// The number of records whose provider entry changed.
pub open spec fn count_changed(h: Seq<RecordOutcome>) -> nat
    decreases h.len(),
{
    if h.len() == 0 {
        0
    } else {
        count_changed(h.drop_last()) + if !is_skip(h.last()) && h.last().2 {
            1nat
        } else {
            0nat
        }
    }
}

/// The address of the last record that was not skipped.
pub open spec fn last_taken(h: Seq<RecordOutcome>) -> Option<Seq<char>>
    decreases h.len(),
{
    if h.len() == 0 {
        None
    } else if !is_skip(h.last()) {
        Some(h.last().0)
    } else {
        last_taken(h.drop_last())
    }
}

/// The view of an optional string.
pub open spec fn opt_string_view(o: Option<String>) -> Option<Seq<char>> {
    match o {
        Some(s) => Some(s@),
        None => None,
    }
}

/// No more records are counted than there are.
pub proof fn lemma_counts_bounded(h: Seq<RecordOutcome>)
    ensures
        count_skipped(h) + count_changed(h) <= h.len(),
    decreases h.len(),
{
    if h.len() > 0 {
        lemma_counts_bounded(h.drop_last());
    }
}

/// Where a run stands.
#[derive(Debug)]
pub enum SyncPhase {
    /// Waiting for the public address of the current record's type.
    FetchingIp,
    /// Waiting for the address stored for the current record's type.
    ReadingState { ip: String },
    /// Waiting for the provider to be brought up to date.
    Upserting { ip: String },
    /// Waiting for the address of the current record's type to be stored.
    WritingState { ip: String },
    /// Waiting for the last address to be stored under the general key.
    WritingLastIp,
    /// Waiting for the history entry to be written.
    WritingHistory,
    /// Finished.
    Done,
}

/// What the caller is to do next.
#[derive(Debug)]
pub enum SyncAction {
    /// Look up the public address for `records[record]`'s type.
    FetchIp { record: usize },
    /// Read the stored value under `key`.
    ReadState { key: String },
    /// Point `records[record]` at `ip` at the provider; report whether it changed.
    Upsert { record: usize, ip: String },
    /// Store `value` under `key`.
    WriteState { key: String, value: String },
    /// Append an entry to the sync history.
    AddHistory { status: String, message: String, ip: Option<String> },
    /// The run is over: count it with `changed` changed records, and answer `message`.
    Finish { message: String, changed: u64 },
}

/// The bookkeeping of a run.
struct RunState {
    pub records: Vec<Record>,
    /// The record being worked on.
    pub next: usize,
    /// Records whose provider entry was changed.
    pub changed: u64,
    /// Records skipped because the stored address already matched.
    pub skipped: u64,
    /// The address of the last record that was not skipped.
    pub ip_for_state: Option<String>,
    pub phase: SyncPhase,
    /// What became of each record handled so far.
    pub outcomes: Ghost<Seq<RecordOutcome>>,
}

/// The phase once every record is handled.
pub open spec fn finishing_phase(ip_for_state: Option<String>) -> SyncPhase {
    if ip_for_state is Some {
        SyncPhase::WritingLastIp
    } else {
        SyncPhase::WritingHistory
    }
}

/// The phase after the record before `next_after` is handled.
pub open spec fn phase_after(next_after: int, len: int, ip_for_state: Option<String>) -> SyncPhase {
    if next_after < len {
        SyncPhase::FetchingIp
    } else {
        finishing_phase(ip_for_state)
    }
}

impl RunState {
    /// A consistent stand-in, held while a step works on the real state.
    fn placeholder() -> (r: RunState)
        ensures
            r.wf(),
    {
        let mut records: Vec<Record> = Vec::new();
        records.push(
            Record {
                id: 0,
                fqdn: String::new(),
                record_type: String::new(),
                proxied: false,
                ttl: 0,
            },
        );
        RunState::new(records)
    }

    /// The run's bookkeeping as its contracts speak of it.
    spec fn as_view(&self) -> SyncRunView {
        SyncRunView {
            records: self.records@,
            next: self.next as nat,
            changed: self.changed as nat,
            skipped: self.skipped as nat,
            ip_for_state: self.ip_for_state,
            phase: self.phase,
            outcomes: self.outcomes@,
        }
    }

    /// The run's bookkeeping is consistent (`SyncRunView::wf`).
    spec fn wf(&self) -> bool {
        self.as_view().wf()
    }

    /// A fresh run over `records`, starting with the first.
    fn new(records: Vec<Record>) -> (run: RunState)
        requires
            records@.len() > 0,
        ensures
            run.wf(),
            run.records@ == records@,
            run.next == 0,
            run.changed == 0,
            run.skipped == 0,
            run.ip_for_state is None,
            run.phase is FetchingIp,
            run.outcomes@ == Seq::<RecordOutcome>::empty(),
    {
        RunState {
            records,
            next: 0,
            changed: 0,
            skipped: 0,
            ip_for_state: None,
            phase: SyncPhase::FetchingIp,
            outcomes: Ghost(Seq::empty()),
        }
    }

    /// The state key of the current record's type.
    fn current_key(&self) -> (k: String)
        requires
            self.next < self.records@.len(),
        ensures
            k@ == state_key_of(
                self.records@[self.next as int].record_type@,
                self.records@[self.next as int].fqdn@,
            ),
    {
        let rec = &self.records[self.next];
        let mut k = concat_str("last_public_ip:", rec.record_type.as_str());
        k.append(":");
        k.append(rec.fqdn.as_str());
        k
    }

    /// The completion message for the counts so far.
    fn message(&self) -> (m: String)
        ensures
            m@ == sync_message(self.changed as nat, self.skipped as nat),
    {
        let mut m = owned("sync completed, changed records: ");
        m.append(u64_to_decimal(self.changed).as_str());
        m.append(", skipped local unchanged: ");
        m.append(u64_to_decimal(self.skipped).as_str());
        m
    }

    /// What the caller is to do next.
    fn action(&self) -> (a: SyncAction)
        requires
            self.wf(),
        ensures
            action_for(self.as_view(), a),
    {
        match &self.phase {
            SyncPhase::FetchingIp => SyncAction::FetchIp { record: self.next },
            SyncPhase::ReadingState { .. } => SyncAction::ReadState { key: self.current_key() },
            SyncPhase::Upserting { ip } => SyncAction::Upsert { record: self.next, ip: ip.clone() },
            SyncPhase::WritingState { ip } => SyncAction::WriteState {
                key: self.current_key(),
                value: ip.clone(),
            },
            SyncPhase::WritingLastIp => {
                let value = match &self.ip_for_state {
                    Some(s) => s.clone(),
                    None => String::new(),
                };
                SyncAction::WriteState { key: owned("last_public_ip"), value }
            },
            SyncPhase::WritingHistory => {
                let ip = match &self.ip_for_state {
                    Some(s) => Some(s.clone()),
                    None => None,
                };
                SyncAction::AddHistory { status: owned("ok"), message: self.message(), ip }
            },
            SyncPhase::Done => SyncAction::Finish { message: self.message(), changed: self.changed },
        }
    }

    /// Moves on to the record after the current one, or to finishing.
    fn advance(&mut self)
        requires
            old(self).next < old(self).records@.len(),
            old(self).records@.len() > 0,
            old(self).outcomes@.len() == old(self).next + 1,
            old(self).skipped == count_skipped(old(self).outcomes@),
            old(self).changed == count_changed(old(self).outcomes@),
            opt_string_view(old(self).ip_for_state) == last_taken(old(self).outcomes@),
        ensures
            final(self).outcomes == old(self).outcomes,
            final(self).next == old(self).next + 1,
            final(self).records@ == old(self).records@,
            final(self).changed == old(self).changed,
            final(self).skipped == old(self).skipped,
            final(self).ip_for_state == old(self).ip_for_state,
            final(self).phase == phase_after(
                old(self).next + 1,
                old(self).records@.len() as int,
                old(self).ip_for_state,
            ),
            final(self).wf(),
    {
        let n = self.records.len();
        self.next = self.next + 1;
        if self.next < n {
            self.phase = SyncPhase::FetchingIp;
        } else if self.ip_for_state.is_some() {
            self.phase = SyncPhase::WritingLastIp;
        } else {
            self.phase = SyncPhase::WritingHistory;
        }
    }

    /// The public address for the current record's type came back.
    fn on_ip(&mut self, ip: String)
        requires
            old(self).wf(),
            old(self).phase is FetchingIp,
        ensures
            final(self).wf(),
            ip_step(old(self).as_view(), final(self).as_view(), ip),
    {
        self.phase = SyncPhase::ReadingState { ip };
    }

    /// The stored address of the current record's type came back. When it
    /// equals the new address the record is skipped; otherwise the new
    /// address is taken and the provider is to be updated.
    fn on_previous(&mut self, previous: Option<String>)
        requires
            old(self).wf(),
            old(self).phase is ReadingState,
        ensures
            final(self).wf(),
            previous_step(old(self).as_view(), final(self).as_view(), previous),
    {
        let ip = match &self.phase {
            SyncPhase::ReadingState { ip } => ip.clone(),
            _ => String::new(),
        };
        let same = match &previous {
            Some(p) => str_eq(p.as_str(), ip.as_str()),
            None => false,
        };
        let n = self.records.len();
        assert(n <= u64::MAX);
        let ghost h = self.outcomes@;
        let ghost o: RecordOutcome = (ip@, opt_string_view(previous), false);
        proof {
            lemma_counts_bounded(h);
            assert(h.push(o).drop_last() =~= h);
            assert(same == is_skip(o));
        }
        self.outcomes = Ghost(h.push(o));
        if same {
            self.skipped = self.skipped + 1;
            self.advance();
        } else {
            self.ip_for_state = Some(ip.clone());
            self.phase = SyncPhase::Upserting { ip };
        }
    }

    /// The provider update finished; `changed` says whether the provider's
    /// entry had to change.
    fn on_upserted(&mut self, changed: bool)
        requires
            old(self).wf(),
            old(self).phase is Upserting,
        ensures
            final(self).wf(),
            upserted_step(old(self).as_view(), final(self).as_view(), changed),
    {
        let ip = match &self.phase {
            SyncPhase::Upserting { ip } => ip.clone(),
            _ => String::new(),
        };
        let n = self.records.len();
        assert(n <= u64::MAX);
        let ghost h = self.outcomes@;
        let ghost last = h.last();
        let ghost h2 = h.update(h.len() - 1, (last.0, last.1, changed));
        proof {
            lemma_counts_bounded(h.drop_last());
            assert(h2.drop_last() =~= h.drop_last());
            assert(h2.last() == (last.0, last.1, changed));
        }
        self.outcomes = Ghost(h2);
        if changed {
            self.changed = self.changed + 1;
        }
        self.phase = SyncPhase::WritingState { ip };
    }

    /// The requested state write or history entry was made.
    fn on_written(&mut self)
        requires
            old(self).wf(),
            old(self).phase is WritingState || old(self).phase is WritingLastIp
                || old(self).phase is WritingHistory,
        ensures
            final(self).wf(),
            written_step(old(self).as_view(), final(self).as_view()),
    {
        match self.phase {
            SyncPhase::WritingState { .. } => {
                self.advance();
            },
            SyncPhase::WritingLastIp => {
                self.phase = SyncPhase::WritingHistory;
            },
            _ => {
                self.phase = SyncPhase::Done;
            },
        }
    }
}

/// The state of a run, as its contracts speak of it.
pub ghost struct SyncRunView {
    pub records: Seq<Record>,
    /// The record being worked on.
    pub next: nat,
    /// Records whose provider entry was changed.
    pub changed: nat,
    /// Records skipped because the stored address already matched.
    pub skipped: nat,
    /// The address of the last record that was not skipped.
    pub ip_for_state: Option<String>,
    pub phase: SyncPhase,
    /// What became of each record handled so far.
    pub outcomes: Seq<RecordOutcome>,
}

impl SyncRunView {
    /// The run's bookkeeping is consistent: the current record exists while
    /// records are handled, the counts are those of the outcomes so far, the
    /// last address is that of the last record not skipped, and the general
    /// key is written only when some address was taken.
    pub open spec fn wf(self) -> bool {
        let h = self.outcomes;
        &&& self.records.len() > 0
        &&& self.next <= self.records.len()
        &&& self.skipped == count_skipped(h)
        &&& self.changed == count_changed(h)
        &&& opt_string_view(self.ip_for_state) == last_taken(h)
        &&& match self.phase {
            SyncPhase::FetchingIp => self.next < self.records.len() && h.len() == self.next,
            SyncPhase::ReadingState { .. } => self.next < self.records.len() && h.len() == self.next,
            SyncPhase::Upserting { ip } => self.next < self.records.len() && h.len() == self.next + 1
                && !is_skip(h.last()) && !h.last().2 && h.last().0 == ip@,
            SyncPhase::WritingState { ip } => self.next < self.records.len() && h.len() == self.next
                + 1 && !is_skip(h.last()) && h.last().0 == ip@,
            SyncPhase::WritingLastIp => self.next == self.records.len() && h.len() == self.next
                && self.ip_for_state is Some,
            SyncPhase::WritingHistory => self.next == self.records.len() && h.len() == self.next,
            SyncPhase::Done => self.next == self.records.len() && h.len() == self.next,
        }
    }
}

/// What a run in state `v` asks its caller to do next: look up the current
/// record's address, read or write its stored address, update the provider,
/// store the last address under the general key, write the "ok" history
/// entry, or finish with the counts.
pub open spec fn action_for(v: SyncRunView, a: SyncAction) -> bool {
    &&& (a is AddHistory <==> v.phase is WritingHistory)
    &&& (a is Finish <==> v.phase is Done)
    &&& match v.phase {
        SyncPhase::FetchingIp => a matches SyncAction::FetchIp { record } && record == v.next,
        SyncPhase::ReadingState { .. } => a matches SyncAction::ReadState { key } && key@
            == state_key_of(v.records[v.next as int].record_type@, v.records[v.next as int].fqdn@),
        SyncPhase::Upserting { ip } => a matches SyncAction::Upsert { record, ip: i } && record
            == v.next && i@ == ip@,
        SyncPhase::WritingState { ip } => a matches SyncAction::WriteState { key, value } && key@
            == state_key_of(v.records[v.next as int].record_type@, v.records[v.next as int].fqdn@)
            && value@ == ip@,
        SyncPhase::WritingLastIp => a matches SyncAction::WriteState { key, value } && key@
            == last_ip_key() && value@ == v.ip_for_state->0@,
        SyncPhase::WritingHistory => a matches SyncAction::AddHistory { status, message, ip }
            && status@ == "ok"@ && message@ == sync_message(v.changed, v.skipped) && (match v.ip_for_state {
            Some(s) => ip matches Some(t) && t@ == s@,
            None => ip is None,
        }),
        SyncPhase::Done => a matches SyncAction::Finish { message, changed } && message@
            == sync_message(v.changed, v.skipped) && changed == v.changed,
    }
}

/// The step from `s` to `t` when the public address `ip` came back.
pub open spec fn ip_step(s: SyncRunView, t: SyncRunView, ip: String) -> bool {
    &&& s.phase is FetchingIp
    &&& t.phase == (SyncPhase::ReadingState { ip })
    &&& t.outcomes == s.outcomes
    &&& t.records == s.records
    &&& t.next == s.next
    &&& t.changed == s.changed
    &&& t.skipped == s.skipped
    &&& t.ip_for_state == s.ip_for_state
}

/// The step from `s` to `t` when the stored address `previous` came back:
/// the record is skipped when it equals the looked-up address, and the
/// provider is to be updated otherwise.
pub open spec fn previous_step(s: SyncRunView, t: SyncRunView, previous: Option<String>) -> bool {
    let ip = s.phase->ReadingState_ip;
    &&& s.phase is ReadingState
    &&& t.records == s.records
    &&& t.changed == s.changed
    &&& t.outcomes == s.outcomes.push((ip@, opt_string_view(previous), false))
    &&& if previous matches Some(p) && p@ == ip@ {
        &&& t.skipped == s.skipped + 1
        &&& t.next == s.next + 1
        &&& t.ip_for_state == s.ip_for_state
        &&& t.phase == phase_after((s.next + 1) as int, s.records.len() as int, s.ip_for_state)
    } else {
        &&& t.skipped == s.skipped
        &&& t.next == s.next
        &&& t.ip_for_state == Some(ip)
        &&& t.phase == (SyncPhase::Upserting { ip })
    }
}

/// The step from `s` to `t` when the provider update finished, `changed`
/// saying whether the provider's entry had to change.
pub open spec fn upserted_step(s: SyncRunView, t: SyncRunView, changed: bool) -> bool {
    &&& s.phase is Upserting
    &&& t.records == s.records
    &&& t.next == s.next
    &&& t.skipped == s.skipped
    &&& t.ip_for_state == s.ip_for_state
    &&& t.changed == s.changed + (if changed { 1int } else { 0int })
    &&& t.phase == (SyncPhase::WritingState { ip: s.phase->Upserting_ip })
    &&& t.outcomes == s.outcomes.update(
        s.outcomes.len() - 1,
        (s.outcomes.last().0, s.outcomes.last().1, changed),
    )
}

/// The step from `s` to `t` when the requested write was made: after the
/// current record's address, on to the next record or to finishing; after
/// the last address, to the history entry; after the history entry, done.
pub open spec fn written_step(s: SyncRunView, t: SyncRunView) -> bool {
    &&& s.phase is WritingState || s.phase is WritingLastIp || s.phase is WritingHistory
    &&& t.records == s.records
    &&& t.changed == s.changed
    &&& t.skipped == s.skipped
    &&& t.ip_for_state == s.ip_for_state
    &&& t.outcomes == s.outcomes
    &&& s.phase is WritingState ==> t.next == s.next + 1 && t.phase == phase_after(
        (s.next + 1) as int,
        s.records.len() as int,
        s.ip_for_state,
    )
    &&& s.phase is WritingLastIp ==> t.next == s.next && t.phase == SyncPhase::WritingHistory
    &&& s.phase is WritingHistory ==> t.next == s.next && t.phase == SyncPhase::Done
}

/// A record is skipped exactly when the address stored for it equals the
/// one just looked up: it counts as skipped and the run moves past it
/// without asking the provider; otherwise the provider is asked to point it
/// at the looked-up address, and nothing is counted yet.
pub proof fn lemma_skip_exactly_when_stored_matches(s: SyncRunView, t: SyncRunView, previous: Option<String>)
    requires
        s.wf(),
        previous_step(s, t, previous),
    ensures
        (previous matches Some(p) && p@ == s.phase->ReadingState_ip@) ==> t.skipped == s.skipped + 1
            && t.changed == s.changed && t.next == s.next + 1 && !(t.phase is Upserting),
        !(previous matches Some(p) && p@ == s.phase->ReadingState_ip@) ==> t.skipped == s.skipped
            && t.changed == s.changed && t.next == s.next && t.phase == (SyncPhase::Upserting {
            ip: s.phase->ReadingState_ip,
        }),
{
}

/// Whether some step of a run leads from `s` to `t`.
pub open spec fn is_step(s: SyncRunView, t: SyncRunView) -> bool {
    ||| exists|ip: String| #[trigger] ip_step(s, t, ip)
    ||| exists|previous: Option<String>| #[trigger] previous_step(s, t, previous)
    ||| exists|changed: bool| #[trigger] upserted_step(s, t, changed)
    ||| written_step(s, t)
}

/// Whether `states` are the successive states of a run, each reached from
/// the one before by a step.
pub open spec fn is_run_trace(states: Seq<SyncRunView>) -> bool {
    &&& states.len() > 0
    &&& forall|i: int| 0 <= i < states.len() - 1 ==> is_step(#[trigger] states[i], states[i + 1])
}

/// A run over the stored records. Its bookkeeping is private and always
/// consistent (`SyncRunView::wf`): it changes only through the steps below.
pub struct SyncRun {
    state: RunState,
}

impl View for SyncRun {
    type V = SyncRunView;

    closed spec fn view(&self) -> SyncRunView {
        self.state.as_view()
    }
}

impl SyncRun {
    /// Every run is consistent.
    #[verifier::type_invariant]
    spec fn consistent(self) -> bool {
        self.state.wf()
    }

    /// A fresh run over `records`, starting with the first.
    pub fn new(records: Vec<Record>) -> (run: SyncRun)
        requires
            records@.len() > 0,
        ensures
            run@.wf(),
            run@.records == records@,
            run@.next == 0,
            run@.changed == 0,
            run@.skipped == 0,
            run@.ip_for_state is None,
            run@.phase is FetchingIp,
            run@.outcomes == Seq::<RecordOutcome>::empty(),
    {
        SyncRun { state: RunState::new(records) }
    }

    /// The completion message for the counts so far.
    pub fn message(&self) -> (m: String)
        ensures
            m@ == sync_message(self@.changed as nat, self@.skipped as nat),
    {
        proof {
            use_type_invariant(self);
        }
        self.state.message()
    }

    /// What the caller is to do next.
    pub fn action(&self) -> (a: SyncAction)
        ensures
            action_for(self@, a),
    {
        proof {
            use_type_invariant(self);
        }
        self.state.action()
    }

    /// The public address for the current record's type came back.
    pub fn on_ip(&mut self, ip: String)
        requires
            old(self)@.phase is FetchingIp,
        ensures
            final(self)@.wf(),
            ip_step(old(self)@, final(self)@, ip),
    {
        proof {
            use_type_invariant(&*self);
        }
        let mut st = RunState::placeholder();
        std::mem::swap(&mut st, &mut self.state);
        st.on_ip(ip);
        self.state = st;
        proof {
            use_type_invariant(&*self);
        }
    }

    /// The stored address of the current record's type came back. When it
    /// equals the new address the record is skipped; otherwise the new
    /// address is taken and the provider is to be updated.
    pub fn on_previous(&mut self, previous: Option<String>)
        requires
            old(self)@.phase is ReadingState,
        ensures
            final(self)@.wf(),
            previous_step(old(self)@, final(self)@, previous),
    {
        proof {
            use_type_invariant(&*self);
        }
        let mut st = RunState::placeholder();
        std::mem::swap(&mut st, &mut self.state);
        st.on_previous(previous);
        self.state = st;
        proof {
            use_type_invariant(&*self);
        }
    }

    /// The provider update finished; `changed` says whether the provider's
    /// entry had to change.
    pub fn on_upserted(&mut self, changed: bool)
        requires
            old(self)@.phase is Upserting,
        ensures
            final(self)@.wf(),
            upserted_step(old(self)@, final(self)@, changed),
    {
        proof {
            use_type_invariant(&*self);
        }
        let mut st = RunState::placeholder();
        std::mem::swap(&mut st, &mut self.state);
        st.on_upserted(changed);
        self.state = st;
        proof {
            use_type_invariant(&*self);
        }
    }

    /// The requested state write or history entry was made.
    pub fn on_written(&mut self)
        requires
            old(self)@.phase is WritingState || old(self)@.phase is WritingLastIp
                || old(self)@.phase is WritingHistory,
        ensures
            final(self)@.wf(),
            written_step(old(self)@, final(self)@),
    {
        proof {
            use_type_invariant(&*self);
        }
        let mut st = RunState::placeholder();
        std::mem::swap(&mut st, &mut self.state);
        st.on_written();
        self.state = st;
        proof {
            use_type_invariant(&*self);
        }
    }

    /// The index of the record being worked on.
    pub fn next(&self) -> (r: usize)
        ensures
            r == self@.next,
    {
        self.state.next
    }

    /// The number of records whose provider entry changed so far.
    pub fn changed(&self) -> (r: u64)
        ensures
            r == self@.changed,
    {
        self.state.changed
    }

    /// The number of records skipped so far.
    pub fn skipped(&self) -> (r: u64)
        ensures
            r == self@.skipped,
    {
        self.state.skipped
    }

    /// The number of records of the run.
    pub fn record_count(&self) -> (r: usize)
        ensures
            r == self@.records.len(),
    {
        self.state.records.len()
    }

    /// The record at `index`.
    pub fn record(&self, index: usize) -> (r: &Record)
        requires
            index < self@.records.len(),
        ensures
            *r == self@.records[index as int],
    {
        &self.state.records[index]
    }
}

/// A finished run has an outcome for every record; it counts as skipped
/// exactly the records whose stored address matched the looked-up one, as
/// changed exactly the others whose provider entry changed, and keeps as the
/// last address the one looked up for the last record not skipped.
pub proof fn lemma_finished_run_counts(run: SyncRunView)
    requires
        run.wf(),
        run.phase is Done,
    ensures
        run.next == run.records.len(),
        run.outcomes.len() == run.records.len(),
        run.skipped == count_skipped(run.outcomes),
        run.changed == count_changed(run.outcomes),
        opt_string_view(run.ip_for_state) == last_taken(run.outcomes),
        run.changed + run.skipped <= run.records.len(),
{
    lemma_counts_bounded(run.outcomes);
}

/// The "ok" history entry and the counts are asked for only once every
/// record has an outcome.
pub proof fn lemma_ok_entry_after_every_record(run: SyncRunView)
    requires
        run.wf(),
        run.phase is WritingHistory || run.phase is Done,
    ensures
        run.next == run.records.len(),
        run.outcomes.len() == run.records.len(),
{
}

/// A run that stops before it is done (its caller gives up on a failed
/// action) never asks for the counts to be moved, and asks for the "ok"
/// history entry at most in its last state, the write that failed: so it
/// adds no "ok" entry and moves no counter.
pub proof fn lemma_stopped_run_adds_no_ok_entry(states: Seq<SyncRunView>, actions: Seq<SyncAction>)
    requires
        is_run_trace(states),
        !(states.last().phase is Done),
        actions.len() == states.len(),
        forall|i: int| 0 <= i < states.len() ==> action_for(#[trigger] states[i], actions[i]),
    ensures
        forall|i: int| 0 <= i < states.len() ==> !(#[trigger] actions[i] is Finish),
        forall|i: int| 0 <= i < states.len() - 1 ==> !(#[trigger] actions[i] is AddHistory),
{
    assert forall|i: int| 0 <= i < states.len() implies !(#[trigger] states[i].phase is Done)
        && (i < states.len() - 1 ==> !(states[i].phase is WritingHistory)) by {
        if i < states.len() - 1 {
            assert(is_step(states[i], states[i + 1]));
            if states[i].phase is WritingHistory && i + 1 < states.len() - 1 {
                assert(is_step(states[i + 1], states[i + 2]));
            }
        }
    }
    assert forall|i: int| 0 <= i < states.len() implies !(#[trigger] actions[i] is Finish) by {
        assert(action_for(states[i], actions[i]));
    }
    assert forall|i: int| 0 <= i < states.len() - 1 implies !(#[trigger] actions[i] is AddHistory) by {
        assert(action_for(states[i], actions[i]));
    }
}

/// The history entry of a run that had nothing to do, whose message is
/// also the run's answer.
#[derive(Debug)]
pub struct SkipNote {
    pub status: String,
    pub message: String,
    /// The address noted with the entry: none.
    pub ip: Option<String>,
}

/// The entry of a skipped run with this message: status "skipped", no address.
pub open spec fn is_skip_note(n: SkipNote, message: Seq<char>) -> bool {
    n.status@ == "skipped"@ && n.message@ == message && n.ip is None
}

/// The note of a skipped run with this message.
fn skip_note(message: &str) -> (n: SkipNote)
    ensures
        is_skip_note(n, message@),
{
    SkipNote { status: owned("skipped"), message: owned(message), ip: None }
}

/// How a run begins once the stored records are known.
pub enum SyncStart {
    /// Nothing to do: write `note` to the history and answer its message.
    Skipped(SkipNote),
    /// The run cannot go ahead.
    Failed(SyncError),
    /// Update the records through the provider entry `provider`.
    Run { run: SyncRun, provider: usize },
}

/// Whether a run stops before reading any record: `Some` with the history
/// entry to write and answer when dynamic DNS is off.
pub fn disabled_notice(config: &AppConfig) -> (r: Option<SkipNote>)
    ensures
        config.ddns.enabled <==> r is None,
        r matches Some(n) ==> is_skip_note(n, disabled_message()),
{
    if config.ddns.enabled {
        None
    } else {
        Some(skip_note("ddns disabled"))
    }
}

/// How a run goes on over the stored `records`.
pub fn start_sync(config: &AppConfig, records: Vec<Record>) -> (r: SyncStart)
    ensures
        records@.len() == 0 ==> (r matches SyncStart::Skipped(n) && is_skip_note(
            n,
            no_records_message(),
        )),
        records@.len() > 0 && (forall|k: int|
            0 <= k < config.ddns.providers@.len() ==> !is_cloudflare(
                #[trigger] config.ddns.providers@[k],
            )) ==> r == SyncStart::Failed(SyncError::ProviderNotConfigured),
        r matches SyncStart::Run { run, provider } ==> {
            &&& records@.len() > 0
            &&& run@.wf()
            &&& run@.records == records@
            &&& run@.next == 0 && run@.changed == 0 && run@.skipped == 0
            &&& run@.ip_for_state is None && run@.phase is FetchingIp
            &&& provider < config.ddns.providers@.len()
            &&& is_cloudflare(config.ddns.providers@[provider as int])
            &&& forall|k: int| 0 <= k < provider ==> !is_cloudflare(#[trigger] config.ddns.providers@[k])
        },
        records@.len() > 0 ==> !(r is Skipped),
        r is Failed ==> forall|k: int|
            0 <= k < config.ddns.providers@.len() ==> !is_cloudflare(
                #[trigger] config.ddns.providers@[k],
            ),
{
    if records.len() == 0 {
        return SyncStart::Skipped(skip_note("no records configured"));
    }
    match find_cloudflare_provider(&config.ddns.providers) {
        None => SyncStart::Failed(SyncError::ProviderNotConfigured),
        Some(provider) => SyncStart::Run { run: SyncRun::new(records), provider },
    }
}

/// The status report: the last address stored under the general key and the
/// newest history entry (time, status, message), when there is one.
pub fn snapshot(
    last_public_ip: Option<String>,
    latest: Option<(String, String, String)>,
) -> (s: SyncSnapshot)
    ensures
        s.last_public_ip == last_public_ip,
        match latest {
            Some((at, status, message)) => s.last_sync_at == Some(at) && s.last_sync_status == Some(
                status,
            ) && s.last_sync_message == Some(message),
            None => s.last_sync_at is None && s.last_sync_status is None && s.last_sync_message is None,
        },
{
    let (last_sync_at, last_sync_status, last_sync_message) = match latest {
        Some((at, status, message)) => (Some(at), Some(status), Some(message)),
        None => (None, None, None),
    };
    SyncSnapshot { last_public_ip, last_sync_at, last_sync_status, last_sync_message }
}

} // verus!

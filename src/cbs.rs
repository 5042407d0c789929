use vstd::prelude::*;

use crate::error::ErrorKind;
use crate::retry::{retry_delay_spec, valid_jitter, RetryOptions};

verus! {

/// Time before expiry at which a token is refreshed, in milliseconds.
pub const DEFAULT_REFRESH_MARGIN_MS: u64 = 300_000;

/// Shortest wait before a refresh, in milliseconds.
pub const MIN_REFRESH_DELAY_MS: u64 = 1_000;

/// A right that a link asks the CBS node for.
#[derive(Debug, Clone, Copy, PartialEq, Eq, Structural)]
pub enum Claim {
    Send,
    Listen,
    Manage,
}

impl Claim {
    /// The claim's name on the wire.
    pub fn as_str(&self) -> (r: &'static str)
        ensures
            *self == Claim::Send ==> r@ == "Send"@,
            *self == Claim::Listen ==> r@ == "Listen"@,
            *self == Claim::Manage ==> r@ == "Manage"@,
    {
        proof {
            reveal_strlit("Send");
            reveal_strlit("Listen");
            reveal_strlit("Manage");
        }
        match self {
            Claim::Send => "Send",
            Claim::Listen => "Listen",
            Claim::Manage => "Manage",
        }
    }
}

/// When a token expiring at `expires_at` (ms) and received at `now` is
/// refreshed: the margin before expiry, but never sooner than the minimum delay.
pub open spec fn refresh_at_spec(expires_at: int, now: int) -> int {
    if expires_at - DEFAULT_REFRESH_MARGIN_MS >= now + MIN_REFRESH_DELAY_MS {
        expires_at - DEFAULT_REFRESH_MARGIN_MS
    } else {
        now + MIN_REFRESH_DELAY_MS
    }
}

/// The instant of the next put-token for a token expiring at `expires_at_ms`.
pub fn refresh_at(expires_at_ms: u64, now_ms: u64) -> (r: u64)
    requires
        now_ms <= u64::MAX - MIN_REFRESH_DELAY_MS,
    ensures
        r == refresh_at_spec(expires_at_ms as int, now_ms as int),
{
    let earliest = now_ms + MIN_REFRESH_DELAY_MS;
    if expires_at_ms >= DEFAULT_REFRESH_MARGIN_MS && expires_at_ms - DEFAULT_REFRESH_MARGIN_MS
        >= earliest {
        expires_at_ms - DEFAULT_REFRESH_MARGIN_MS
    } else {
        earliest
    }
}

/// Refresh timing: a token expiring at `T` is refreshed between `T - 300 s`
/// and `T - 1 s`, provided it still has at least two seconds to live.
pub proof fn lemma_refresh_timing(expires_at: int, now: int)
    requires
        now + 2 * MIN_REFRESH_DELAY_MS <= expires_at,
    ensures
        expires_at - 300_000 <= refresh_at_spec(expires_at, now) <= expires_at - 1_000,
        refresh_at_spec(expires_at, now) >= now + MIN_REFRESH_DELAY_MS,
{
}

/// A link's authorization, kept fresh by the CBS task.
#[derive(Debug, Clone, PartialEq, Eq)]
pub struct AuthorizationRecord {
    pub link_id: u32,
    pub endpoint: String,
    pub resource: String,
    pub claims: Vec<Claim>,
    pub expires_at_ms: u64,
    pub refresh_at_ms: u64,
    pub failed_refreshes: u32,
    pub unauthorized: bool,
}

/// A command sent to the CBS task.
#[derive(Debug, Clone, PartialEq, Eq)]
pub enum CbsCommand {
    /// Keep the authorization of `link_id` fresh; the first token expires at `expires_at_ms`.
    Register {
        link_id: u32,
        endpoint: String,
        resource: String,
        claims: Vec<Claim>,
        expires_at_ms: u64,
    },
    /// Stop refreshing the authorization of a link.
    Remove(u32),
    /// Stop the task.
    Stop,
}

/// No two records belong to the same link.
pub open spec fn unique_ids(s: Seq<AuthorizationRecord>) -> bool {
    forall|i: int, j: int| 0 <= i < j < s.len() ==> s[i].link_id != s[j].link_id
}

/// `a + b`, saturated to `u64`.
pub open spec fn saturating_add(a: int, b: int) -> int {
    if a + b > u64::MAX {
        u64::MAX as int
    } else {
        a + b
    }
}

/// State of the CBS refresh task: one record per link.
pub struct CbsState {
    records: Vec<AuthorizationRecord>,
    stopped: bool,
    retry: RetryOptions,
}

impl CbsState {
    pub closed spec fn records_spec(&self) -> Seq<AuthorizationRecord> {
        self.records@
    }

    pub closed spec fn is_stopped(&self) -> bool {
        self.stopped
    }

    pub closed spec fn retry_spec(&self) -> RetryOptions {
        self.retry
    }

    /// Link ids are unique, and a record still authorized has failed fewer
    /// refreshes than the retries allow.
    pub open spec fn wf(&self) -> bool {
        &&& unique_ids(self.records_spec())
        &&& forall|i: int|
            0 <= i < self.records_spec().len() && !(#[trigger] self.records_spec()[i]).unauthorized
                ==> self.records_spec()[i].failed_refreshes == 0
                || self.records_spec()[i].failed_refreshes < self.retry_spec().max_retries
    }

    /// A task with no records, retrying failed refreshes per `retry`.
    pub fn new(retry: RetryOptions) -> (r: CbsState)
        ensures
            r.wf(),
            r.records_spec() == Seq::<AuthorizationRecord>::empty(),
            !r.is_stopped(),
            r.retry_spec() == retry,
    {
        CbsState { records: Vec::new(), stopped: false, retry }
    }

    pub fn is_stopped_exec(&self) -> (r: bool)
        ensures
            r == self.is_stopped(),
    {
        self.stopped
    }

    /// Index of the record of `link_id`.
    pub fn find(&self, link_id: u32) -> (r: Option<usize>)
        requires
            self.wf(),
        ensures
            r matches Some(k) ==> k < self.records_spec().len() && self.records_spec()[k as int].link_id
                == link_id,
            r is None ==> forall|i: int|
                0 <= i < self.records_spec().len() ==> (#[trigger] self.records_spec()[i]).link_id
                    != link_id,
    {
        let mut i: usize = 0;
        while i < self.records.len()
            invariant
                i <= self.records@.len(),
                forall|j: int| 0 <= j < i ==> (#[trigger] self.records@[j]).link_id != link_id,
            decreases self.records@.len() - i,
        {
            if self.records[i].link_id == link_id {
                return Some(i);
            }
            i = i + 1;
        }
        None
    }

    /// Applies a command received at `now_ms`. Registering a link that already
    /// has a record replaces it.
    pub fn handle_command(&mut self, command: CbsCommand, now_ms: u64)
        requires
            old(self).wf(),
            now_ms <= u64::MAX - MIN_REFRESH_DELAY_MS,
        ensures
            final(self).wf(),
            final(self).retry_spec() == old(self).retry_spec(),
            match command {
                CbsCommand::Register { link_id, endpoint, resource, claims, expires_at_ms } => {
                    let rec = AuthorizationRecord {
                        link_id,
                        endpoint,
                        resource,
                        claims,
                        expires_at_ms,
                        refresh_at_ms: refresh_at_spec(expires_at_ms as int, now_ms as int) as u64,
                        failed_refreshes: 0,
                        unauthorized: false,
                    };
                    &&& final(self).is_stopped() == old(self).is_stopped()
                    &&& (exists|k: int|
                        0 <= k < old(self).records_spec().len()
                            && old(self).records_spec()[k].link_id == link_id
                            && final(self).records_spec() == old(self).records_spec().update(k, rec))
                        || ((forall|i: int|
                        0 <= i < old(self).records_spec().len() ==> (
                        #[trigger] old(self).records_spec()[i]).link_id != link_id)
                        && final(self).records_spec() == old(self).records_spec().push(rec))
                },
                CbsCommand::Remove(link_id) => {
                    &&& final(self).is_stopped() == old(self).is_stopped()
                    &&& (exists|k: int|
                        0 <= k < old(self).records_spec().len()
                            && old(self).records_spec()[k].link_id == link_id
                            && final(self).records_spec() == old(self).records_spec().remove(k))
                        || ((forall|i: int|
                        0 <= i < old(self).records_spec().len() ==> (
                        #[trigger] old(self).records_spec()[i]).link_id != link_id)
                        && final(self).records_spec() == old(self).records_spec())
                },
                CbsCommand::Stop => {
                    &&& final(self).is_stopped()
                    &&& final(self).records_spec() == old(self).records_spec()
                },
            },
    {
        match command {
            CbsCommand::Register { link_id, endpoint, resource, claims, expires_at_ms } => {
                let rec = AuthorizationRecord {
                    link_id,
                    endpoint,
                    resource,
                    claims,
                    expires_at_ms,
                    refresh_at_ms: refresh_at(expires_at_ms, now_ms),
                    failed_refreshes: 0,
                    unauthorized: false,
                };
                match self.find(link_id) {
                    Some(k) => {
                        let ghost before = self.records@;
                        self.records.set(k, rec);
                        proof {
                            assert(unique_ids(self.records@)) by {
                                assert forall|i: int, j: int|
                                    0 <= i < j < self.records@.len() implies self.records@[i].link_id
                                    != self.records@[j].link_id by {
                                    assert(before[i].link_id != before[j].link_id);
                                }
                            }
                        }
                    },
                    None => {
                        self.records.push(rec);
                    },
                }
            },
            CbsCommand::Remove(link_id) => {
                match self.find(link_id) {
                    Some(k) => {
                        let ghost before = self.records@;
                        self.records.remove(k);
                        proof {
                            assert(self.records@ == before.remove(k as int));
                            assert forall|i: int, j: int|
                                0 <= i < j < self.records@.len() implies self.records@[i].link_id
                                != self.records@[j].link_id by {
                                let oi = if i < k { i } else { i + 1 };
                                let oj = if j < k { j } else { j + 1 };
                                assert(before[oi].link_id != before[oj].link_id);
                            }
                            assert forall|i: int|
                                0 <= i < self.records@.len() && !(
                                #[trigger] self.records@[i]).unauthorized implies self.records@[i].failed_refreshes
                                == 0 || self.records@[i].failed_refreshes < self.retry.max_retries by {
                                let oi = if i < k { i } else { i + 1 };
                                assert(before[oi] == self.records@[i]);
                            }
                        }
                    },
                    None => {},
                }
            },
            CbsCommand::Stop => {
                self.stopped = true;
            },
        }
    }

    /// The earliest refresh instant among authorized records, if any.
    pub fn next_wakeup(&self) -> (r: Option<u64>)
        ensures
            r matches Some(t) ==> (exists|i: int|
                0 <= i < self.records_spec().len() && !self.records_spec()[i].unauthorized
                    && self.records_spec()[i].refresh_at_ms == t) && (forall|i: int|
                0 <= i < self.records_spec().len() && !(#[trigger] self.records_spec()[i]).unauthorized
                    ==> t <= self.records_spec()[i].refresh_at_ms),
            r is None ==> forall|i: int|
                0 <= i < self.records_spec().len() ==> (#[trigger] self.records_spec()[i]).unauthorized,
    {
        let mut best: Option<u64> = None;
        let mut i: usize = 0;
        while i < self.records.len()
            invariant
                i <= self.records@.len(),
                best matches Some(t) ==> (exists|j: int|
                    0 <= j < i && !self.records@[j].unauthorized && self.records@[j].refresh_at_ms
                        == t) && (forall|j: int|
                    0 <= j < i && !(#[trigger] self.records@[j]).unauthorized ==> t
                        <= self.records@[j].refresh_at_ms),
                best is None ==> forall|j: int| 0 <= j < i ==> (#[trigger] self.records@[j]).unauthorized,
            decreases self.records@.len() - i,
        {
            let r = &self.records[i];
            if !r.unauthorized {
                match best {
                    Some(t) => {
                        if r.refresh_at_ms < t {
                            best = Some(r.refresh_at_ms);
                        }
                    },
                    None => {
                        best = Some(r.refresh_at_ms);
                    },
                }
            }
            i = i + 1;
        }
        proof {
            if let Some(t) = best {
                let j = choose|j: int|
                    0 <= j < i && !self.records@[j].unauthorized && self.records@[j].refresh_at_ms == t;
                assert(self.records_spec()[j] == self.records@[j]);
            }
        }
        best
    }

    /// Link ids of the authorized records whose refresh is due at `now_ms`.
    pub fn due(&self, now_ms: u64) -> (r: Vec<u32>)
        ensures
            forall|id: u32|
                r@.contains(id) <==> exists|i: int|
                    0 <= i < self.records_spec().len() && self.records_spec()[i].link_id == id
                        && !self.records_spec()[i].unauthorized
                        && self.records_spec()[i].refresh_at_ms <= now_ms,
    {
        let mut out: Vec<u32> = Vec::new();
        let mut i: usize = 0;
        while i < self.records.len()
            invariant
                i <= self.records@.len(),
                forall|id: u32|
                    out@.contains(id) <==> exists|j: int|
                        0 <= j < i && self.records@[j].link_id == id && !self.records@[j].unauthorized
                            && self.records@[j].refresh_at_ms <= now_ms,
            decreases self.records@.len() - i,
        {
            let r = &self.records[i];
            let ghost before = out@;
            if !r.unauthorized && r.refresh_at_ms <= now_ms {
                out.push(r.link_id);
                proof {
                    assert(out@ == before.push(r.link_id));
                    assert forall|id: u32| out@.contains(id) <==> exists|j: int|
                        0 <= j < i + 1 && self.records@[j].link_id == id
                            && !self.records@[j].unauthorized && self.records@[j].refresh_at_ms
                            <= now_ms by {
                        if out@.contains(id) {
                            if id == r.link_id {
                                assert(self.records@[i as int].link_id == id);
                            } else {
                                let k = choose|k: int| 0 <= k < out@.len() && out@[k] == id;
                                assert(k < before.len());
                                assert(before[k] == id);
                                assert(before.contains(id));
                            }
                        }
                        if exists|j: int|
                            0 <= j < i + 1 && self.records@[j].link_id == id
                                && !self.records@[j].unauthorized && self.records@[j].refresh_at_ms
                                <= now_ms {
                            let j = choose|j: int|
                                0 <= j < i + 1 && self.records@[j].link_id == id
                                    && !self.records@[j].unauthorized
                                    && self.records@[j].refresh_at_ms <= now_ms;
                            if j < i {
                                assert(before.contains(id));
                                let k = choose|k: int| 0 <= k < before.len() && before[k] == id;
                                assert(out@[k] == id);
                            } else {
                                assert(out@[out@.len() - 1] == id);
                            }
                        }
                    }
                }
            } else {
                proof {
                    assert forall|id: u32| out@.contains(id) <==> exists|j: int|
                        0 <= j < i + 1 && self.records@[j].link_id == id
                            && !self.records@[j].unauthorized && self.records@[j].refresh_at_ms
                            <= now_ms by {
                        if exists|j: int|
                            0 <= j < i + 1 && self.records@[j].link_id == id
                                && !self.records@[j].unauthorized && self.records@[j].refresh_at_ms
                                <= now_ms {
                            let j = choose|j: int|
                                0 <= j < i + 1 && self.records@[j].link_id == id
                                    && !self.records@[j].unauthorized
                                    && self.records@[j].refresh_at_ms <= now_ms;
                            assert(j < i);
                        }
                    }
                }
            }
            i = i + 1;
        }
        proof {
            assert forall|id: u32|
                out@.contains(id) <==> exists|i: int|
                    0 <= i < self.records_spec().len() && self.records_spec()[i].link_id == id
                        && !self.records_spec()[i].unauthorized
                        && self.records_spec()[i].refresh_at_ms <= now_ms by {
                if out@.contains(id) {
                    let j = choose|j: int|
                        0 <= j < self.records@.len() && self.records@[j].link_id == id
                            && !self.records@[j].unauthorized && self.records@[j].refresh_at_ms
                            <= now_ms;
                    assert(self.records_spec()[j] == self.records@[j]);
                }
            }
        }
        out
    }
    /// Records a successful put-token for `link_id` at `now_ms` with a token
    /// expiring at `expires_at_ms`, and schedules its next refresh.
    pub fn on_refreshed(&mut self, link_id: u32, expires_at_ms: u64, now_ms: u64) -> (found: bool)
        requires
            old(self).wf(),
            now_ms <= u64::MAX - MIN_REFRESH_DELAY_MS,
        ensures
            final(self).wf(),
            final(self).retry_spec() == old(self).retry_spec(),
            final(self).is_stopped() == old(self).is_stopped(),
            found ==> exists|k: int|
                0 <= k < old(self).records_spec().len() && old(self).records_spec()[k].link_id
                    == link_id && final(self).records_spec() == old(self).records_spec().update(
                    k,
                    AuthorizationRecord {
                        expires_at_ms,
                        refresh_at_ms: refresh_at_spec(expires_at_ms as int, now_ms as int) as u64,
                        failed_refreshes: 0,
                        unauthorized: false,
                        ..old(self).records_spec()[k]
                    },
                ),
            !found ==> final(self).records_spec() == old(self).records_spec() && forall|i: int|
                0 <= i < old(self).records_spec().len() ==> (
                #[trigger] old(self).records_spec()[i]).link_id != link_id,
    {
        match self.find(link_id) {
            Some(k) => {
                let ghost before = self.records@;
                let at = refresh_at(expires_at_ms, now_ms);
                self.records[k].expires_at_ms = expires_at_ms;
                self.records[k].refresh_at_ms = at;
                self.records[k].failed_refreshes = 0;
                self.records[k].unauthorized = false;
                proof {
                    assert(self.records@ =~= before.update(
                        k as int,
                        AuthorizationRecord {
                            expires_at_ms,
                            refresh_at_ms: at,
                            failed_refreshes: 0,
                            unauthorized: false,
                            ..before[k as int]
                        },
                    ));
                    assert forall|i: int, j: int|
                        0 <= i < j < self.records@.len() implies self.records@[i].link_id
                        != self.records@[j].link_id by {
                        assert(before[i].link_id != before[j].link_id);
                    }
                    assert forall|i: int|
                        0 <= i < self.records@.len() && !(
                        #[trigger] self.records@[i]).unauthorized implies self.records@[i].failed_refreshes
                        == 0 || self.records@[i].failed_refreshes < self.retry.max_retries by {
                        if i != k {
                            assert(before[i] == self.records@[i]);
                        }
                    }
                }
                true
            },
            None => false,
        }
    }

    /// Records a failed put-token for `link_id` at `now_ms`. While retries
    /// remain, the refresh is rescheduled after the retry delay and that
    /// instant is returned; once they are used up (or the error is terminal)
    /// the record is marked unauthorized and `None` is returned.
    pub fn on_refresh_failed(
        &mut self,
        link_id: u32,
        err: &ErrorKind,
        now_ms: u64,
        jitter_permille: u64,
    ) -> (r: Option<u64>)
        requires
            old(self).wf(),
            valid_jitter(jitter_permille),
        ensures
            final(self).wf(),
            final(self).retry_spec() == old(self).retry_spec(),
            final(self).is_stopped() == old(self).is_stopped(),
            (forall|i: int|
                0 <= i < old(self).records_spec().len() ==> (
                #[trigger] old(self).records_spec()[i]).link_id != link_id || old(
                self).records_spec()[i].unauthorized) ==> r is None && final(self).records_spec()
                == old(self).records_spec(),
            (exists|k: int|
                0 <= k < old(self).records_spec().len() && old(self).records_spec()[k].link_id
                    == link_id && !old(self).records_spec()[k].unauthorized && {
                    let rec = old(self).records_spec()[k];
                    let attempt = (rec.failed_refreshes + 1) as nat;
                    match retry_delay_spec(old(self).retry_spec(), *err, attempt, jitter_permille as int) {
                        Some(d) => r == Some(saturating_add(now_ms as int, d) as u64)
                            && final(self).records_spec() == old(self).records_spec().update(
                            k,
                            AuthorizationRecord {
                                failed_refreshes: attempt as u32,
                                refresh_at_ms: saturating_add(now_ms as int, d) as u64,
                                ..rec
                            },
                        ),
                        None => r is None && final(self).records_spec()
                            == old(self).records_spec().update(
                            k,
                            AuthorizationRecord {
                                failed_refreshes: attempt as u32,
                                unauthorized: true,
                                ..rec
                            },
                        ),
                    }
                }) || (forall|i: int|
                0 <= i < old(self).records_spec().len() ==> (
                #[trigger] old(self).records_spec()[i]).link_id != link_id || old(
                self).records_spec()[i].unauthorized),
    {
        let k = match self.find(link_id) {
            Some(k) => k,
            None => return None,
        };
        if self.records[k].unauthorized {
            proof {
                assert forall|i: int|
                    0 <= i < self.records@.len() implies (
                    #[trigger] self.records@[i]).link_id != link_id || self.records@[i].unauthorized by {
                    if i != k {
                        assert(self.records@[i].link_id != self.records@[k as int].link_id);
                    }
                }
            }
            return None;
        }
        let ghost before = self.records@;
        let attempt = self.records[k].failed_refreshes + 1;
        let delay = self.retry.calculate_retry_delay(err, attempt, jitter_permille);
        self.records[k].failed_refreshes = attempt;
        let r = match delay {
            Some(d) => {
                let at = if d > u64::MAX - now_ms {
                    u64::MAX
                } else {
                    now_ms + d
                };
                self.records[k].refresh_at_ms = at;
                Some(at)
            },
            None => {
                self.records[k].unauthorized = true;
                None
            },
        };
        proof {
            assert forall|i: int, j: int|
                0 <= i < j < self.records@.len() implies self.records@[i].link_id
                != self.records@[j].link_id by {
                assert(before[i].link_id != before[j].link_id);
            }
            assert forall|i: int|
                0 <= i < self.records@.len() && !(
                #[trigger] self.records@[i]).unauthorized implies self.records@[i].failed_refreshes
                == 0 || self.records@[i].failed_refreshes < self.retry.max_retries by {
                if i != k {
                    assert(before[i] == self.records@[i]);
                }
            }
            let rec = before[k as int];
            match delay {
                Some(d) => {
                    assert(self.records@ =~= before.update(
                        k as int,
                        AuthorizationRecord {
                            failed_refreshes: attempt,
                            refresh_at_ms: saturating_add(now_ms as int, d as int) as u64,
                            ..rec
                        },
                    ));
                },
                None => {
                    assert(self.records@ =~= before.update(
                        k as int,
                        AuthorizationRecord { failed_refreshes: attempt, unauthorized: true, ..rec },
                    ));
                },
            }
        }
        r
    }

    /// The record of `link_id`, if any.
    pub fn record(&self, link_id: u32) -> (r: Option<&AuthorizationRecord>)
        requires
            self.wf(),
        ensures
            r matches Some(rec) ==> exists|i: int|
                0 <= i < self.records_spec().len() && self.records_spec()[i] == *rec
                    && rec.link_id == link_id,
            r is None ==> forall|i: int|
                0 <= i < self.records_spec().len() ==> (#[trigger] self.records_spec()[i]).link_id
                    != link_id,
    {
        match self.find(link_id) {
            Some(k) => Some(&self.records[k]),
            None => None,
        }
    }

    /// Whether `link_id` has a record that is still authorized.
    pub fn is_authorized(&self, link_id: u32) -> (r: bool)
        requires
            self.wf(),
        ensures
            r == exists|i: int|
                0 <= i < self.records_spec().len() && self.records_spec()[i].link_id == link_id
                    && !self.records_spec()[i].unauthorized,
    {
        match self.find(link_id) {
            Some(k) => {
                proof {
                    if exists|i: int|
                        0 <= i < self.records_spec().len() && self.records_spec()[i].link_id == link_id
                            && !self.records_spec()[i].unauthorized {
                        let i = choose|i: int|
                            0 <= i < self.records_spec().len() && self.records_spec()[i].link_id
                                == link_id && !self.records_spec()[i].unauthorized;
                        if i != k {
                            assert(self.records@[i].link_id != self.records@[k as int].link_id);
                        }
                    }
                }
                !self.records[k].unauthorized
            },
            None => false,
        }
    }
}

} // verus!

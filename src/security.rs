use vstd::prelude::*;
use crate::errors::AppResult;
use crate::fingerprint::{key_fingerprint, fingerprint_text};
use crate::ledger::{entry_of, find_key, last_index_of, lemma_entry_update, lemma_entry_push, ledger_get, ledger_set};
use crate::text::{decimal_text, opt_text};
use vstd::string::StringExecFns;

verus! {

/// Milliseconds in a minute; all gate timestamps are milliseconds since the Unix epoch.
pub const MINUTE_MS: i64 = 60_000;
/// Sliding window over which requests are counted.
pub const RATE_WINDOW_MS: i64 = 60_000;
/// How long an address stays blocked after exceeding the ceiling.
pub const BLOCK_MS: i64 = 300_000;
/// Latest timestamp the limiter works with, centuries ahead.
pub const MAX_TIME: i64 = 0x1000_0000_0000_0000;
/// Largest lockout window, in minutes, that a configuration may hold.
pub const MAX_LOCKOUT_MINUTES: i64 = 1_000_000_000;
/// Capacity of the in-memory journal of security events.
pub const EVENT_RING_CAP: usize = 1000;

pub open spec fn valid_time(t: i64) -> bool {
    0 <= t <= MAX_TIME
}

pub struct SecurityConfig {
    pub max_login_attempts: u32,
    pub lockout_duration_minutes: i64,
    pub rate_limit_requests_per_minute: u32,
    pub session_timeout_minutes: i64,
    pub require_key_fingerprint_verification: bool,
    pub allowed_encryption_algorithms: Vec<String>,
    pub audit_log_retention_days: u32,
    pub enable_ddos_protection: bool,
    pub max_concurrent_connections_per_ip: u32,
}

impl SecurityConfig {
    pub open spec fn wf(&self) -> bool {
        0 <= self.lockout_duration_minutes <= MAX_LOCKOUT_MINUTES
    }
}

impl Default for SecurityConfig {
    fn default() -> (r: Self)
        ensures
            r.max_login_attempts == 5,
            r.lockout_duration_minutes == 15,
            r.rate_limit_requests_per_minute == 60,
            r.session_timeout_minutes == 30,
            r.require_key_fingerprint_verification,
            r.allowed_encryption_algorithms@.len() == 5,
            r.audit_log_retention_days == 90,
            r.enable_ddos_protection,
            r.max_concurrent_connections_per_ip == 10,
    {
        let mut algorithms: Vec<String> = Vec::new();
        algorithms.push(String::from_str("aes128-ctr"));
        algorithms.push(String::from_str("aes192-ctr"));
        algorithms.push(String::from_str("aes256-ctr"));
        algorithms.push(String::from_str("aes128-gcm@openssh.com"));
        algorithms.push(String::from_str("aes256-gcm@openssh.com"));
        SecurityConfig {
            max_login_attempts: 5,
            lockout_duration_minutes: 15,
            rate_limit_requests_per_minute: 60,
            session_timeout_minutes: 30,
            require_key_fingerprint_verification: true,
            allowed_encryption_algorithms: algorithms,
            audit_log_retention_days: 90,
            enable_ddos_protection: true,
            max_concurrent_connections_per_ip: 10,
        }
    }
}

/// Per-address rate-limit state: the admitted request times, oldest first,
/// and the end of a block, if one is in force.
pub struct RateLimitEntry {
    pub requests: Vec<i64>,
    pub blocked_until: Option<i64>,
}

impl View for RateLimitEntry {
    type V = (Seq<i64>, Option<i64>);

    open spec fn view(&self) -> (Seq<i64>, Option<i64>) {
        (self.requests@, self.blocked_until)
    }
}

/// The times of `s` later than `cutoff`, in their order.
pub open spec fn times_after(s: Seq<i64>, cutoff: int) -> Seq<i64>
    decreases s.len(),
{
    if s.len() == 0 {
        s
    } else if s.last() > cutoff {
        times_after(s.drop_last(), cutoff).push(s.last())
    } else {
        times_after(s.drop_last(), cutoff)
    }
}

/// The decision of the rate limiter on one request at `now`: the new state
/// of the address and whether the request is admitted.
///
/// While a block is in force every request is denied and nothing changes.
/// A block that has run out clears the window. Requests older than the
/// window are forgotten; if as many as `ceiling` remain, the address is
/// blocked for `BLOCK_MS` and the request denied, else it is admitted and
/// recorded.
pub open spec fn rate_decision(e: (Seq<i64>, Option<i64>), now: i64, ceiling: u32) -> ((Seq<i64>, Option<i64>), bool) {
    if e.1 is Some && now < e.1.unwrap() {
        (e, false)
    } else {
        let base = if e.1 is Some { Seq::<i64>::empty() } else { e.0 };
        let kept = times_after(base, now - RATE_WINDOW_MS);
        if kept.len() >= ceiling {
            ((kept, Some((now + BLOCK_MS) as i64)), false)
        } else {
            ((kept.push(now), None), true)
        }
    }
}

fn keep_times_after(v: &Vec<i64>, cutoff: i64) -> (r: Vec<i64>)
    ensures
        r@ == times_after(v@, cutoff as int),
{
    let mut out: Vec<i64> = Vec::new();
    let mut i: usize = 0;
    while i < v.len()
        invariant
            i <= v@.len(),
            out@ == times_after(v@.subrange(0, i as int), cutoff as int),
        decreases v@.len() - i,
    {
        assert(v@.subrange(0, i as int + 1).drop_last() =~= v@.subrange(0, i as int));
        if v[i] > cutoff {
            out.push(v[i]);
        }
        i = i + 1;
    }
    assert(v@.subrange(0, v@.len() as int) =~= v@);
    out
}

impl RateLimitEntry {
    pub fn new() -> (r: Self)
        ensures
            r@ == (Seq::<i64>::empty(), None::<i64>),
    {
        RateLimitEntry { requests: Vec::new(), blocked_until: None }
    }

    /// Applies one request at `now` to this address's state.
    pub fn register_request(&mut self, now: i64, ceiling: u32) -> (allowed: bool)
        requires
            valid_time(now),
        ensures
            (final(self)@, allowed) == rate_decision(old(self)@, now, ceiling),
    {
        if let Some(until) = self.blocked_until {
            if now < until {
                return false;
            }
            self.blocked_until = None;
            self.requests = Vec::new();
        }
        let kept = keep_times_after(&self.requests, now - RATE_WINDOW_MS);
        self.requests = kept;
        if self.requests.len() >= ceiling as usize {
            self.blocked_until = Some(now + BLOCK_MS);
            false
        } else {
            self.requests.push(now);
            true
        }
    }
}

/// While a block is in force for an address, every request from it is
/// denied and its state is unchanged; once the block's end is reached the
/// window is cleared, so the next request is admitted whenever the ceiling
/// is above zero, and it is then the only request in the window.
pub proof fn law_admission_safety(e: (Seq<i64>, Option<i64>), now: i64, ceiling: u32)
    requires
        valid_time(now),
    ensures
        e.1 is Some && now < e.1.unwrap() ==> rate_decision(e, now, ceiling) == (e, false),
        e.1 is Some && now >= e.1.unwrap() && ceiling > 0 ==> rate_decision(e, now, ceiling) == (
            (seq![now], None::<i64>),
            true,
        ),
{
    if e.1 is Some && now >= e.1.unwrap() && ceiling > 0 {
        assert(times_after(Seq::<i64>::empty(), now - RATE_WINDOW_MS) =~= Seq::<i64>::empty());
        assert(Seq::<i64>::empty().push(now) =~= seq![now]);
    }
}


/// Per-account lockout state.
#[derive(Debug, Clone, Copy)]
pub struct AccountSecurity {
    pub failed_attempts: u32,
    pub locked_until: Option<i64>,
    pub last_attempt: i64,
}

/// The lockout check at `now`: an account is refused while `now` is before
/// the end of its lock; a lock that has run out is lifted, with the failure
/// count reset.
pub open spec fn lockout_check(a: Option<AccountSecurity>, now: i64) -> (Option<AccountSecurity>, bool) {
    match a {
        Some(s) => match s.locked_until {
            Some(l) => if now < l {
                (a, false)
            } else {
                (Some(AccountSecurity { failed_attempts: 0, locked_until: None, ..s }), true)
            },
            None => (a, true),
        },
        None => (None, true),
    }
}

/// The account state after a successful login: a known account is reset.
pub open spec fn after_success(a: Option<AccountSecurity>, now: i64) -> Option<AccountSecurity> {
    match a {
        Some(_) => Some(AccountSecurity { failed_attempts: 0, locked_until: None, last_attempt: now }),
        None => None,
    }
}

/// The account state after a failed login: one more failure (the count
/// saturates), and a lock of `lockout_minutes` once the count reaches
/// `max_attempts`.
pub open spec fn after_failure(a: Option<AccountSecurity>, now: i64, max_attempts: u32, lockout_minutes: i64) -> AccountSecurity {
    let s = match a {
        Some(s) => s,
        None => AccountSecurity { failed_attempts: 0, locked_until: None, last_attempt: now },
    };
    let f = if s.failed_attempts == u32::MAX { u32::MAX } else { (s.failed_attempts + 1) as u32 };
    AccountSecurity {
        failed_attempts: f,
        locked_until: if f >= max_attempts {
            Some((now + lockout_minutes * MINUTE_MS) as i64)
        } else {
            s.locked_until
        },
        last_attempt: now,
    }
}

/// A trusted key fingerprint.
#[derive(Debug, Clone)]
pub struct SshKeyFingerprint {
    pub algorithm: String,
    pub fingerprint: String,
    pub key_type: String,
}

pub open spec fn fingerprint_listed(list: Seq<SshKeyFingerprint>, fp: SshKeyFingerprint) -> bool {
    exists|i: int|
        0 <= i < list.len() && (#[trigger] list[i]).fingerprint@ == fp.fingerprint@
            && list[i].algorithm@ == fp.algorithm@
}

#[derive(Debug, Clone, Copy, PartialEq, Eq, Structural)]
pub enum SecurityEventType {
    LoginAttempt,
    LoginSuccess,
    LoginFailure,
    AccountLockout,
    SuspiciousActivity,
    RateLimitExceeded,
    UnauthorizedAccess,
    KeyFingerprintMismatch,
    EncryptionViolation,
    SessionTimeout,
    DdosDetected,
}

#[derive(Debug, Clone, Copy, PartialEq, Eq, Structural)]
pub enum SecuritySeverity {
    Low,
    Medium,
    High,
    Critical,
}

/// One journaled gate decision.
#[derive(Debug, Clone)]
pub struct SecurityEvent {
    pub event_type: SecurityEventType,
    pub timestamp: i64,
    pub source_ip: Option<String>,
    pub user_id: Option<String>,
    pub session_id: Option<String>,
    pub details: Vec<(String, String)>,
    pub severity: SecuritySeverity,
}

/// `new` is `old` with one more event appended (the oldest evicted beyond
/// capacity): of kind `kind`, stamped `now`, from address `ip` and for user
/// `user`.
pub open spec fn journaled(
    old: Seq<SecurityEvent>,
    new: Seq<SecurityEvent>,
    kind: SecurityEventType,
    now: i64,
    ip: Option<Seq<char>>,
    user: Option<Seq<char>>,
) -> bool {
    &&& new.len() > 0
    &&& new == ring_push(old, new.last(), EVENT_RING_CAP as nat)
    &&& new.last().event_type == kind
    &&& new.last().timestamp == now
    &&& opt_text(new.last().source_ip) == ip
    &&& opt_text(new.last().user_id) == user
}

/// The journal after appending `e`: the newest `cap` events are kept.
pub open spec fn ring_push<T>(s: Seq<T>, e: T, cap: nat) -> Seq<T> {
    let t = s.push(e);
    if t.len() > cap {
        t.subrange(t.len() - cap, t.len() as int)
    } else {
        t
    }
}

fn detail(key: &str, value: String) -> (r: (String, String))
    ensures
        r.0@ == key@,
        r.1@ == value@,
{
    (String::from_str(key), value)
}

/// Counters for reporting.
#[derive(Debug, Clone, Copy)]
pub struct SecurityStats {
    pub total_events: usize,
    pub events_last_hour: usize,
    pub events_last_day: usize,
    pub active_rate_limits: usize,
    pub locked_accounts: usize,
    pub active_connections: u32,
    pub critical_events_last_day: usize,
}

/// Events of `s` later than `cutoff` (only critical ones when `critical_only`).
pub open spec fn count_events(s: Seq<SecurityEvent>, cutoff: int, critical_only: bool) -> nat
    decreases s.len(),
{
    if s.len() == 0 {
        0
    } else {
        count_events(s.drop_last(), cutoff, critical_only) + if s.last().timestamp > cutoff
            && (!critical_only || s.last().severity == SecuritySeverity::Critical) {
            1nat
        } else {
            0nat
        }
    }
}

/// Accounts of `s` locked at `now`.
pub open spec fn count_locked(s: Seq<(String, AccountSecurity)>, now: i64) -> nat
    decreases s.len(),
{
    if s.len() == 0 {
        0
    } else {
        count_locked(s.drop_last(), now) + if s.last().1.locked_until matches Some(l) && l > now { 1nat } else { 0nat }
    }
}

/// Sum of the connection counts, saturating at `u32::MAX`.
pub open spec fn sum_counts(s: Seq<(String, u32)>) -> u32
    decreases s.len(),
{
    if s.len() == 0 {
        0
    } else {
        let t = sum_counts(s.drop_last()) + s.last().1;
        if t > u32::MAX { u32::MAX } else { t as u32 }
    }
}

pub open spec fn rate_entry_live(e: RateLimitEntry, now: i64) -> bool {
    match e.blocked_until {
        Some(b) => b > now,
        None => exists|x: int| 0 <= x < e.requests@.len() && e.requests@[x] > now - 300_000,
    }
}

pub open spec fn kept_rate_limits(s: Seq<(String, RateLimitEntry)>, now: i64) -> Seq<(String, RateLimitEntry)>
    decreases s.len(),
{
    if s.len() == 0 {
        s
    } else if rate_entry_live(s.last().1, now) {
        kept_rate_limits(s.drop_last(), now).push(s.last())
    } else {
        kept_rate_limits(s.drop_last(), now)
    }
}

pub open spec fn account_live(a: AccountSecurity, now: i64) -> bool {
    (a.locked_until matches Some(l) && l > now) || a.last_attempt > now - 300_000
}

pub open spec fn kept_accounts(s: Seq<(String, AccountSecurity)>, now: i64) -> Seq<(String, AccountSecurity)>
    decreases s.len(),
{
    if s.len() == 0 {
        s
    } else if account_live(s.last().1, now) {
        kept_accounts(s.drop_last(), now).push(s.last())
    } else {
        kept_accounts(s.drop_last(), now)
    }
}

pub open spec fn kept_events(s: Seq<SecurityEvent>, cutoff: int) -> Seq<SecurityEvent>
    decreases s.len(),
{
    if s.len() == 0 {
        s
    } else if s.last().timestamp > cutoff {
        kept_events(s.drop_last(), cutoff).push(s.last())
    } else {
        kept_events(s.drop_last(), cutoff)
    }
}

/// The security gate: rate limiter, lockout ledger, per-address connection
/// counter, fingerprint allowlist and the journal of decisions.
pub struct SecurityManager {
    pub config: SecurityConfig,
    pub rate_limits: Vec<(String, RateLimitEntry)>,
    pub account_security: Vec<(String, AccountSecurity)>,
    pub security_events: Vec<SecurityEvent>,
    pub connection_counts: Vec<(String, u32)>,
    pub trusted_fingerprints: Vec<(String, Vec<SshKeyFingerprint>)>,
}

pub open spec fn rate_entry_view(e: Option<RateLimitEntry>) -> (Seq<i64>, Option<i64>) {
    match e {
        Some(r) => r@,
        None => (Seq::<i64>::empty(), None::<i64>),
    }
}

impl SecurityManager {
    pub open spec fn wf(&self) -> bool {
        self.config.wf() && self.security_events@.len() <= EVENT_RING_CAP
    }

    pub fn new(config: SecurityConfig) -> (r: Self)
        requires
            config.wf(),
        ensures
            r.wf(),
            r.config == config,
            r.rate_limits@.len() == 0,
            r.account_security@.len() == 0,
            r.security_events@.len() == 0,
            r.connection_counts@.len() == 0,
            r.trusted_fingerprints@.len() == 0,
    {
        SecurityManager {
            config,
            rate_limits: Vec::new(),
            account_security: Vec::new(),
            security_events: Vec::new(),
            connection_counts: Vec::new(),
            trusted_fingerprints: Vec::new(),
        }
    }

    /// Appends an event to the journal, evicting the oldest beyond capacity.
    pub fn log_security_event(&mut self, event: SecurityEvent)
        requires
            old(self).wf(),
        ensures
            final(self).wf(),
            final(self).security_events@ == ring_push(old(self).security_events@, event, EVENT_RING_CAP as nat),
            final(self).security_events@.len() > 0,
            final(self).security_events@.last() == event,
            final(self).config == old(self).config,
            final(self).rate_limits@ == old(self).rate_limits@,
            final(self).account_security@ == old(self).account_security@,
            final(self).connection_counts@ == old(self).connection_counts@,
            final(self).trusted_fingerprints@ == old(self).trusted_fingerprints@,
    {
        let ghost pushed = self.security_events@.push(event);
        self.security_events.push(event);
        if self.security_events.len() > EVENT_RING_CAP {
            self.security_events.remove(0);
            assert(self.security_events@ =~= pushed.subrange(pushed.len() - EVENT_RING_CAP, pushed.len() as int));
        }
    }

    /// Admission by rate: registers a request from `ip` at `now` and says
    /// whether it is admitted. Denials are journaled.
    pub fn check_rate_limit(&mut self, ip: &String, now: i64) -> (r: AppResult<bool>)
        requires
            old(self).wf(),
            valid_time(now),
        ensures
            final(self).wf(),
            r matches Ok(allowed) && rate_decision(
                rate_entry_view(entry_of(old(self).rate_limits@, ip@)),
                now,
                old(self).config.rate_limit_requests_per_minute,
            ) == (rate_entry_view(entry_of(final(self).rate_limits@, ip@)), allowed),
            entry_of(final(self).rate_limits@, ip@) is Some,
            forall|k: Seq<char>| k != ip@ ==> entry_of(final(self).rate_limits@, k) == entry_of(old(self).rate_limits@, k),
            r == Ok::<bool, crate::errors::AppError>(false) ==> journaled(
                old(self).security_events@,
                final(self).security_events@,
                SecurityEventType::RateLimitExceeded,
                now,
                Some(ip@),
                None,
            ),
            r == Ok::<bool, crate::errors::AppError>(true) ==> final(self).security_events@ == old(self).security_events@,
            final(self).config == old(self).config,
            final(self).account_security@ == old(self).account_security@,
            final(self).connection_counts@ == old(self).connection_counts@,
            final(self).trusted_fingerprints@ == old(self).trusted_fingerprints@,
    {
        let ghost before = self.rate_limits@;
        let idx = match find_key(&self.rate_limits, ip) {
            Some(i) => i,
            None => {
                let fresh = RateLimitEntry::new();
                let key = ip.clone();
                let ghost g_key = key;
                let ghost g_fresh = fresh;
                self.rate_limits.push((key, fresh));
                proof {
                    assert forall|k: Seq<char>| #[trigger] entry_of(self.rate_limits@, k) == if k == ip@ {
                        Some(g_fresh)
                    } else {
                        entry_of(before, k)
                    } by {
                        lemma_entry_push(before, g_key, g_fresh, k);
                    }
                }
                self.rate_limits.len() - 1
            },
        };
        let ghost mid = self.rate_limits@;
        assert(last_index_of(mid, ip@, idx as int));
        let (key, mut entry) = self.rate_limits.remove(idx);
        let ghost prev = entry@;
        let was_blocked = entry.blocked_until;
        let allowed = entry.register_request(now, self.config.rate_limit_requests_per_minute);
        let count = entry.requests.len();
        let until = entry.blocked_until;
        self.rate_limits.insert(idx, (key, entry));
        proof {
            assert(self.rate_limits@ =~= mid.update(idx as int, (mid[idx as int].0, entry)));
            assert forall|k: Seq<char>| #[trigger] entry_of(self.rate_limits@, k) == if k == ip@ {
                Some(entry)
            } else {
                entry_of(mid, k)
            } by {
                lemma_entry_update(mid, ip@, idx as int, entry, k);
            }
        }
        if !allowed {
            let mut details: Vec<(String, String)> = Vec::new();
            let severity = match was_blocked {
                Some(b) if now < b => {
                    details.push(detail("blocked_until", decimal_text(b as u64)));
                    SecuritySeverity::Medium
                },
                _ => {
                    details.push(detail("requests_count", decimal_text(count as u64)));
                    details.push(detail("limit", decimal_text(self.config.rate_limit_requests_per_minute as u64)));
                    SecuritySeverity::High
                },
            };
            self.log_security_event(SecurityEvent {
                event_type: SecurityEventType::RateLimitExceeded,
                timestamp: now,
                source_ip: Some(ip.clone()),
                user_id: None,
                session_id: None,
                details,
                severity,
            });
        }
        Ok(allowed)
    }

    /// Lockout check for `username` at `now`: `Ok(false)` while the account
    /// is locked; a lock that has run out is lifted.
    pub fn check_account_lockout(&mut self, username: &String, now: i64) -> (r: AppResult<bool>)
        requires
            old(self).wf(),
        ensures
            final(self).wf(),
            ({
                let (next, ok) = lockout_check(entry_of(old(self).account_security@, username@), now);
                r == Ok::<bool, crate::errors::AppError>(ok) && entry_of(final(self).account_security@, username@) == next
            }),
            forall|k: Seq<char>| k != username@ ==> entry_of(final(self).account_security@, k) == entry_of(old(self).account_security@, k),
            final(self).config == old(self).config,
            final(self).security_events@ == old(self).security_events@,
            final(self).rate_limits@ == old(self).rate_limits@,
    {
        match ledger_get(&self.account_security, username) {
            Some(a) => match a.locked_until {
                Some(l) => {
                    if now < l {
                        Ok(false)
                    } else {
                        let lifted = AccountSecurity { failed_attempts: 0, locked_until: None, ..a };
                        ledger_set(&mut self.account_security, username, lifted);
                        Ok(true)
                    }
                },
                None => Ok(true),
            },
            None => Ok(true),
        }
    }

    /// Records a login attempt for `username` from `ip` at `now`. Success
    /// resets a known account; failure counts against it and locks it for
    /// the configured window once the count reaches the configured maximum.
    pub fn record_login_attempt(
        &mut self,
        username: &String,
        ip: &String,
        success: bool,
        session_id: Option<String>,
        now: i64,
    ) -> (r: AppResult<()>)
        requires
            old(self).wf(),
            valid_time(now),
        ensures
            final(self).wf(),
            r is Ok,
            success ==> entry_of(final(self).account_security@, username@) == after_success(
                entry_of(old(self).account_security@, username@),
                now,
            ),
            !success ==> entry_of(final(self).account_security@, username@) == Some(after_failure(
                entry_of(old(self).account_security@, username@),
                now,
                old(self).config.max_login_attempts,
                old(self).config.lockout_duration_minutes,
            )),
            forall|k: Seq<char>| k != username@ ==> entry_of(final(self).account_security@, k) == entry_of(old(self).account_security@, k),
            journaled(
                old(self).security_events@,
                final(self).security_events@,
                if success {
                    SecurityEventType::LoginSuccess
                } else if after_failure(
                    entry_of(old(self).account_security@, username@),
                    now,
                    old(self).config.max_login_attempts,
                    old(self).config.lockout_duration_minutes,
                ).failed_attempts >= old(self).config.max_login_attempts {
                    SecurityEventType::AccountLockout
                } else {
                    SecurityEventType::LoginFailure
                },
                now,
                Some(ip@),
                Some(username@),
            ),
            final(self).config == old(self).config,
            final(self).rate_limits@ == old(self).rate_limits@,
            final(self).connection_counts@ == old(self).connection_counts@,
            final(self).trusted_fingerprints@ == old(self).trusted_fingerprints@,
    {
        let prev = ledger_get(&self.account_security, username);
        if success {
            if prev.is_some() {
                ledger_set(
                    &mut self.account_security,
                    username,
                    AccountSecurity { failed_attempts: 0, locked_until: None, last_attempt: now },
                );
            }
            self.log_security_event(SecurityEvent {
                event_type: SecurityEventType::LoginSuccess,
                timestamp: now,
                source_ip: Some(ip.clone()),
                user_id: Some(username.clone()),
                session_id,
                details: Vec::new(),
                severity: SecuritySeverity::Low,
            });
        } else {
            let base = match prev {
                Some(a) => a,
                None => AccountSecurity { failed_attempts: 0, locked_until: None, last_attempt: now },
            };
            let failed = base.failed_attempts.saturating_add(1);
            let locked = failed >= self.config.max_login_attempts;
            let locked_until = if locked {
                proof {
                    assert(self.config.lockout_duration_minutes * MINUTE_MS <= MAX_LOCKOUT_MINUTES * MINUTE_MS) by (nonlinear_arith)
                        requires
                            0 <= self.config.lockout_duration_minutes <= MAX_LOCKOUT_MINUTES;
                }
                Some(now + self.config.lockout_duration_minutes * MINUTE_MS)
            } else {
                base.locked_until
            };
            let next = AccountSecurity { failed_attempts: failed, locked_until, last_attempt: now };
            ledger_set(&mut self.account_security, username, next);
            let mut details: Vec<(String, String)> = Vec::new();
            details.push(detail("failed_attempts", decimal_text(failed as u64)));
            if locked {
                details.push(detail("lockout_duration_minutes", decimal_text(self.config.lockout_duration_minutes as u64)));
            } else {
                details.push(detail("max_attempts", decimal_text(self.config.max_login_attempts as u64)));
            }
            self.log_security_event(SecurityEvent {
                event_type: if locked { SecurityEventType::AccountLockout } else { SecurityEventType::LoginFailure },
                timestamp: now,
                source_ip: Some(ip.clone()),
                user_id: Some(username.clone()),
                session_id,
                details,
                severity: if locked { SecuritySeverity::High } else { SecuritySeverity::Medium },
            });
        }
        Ok(())
    }

    /// The fingerprint of a public key; the algorithm label does not enter it.
    pub fn calculate_key_fingerprint(&self, public_key: &[u8], _algorithm: &str) -> (r: String)
        ensures
            r@ == fingerprint_text(public_key@),
    {
        key_fingerprint(public_key)
    }

    /// Whether `fingerprint` is trusted for `username`. Without verification
    /// required every key is trusted; otherwise it must be on the user's
    /// allowlist, and a user with no allowlist is refused. A mismatch is journaled.
    pub fn verify_key_fingerprint(&mut self, username: &String, fingerprint: &SshKeyFingerprint, now: i64) -> (r: AppResult<bool>)
        requires
            old(self).wf(),
        ensures
            final(self).wf(),
            r == Ok::<bool, crate::errors::AppError>(
                !old(self).config.require_key_fingerprint_verification || match entry_of(
                    old(self).trusted_fingerprints@,
                    username@,
                ) {
                    Some(list) => fingerprint_listed(list@, *fingerprint),
                    None => false,
                },
            ),
            r == Ok::<bool, crate::errors::AppError>(false) && entry_of(old(self).trusted_fingerprints@, username@) is Some
                ==> journaled(
                old(self).security_events@,
                final(self).security_events@,
                SecurityEventType::KeyFingerprintMismatch,
                now,
                None,
                Some(username@),
            ),
            !(r == Ok::<bool, crate::errors::AppError>(false) && entry_of(old(self).trusted_fingerprints@, username@) is Some)
                ==> final(self).security_events@ == old(self).security_events@,
            final(self).config == old(self).config,
            final(self).rate_limits@ == old(self).rate_limits@,
            final(self).account_security@ == old(self).account_security@,
            final(self).connection_counts@ == old(self).connection_counts@,
            final(self).trusted_fingerprints@ == old(self).trusted_fingerprints@,
    {
        if !self.config.require_key_fingerprint_verification {
            return Ok(true);
        }
        match find_key(&self.trusted_fingerprints, username) {
            Some(i) => {
                let list = &self.trusted_fingerprints[i].1;
                let mut found = false;
                let mut j: usize = 0;
                while j < list.len()
                    invariant
                        j <= list@.len(),
                        found <==> exists|m: int|
                            0 <= m < j && (#[trigger] list@[m]).fingerprint@ == fingerprint.fingerprint@
                                && list@[m].algorithm@ == fingerprint.algorithm@,
                    decreases list@.len() - j,
                {
                    if list[j].fingerprint == fingerprint.fingerprint && list[j].algorithm == fingerprint.algorithm {
                        found = true;
                    }
                    j = j + 1;
                }
                if !found {
                    let mut details: Vec<(String, String)> = Vec::new();
                    details.push(detail("provided_fingerprint", fingerprint.fingerprint.clone()));
                    details.push(detail("algorithm", fingerprint.algorithm.clone()));
                    self.log_security_event(SecurityEvent {
                        event_type: SecurityEventType::KeyFingerprintMismatch,
                        timestamp: now,
                        source_ip: None,
                        user_id: Some(username.clone()),
                        session_id: None,
                        details,
                        severity: SecuritySeverity::High,
                    });
                }
                Ok(found)
            },
            None => Ok(false),
        }
    }

    /// Adds a fingerprint to the allowlist of `username`.
    pub fn add_trusted_fingerprint(&mut self, username: &String, fingerprint: SshKeyFingerprint)
        ensures
            ({
                let prev = match entry_of(old(self).trusted_fingerprints@, username@) {
                    Some(l) => l@,
                    None => Seq::<SshKeyFingerprint>::empty(),
                };
                match entry_of(final(self).trusted_fingerprints@, username@) {
                    Some(l) => l@ == prev.push(fingerprint),
                    None => false,
                }
            }),
            forall|k: Seq<char>| k != username@ ==> entry_of(final(self).trusted_fingerprints@, k) == entry_of(old(self).trusted_fingerprints@, k),
            final(self).config == old(self).config,
            final(self).security_events@ == old(self).security_events@,
            final(self).rate_limits@ == old(self).rate_limits@,
            final(self).account_security@ == old(self).account_security@,
            final(self).connection_counts@ == old(self).connection_counts@,
    {
        let ghost g_fp = fingerprint;
        match find_key(&self.trusted_fingerprints, username) {
            Some(i) => {
                let ghost before = self.trusted_fingerprints@;
                let (key, mut list) = self.trusted_fingerprints.remove(i);
                list.push(fingerprint);
                let ghost g_list = list;
                self.trusted_fingerprints.insert(i, (key, list));
                proof {
                    assert(self.trusted_fingerprints@ =~= before.update(i as int, (before[i as int].0, g_list)));
                    assert forall|k: Seq<char>| k != username@ implies entry_of(self.trusted_fingerprints@, k) == entry_of(before, k) by {
                        lemma_entry_update(before, username@, i as int, g_list, k);
                    }
                    lemma_entry_update(before, username@, i as int, g_list, username@);
                }
            },
            None => {
                let mut list: Vec<SshKeyFingerprint> = Vec::new();
                list.push(fingerprint);
                proof {
                    assert(list@ =~= Seq::<SshKeyFingerprint>::empty().push(g_fp));
                }
                ledger_set(&mut self.trusted_fingerprints, username, list);
            },
        }
    }

    /// Counts a new connection from `ip`; refuses it (`Ok(false)`) when the
    /// address then holds more than the configured maximum. The count is
    /// kept either way, to be given back by `release_connection`.
    pub fn track_connection(&mut self, ip: &String, now: i64) -> (r: AppResult<bool>)
        requires
            old(self).wf(),
        ensures
            final(self).wf(),
            !old(self).config.enable_ddos_protection ==> r == Ok::<bool, crate::errors::AppError>(true)
                && final(self).connection_counts@ == old(self).connection_counts@,
            old(self).config.enable_ddos_protection ==> ({
                let prev = match entry_of(old(self).connection_counts@, ip@) {
                    Some(c) => c,
                    None => 0u32,
                };
                let next = if prev == u32::MAX { u32::MAX } else { (prev + 1) as u32 };
                entry_of(final(self).connection_counts@, ip@) == Some(next)
                    && r == Ok::<bool, crate::errors::AppError>(next <= old(self).config.max_concurrent_connections_per_ip)
            }),
            r == Ok::<bool, crate::errors::AppError>(false) ==> journaled(
                old(self).security_events@,
                final(self).security_events@,
                SecurityEventType::DdosDetected,
                now,
                Some(ip@),
                None,
            ),
            r == Ok::<bool, crate::errors::AppError>(true) ==> final(self).security_events@ == old(self).security_events@,
            forall|k: Seq<char>| k != ip@ ==> entry_of(final(self).connection_counts@, k) == entry_of(old(self).connection_counts@, k),
            final(self).config == old(self).config,
            final(self).rate_limits@ == old(self).rate_limits@,
            final(self).account_security@ == old(self).account_security@,
            final(self).trusted_fingerprints@ == old(self).trusted_fingerprints@,
    {
        if !self.config.enable_ddos_protection {
            return Ok(true);
        }
        let prev = match ledger_get(&self.connection_counts, ip) {
            Some(c) => c,
            None => 0,
        };
        let next = prev.saturating_add(1);
        ledger_set(&mut self.connection_counts, ip, next);
        if next > self.config.max_concurrent_connections_per_ip {
            let mut details: Vec<(String, String)> = Vec::new();
            details.push(detail("connection_count", decimal_text(next as u64)));
            details.push(detail("max_allowed", decimal_text(self.config.max_concurrent_connections_per_ip as u64)));
            self.log_security_event(SecurityEvent {
                event_type: SecurityEventType::DdosDetected,
                timestamp: now,
                source_ip: Some(ip.clone()),
                user_id: None,
                session_id: None,
                details,
                severity: SecuritySeverity::Critical,
            });
            return Ok(false);
        }
        Ok(true)
    }

    /// Gives back one connection of `ip`; a count never goes below zero and
    /// an unknown address is left unknown.
    pub fn release_connection(&mut self, ip: &String)
        requires
            old(self).wf(),
        ensures
            final(self).wf(),
            entry_of(final(self).connection_counts@, ip@) == match entry_of(old(self).connection_counts@, ip@) {
                Some(c) => Some(if c > 0 { (c - 1) as u32 } else { 0u32 }),
                None => None,
            },
            forall|k: Seq<char>| k != ip@ ==> entry_of(final(self).connection_counts@, k) == entry_of(old(self).connection_counts@, k),
            final(self).config == old(self).config,
            final(self).security_events@ == old(self).security_events@,
            final(self).rate_limits@ == old(self).rate_limits@,
            final(self).account_security@ == old(self).account_security@,
            final(self).trusted_fingerprints@ == old(self).trusted_fingerprints@,
    {
        if let Some(c) = ledger_get(&self.connection_counts, ip) {
            let next = if c > 0 { c - 1 } else { 0 };
            ledger_set(&mut self.connection_counts, ip, next);
        }
    }

    /// Counters at `now`: journaled events in total, in the last hour and
    /// day, critical ones in the last day; addresses with rate-limit state;
    /// accounts locked at `now`; connections held (saturating).
    pub fn get_security_stats(&self, now: i64) -> (r: SecurityStats)
        ensures
            r.total_events == self.security_events@.len(),
            r.events_last_hour == count_events(self.security_events@, now as int - 3_600_000, false),
            r.events_last_day == count_events(self.security_events@, now as int - 86_400_000, false),
            r.critical_events_last_day == count_events(self.security_events@, now as int - 86_400_000, true),
            r.active_rate_limits == self.rate_limits@.len(),
            r.locked_accounts == count_locked(self.account_security@, now),
            r.active_connections == sum_counts(self.connection_counts@),
    {
        let hour_cut: i128 = now as i128 - 3_600_000;
        let day_cut: i128 = now as i128 - 86_400_000;
        let mut hour: usize = 0;
        let mut day: usize = 0;
        let mut critical: usize = 0;
        let mut i: usize = 0;
        while i < self.security_events.len()
            invariant
                i <= self.security_events@.len(),
                hour_cut == now - 3_600_000,
                day_cut == now - 86_400_000,
                hour == count_events(self.security_events@.subrange(0, i as int), now as int - 3_600_000, false),
                day == count_events(self.security_events@.subrange(0, i as int), now as int - 86_400_000, false),
                critical == count_events(self.security_events@.subrange(0, i as int), now as int - 86_400_000, true),
                hour <= i,
                day <= i,
                critical <= i,
            decreases self.security_events@.len() - i,
        {
            assert(self.security_events@.subrange(0, i as int + 1).drop_last() =~= self.security_events@.subrange(0, i as int));
            let e = &self.security_events[i];
            if e.timestamp as i128 > hour_cut {
                hour = hour + 1;
            }
            if e.timestamp as i128 > day_cut {
                day = day + 1;
                if e.severity == SecuritySeverity::Critical {
                    critical = critical + 1;
                }
            }
            i = i + 1;
        }
        assert(self.security_events@.subrange(0, i as int) =~= self.security_events@);
        let mut locked: usize = 0;
        let mut j: usize = 0;
        while j < self.account_security.len()
            invariant
                j <= self.account_security@.len(),
                locked == count_locked(self.account_security@.subrange(0, j as int), now),
                locked <= j,
            decreases self.account_security@.len() - j,
        {
            assert(self.account_security@.subrange(0, j as int + 1).drop_last() =~= self.account_security@.subrange(0, j as int));
            if let Some(until) = self.account_security[j].1.locked_until {
                if until > now {
                    locked = locked + 1;
                }
            }
            j = j + 1;
        }
        assert(self.account_security@.subrange(0, j as int) =~= self.account_security@);
        let mut held: u32 = 0;
        let mut m: usize = 0;
        while m < self.connection_counts.len()
            invariant
                m <= self.connection_counts@.len(),
                held == sum_counts(self.connection_counts@.subrange(0, m as int)),
            decreases self.connection_counts@.len() - m,
        {
            assert(self.connection_counts@.subrange(0, m as int + 1).drop_last() =~= self.connection_counts@.subrange(0, m as int));
            held = held.saturating_add(self.connection_counts[m].1);
            m = m + 1;
        }
        assert(self.connection_counts@.subrange(0, m as int) =~= self.connection_counts@);
        SecurityStats {
            total_events: self.security_events.len(),
            events_last_hour: hour,
            events_last_day: day,
            active_rate_limits: self.rate_limits.len(),
            locked_accounts: locked,
            active_connections: held,
            critical_events_last_day: critical,
        }
    }

    /// Drops expired state at `now`: rate-limit entries whose block has run
    /// out or, when unblocked, with no request in the last five minutes;
    /// accounts neither locked at `now` nor tried in the last five minutes;
    /// journaled events older than the retention window.
    pub fn cleanup_expired_data(&mut self, now: i64)
        requires
            old(self).wf(),
        ensures
            final(self).wf(),
            final(self).config == old(self).config,
            final(self).rate_limits@ == kept_rate_limits(old(self).rate_limits@, now),
            final(self).account_security@ == kept_accounts(old(self).account_security@, now),
            final(self).security_events@ == kept_events(old(self).security_events@, now as int - old(self).config.audit_log_retention_days * 86_400_000),
            final(self).connection_counts@ == old(self).connection_counts@,
            final(self).trusted_fingerprints@ == old(self).trusted_fingerprints@,
    {
        let cutoff: i128 = now as i128 - 300_000;
        let retention: i128 = now as i128 - (self.config.audit_log_retention_days as i128) * 86_400_000;

        let ghost rl = self.rate_limits@;
        let mut rest: Vec<(String, RateLimitEntry)> = Vec::new();
        core::mem::swap(&mut self.rate_limits, &mut rest);
        let mut kept: Vec<(String, RateLimitEntry)> = Vec::new();
        let ghost mut i: int = 0;
        while rest.len() > 0
            invariant
                0 <= i <= rl.len(),
                cutoff == now - 300_000,
                rest@ == rl.subrange(i, rl.len() as int),
                kept@ == kept_rate_limits(rl.subrange(0, i), now),
            decreases rest@.len(),
        {
            assert(rl.subrange(0, i + 1).drop_last() =~= rl.subrange(0, i));
            let entry = rest.remove(0);
            assert(entry == rl[i]);
            let keep = match entry.1.blocked_until {
                Some(b) => b > now,
                None => {
                    let mut any = false;
                    let mut k: usize = 0;
                    while k < entry.1.requests.len()
                        invariant
                            k <= entry.1.requests@.len(),
                            cutoff == now - 300_000,
                            any <==> exists|x: int| 0 <= x < k && #[trigger] entry.1.requests@[x] > now - 300_000,
                        decreases entry.1.requests@.len() - k,
                    {
                        if entry.1.requests[k] as i128 > cutoff {
                            any = true;
                        }
                        k = k + 1;
                    }
                    any
                },
            };
            if keep {
                kept.push(entry);
            }
            proof {
                i = i + 1;
            }
            assert(rest@ =~= rl.subrange(i, rl.len() as int));
        }
        assert(rl.subrange(0, i) =~= rl);
        self.rate_limits = kept;

        let ghost ac = self.account_security@;
        let mut rest2: Vec<(String, AccountSecurity)> = Vec::new();
        core::mem::swap(&mut self.account_security, &mut rest2);
        let mut kept2: Vec<(String, AccountSecurity)> = Vec::new();
        let ghost mut j: int = 0;
        while rest2.len() > 0
            invariant
                0 <= j <= ac.len(),
                cutoff == now - 300_000,
                rest2@ == ac.subrange(j, ac.len() as int),
                kept2@ == kept_accounts(ac.subrange(0, j), now),
            decreases rest2@.len(),
        {
            assert(ac.subrange(0, j + 1).drop_last() =~= ac.subrange(0, j));
            let entry = rest2.remove(0);
            assert(entry == ac[j]);
            let recent = entry.1.last_attempt as i128 > cutoff;
            let keep = match entry.1.locked_until {
                Some(l) => l > now || recent,
                None => recent,
            };
            if keep {
                kept2.push(entry);
            }
            proof {
                j = j + 1;
            }
            assert(rest2@ =~= ac.subrange(j, ac.len() as int));
        }
        assert(ac.subrange(0, j) =~= ac);
        self.account_security = kept2;

        let ghost ev = self.security_events@;
        let mut rest3: Vec<SecurityEvent> = Vec::new();
        core::mem::swap(&mut self.security_events, &mut rest3);
        let mut kept3: Vec<SecurityEvent> = Vec::new();
        let ghost mut m: int = 0;
        while rest3.len() > 0
            invariant
                0 <= m <= ev.len(),
                ev.len() <= EVENT_RING_CAP,
                retention == now - old(self).config.audit_log_retention_days * 86_400_000,
                rest3@ == ev.subrange(m, ev.len() as int),
                kept3@ == kept_events(ev.subrange(0, m), retention as int),
                kept3@.len() <= m,
            decreases rest3@.len(),
        {
            assert(ev.subrange(0, m + 1).drop_last() =~= ev.subrange(0, m));
            let e = rest3.remove(0);
            assert(e == ev[m]);
            if e.timestamp as i128 > retention {
                kept3.push(e);
            }
            proof {
                m = m + 1;
            }
            assert(rest3@ =~= ev.subrange(m, ev.len() as int));
        }
        assert(ev.subrange(0, m) =~= ev);
        self.security_events = kept3;
    }
}

} // verus!

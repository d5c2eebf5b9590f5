use vstd::prelude::*;
use vstd::string::StringExecFns;
use crate::errors::{AppError, AppResult};
use crate::text::{texts, clone_opt_text, opt_text, last_path_segment, last_segment, octal_text, octal_of, decode_lossy, lossy_utf8};
use crate::autocomplete::{AutocompleteSuggestion, generate_suggestions, suggestions_for, views, word_at};

verus! {

/// Default idle window after which the sweeper removes a session: 30 minutes.
pub const DEFAULT_SESSION_TIMEOUT_MS: i64 = 1_800_000;
/// Default PTY size.
pub const DEFAULT_COLS: u16 = 80;
pub const DEFAULT_ROWS: u16 = 24;

/// Where and how to reach a remote host.
#[derive(Debug, Clone)]
pub struct SSHConnectionConfig {
    pub id: String,
    pub hostname: String,
    pub port: u16,
    pub username: String,
    pub password: Option<String>,
    pub private_key: Option<String>,
    pub passphrase: Option<String>,
    pub keep_alive: Option<bool>,
    pub ready_timeout: Option<u32>,
}

impl SSHConnectionConfig {
    pub open spec fn same_as(&self, o: SSHConnectionConfig) -> bool {
        self.id@ == o.id@ && self.hostname@ == o.hostname@ && self.port == o.port && self.username@ == o.username@
            && opt_text(self.password) == opt_text(o.password) && opt_text(self.private_key) == opt_text(o.private_key)
            && opt_text(self.passphrase) == opt_text(o.passphrase) && self.keep_alive == o.keep_alive
            && self.ready_timeout == o.ready_timeout
    }

    /// A usable configuration: a host and a user, a non-zero port, and
    /// exactly one of a password and a private key.
    pub open spec fn valid(&self) -> bool {
        self.hostname@.len() > 0 && self.username@.len() > 0 && self.port != 0
            && (self.password is Some) != (self.private_key is Some)
    }

    pub fn duplicate(&self) -> (r: Self)
        ensures
            r.same_as(*self),
    {
        SSHConnectionConfig {
            id: self.id.clone(),
            hostname: self.hostname.clone(),
            port: self.port,
            username: self.username.clone(),
            password: clone_opt_text(&self.password),
            private_key: clone_opt_text(&self.private_key),
            passphrase: clone_opt_text(&self.passphrase),
            keep_alive: self.keep_alive,
            ready_timeout: self.ready_timeout,
        }
    }
}

/// Checks a configuration before a session is created for it.
pub fn validate_config(config: &SSHConnectionConfig) -> (r: AppResult<()>)
    ensures
        config.valid() <==> r is Ok,
        r is Err ==> r matches Err(AppError::InvalidConfiguration(_)),
{
    if config.hostname.as_str().unicode_len() == 0 {
        return Err(AppError::InvalidConfiguration(String::from_str("Hostname cannot be empty")));
    }
    if config.username.as_str().unicode_len() == 0 {
        return Err(AppError::InvalidConfiguration(String::from_str("Username cannot be empty")));
    }
    if config.port == 0 {
        return Err(AppError::InvalidConfiguration(String::from_str("Port number cannot be 0")));
    }
    if config.password.is_none() && config.private_key.is_none() {
        return Err(AppError::InvalidConfiguration(String::from_str("Either password or private key must be provided")));
    }
    if config.password.is_some() && config.private_key.is_some() {
        return Err(AppError::InvalidConfiguration(String::from_str("Only one of password or private key may be provided")));
    }
    Ok(())
}

/// The public record of a session.
#[derive(Debug, Clone)]
pub struct SSHSession {
    pub id: String,
    pub config: SSHConnectionConfig,
    pub connected: bool,
    pub last_activity: i64,
    pub created_at: i64,
}

impl SSHSession {
    pub open spec fn same_as(&self, o: SSHSession) -> bool {
        self.id@ == o.id@ && self.config.same_as(o.config) && self.connected == o.connected
            && self.last_activity == o.last_activity && self.created_at == o.created_at
    }

    pub fn duplicate(&self) -> (r: Self)
        ensures
            r.same_as(*self),
    {
        SSHSession {
            id: self.id.clone(),
            config: self.config.duplicate(),
            connected: self.connected,
            last_activity: self.last_activity,
            created_at: self.created_at,
        }
    }
}

/// A registry entry: the session record and which transport handles are
/// open for it (the SSH session, the shell channel, the file-transfer channel).
pub struct SSHSessionData {
    pub session: SSHSession,
    pub ssh_session: bool,
    pub shell: bool,
    pub sftp: bool,
}

impl SSHSessionData {
    /// `connected` tells whether the SSH session is open, and the channels
    /// exist only over an open SSH session.
    pub open spec fn wf(&self) -> bool {
        self.session.connected == self.ssh_session && (self.shell ==> self.ssh_session) && (self.sftp ==> self.ssh_session)
    }

    pub open spec fn handles(&self) -> (bool, bool, bool) {
        (self.ssh_session, self.shell, self.sftp)
    }
}

/// The entry after activity at `now`; the activity stamp never moves back.
pub open spec fn touched(d: SSHSessionData, now: i64) -> SSHSessionData {
    SSHSessionData {
        session: SSHSession {
            last_activity: if now > d.session.last_activity { now } else { d.session.last_activity },
            ..d.session
        },
        ..d
    }
}

/// The entry after a disconnect: every handle released.
pub open spec fn disconnected(d: SSHSessionData) -> SSHSessionData {
    SSHSessionData { session: SSHSession { connected: false, ..d.session }, ssh_session: false, shell: false, sftp: false, ..d }
}

pub open spec fn has_session(s: Seq<SSHSessionData>, id: Seq<char>) -> bool {
    exists|i: int| 0 <= i < s.len() && (#[trigger] s[i]).session.id@ == id
}

/// Position of session `id`, if present.
pub open spec fn is_index_of(s: Seq<SSHSessionData>, id: Seq<char>, i: int) -> bool {
    0 <= i < s.len() && s[i].session.id@ == id
}

/// Every entry kept its place and identity, and no activity stamp moved back.
pub open spec fn activity_kept(old: Seq<SSHSessionData>, new: Seq<SSHSessionData>) -> bool {
    old.len() == new.len() && forall|i: int|
        0 <= i < old.len() ==> (#[trigger] new[i]).session.id@ == old[i].session.id@
            && new[i].session.last_activity >= old[i].session.last_activity
}

/// One entry of a remote directory, as the file-transfer channel reports it.
pub struct RemoteEntry {
    pub path: String,
    pub size: Option<u64>,
    pub is_directory: bool,
    pub modified: Option<u64>,
    pub permissions: Option<u32>,
}

#[derive(Debug, Clone)]
pub struct SftpFileInfo {
    pub name: String,
    pub path: String,
    pub size: u64,
    pub is_directory: bool,
    pub modified: Option<i64>,
    pub permissions: Option<String>,
}

/// The listing entry for a remote entry: named after the last path
/// segment (`unknown` when that is empty), size 0 when unknown, modification
/// time as given, permissions in octal.
pub open spec fn file_info_spec(e: RemoteEntry, f: SftpFileInfo) -> bool {
    &&& f.name@ == if last_segment(e.path@).len() == 0 { "unknown"@ } else { last_segment(e.path@) }
    &&& f.path@ == e.path@
    &&& f.size == match e.size { Some(n) => n, None => 0 }
    &&& f.is_directory == e.is_directory
    &&& f.modified == match e.modified {
        Some(t) => Some(if t <= i64::MAX as u64 { t as i64 } else { i64::MAX }),
        None => None,
    }
    &&& opt_text(f.permissions) == match e.permissions {
        Some(p) => Some(octal_of(p as nat)),
        None => None,
    }
}

pub fn file_info(e: &RemoteEntry) -> (r: SftpFileInfo)
    ensures
        file_info_spec(*e, r),
{
    let seg = last_path_segment(e.path.as_str());
    let name = if seg.as_str().unicode_len() == 0 { String::from_str("unknown") } else { seg };
    SftpFileInfo {
        name,
        path: e.path.clone(),
        size: match e.size { Some(n) => n, None => 0 },
        is_directory: e.is_directory,
        modified: match e.modified {
            Some(t) => Some(if t <= i64::MAX as u64 { t as i64 } else { i64::MAX }),
            None => None,
        },
        permissions: match e.permissions {
            Some(p) => Some(octal_text(p)),
            None => None,
        },
    }
}

/// Whether the sweeper takes `d` away at `now`: idle for longer than `timeout_ms`.
pub open spec fn expired(d: SSHSessionData, now: i64, timeout_ms: i64) -> bool {
    now - d.session.last_activity > timeout_ms
}

/// The entries the sweeper leaves, in their order.
pub open spec fn live_sessions(s: Seq<SSHSessionData>, now: i64, timeout_ms: i64) -> Seq<SSHSessionData>
    decreases s.len(),
{
    if s.len() == 0 {
        s
    } else if expired(s.last(), now, timeout_ms) {
        live_sessions(s.drop_last(), now, timeout_ms)
    } else {
        live_sessions(s.drop_last(), now, timeout_ms).push(s.last())
    }
}

/// The identities of the entries the sweeper takes away, in their order.
pub open spec fn expired_ids(s: Seq<SSHSessionData>, now: i64, timeout_ms: i64) -> Seq<Seq<char>>
    decreases s.len(),
{
    if s.len() == 0 {
        Seq::empty()
    } else if expired(s.last(), now, timeout_ms) {
        expired_ids(s.drop_last(), now, timeout_ms).push(s.last().session.id@)
    } else {
        expired_ids(s.drop_last(), now, timeout_ms)
    }
}

/// After a disconnect, an entry holds no handle, and activity on it (input,
/// resize, a read) opens none: only a new connection gives it a transport
/// again, and neither a shell nor a file-transfer channel can be opened
/// without one.
pub proof fn law_no_leaked_transport(d: SSHSessionData, now: i64)
    ensures
        disconnected(d).handles() == (false, false, false),
        touched(disconnected(d), now).handles() == (false, false, false),
        disconnected(d).wf(),
{
}

/// Activity never moves a session's activity stamp back, and a disconnect
/// leaves it as it was.
pub proof fn law_activity_monotone(d: SSHSessionData, now: i64)
    ensures
        touched(d, now).session.last_activity >= d.session.last_activity,
        touched(d, now).session.last_activity >= now,
        disconnected(d).session.last_activity == d.session.last_activity,
{
}

/// The session registry.
pub struct SSHManager {
    pub sessions: Vec<SSHSessionData>,
    pub session_timeout_ms: i64,
}

impl SSHManager {
    pub open spec fn wf(&self) -> bool {
        &&& forall|i: int| 0 <= i < self.sessions@.len() ==> (#[trigger] self.sessions@[i]).wf()
        &&& forall|i: int, j: int|
            0 <= i < j < self.sessions@.len() ==> (#[trigger] self.sessions@[i]).session.id@ != (#[trigger] self.sessions@[j]).session.id@
    }

    pub fn new() -> (r: Self)
        ensures
            r.wf(),
            r.sessions@.len() == 0,
            r.session_timeout_ms == DEFAULT_SESSION_TIMEOUT_MS,
    {
        SSHManager { sessions: Vec::new(), session_timeout_ms: DEFAULT_SESSION_TIMEOUT_MS }
    }

    pub fn with_timeout(session_timeout_ms: i64) -> (r: Self)
        ensures
            r.wf(),
            r.sessions@.len() == 0,
            r.session_timeout_ms == session_timeout_ms,
    {
        SSHManager { sessions: Vec::new(), session_timeout_ms }
    }

    fn find(&self, id: &String) -> (r: Option<usize>)
        requires
            self.wf(),
        ensures
            match r {
                Some(i) => is_index_of(self.sessions@, id@, i as int),
                None => !has_session(self.sessions@, id@),
            },
    {
        let mut i: usize = 0;
        while i < self.sessions.len()
            invariant
                i <= self.sessions@.len(),
                forall|j: int| 0 <= j < i ==> (#[trigger] self.sessions@[j]).session.id@ != id@,
            decreases self.sessions@.len() - i,
        {
            if self.sessions[i].session.id == *id {
                return Some(i);
            }
            i = i + 1;
        }
        None
    }

    /// Replaces the entry at `i` by `d`, which keeps its identity.
    fn put(&mut self, i: usize, d: SSHSessionData)
        requires
            old(self).wf(),
            i < old(self).sessions@.len(),
            d.session.id@ == old(self).sessions@[i as int].session.id@,
            d.wf(),
        ensures
            final(self).wf(),
            final(self).sessions@ == old(self).sessions@.update(i as int, d),
            final(self).session_timeout_ms == old(self).session_timeout_ms,
    {
        let ghost before = self.sessions@;
        let _ = self.sessions.remove(i);
        self.sessions.insert(i, d);
        assert(self.sessions@ =~= before.update(i as int, d));
    }

    fn touch_at(&mut self, i: usize, now: i64)
        requires
            old(self).wf(),
            i < old(self).sessions@.len(),
        ensures
            final(self).wf(),
            final(self).sessions@ == old(self).sessions@.update(i as int, touched(old(self).sessions@[i as int], now)),
            final(self).session_timeout_ms == old(self).session_timeout_ms,
    {
        let d = self.sessions.remove(i);
        let last = if now > d.session.last_activity { now } else { d.session.last_activity };
        let next = SSHSessionData { session: SSHSession { last_activity: last, ..d.session }, ..d };
        self.sessions.insert(i, next);
        assert(self.sessions@ =~= old(self).sessions@.update(i as int, touched(old(self).sessions@[i as int], now)));
    }

    /// Inserts a session for `config`, not yet connected, stamped `now`. A
    /// session already registered under the same identity is replaced.
    pub fn create_session(&mut self, config: SSHConnectionConfig, now: i64) -> (r: AppResult<SSHSession>)
        requires
            old(self).wf(),
        ensures
            final(self).wf(),
            final(self).session_timeout_ms == old(self).session_timeout_ms,
            !config.valid() ==> (r matches Err(AppError::InvalidConfiguration(_)) && final(self).sessions@ == old(self).sessions@),
            config.valid() ==> (r matches Ok(s) && s.id@ == config.id@ && s.config.same_as(config) && !s.connected
                && s.last_activity == now && s.created_at == now),
            config.valid() ==> ({
                let n = final(self).sessions@.len();
                &&& n >= 1
                &&& final(self).sessions@[n - 1].session.id@ == config.id@
                &&& final(self).sessions@[n - 1].session.config.same_as(config)
                &&& final(self).sessions@[n - 1].handles() == (false, false, false)
                &&& final(self).sessions@[n - 1].session.last_activity == now
                &&& n == old(self).sessions@.len() + if has_session(old(self).sessions@, config.id@) { 0int } else { 1int }
                &&& forall|k: Seq<char>| k != config.id@ ==> (has_session(final(self).sessions@, k) == has_session(old(self).sessions@, k))
            }),
    {
        if let Err(e) = validate_config(&config) {
            return Err(e);
        }
        let ghost before = self.sessions@;
        if let Some(i) = self.find(&config.id) {
            let _ = self.sessions.remove(i);
            proof {
                assert forall|k: Seq<char>| k != config.id@ implies has_session(self.sessions@, k) == has_session(before, k) by {
                    if has_session(before, k) {
                        let j = choose|j: int| 0 <= j < before.len() && (#[trigger] before[j]).session.id@ == k;
                        if j < i { assert(self.sessions@[j] == before[j]); } else { assert(self.sessions@[j - 1] == before[j]); }
                    }
                    if has_session(self.sessions@, k) {
                        let j = choose|j: int| 0 <= j < self.sessions@.len() && (#[trigger] self.sessions@[j]).session.id@ == k;
                        if j < i { assert(self.sessions@[j] == before[j]); } else { assert(self.sessions@[j] == before[j + 1]); }
                    }
                }
                assert forall|j: int| 0 <= j < self.sessions@.len() implies (#[trigger] self.sessions@[j]).session.id@ != config.id@ by {
                    if j < i { assert(self.sessions@[j] == before[j]); } else { assert(self.sessions@[j] == before[j + 1]); }
                }
            }
        }
        let ghost mid = self.sessions@;
        let session = SSHSession {
            id: config.id.clone(),
            config: config.duplicate(),
            connected: false,
            last_activity: now,
            created_at: now,
        };
        let result = session.duplicate();
        self.sessions.push(SSHSessionData { session, ssh_session: false, shell: false, sftp: false });
        proof {
            assert(forall|j: int| 0 <= j < mid.len() ==> self.sessions@[j] == mid[j]);
            assert forall|k: Seq<char>| k != config.id@ implies has_session(self.sessions@, k) == has_session(mid, k) by {
                if has_session(self.sessions@, k) {
                    let j = choose|j: int| 0 <= j < self.sessions@.len() && (#[trigger] self.sessions@[j]).session.id@ == k;
                    assert(j < mid.len());
                    assert(self.sessions@[j] == mid[j]);
                }
                if has_session(mid, k) {
                    let j = choose|j: int| 0 <= j < mid.len() && (#[trigger] mid[j]).session.id@ == k;
                    assert(self.sessions@[j] == mid[j]);
                }
            }
        }
        Ok(result)
    }

    /// Records that the SSH session of `id` is open and authenticated.
    pub fn mark_connected(&mut self, session_id: &String, now: i64) -> (r: AppResult<()>)
        requires
            old(self).wf(),
        ensures
            final(self).wf(),
            final(self).session_timeout_ms == old(self).session_timeout_ms,
            !has_session(old(self).sessions@, session_id@) ==> (r matches Err(AppError::SessionNotFound(_)) && final(self).sessions@ == old(self).sessions@),
            has_session(old(self).sessions@, session_id@) ==> r is Ok && activity_kept(old(self).sessions@, final(self).sessions@)
                && forall|i: int| #![trigger old(self).sessions@[i]] is_index_of(old(self).sessions@, session_id@, i) ==> final(self).sessions@[i] == touched(
                    SSHSessionData {
                        session: SSHSession { connected: true, ..old(self).sessions@[i].session },
                        ssh_session: true,
                        ..old(self).sessions@[i]
                    },
                    now,
                ),
    {
        match self.find(session_id) {
            None => Err(AppError::SessionNotFound(session_id.clone())),
            Some(i) => {
                let d = self.sessions.remove(i);
                let last = if now > d.session.last_activity { now } else { d.session.last_activity };
                let next = SSHSessionData {
                    session: SSHSession { connected: true, last_activity: last, ..d.session },
                    ssh_session: true,
                    ..d
                };
                self.sessions.insert(i, next);
                assert(self.sessions@ =~= old(self).sessions@.update(i as int, next));
                Ok(())
            },
        }
    }

    /// Records that an interactive shell was opened for `id`; this needs an
    /// open SSH session.
    pub fn create_shell(&mut self, session_id: &String, now: i64) -> (r: AppResult<()>)
        requires
            old(self).wf(),
        ensures
            final(self).wf(),
            final(self).session_timeout_ms == old(self).session_timeout_ms,
            !has_session(old(self).sessions@, session_id@) ==> (r matches Err(AppError::SessionNotFound(_)) && final(self).sessions@ == old(self).sessions@),
            forall|i: int| #![trigger old(self).sessions@[i]] is_index_of(old(self).sessions@, session_id@, i) ==> if old(self).sessions@[i].ssh_session {
                r is Ok && final(self).sessions@ == old(self).sessions@.update(i, touched(SSHSessionData { shell: true, ..old(self).sessions@[i] }, now))
            } else {
                r matches Err(AppError::SSHConnectionFailed(_)) && final(self).sessions@ == old(self).sessions@
            },
    {
        match self.find(session_id) {
            None => Err(AppError::SessionNotFound(session_id.clone())),
            Some(i) => {
                if !self.sessions[i].ssh_session {
                    return Err(AppError::SSHConnectionFailed(String::from_str("No SSH session available")));
                }
                let d = self.sessions.remove(i);
                let last = if now > d.session.last_activity { now } else { d.session.last_activity };
                let next = SSHSessionData { session: SSHSession { last_activity: last, ..d.session }, shell: true, ..d };
                self.sessions.insert(i, next);
                assert(self.sessions@ =~= old(self).sessions@.update(i as int, next));
                Ok(())
            },
        }
    }

    /// Records activity on the shell of `id` (input written or the PTY
    /// resized). A session without a shell is left as it is.
    pub fn write_to_shell(&mut self, session_id: &String, now: i64) -> (r: AppResult<()>)
        requires
            old(self).wf(),
        ensures
            final(self).wf(),
            final(self).session_timeout_ms == old(self).session_timeout_ms,
            !has_session(old(self).sessions@, session_id@) ==> (r matches Err(AppError::SessionNotFound(_)) && final(self).sessions@ == old(self).sessions@),
            forall|i: int| #![trigger old(self).sessions@[i]] is_index_of(old(self).sessions@, session_id@, i) ==> r is Ok
                && final(self).sessions@ == if old(self).sessions@[i].shell {
                    old(self).sessions@.update(i, touched(old(self).sessions@[i], now))
                } else {
                    old(self).sessions@
                },
    {
        match self.find(session_id) {
            None => Err(AppError::SessionNotFound(session_id.clone())),
            Some(i) => {
                if self.sessions[i].shell {
                    self.touch_at(i, now);
                }
                Ok(())
            },
        }
    }

    /// Same bookkeeping as `write_to_shell`, for a PTY resize.
    pub fn resize_shell(&mut self, session_id: &String, now: i64) -> (r: AppResult<()>)
        requires
            old(self).wf(),
        ensures
            final(self).wf(),
            final(self).session_timeout_ms == old(self).session_timeout_ms,
            !has_session(old(self).sessions@, session_id@) ==> (r matches Err(AppError::SessionNotFound(_)) && final(self).sessions@ == old(self).sessions@),
            forall|i: int| #![trigger old(self).sessions@[i]] is_index_of(old(self).sessions@, session_id@, i) ==> r is Ok
                && final(self).sessions@ == if old(self).sessions@[i].shell {
                    old(self).sessions@.update(i, touched(old(self).sessions@[i], now))
                } else {
                    old(self).sessions@
                },
    {
        self.write_to_shell(session_id, now)
    }

    /// Takes one chunk read from the shell of `id`. An empty chunk (no data
    /// now, or end of stream) or a session without shell gives `None`; data
    /// is decoded on its own, invalid sequences replaced, and counts as activity.
    pub fn read_from_shell(&mut self, session_id: &String, chunk: &[u8], now: i64) -> (r: AppResult<Option<String>>)
        requires
            old(self).wf(),
        ensures
            final(self).wf(),
            final(self).session_timeout_ms == old(self).session_timeout_ms,
            !has_session(old(self).sessions@, session_id@) ==> (r matches Err(AppError::SessionNotFound(_)) && final(self).sessions@ == old(self).sessions@),
            forall|i: int| #![trigger old(self).sessions@[i]] is_index_of(old(self).sessions@, session_id@, i) ==> if old(self).sessions@[i].shell && chunk@.len() > 0 {
                (r matches Ok(Some(t)) && t@ == lossy_utf8(chunk@))
                    && final(self).sessions@ == old(self).sessions@.update(i, touched(old(self).sessions@[i], now))
            } else {
                r matches Ok(None) && final(self).sessions@ == old(self).sessions@
            },
    {
        match self.find(session_id) {
            None => Err(AppError::SessionNotFound(session_id.clone())),
            Some(i) => {
                if !self.sessions[i].shell || chunk.len() == 0 {
                    return Ok(None);
                }
                self.touch_at(i, now);
                Ok(Some(decode_lossy(chunk)))
            },
        }
    }

    /// Records that the file-transfer channel of `id` is open (it is opened
    /// lazily, on first use); this needs an open SSH session.
    pub fn create_sftp(&mut self, session_id: &String) -> (r: AppResult<()>)
        requires
            old(self).wf(),
        ensures
            final(self).wf(),
            final(self).session_timeout_ms == old(self).session_timeout_ms,
            !has_session(old(self).sessions@, session_id@) ==> (r matches Err(AppError::SessionNotFound(_)) && final(self).sessions@ == old(self).sessions@),
            forall|i: int| #![trigger old(self).sessions@[i]] is_index_of(old(self).sessions@, session_id@, i) ==> if old(self).sessions@[i].ssh_session {
                r is Ok && final(self).sessions@ == old(self).sessions@.update(i, SSHSessionData { sftp: true, ..old(self).sessions@[i] })
            } else {
                r matches Err(AppError::SSHConnectionFailed(_)) && final(self).sessions@ == old(self).sessions@
            },
    {
        match self.find(session_id) {
            None => Err(AppError::SessionNotFound(session_id.clone())),
            Some(i) => {
                if !self.sessions[i].ssh_session {
                    return Err(AppError::SSHConnectionFailed(String::from_str("No SSH session available for SFTP")));
                }
                let d = self.sessions.remove(i);
                let next = SSHSessionData { sftp: true, ..d };
                self.sessions.insert(i, next);
                assert(self.sessions@ =~= old(self).sessions@.update(i as int, next));
                Ok(())
            },
        }
    }

    /// Takes the entries of a remote directory listed for `id`: the channel
    /// is marked open, the listing counts as activity, and each entry becomes
    /// a listing entry.
    pub fn list_directory(&mut self, session_id: &String, entries: &Vec<RemoteEntry>, now: i64) -> (r: AppResult<Vec<SftpFileInfo>>)
        requires
            old(self).wf(),
        ensures
            final(self).wf(),
            final(self).session_timeout_ms == old(self).session_timeout_ms,
            !has_session(old(self).sessions@, session_id@) ==> (r matches Err(AppError::SessionNotFound(_)) && final(self).sessions@ == old(self).sessions@),
            forall|i: int| #![trigger old(self).sessions@[i]] is_index_of(old(self).sessions@, session_id@, i) ==> if old(self).sessions@[i].ssh_session {
                (r matches Ok(files) && files@.len() == entries@.len()
                    && forall|j: int| 0 <= j < entries@.len() ==> file_info_spec(#[trigger] entries@[j], files@[j]))
                    && final(self).sessions@ == old(self).sessions@.update(i, touched(SSHSessionData { sftp: true, ..old(self).sessions@[i] }, now))
            } else {
                r matches Err(AppError::SSHConnectionFailed(_)) && final(self).sessions@ == old(self).sessions@
            },
    {
        match self.find(session_id) {
            None => Err(AppError::SessionNotFound(session_id.clone())),
            Some(i) => {
                if !self.sessions[i].ssh_session {
                    return Err(AppError::SSHConnectionFailed(String::from_str("No SSH session available for SFTP")));
                }
                let d = self.sessions.remove(i);
                let last = if now > d.session.last_activity { now } else { d.session.last_activity };
                let next = SSHSessionData { session: SSHSession { last_activity: last, ..d.session }, sftp: true, ..d };
                self.sessions.insert(i, next);
                assert(self.sessions@ =~= old(self).sessions@.update(i as int, next));
                let mut files: Vec<SftpFileInfo> = Vec::new();
                let mut j: usize = 0;
                while j < entries.len()
                    invariant
                        j <= entries@.len(),
                        files@.len() == j,
                        forall|m: int| 0 <= m < j ==> file_info_spec(#[trigger] entries@[m], files@[m]),
                    decreases entries@.len() - j,
                {
                    files.push(file_info(&entries[j]));
                    j = j + 1;
                }
                Ok(files)
            },
        }
    }

    /// Releases every handle of `id`. Idempotent; an unknown identity is no error.
    pub fn disconnect(&mut self, session_id: &String) -> (r: AppResult<()>)
        requires
            old(self).wf(),
        ensures
            final(self).wf(),
            r is Ok,
            final(self).session_timeout_ms == old(self).session_timeout_ms,
            activity_kept(old(self).sessions@, final(self).sessions@),
            forall|i: int| 0 <= i < old(self).sessions@.len() ==> (#[trigger] final(self).sessions@[i]) == if old(self).sessions@[i].session.id@ == session_id@ {
                disconnected(old(self).sessions@[i])
            } else {
                old(self).sessions@[i]
            },
    {
        if let Some(i) = self.find(session_id) {
            let d = self.sessions.remove(i);
            let next = SSHSessionData {
                session: SSHSession { connected: false, ..d.session },
                ssh_session: false,
                shell: false,
                sftp: false,
            };
            self.sessions.insert(i, next);
            assert(self.sessions@ =~= old(self).sessions@.update(i as int, next));
        }
        Ok(())
    }

    /// Disconnects `id` and drops it from the registry.
    pub fn remove_session(&mut self, session_id: &String) -> (r: AppResult<()>)
        requires
            old(self).wf(),
        ensures
            final(self).wf(),
            r is Ok,
            final(self).session_timeout_ms == old(self).session_timeout_ms,
            !has_session(final(self).sessions@, session_id@),
            forall|k: Seq<char>| k != session_id@ ==> has_session(final(self).sessions@, k) == has_session(old(self).sessions@, k),
            final(self).sessions@.len() == old(self).sessions@.len() - if has_session(old(self).sessions@, session_id@) { 1int } else { 0int },
    {
        let ghost before = self.sessions@;
        if let Some(i) = self.find(session_id) {
            let _ = self.sessions.remove(i);
            proof {
                assert forall|k: Seq<char>| k != session_id@ implies has_session(self.sessions@, k) == has_session(before, k) by {
                    if has_session(before, k) {
                        let j = choose|j: int| 0 <= j < before.len() && (#[trigger] before[j]).session.id@ == k;
                        if j < i { assert(self.sessions@[j] == before[j]); } else { assert(self.sessions@[j - 1] == before[j]); }
                    }
                    if has_session(self.sessions@, k) {
                        let j = choose|j: int| 0 <= j < self.sessions@.len() && (#[trigger] self.sessions@[j]).session.id@ == k;
                        if j < i { assert(self.sessions@[j] == before[j]); } else { assert(self.sessions@[j] == before[j + 1]); }
                    }
                }
                assert forall|j: int| 0 <= j < self.sessions@.len() implies (#[trigger] self.sessions@[j]).session.id@ != session_id@ by {
                    if j < i { assert(self.sessions@[j] == before[j]); } else { assert(self.sessions@[j] == before[j + 1]); }
                }
            }
        }
        Ok(())
    }

    /// Disconnects and forgets every session.
    pub fn graceful_shutdown(&mut self) -> (r: AppResult<()>)
        requires
            old(self).wf(),
        ensures
            final(self).wf(),
            r is Ok,
            final(self).sessions@.len() == 0,
            final(self).session_timeout_ms == old(self).session_timeout_ms,
    {
        self.sessions.clear();
        Ok(())
    }

    pub fn get_active_session_count(&self) -> (r: usize)
        ensures
            r == self.sessions@.len(),
    {
        self.sessions.len()
    }

    /// Which handles are open for `id`: SSH session, shell, file transfer.
    pub fn get_session_info(&self, session_id: &String) -> (r: AppResult<(bool, bool, bool)>)
        requires
            self.wf(),
        ensures
            !has_session(self.sessions@, session_id@) ==> r matches Err(AppError::SessionNotFound(_)),
            forall|i: int| #![trigger self.sessions@[i]] is_index_of(self.sessions@, session_id@, i) ==> r == Ok::<(bool, bool, bool), AppError>(self.sessions@[i].handles()),
    {
        match self.find(session_id) {
            None => Err(AppError::SessionNotFound(session_id.clone())),
            Some(i) => Ok((self.sessions[i].ssh_session, self.sessions[i].shell, self.sessions[i].sftp)),
        }
    }

    pub fn get_session(&self, session_id: &String) -> (r: AppResult<SSHSession>)
        requires
            self.wf(),
        ensures
            !has_session(self.sessions@, session_id@) ==> r matches Err(AppError::SessionNotFound(_)),
            forall|i: int| #![trigger self.sessions@[i]] is_index_of(self.sessions@, session_id@, i) ==> (r matches Ok(s) && s.same_as(self.sessions@[i].session)),
    {
        match self.find(session_id) {
            None => Err(AppError::SessionNotFound(session_id.clone())),
            Some(i) => Ok(self.sessions[i].session.duplicate()),
        }
    }

    pub fn is_session_connected(&self, session_id: &String) -> (r: bool)
        requires
            self.wf(),
        ensures
            r == exists|i: int| #![trigger self.sessions@[i]] is_index_of(self.sessions@, session_id@, i) && self.sessions@[i].session.connected,
    {
        match self.find(session_id) {
            None => false,
            Some(i) => self.sessions[i].session.connected,
        }
    }

    pub fn list_sessions(&self) -> (r: Vec<SSHSession>)
        ensures
            r@.len() == self.sessions@.len(),
            forall|i: int| 0 <= i < r@.len() ==> (#[trigger] r@[i]).same_as(self.sessions@[i].session),
    {
        let mut out: Vec<SSHSession> = Vec::new();
        let mut i: usize = 0;
        while i < self.sessions.len()
            invariant
                i <= self.sessions@.len(),
                out@.len() == i,
                forall|j: int| 0 <= j < i ==> (#[trigger] out@[j]).same_as(self.sessions@[j].session),
            decreases self.sessions@.len() - i,
        {
            out.push(self.sessions[i].session.duplicate());
            i = i + 1;
        }
        out
    }

    /// Suggestions for the token under the cursor in a connected session.
    pub fn get_autocomplete_suggestions(&self, session_id: &String, input: &str, cursor_position: usize) -> (r: AppResult<Vec<AutocompleteSuggestion>>)
        requires
            self.wf(),
        ensures
            !has_session(self.sessions@, session_id@) ==> r matches Err(AppError::SessionNotFound(_)),
            forall|i: int| #![trigger self.sessions@[i]] is_index_of(self.sessions@, session_id@, i) ==> if self.sessions@[i].ssh_session {
                r matches Ok(v) && views(v@) == suggestions_for(
                    input@,
                    word_at(input@, cursor_position as int).0,
                    word_at(input@, cursor_position as int).1,
                )
            } else {
                r matches Err(AppError::SSHConnectionFailed(_))
            },
    {
        match self.find(session_id) {
            None => Err(AppError::SessionNotFound(session_id.clone())),
            Some(i) => {
                if !self.sessions[i].ssh_session {
                    return Err(AppError::SSHConnectionFailed(String::from_str("No SSH session available")));
                }
                Ok(generate_suggestions(input, cursor_position))
            },
        }
    }

    /// Removes every session idle for longer than the timeout at `now`, and
    /// returns their identities so that their transports can be closed.
    pub fn cleanup_expired_sessions(&mut self, now: i64) -> (r: Vec<String>)
        requires
            old(self).wf(),
        ensures
            final(self).wf(),
            final(self).session_timeout_ms == old(self).session_timeout_ms,
            final(self).sessions@ == live_sessions(old(self).sessions@, now, old(self).session_timeout_ms),
            texts(r@) == expired_ids(old(self).sessions@, now, old(self).session_timeout_ms),
    {
        let ghost orig = self.sessions@;
        let timeout = self.session_timeout_ms;
        let mut rest: Vec<SSHSessionData> = Vec::new();
        core::mem::swap(&mut self.sessions, &mut rest);
        let mut out: Vec<SSHSessionData> = Vec::new();
        let mut gone: Vec<String> = Vec::new();
        let ghost mut i: int = 0;
        while rest.len() > 0
            invariant
                0 <= i <= orig.len(),
                rest@ == orig.subrange(i, orig.len() as int),
                out@ == live_sessions(orig.subrange(0, i), now, timeout),
                texts(gone@) == expired_ids(orig.subrange(0, i), now, timeout),
                forall|j: int| 0 <= j < out@.len() ==> exists|k: int| 0 <= k < i && #[trigger] out@[j] == orig[k],
                forall|j: int| 0 <= j < out@.len() ==> (#[trigger] out@[j]).wf(),
                forall|a: int, b: int| 0 <= a < b < out@.len() ==> (#[trigger] out@[a]).session.id@ != (#[trigger] out@[b]).session.id@,
                forall|a: int| 0 <= a < orig.len() ==> (#[trigger] orig[a]).wf(),
                forall|a: int, b: int| 0 <= a < b < orig.len() ==> (#[trigger] orig[a]).session.id@ != (#[trigger] orig[b]).session.id@,
            decreases rest@.len(),
        {
            assert(orig.subrange(0, i + 1).drop_last() =~= orig.subrange(0, i));
            let d = rest.remove(0);
            assert(d == orig[i]);
            if (now as i128) - (d.session.last_activity as i128) > timeout as i128 {
                let ghost g = gone@;
                gone.push(d.session.id.clone());
                assert(texts(gone@) =~= texts(g).push(d.session.id@));
            } else {
                let ghost before = out@;
                proof {
                    assert forall|j: int| 0 <= j < before.len() implies before[j].session.id@ != d.session.id@ by {
                        let k = choose|k: int| 0 <= k < i && before[j] == orig[k];
                    }
                }
                out.push(d);
                proof {
                    assert forall|j: int| 0 <= j < out@.len() implies exists|k: int| 0 <= k < i + 1 && #[trigger] out@[j] == orig[k] by {
                        if j < before.len() {
                            let k = choose|k: int| 0 <= k < i && before[j] == orig[k];
                            assert(out@[j] == orig[k]);
                        } else {
                            assert(out@[j] == orig[i]);
                        }
                    }
                }
            }
            proof {
                i = i + 1;
            }
            assert(rest@ =~= orig.subrange(i, orig.len() as int));
        }
        assert(orig.subrange(0, i) =~= orig);
        self.sessions = out;
        gone
    }

    /// Records a file download or upload over the file-transfer channel of
    /// `id`: the channel is marked open and the operation counts as activity.
    pub fn record_file_operation(&mut self, session_id: &String, now: i64) -> (r: AppResult<()>)
        requires
            old(self).wf(),
        ensures
            final(self).wf(),
            final(self).session_timeout_ms == old(self).session_timeout_ms,
            !has_session(old(self).sessions@, session_id@) ==> (r matches Err(AppError::SessionNotFound(_)) && final(self).sessions@ == old(self).sessions@),
            forall|i: int| #![trigger old(self).sessions@[i]] is_index_of(old(self).sessions@, session_id@, i) ==> if old(self).sessions@[i].ssh_session {
                r is Ok && final(self).sessions@ == old(self).sessions@.update(i, touched(SSHSessionData { sftp: true, ..old(self).sessions@[i] }, now))
            } else {
                r matches Err(AppError::SSHConnectionFailed(_)) && final(self).sessions@ == old(self).sessions@
            },
    {
        match self.find(session_id) {
            None => Err(AppError::SessionNotFound(session_id.clone())),
            Some(i) => {
                if !self.sessions[i].ssh_session {
                    return Err(AppError::SSHConnectionFailed(String::from_str("No SSH session available for SFTP")));
                }
                let d = self.sessions.remove(i);
                let last = if now > d.session.last_activity { now } else { d.session.last_activity };
                let next = SSHSessionData { session: SSHSession { last_activity: last, ..d.session }, sftp: true, ..d };
                self.sessions.insert(i, next);
                assert(self.sessions@ =~= old(self).sessions@.update(i as int, next));
                Ok(())
            },
        }
    }
}

} // verus!

use vstd::prelude::*;
use crate::errors::{AppError, AppResult};
use crate::text::{clone_opt_text, fresh_uuid, last_path_segment, last_segment, opt_text};
use vstd::string::StringExecFns;

verus! {

/// Default bound on transfers that are pending or in progress at once.
pub const DEFAULT_MAX_CONCURRENT_TRANSFERS: usize = 3;
/// How long a finished transfer is kept, in milliseconds.
pub const TRANSFER_GRACE_MS: i64 = 3_600_000;

#[derive(Debug, Clone, Copy, PartialEq, Eq, Structural)]
pub enum TransferStatus {
    Pending,
    InProgress,
    Completed,
    Failed,
    Cancelled,
}

#[derive(Debug, Clone, Copy, PartialEq, Eq, Structural)]
pub enum TransferDirection {
    Upload,
    Download,
}

pub open spec fn is_terminal(s: TransferStatus) -> bool {
    s == TransferStatus::Completed || s == TransferStatus::Failed || s == TransferStatus::Cancelled
}

/// The status edges a transfer may take (or stay where it is).
pub open spec fn allowed_step(a: TransferStatus, b: TransferStatus) -> bool {
    a == b
        || (a == TransferStatus::Pending && (b == TransferStatus::InProgress || b == TransferStatus::Cancelled))
        || (a == TransferStatus::InProgress && is_terminal(b))
}

/// Position of a status along its lifecycle.
pub open spec fn status_rank(s: TransferStatus) -> nat {
    match s {
        TransferStatus::Pending => 0,
        TransferStatus::InProgress => 1,
        _ => 2,
    }
}

/// One upload or download.
#[derive(Debug, Clone)]
pub struct FileTransfer {
    pub id: String,
    pub session_id: String,
    pub name: String,
    pub remote_path: String,
    pub local_path: Option<String>,
    pub size: u64,
    pub transferred: u64,
    pub status: TransferStatus,
    pub direction: TransferDirection,
    pub start_time: i64,
    pub end_time: Option<i64>,
    pub error: Option<String>,
}

impl FileTransfer {
    /// `end_time` is set exactly in a terminal status, and no more bytes
    /// are counted than the transfer holds.
    pub open spec fn wf(&self) -> bool {
        (self.end_time is Some <==> is_terminal(self.status)) && self.transferred <= self.size
    }

    /// `other` holds the same values as `self`.
    pub open spec fn same_as(&self, other: FileTransfer) -> bool {
        self.id@ == other.id@ && self.session_id@ == other.session_id@ && self.name@ == other.name@
            && self.remote_path@ == other.remote_path@ && opt_text(self.local_path) == opt_text(other.local_path)
            && self.size == other.size && self.transferred == other.transferred && self.status == other.status
            && self.direction == other.direction && self.start_time == other.start_time
            && self.end_time == other.end_time && opt_text(self.error) == opt_text(other.error)
    }

    pub fn duplicate(&self) -> (r: FileTransfer)
        ensures
            r.same_as(*self),
    {
        FileTransfer {
            id: self.id.clone(),
            session_id: self.session_id.clone(),
            name: self.name.clone(),
            remote_path: self.remote_path.clone(),
            local_path: clone_opt_text(&self.local_path),
            size: self.size,
            transferred: self.transferred,
            status: self.status,
            direction: self.direction,
            start_time: self.start_time,
            end_time: self.end_time,
            error: clone_opt_text(&self.error),
        }
    }
}

/// Number of transfers that are pending or in progress.
pub open spec fn active_count(s: Seq<FileTransfer>) -> nat
    decreases s.len(),
{
    if s.len() == 0 {
        0
    } else {
        active_count(s.drop_last()) + if is_terminal(s.last().status) { 0nat } else { 1nat }
    }
}

pub open spec fn has_id(s: Seq<FileTransfer>, id: Seq<char>) -> bool {
    exists|i: int| 0 <= i < s.len() && (#[trigger] s[i]).id@ == id
}

/// Every transfer of `old` that is still in `new` (at the same place) took
/// an allowed status edge.
pub open spec fn steps_allowed(old: Seq<FileTransfer>, new: Seq<FileTransfer>) -> bool {
    new.len() == old.len() && forall|i: int|
        0 <= i < old.len() ==> (#[trigger] new[i]).id@ == old[i].id@ && allowed_step(old[i].status, new[i].status)
}

pub open spec fn cancelled(t: FileTransfer, now: i64) -> FileTransfer {
    if is_terminal(t.status) {
        t
    } else {
        FileTransfer { status: TransferStatus::Cancelled, end_time: Some(now), ..t }
    }
}

pub open spec fn begun(t: FileTransfer) -> FileTransfer {
    if t.status == TransferStatus::Pending {
        FileTransfer { status: TransferStatus::InProgress, ..t }
    } else {
        t
    }
}

/// A transfer in progress after its work ended: completed with all bytes
/// counted (a download takes the size that arrived), or failed with the
/// message. A transfer not in progress is left as it is.
pub open spec fn finished(t: FileTransfer, outcome: Result<u64, String>, now: i64) -> FileTransfer {
    if t.status != TransferStatus::InProgress {
        t
    } else {
        match outcome {
            Ok(bytes) => {
                let size = if t.direction == TransferDirection::Download { bytes } else { t.size };
                FileTransfer { status: TransferStatus::Completed, size, transferred: size, end_time: Some(now), ..t }
            },
            Err(m) => FileTransfer { status: TransferStatus::Failed, end_time: Some(now), error: Some(m), ..t },
        }
    }
}

pub struct TransferManager {
    pub transfers: Vec<FileTransfer>,
    pub max_concurrent_transfers: usize,
}

impl TransferManager {
    /// Every transfer is well formed and identities are distinct.
    pub open spec fn wf(&self) -> bool {
        &&& forall|i: int| 0 <= i < self.transfers@.len() ==> (#[trigger] self.transfers@[i]).wf()
        &&& forall|i: int, j: int|
            0 <= i < j < self.transfers@.len() ==> (#[trigger] self.transfers@[i]).id@ != (#[trigger] self.transfers@[j]).id@
    }

    pub fn new() -> (r: Self)
        ensures
            r.wf(),
            r.transfers@.len() == 0,
            r.max_concurrent_transfers == DEFAULT_MAX_CONCURRENT_TRANSFERS,
    {
        TransferManager { transfers: Vec::new(), max_concurrent_transfers: DEFAULT_MAX_CONCURRENT_TRANSFERS }
    }

    pub fn with_limit(max_concurrent_transfers: usize) -> (r: Self)
        ensures
            r.wf(),
            r.transfers@.len() == 0,
            r.max_concurrent_transfers == max_concurrent_transfers,
    {
        TransferManager { transfers: Vec::new(), max_concurrent_transfers }
    }

    fn find_transfer(&self, id: &String) -> (r: Option<usize>)
        requires
            self.wf(),
        ensures
            match r {
                Some(i) => i < self.transfers@.len() && self.transfers@[i as int].id@ == id@,
                None => !has_id(self.transfers@, id@),
            },
    {
        let mut i: usize = 0;
        while i < self.transfers.len()
            invariant
                i <= self.transfers@.len(),
                forall|j: int| 0 <= j < i ==> (#[trigger] self.transfers@[j]).id@ != id@,
            decreases self.transfers@.len() - i,
        {
            if self.transfers[i].id == *id {
                return Some(i);
            }
            i = i + 1;
        }
        None
    }

    pub fn list_transfers(&self) -> (r: Vec<FileTransfer>)
        ensures
            r@.len() == self.transfers@.len(),
            forall|i: int| 0 <= i < r@.len() ==> (#[trigger] r@[i]).same_as(self.transfers@[i]),
    {
        let mut out: Vec<FileTransfer> = Vec::new();
        let mut i: usize = 0;
        while i < self.transfers.len()
            invariant
                i <= self.transfers@.len(),
                out@.len() == i,
                forall|j: int| 0 <= j < i ==> (#[trigger] out@[j]).same_as(self.transfers@[j]),
            decreases self.transfers@.len() - i,
        {
            out.push(self.transfers[i].duplicate());
            i = i + 1;
        }
        out
    }

    pub fn get_transfer(&self, transfer_id: &String) -> (r: Option<FileTransfer>)
        requires
            self.wf(),
        ensures
            match r {
                Some(t) => exists|i: int|
                    0 <= i < self.transfers@.len() && t.same_as(#[trigger] self.transfers@[i]) && t.id@ == transfer_id@,
                None => !has_id(self.transfers@, transfer_id@),
            },
    {
        match self.find_transfer(transfer_id) {
            Some(i) => Some(self.transfers[i].duplicate()),
            None => None,
        }
    }

    /// Number of transfers pending or in progress.
    pub fn get_active_transfer_count(&self) -> (r: usize)
        ensures
            r == active_count(self.transfers@),
    {
        let mut n: usize = 0;
        let mut i: usize = 0;
        while i < self.transfers.len()
            invariant
                i <= self.transfers@.len(),
                n == active_count(self.transfers@.subrange(0, i as int)),
                n <= i,
            decreases self.transfers@.len() - i,
        {
            assert(self.transfers@.subrange(0, i as int + 1).drop_last() =~= self.transfers@.subrange(0, i as int));
            if !matches!(self.transfers[i].status, TransferStatus::Completed | TransferStatus::Failed | TransferStatus::Cancelled) {
                n = n + 1;
            }
            i = i + 1;
        }
        assert(self.transfers@.subrange(0, i as int) =~= self.transfers@);
        n
    }

    pub fn get_total_transfer_count(&self) -> (r: usize)
        ensures
            r == self.transfers@.len(),
    {
        self.transfers.len()
    }

    /// Registers a new pending transfer under the given identity. Fails with
    /// `ResourceExhausted` when the bound on active transfers is reached and
    /// with `TransferError` when the identity is taken.
    pub fn register_transfer(
        &mut self,
        transfer_id: String,
        session_id: String,
        name: String,
        remote_path: String,
        size: u64,
        direction: TransferDirection,
        now: i64,
    ) -> (r: AppResult<String>)
        requires
            old(self).wf(),
        ensures
            final(self).wf(),
            final(self).max_concurrent_transfers == old(self).max_concurrent_transfers,
            active_count(old(self).transfers@) >= old(self).max_concurrent_transfers ==> (r matches Err(AppError::ResourceExhausted(_))
                && final(self).transfers@ == old(self).transfers@),
            active_count(old(self).transfers@) < old(self).max_concurrent_transfers && has_id(old(self).transfers@, transfer_id@)
                ==> (r matches Err(AppError::TransferError(_)) && final(self).transfers@ == old(self).transfers@),
            active_count(old(self).transfers@) < old(self).max_concurrent_transfers && !has_id(old(self).transfers@, transfer_id@)
                ==> (r matches Ok(id) && id@ == transfer_id@ && final(self).transfers@.len() == old(self).transfers@.len() + 1
                && final(self).transfers@.drop_last() == old(self).transfers@
                && ({
                    let t = final(self).transfers@.last();
                    t.id@ == transfer_id@ && t.session_id@ == session_id@ && t.name@ == name@
                        && t.remote_path@ == remote_path@ && t.local_path is None && t.size == size
                        && t.transferred == 0 && t.status == TransferStatus::Pending && t.direction == direction
                        && t.start_time == now && t.end_time is None && t.error is None
                })),
    {
        if self.get_active_transfer_count() >= self.max_concurrent_transfers {
            return Err(AppError::ResourceExhausted(String::from_str("Too many concurrent transfers")));
        }
        if self.find_transfer(&transfer_id).is_some() {
            return Err(AppError::TransferError(String::from_str("Transfer identity already in use")));
        }
        let result = transfer_id.clone();
        let ghost before = self.transfers@;
        self.transfers.push(FileTransfer {
            id: transfer_id,
            session_id,
            name,
            remote_path,
            local_path: None,
            size,
            transferred: 0,
            status: TransferStatus::Pending,
            direction,
            start_time: now,
            end_time: None,
            error: None,
        });
        assert(self.transfers@.drop_last() =~= before);
        proof {
            assert forall|i: int, j: int| 0 <= i < j < self.transfers@.len() implies
                (#[trigger] self.transfers@[i]).id@ != (#[trigger] self.transfers@[j]).id@ by {
                if j == before.len() {
                    assert(before[i].id@ == self.transfers@[i].id@);
                }
            }
        }
        Ok(result)
    }

    /// Starts an upload of `content` to `remote_path`: a pending transfer
    /// under a fresh identity, whose identity is returned.
    pub fn start_upload(
        &mut self,
        session_id: String,
        remote_path: String,
        name: String,
        content: &[u8],
        now: i64,
    ) -> (r: AppResult<String>)
        requires
            old(self).wf(),
        ensures
            final(self).wf(),
            active_count(old(self).transfers@) >= old(self).max_concurrent_transfers ==> (r matches Err(AppError::ResourceExhausted(_))
                && final(self).transfers@ == old(self).transfers@),
            r is Ok ==> final(self).transfers@.drop_last() == old(self).transfers@ && ({
                let t = final(self).transfers@.last();
                t.session_id@ == session_id@ && t.name@ == name@ && t.remote_path@ == remote_path@
                    && t.size == content@.len() && t.status == TransferStatus::Pending
                    && t.direction == TransferDirection::Upload && t.start_time == now
            }),
            active_count(old(self).transfers@) < old(self).max_concurrent_transfers ==> (r is Ok || r matches Err(AppError::TransferError(_))),
            active_count(old(self).transfers@) < old(self).max_concurrent_transfers && old(self).transfers@.len() == 0 ==> r is Ok,
            r matches Err(AppError::ResourceExhausted(_)) ==> active_count(old(self).transfers@) >= old(self).max_concurrent_transfers,
            r matches Ok(id) ==> final(self).transfers@.len() == old(self).transfers@.len() + 1 && id@ == final(self).transfers@.last().id@
                && !has_id(old(self).transfers@, id@) && final(self).transfers@.last().transferred == 0
                && final(self).transfers@.last().end_time is None && final(self).transfers@.last().error is None,
            r is Err ==> final(self).transfers@ == old(self).transfers@,
    {
        let id = fresh_uuid();
        self.register_transfer(id, session_id, name, remote_path, content.len() as u64, TransferDirection::Upload, now)
    }

    /// Starts a download of `remote_path`. Without a name, the transfer is
    /// named after the last segment of the path.
    pub fn start_download(
        &mut self,
        session_id: String,
        remote_path: String,
        name: Option<String>,
        now: i64,
    ) -> (r: AppResult<String>)
        requires
            old(self).wf(),
        ensures
            final(self).wf(),
            active_count(old(self).transfers@) >= old(self).max_concurrent_transfers ==> (r matches Err(AppError::ResourceExhausted(_))
                && final(self).transfers@ == old(self).transfers@),
            r is Ok ==> final(self).transfers@.drop_last() == old(self).transfers@ && ({
                let t = final(self).transfers@.last();
                t.session_id@ == session_id@ && t.remote_path@ == remote_path@
                    && t.name@ == match name {
                        Some(n) => n@,
                        None => last_segment(remote_path@),
                    } && t.size == 0 && t.status == TransferStatus::Pending
                    && t.direction == TransferDirection::Download && t.start_time == now
            }),
            active_count(old(self).transfers@) < old(self).max_concurrent_transfers ==> (r is Ok || r matches Err(AppError::TransferError(_))),
            active_count(old(self).transfers@) < old(self).max_concurrent_transfers && old(self).transfers@.len() == 0 ==> r is Ok,
            r matches Err(AppError::ResourceExhausted(_)) ==> active_count(old(self).transfers@) >= old(self).max_concurrent_transfers,
            r matches Ok(id) ==> final(self).transfers@.len() == old(self).transfers@.len() + 1 && id@ == final(self).transfers@.last().id@
                && !has_id(old(self).transfers@, id@) && final(self).transfers@.last().transferred == 0
                && final(self).transfers@.last().end_time is None && final(self).transfers@.last().error is None,
            r is Err ==> final(self).transfers@ == old(self).transfers@,
    {
        let display = match name {
            Some(n) => n,
            None => last_path_segment(remote_path.as_str()),
        };
        let id = fresh_uuid();
        self.register_transfer(id, session_id, display, remote_path, 0, TransferDirection::Download, now)
    }

    /// Replaces the transfer at `i` by `t`, which keeps its identity.
    fn put_back(&mut self, i: usize, t: FileTransfer)
        requires
            old(self).wf(),
            i < old(self).transfers@.len(),
            t.id@ == old(self).transfers@[i as int].id@,
            t.wf(),
        ensures
            final(self).wf(),
            final(self).transfers@ == old(self).transfers@.update(i as int, t),
            final(self).max_concurrent_transfers == old(self).max_concurrent_transfers,
    {
        let ghost before = self.transfers@;
        let _ = self.transfers.remove(i);
        self.transfers.insert(i, t);
        assert(self.transfers@ =~= before.update(i as int, t));
    }

    /// Marks a pending transfer as in progress, when its work begins.
    pub fn begin_transfer(&mut self, transfer_id: &String)
        requires
            old(self).wf(),
        ensures
            final(self).wf(),
            final(self).max_concurrent_transfers == old(self).max_concurrent_transfers,
            steps_allowed(old(self).transfers@, final(self).transfers@),
            forall|i: int| 0 <= i < old(self).transfers@.len() ==> (#[trigger] final(self).transfers@[i]) == if old(self).transfers@[i].id@ == transfer_id@ {
                begun(old(self).transfers@[i])
            } else {
                old(self).transfers@[i]
            },
    {
        match self.find_transfer(transfer_id) {
            Some(i) => {
                if matches!(self.transfers[i].status, TransferStatus::Pending) {
                    let t = self.transfers.remove(i);
                    self.transfers.insert(i, FileTransfer { status: TransferStatus::InProgress, ..t });
                    assert(self.transfers@ =~= old(self).transfers@.update(i as int, begun(old(self).transfers@[i as int])));
                }
            },
            None => {},
        }
    }

    /// Records how the work of a transfer in progress ended: `Ok` with the
    /// number of bytes moved, or `Err` with the failure's message.
    pub fn finish_transfer(&mut self, transfer_id: &String, outcome: Result<u64, String>, now: i64)
        requires
            old(self).wf(),
        ensures
            final(self).wf(),
            final(self).max_concurrent_transfers == old(self).max_concurrent_transfers,
            steps_allowed(old(self).transfers@, final(self).transfers@),
            forall|i: int| 0 <= i < old(self).transfers@.len() ==> (#[trigger] final(self).transfers@[i]) == if old(self).transfers@[i].id@ == transfer_id@ {
                finished(old(self).transfers@[i], outcome, now)
            } else {
                old(self).transfers@[i]
            },
    {
        match self.find_transfer(transfer_id) {
            Some(i) => {
                if matches!(self.transfers[i].status, TransferStatus::InProgress) {
                    let t = self.transfers.remove(i);
                    let next = match outcome {
                        Ok(bytes) => {
                            let size = if matches!(t.direction, TransferDirection::Download) { bytes } else { t.size };
                            FileTransfer { status: TransferStatus::Completed, size, transferred: size, end_time: Some(now), ..t }
                        },
                        Err(message) => FileTransfer { status: TransferStatus::Failed, end_time: Some(now), error: Some(message), ..t },
                    };
                    self.transfers.insert(i, next);
                    assert(self.transfers@ =~= old(self).transfers@.update(i as int, finished(old(self).transfers@[i as int], outcome, now)));
                }
            },
            None => {},
        }
    }

    /// Cancels a pending or in-progress transfer; anything else, an unknown
    /// identity included, is left alone.
    pub fn cancel_transfer(&mut self, transfer_id: &String, now: i64) -> (r: AppResult<()>)
        requires
            old(self).wf(),
        ensures
            final(self).wf(),
            r is Ok,
            final(self).max_concurrent_transfers == old(self).max_concurrent_transfers,
            steps_allowed(old(self).transfers@, final(self).transfers@),
            forall|i: int| 0 <= i < old(self).transfers@.len() ==> (#[trigger] final(self).transfers@[i]) == if old(self).transfers@[i].id@ == transfer_id@ {
                cancelled(old(self).transfers@[i], now)
            } else {
                old(self).transfers@[i]
            },
    {
        match self.find_transfer(transfer_id) {
            Some(i) => {
                if matches!(self.transfers[i].status, TransferStatus::Pending | TransferStatus::InProgress) {
                    let t = self.transfers.remove(i);
                    self.transfers.insert(i, FileTransfer { status: TransferStatus::Cancelled, end_time: Some(now), ..t });
                    assert(self.transfers@ =~= old(self).transfers@.update(i as int, cancelled(old(self).transfers@[i as int], now)));
                }
            },
            None => {},
        }
        Ok(())
    }

    fn sweep(&mut self, expired_only: bool, now: i64)
        requires
            old(self).wf(),
        ensures
            final(self).wf(),
            final(self).transfers@ == survivors(old(self).transfers@, expired_only, now),
            final(self).max_concurrent_transfers == old(self).max_concurrent_transfers,
    {
        let ghost orig = self.transfers@;
        let mut rest: Vec<FileTransfer> = Vec::new();
        core::mem::swap(&mut self.transfers, &mut rest);
        let mut out: Vec<FileTransfer> = Vec::new();
        let ghost mut i: int = 0;
        while rest.len() > 0
            invariant
                0 <= i <= orig.len(),
                rest@ == orig.subrange(i, orig.len() as int),
                out@ == survivors(orig.subrange(0, i), expired_only, now),
                forall|j: int| 0 <= j < out@.len() ==> exists|k: int| 0 <= k < i && #[trigger] out@[j] == orig[k],
                forall|j: int| 0 <= j < out@.len() ==> (#[trigger] out@[j]).wf(),
                forall|a: int, b: int| 0 <= a < b < out@.len() ==> (#[trigger] out@[a]).id@ != (#[trigger] out@[b]).id@,
                forall|a: int| 0 <= a < orig.len() ==> (#[trigger] orig[a]).wf(),
                forall|a: int, b: int| 0 <= a < b < orig.len() ==> (#[trigger] orig[a]).id@ != (#[trigger] orig[b]).id@,
            decreases rest@.len(),
        {
            assert(orig.subrange(0, i + 1).drop_last() =~= orig.subrange(0, i));
            let t = rest.remove(0);
            assert(t == orig[i]);
            let gone = match t.end_time {
                Some(e) => {
                    let finished = matches!(t.status, TransferStatus::Completed | TransferStatus::Failed | TransferStatus::Cancelled);
                    finished && (!expired_only || (now as i128) - (e as i128) > TRANSFER_GRACE_MS as i128)
                },
                None => matches!(t.status, TransferStatus::Completed | TransferStatus::Failed | TransferStatus::Cancelled) && !expired_only,
            };
            if !gone {
                let ghost before = out@;
                proof {
                    assert forall|j: int| 0 <= j < before.len() implies before[j].id@ != t.id@ by {
                        let k = choose|k: int| 0 <= k < i && before[j] == orig[k];
                    }
                }
                out.push(t);
                proof {
                    assert forall|j: int| 0 <= j < out@.len() implies exists|k: int| 0 <= k < i + 1 && #[trigger] out@[j] == orig[k] by {
                        if j < before.len() {
                            let k = choose|k: int| 0 <= k < i && before[j] == orig[k];
                            assert(out@[j] == orig[k]);
                        } else {
                            assert(out@[j] == orig[i]);
                        }
                    }
                }
            }
            proof {
                i = i + 1;
            }
            assert(rest@ =~= orig.subrange(i, orig.len() as int));
        }
        assert(orig.subrange(0, i) =~= orig);
        self.transfers = out;
    }

    /// Removes every finished transfer.
    pub fn cleanup_completed_transfers(&mut self)
        requires
            old(self).wf(),
        ensures
            final(self).wf(),
            final(self).transfers@ == survivors(old(self).transfers@, false, 0),
            final(self).max_concurrent_transfers == old(self).max_concurrent_transfers,
    {
        self.sweep(false, 0);
    }

    /// Removes finished transfers whose end lies more than the grace window
    /// before `now`.
    pub fn periodic_cleanup(&mut self, now: i64)
        requires
            old(self).wf(),
        ensures
            final(self).wf(),
            final(self).transfers@ == survivors(old(self).transfers@, true, now),
            final(self).max_concurrent_transfers == old(self).max_concurrent_transfers,
    {
        self.sweep(true, now);
    }

    /// Shuts the coordinator down: every transfer is dropped, pending and
    /// in-progress ones included, so that work still running finds nothing
    /// to report to.
    pub fn graceful_shutdown(&mut self) -> (r: AppResult<()>)
        requires
            old(self).wf(),
        ensures
            final(self).wf(),
            r is Ok,
            final(self).transfers@.len() == 0,
            final(self).max_concurrent_transfers == old(self).max_concurrent_transfers,
    {
        self.transfers.clear();
        Ok(())
    }
}

/// Whether a sweep takes `t` away: with `expired_only`, a finished
/// transfer whose end lies more than the grace window before `now`;
/// otherwise every finished transfer.
pub open spec fn swept(t: FileTransfer, expired_only: bool, now: i64) -> bool {
    is_terminal(t.status) && (!expired_only || (t.end_time is Some && now - t.end_time.unwrap() > TRANSFER_GRACE_MS))
}

/// The transfers a sweep leaves, in their order.
pub open spec fn survivors(s: Seq<FileTransfer>, expired_only: bool, now: i64) -> Seq<FileTransfer>
    decreases s.len(),
{
    if s.len() == 0 {
        s
    } else if swept(s.last(), expired_only, now) {
        survivors(s.drop_last(), expired_only, now)
    } else {
        survivors(s.drop_last(), expired_only, now).push(s.last())
    }
}

/// A status edge never leads back: the lifecycle position does not
/// decrease, and a terminal status is never left.
pub proof fn law_transfer_status_monotone(a: TransferStatus, b: TransferStatus)
    requires
        allowed_step(a, b),
    ensures
        status_rank(a) <= status_rank(b),
        is_terminal(a) ==> a == b,
        is_terminal(b) && !is_terminal(a) ==> a == TransferStatus::InProgress || b == TransferStatus::Cancelled,
{
}

} // verus!

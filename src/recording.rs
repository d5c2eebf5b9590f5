use vstd::prelude::*;
use vstd::string::{StrSliceExecFns, StringExecFns};
use crate::errors::{AppError, AppResult};
use crate::text::{clone_opt_text, clone_texts, opt_text, texts, fresh_uuid};

verus! {

pub const MIB: u64 = 1_048_576;
pub const DAY_MS: i64 = 86_400_000;

pub struct RecordingConfig {
    pub enabled: bool,
    pub storage_path: String,
    pub max_recording_size_mb: u64,
    pub retention_days: u32,
    pub compress_recordings: bool,
    pub include_metadata: bool,
    pub auto_cleanup: bool,
}

impl Default for RecordingConfig {
    fn default() -> (r: Self)
        ensures
            r.enabled,
            r.storage_path@ == "./recordings"@,
            r.max_recording_size_mb == 100,
            r.retention_days == 30,
            r.compress_recordings,
            r.include_metadata,
            r.auto_cleanup,
    {
        RecordingConfig {
            enabled: true,
            storage_path: String::from_str("./recordings"),
            max_recording_size_mb: 100,
            retention_days: 30,
            compress_recordings: true,
            include_metadata: true,
            auto_cleanup: true,
        }
    }
}

#[derive(Debug, Clone, Copy, PartialEq, Eq, Structural)]
pub enum TerminalEventType {
    Input,
    Output,
    Resize,
    Connect,
    Disconnect,
    Command,
    Error,
}

/// One recorded terminal event; timestamps are milliseconds since the Unix epoch.
#[derive(Debug, Clone)]
pub struct TerminalEvent {
    pub timestamp: i64,
    pub event_type: TerminalEventType,
    pub data: String,
    pub metadata: Option<Vec<(String, String)>>,
}

/// The size of an event the recorder itself logs (connect and disconnect
/// markers): the length of its data, in characters. Other events come with
/// their size, measured by whoever writes them out.
pub open spec fn marker_size(e: TerminalEvent) -> nat {
    e.data@.len() as nat
}

/// `a + b`, saturating at `u64::MAX`.
pub open spec fn sat_add(a: u64, b: u64) -> u64 {
    if a + b > u64::MAX { u64::MAX } else { (a + b) as u64 }
}

/// Whole seconds from `start` to `now`, zero when `now` is earlier.
pub open spec fn duration_secs(start: i64, now: i64) -> u64 {
    if now >= start { ((now - start) / 1000) as u64 } else { 0u64 }
}

#[derive(Debug, Clone)]
pub struct RecordingMetadata {
    pub recording_id: String,
    pub session_id: String,
    pub user_id: Option<String>,
    pub hostname: String,
    pub start_time: i64,
    pub end_time: Option<i64>,
    pub duration_seconds: Option<u64>,
    pub total_events: u64,
    pub file_size_bytes: u64,
    pub terminal_size: Option<(u16, u16)>,
    pub tags: Vec<String>,
    pub description: Option<String>,
    pub compressed: bool,
}

impl RecordingMetadata {
    #[verifier::opaque]
    pub open spec fn same_as(&self, o: RecordingMetadata) -> bool {
        self.recording_id@ == o.recording_id@ && self.session_id@ == o.session_id@
            && opt_text(self.user_id) == opt_text(o.user_id) && self.hostname@ == o.hostname@
            && self.start_time == o.start_time && self.end_time == o.end_time
            && self.duration_seconds == o.duration_seconds && self.total_events == o.total_events
            && self.file_size_bytes == o.file_size_bytes && self.terminal_size == o.terminal_size
            && texts(self.tags@) == texts(o.tags@) && opt_text(self.description) == opt_text(o.description)
            && self.compressed == o.compressed
    }

    pub fn duplicate(&self) -> (r: Self)
        ensures
            r.same_as(*self),
    {
        reveal(RecordingMetadata::same_as);
        RecordingMetadata {
            recording_id: self.recording_id.clone(),
            session_id: self.session_id.clone(),
            user_id: clone_opt_text(&self.user_id),
            hostname: self.hostname.clone(),
            start_time: self.start_time,
            end_time: self.end_time,
            duration_seconds: self.duration_seconds,
            total_events: self.total_events,
            file_size_bytes: self.file_size_bytes,
            terminal_size: self.terminal_size,
            tags: clone_texts(&self.tags),
            description: clone_opt_text(&self.description),
            compressed: self.compressed,
        }
    }
}

/// Timestamps never decrease along the sequence.
pub open spec fn ordered(s: Seq<TerminalEvent>) -> bool {
    forall|i: int, j: int| 0 <= i <= j < s.len() ==> (#[trigger] s[i]).timestamp <= (#[trigger] s[j]).timestamp
}

/// A recording in progress.
pub struct ActiveRecording {
    pub metadata: RecordingMetadata,
    pub events: Vec<TerminalEvent>,
    pub last_activity: i64,
    pub size_bytes: u64,
}

/// The event as appended after `s`: its time is raised to the last
/// recorded time if it is earlier, so that the log stays ordered.
pub open spec fn appended(s: Seq<TerminalEvent>, e: TerminalEvent) -> TerminalEvent {
    if s.len() > 0 && e.timestamp < s.last().timestamp {
        TerminalEvent { timestamp: s.last().timestamp, ..e }
    } else {
        e
    }
}

impl ActiveRecording {
    /// The event count is the log's length, the size is what the metadata
    /// reports, and the log is ordered by time.
    pub open spec fn wf(&self) -> bool {
        &&& self.metadata.total_events == self.events@.len()
        &&& self.metadata.file_size_bytes == self.size_bytes
        &&& ordered(self.events@)
    }

    /// An empty recording of `session_id` on `hostname`, started at `now`.
    pub fn new(session_id: String, hostname: String, user_id: Option<String>, now: i64) -> (r: Self)
        ensures
            r.wf(),
            r.events@.len() == 0,
            r.metadata.session_id@ == session_id@,
            r.metadata.recording_id@.len() == 36,
            r.metadata.hostname@ == hostname@,
            opt_text(r.metadata.user_id) == opt_text(user_id),
            r.metadata.start_time == now,
            r.metadata.end_time is None,
            r.metadata.duration_seconds is None,
            r.metadata.tags@.len() == 0,
            r.metadata.terminal_size is None,
            r.metadata.description is None,
            r.size_bytes == 0,
            r.last_activity == now,
    {
        ActiveRecording {
            metadata: RecordingMetadata {
                recording_id: fresh_uuid(),
                session_id,
                user_id,
                hostname,
                start_time: now,
                end_time: None,
                duration_seconds: None,
                total_events: 0,
                file_size_bytes: 0,
                terminal_size: None,
                tags: Vec::new(),
                description: None,
                compressed: false,
            },
            events: Vec::new(),
            last_activity: now,
            size_bytes: 0,
        }
    }

    /// Appends an event to the log (see `appended`), counting it and its
    /// `size`; the size saturates.
    pub fn add_event(&mut self, event: TerminalEvent, size: u64, now: i64) -> (r: AppResult<()>)
        requires
            old(self).wf(),
            old(self).metadata.total_events < u64::MAX,
        ensures
            final(self).wf(),
            r is Ok,
            final(self).events@ == old(self).events@.push(appended(old(self).events@, event)),
            final(self).size_bytes == sat_add(old(self).size_bytes, size),
            final(self).metadata.total_events == old(self).metadata.total_events + 1,
            final(self).size_bytes >= old(self).size_bytes,
            final(self).last_activity == now,
            final(self).metadata.recording_id == old(self).metadata.recording_id,
            final(self).metadata.session_id == old(self).metadata.session_id,
            final(self).metadata.start_time == old(self).metadata.start_time,
            final(self).metadata.hostname == old(self).metadata.hostname,
    {
        let ghost prev = self.events@;
        let n = self.events.len();
        let event = if n > 0 && event.timestamp < self.events[n - 1].timestamp {
            TerminalEvent { timestamp: self.events[n - 1].timestamp, ..event }
        } else {
            event
        };
        self.events.push(event);
        self.metadata.total_events = self.metadata.total_events + 1;
        self.size_bytes = self.size_bytes.saturating_add(size);
        self.metadata.file_size_bytes = self.size_bytes;
        self.last_activity = now;
        Ok(())
    }

    pub fn set_terminal_size(&mut self, cols: u16, rows: u16)
        ensures
            final(self).metadata.session_id == old(self).metadata.session_id,
            final(self).metadata.terminal_size == Some((cols, rows)),
            final(self).events@ == old(self).events@,
            final(self).size_bytes == old(self).size_bytes,
            final(self).metadata.total_events == old(self).metadata.total_events,
            final(self).metadata.file_size_bytes == old(self).metadata.file_size_bytes,
    {
        self.metadata.terminal_size = Some((cols, rows));
    }

    /// Adds a tag unless the recording already has it.
    pub fn add_tag(&mut self, tag: String)
        ensures
            final(self).metadata.session_id == old(self).metadata.session_id,
            texts(final(self).metadata.tags@) == if texts(old(self).metadata.tags@).contains(tag@) {
                texts(old(self).metadata.tags@)
            } else {
                texts(old(self).metadata.tags@).push(tag@)
            },
            final(self).events@ == old(self).events@,
            final(self).size_bytes == old(self).size_bytes,
            final(self).metadata.total_events == old(self).metadata.total_events,
            final(self).metadata.file_size_bytes == old(self).metadata.file_size_bytes,
    {
        let mut i: usize = 0;
        while i < self.metadata.tags.len()
            invariant
                i <= self.metadata.tags@.len(),
                self.metadata.tags@ == old(self).metadata.tags@,
                forall|j: int| 0 <= j < i ==> (#[trigger] self.metadata.tags@[j])@ != tag@,
            decreases self.metadata.tags@.len() - i,
        {
            if self.metadata.tags[i] == tag {
                assert(texts(self.metadata.tags@)[i as int] == tag@);
                return;
            }
            i = i + 1;
        }
        assert(!texts(old(self).metadata.tags@).contains(tag@)) by {
            if texts(old(self).metadata.tags@).contains(tag@) {
                let j = choose|j: int| 0 <= j < texts(old(self).metadata.tags@).len() && texts(old(self).metadata.tags@)[j] == tag@;
                assert(old(self).metadata.tags@[j]@ == tag@);
            }
        }
        self.metadata.tags.push(tag);
        assert(texts(self.metadata.tags@) =~= texts(old(self).metadata.tags@).push(tag@));
    }

    pub fn set_description(&mut self, description: String)
        ensures
            final(self).metadata.session_id == old(self).metadata.session_id,
            opt_text(final(self).metadata.description) == Some(description@),
            final(self).events@ == old(self).events@,
            final(self).size_bytes == old(self).size_bytes,
            final(self).metadata.total_events == old(self).metadata.total_events,
            final(self).metadata.file_size_bytes == old(self).metadata.file_size_bytes,
    {
        self.metadata.description = Some(description);
    }

    /// Stamps the end at `now` and the duration in whole seconds (zero when
    /// `now` is before the start).
    pub fn finalize(&mut self, now: i64) -> (r: AppResult<()>)
        requires
            old(self).wf(),
        ensures
            final(self).wf(),
            r is Ok,
            final(self).metadata.end_time == Some(now),
            final(self).metadata.duration_seconds == Some(duration_secs(old(self).metadata.start_time, now)),
            final(self).events@ == old(self).events@,
            final(self).size_bytes == old(self).size_bytes,
            final(self).metadata.recording_id == old(self).metadata.recording_id,
            final(self).metadata.session_id == old(self).metadata.session_id,
            final(self).metadata.start_time == old(self).metadata.start_time,
            final(self).metadata.total_events == old(self).metadata.total_events,
    {
        self.metadata.end_time = Some(now);
        let start = self.metadata.start_time;
        let secs: u64 = if now >= start { (((now as i128) - (start as i128)) / 1000) as u64 } else { 0 };
        self.metadata.duration_seconds = Some(secs);
        Ok(())
    }
}


/// A finalized recording counts exactly the events of its log, and the log
/// is ordered by time.
pub proof fn law_recording_complete(r: ActiveRecording)
    requires
        r.wf(),
    ensures
        r.metadata.total_events == r.events@.len(),
        forall|i: int, j: int| 0 <= i <= j < r.events@.len() ==> (#[trigger] r.events@[i]).timestamp <= (#[trigger] r.events@[j]).timestamp,
{
}

pub struct RecordingSearchCriteria {
    pub session_id: Option<String>,
    pub user_id: Option<String>,
    pub hostname: Option<String>,
    pub start_date: Option<i64>,
    pub end_date: Option<i64>,
    pub tags: Vec<String>,
    pub min_duration_seconds: Option<u64>,
    pub max_duration_seconds: Option<u64>,
    pub text_search: Option<String>,
}

pub open spec fn shares_tag(wanted: Seq<Seq<char>>, have: Seq<Seq<char>>) -> bool {
    exists|i: int| 0 <= i < wanted.len() && have.contains(#[trigger] wanted[i])
}

/// Whether a recording's metadata meets every criterion that is set.
/// Tags match when the recording has at least one of the wanted tags; a
/// recording without duration counts as lasting zero seconds.
pub open spec fn criteria_met(m: RecordingMetadata, c: RecordingSearchCriteria) -> bool {
    let d = match m.duration_seconds { Some(d) => d, None => 0 };
    &&& (c.session_id matches Some(s) ==> m.session_id@ == s@)
    &&& (c.user_id matches Some(u) ==> opt_text(m.user_id) == Some(u@))
    &&& (c.hostname matches Some(h) ==> m.hostname@ == h@)
    &&& (c.start_date matches Some(t) ==> m.start_time >= t)
    &&& (c.end_date matches Some(t) ==> m.start_time <= t)
    &&& (c.tags@.len() > 0 ==> shares_tag(texts(c.tags@), texts(m.tags@)))
    &&& (c.min_duration_seconds matches Some(lo) ==> d >= lo)
    &&& (c.max_duration_seconds matches Some(hi) ==> d <= hi)
}

pub open spec fn meets(c: RecordingSearchCriteria) -> spec_fn(RecordingMetadata) -> bool {
    |m: RecordingMetadata| criteria_met(m, c)
}

fn has_text(v: &Vec<String>, t: &String) -> (r: bool)
    ensures
        r == texts(v@).contains(t@),
{
    let mut i: usize = 0;
    while i < v.len()
        invariant
            i <= v@.len(),
            forall|j: int| 0 <= j < i ==> (#[trigger] v@[j])@ != t@,
        decreases v@.len() - i,
    {
        if v[i] == *t {
            assert(texts(v@)[i as int] == t@);
            return true;
        }
        i = i + 1;
    }
    assert(!texts(v@).contains(t@)) by {
        if texts(v@).contains(t@) {
            let j = choose|j: int| 0 <= j < texts(v@).len() && texts(v@)[j] == t@;
            assert(v@[j]@ == t@);
        }
    }
    false
}

pub fn matches_criteria(metadata: &RecordingMetadata, criteria: &RecordingSearchCriteria) -> (r: bool)
    ensures
        r == criteria_met(*metadata, *criteria),
{
    if let Some(s) = &criteria.session_id {
        if metadata.session_id != *s {
            return false;
        }
    }
    if let Some(u) = &criteria.user_id {
        match &metadata.user_id {
            Some(mu) => {
                if *mu != *u {
                    return false;
                }
            },
            None => {
                return false;
            },
        }
    }
    if let Some(h) = &criteria.hostname {
        if metadata.hostname != *h {
            return false;
        }
    }
    if let Some(t) = criteria.start_date {
        if metadata.start_time < t {
            return false;
        }
    }
    if let Some(t) = criteria.end_date {
        if metadata.start_time > t {
            return false;
        }
    }
    if criteria.tags.len() > 0 {
        let mut any = false;
        let mut i: usize = 0;
        while i < criteria.tags.len()
            invariant
                i <= criteria.tags@.len(),
                any <==> exists|j: int| 0 <= j < i && texts(metadata.tags@).contains(#[trigger] texts(criteria.tags@)[j]),
            decreases criteria.tags@.len() - i,
        {
            let found = has_text(&metadata.tags, &criteria.tags[i]);
            assert(texts(criteria.tags@)[i as int] == criteria.tags@[i as int]@);
            if found {
                any = true;
            }
            i = i + 1;
        }
        if !any {
            return false;
        }
    }
    let d = match metadata.duration_seconds {
        Some(d) => d,
        None => 0,
    };
    if let Some(lo) = criteria.min_duration_seconds {
        if d < lo {
            return false;
        }
    }
    if let Some(hi) = criteria.max_duration_seconds {
        if d > hi {
            return false;
        }
    }
    true
}

/// How a recording is played back: an optional time range, an optional set
/// of event kinds, and the speed (in percent of real time) for the player.
pub struct PlaybackControl {
    pub speed_percent: u32,
    pub start_time: Option<i64>,
    pub end_time: Option<i64>,
    pub filter_event_types: Option<Vec<TerminalEventType>>,
}

impl Default for PlaybackControl {
    fn default() -> (r: Self)
        ensures
            r.speed_percent == 100,
            r.start_time is None,
            r.end_time is None,
            r.filter_event_types is None,
    {
        PlaybackControl { speed_percent: 100, start_time: None, end_time: None, filter_event_types: None }
    }
}

pub open spec fn playback_keeps(e: TerminalEvent, c: PlaybackControl) -> bool {
    &&& (c.start_time matches Some(t) ==> e.timestamp >= t)
    &&& (c.end_time matches Some(t) ==> e.timestamp <= t)
    &&& (c.filter_event_types matches Some(kinds) ==> kinds@.contains(e.event_type))
}

/// The events of `s` that a playback control keeps, in their order.
pub open spec fn played(s: Seq<TerminalEvent>, c: PlaybackControl) -> Seq<TerminalEvent>
    decreases s.len(),
{
    if s.len() == 0 {
        s
    } else if playback_keeps(s.last(), c) {
        played(s.drop_last(), c).push(s.last())
    } else {
        played(s.drop_last(), c)
    }
}

fn kind_listed(kinds: &Vec<TerminalEventType>, k: TerminalEventType) -> (r: bool)
    ensures
        r == kinds@.contains(k),
{
    let mut i: usize = 0;
    while i < kinds.len()
        invariant
            i <= kinds@.len(),
            forall|j: int| 0 <= j < i ==> kinds@[j] != k,
        decreases kinds@.len() - i,
    {
        if kinds[i] == k {
            return true;
        }
        i = i + 1;
    }
    false
}

/// Keeps the events inside the control's time range and of its kinds.
pub fn apply_playback_filters(events: Vec<TerminalEvent>, control: &PlaybackControl) -> (r: Vec<TerminalEvent>)
    ensures
        r@ == played(events@, *control),
{
    let ghost orig = events@;
    let mut rest = events;
    let mut out: Vec<TerminalEvent> = Vec::new();
    let ghost mut i: int = 0;
    while rest.len() > 0
        invariant
            0 <= i <= orig.len(),
            rest@ == orig.subrange(i, orig.len() as int),
            out@ == played(orig.subrange(0, i), *control),
        decreases rest@.len(),
    {
        assert(orig.subrange(0, i + 1).drop_last() =~= orig.subrange(0, i));
        let e = rest.remove(0);
        let mut keep = true;
        if let Some(t) = control.start_time {
            if e.timestamp < t {
                keep = false;
            }
        }
        if let Some(t) = control.end_time {
            if e.timestamp > t {
                keep = false;
            }
        }
        if let Some(kinds) = &control.filter_event_types {
            if !kind_listed(kinds, e.event_type) {
                keep = false;
            }
        }
        if keep {
            out.push(e);
        }
        proof {
            i = i + 1;
        }
        assert(rest@ =~= orig.subrange(i, orig.len() as int));
    }
    assert(orig.subrange(0, i) =~= orig);
    out
}


/// Start times never increase along the sequence.
pub open spec fn sorted_newest_first(s: Seq<RecordingMetadata>) -> bool {
    forall|i: int, j: int| 0 <= i <= j < s.len() ==> (#[trigger] s[i]).start_time >= (#[trigger] s[j]).start_time
}

/// Inserts `m` after every entry that started no later than it, keeping
/// the sequence newest first; returns the position.
fn insert_newest_first(out: &mut Vec<RecordingMetadata>, m: RecordingMetadata) -> (p: usize)
    requires
        sorted_newest_first(old(out)@),
    ensures
        p <= old(out)@.len(),
        final(out)@ == old(out)@.insert(p as int, m),
        sorted_newest_first(final(out)@),
{
    let mut p: usize = 0;
    while p < out.len() && out[p].start_time >= m.start_time
        invariant
            p <= out@.len(),
            forall|j: int| 0 <= j < p ==> (#[trigger] out@[j]).start_time >= m.start_time,
        decreases out@.len() - p,
    {
        p = p + 1;
    }
    let ghost before = out@;
    let ghost g = m;
    out.insert(p, m);
    proof {
        assert forall|j: int| p <= j < before.len() implies (#[trigger] before[j]).start_time < g.start_time by {
            assert(before[p as int].start_time < g.start_time);
            assert(before[p as int].start_time >= before[j].start_time);
        }
        assert forall|a: int, b: int| 0 <= a <= b < out@.len() implies (#[trigger] out@[a]).start_time >= (#[trigger] out@[b]).start_time by {
            if a < p { assert(out@[a] == before[a]); }
            if a > p { assert(out@[a] == before[a - 1]); }
            if b < p { assert(out@[b] == before[b]); }
            if b > p { assert(out@[b] == before[b - 1]); }
        }
    }
    p
}

/// A search result: newest first, as many entries as the index has
/// matching recordings, each meeting the criteria.
pub open spec fn search_result(cache: Seq<RecordingMetadata>, c: RecordingSearchCriteria, out: Seq<RecordingMetadata>) -> bool {
    &&& sorted_newest_first(out)
    &&& out.len() == count_where(cache, meets(c))
    &&& forall|j: int| 0 <= j < out.len() ==> criteria_met(#[trigger] out[j], c)
    &&& exists|src: Seq<int>| #[trigger] drawn_from(cache, c, out, src)
}

/// Each entry of `out` copies a distinct matching entry of `cache`: the one
/// at position `src[j]`. With as many entries as there are matches, `out`
/// is a reordering of the matching entries.
pub open spec fn drawn_from(cache: Seq<RecordingMetadata>, c: RecordingSearchCriteria, out: Seq<RecordingMetadata>, src: Seq<int>) -> bool {
    &&& src.len() == out.len()
    &&& forall|j: int| 0 <= j < out.len() ==> 0 <= #[trigger] src[j] < cache.len() && criteria_met(cache[src[j]], c)
        && out[j].same_as(cache[src[j]])
    &&& forall|a: int, b: int| 0 <= a < b < src.len() ==> #[trigger] src[a] != #[trigger] src[b]
}

/// Copies meet the same criteria.
pub proof fn lemma_copy_meets(a: RecordingMetadata, b: RecordingMetadata, c: RecordingSearchCriteria)
    requires
        a.same_as(b),
    ensures
        criteria_met(a, c) == criteria_met(b, c),
{
    reveal(RecordingMetadata::same_as);
}

/// The size cap of a recording in bytes (saturating).
pub open spec fn cap_bytes(mb: u64) -> u64 {
    if mb * MIB > u64::MAX { u64::MAX } else { (mb * MIB) as u64 }
}

/// Whether the retention sweep at `now` takes a recording away.
pub open spec fn outdated(m: RecordingMetadata, now: i64, retention_days: u32) -> bool {
    m.start_time < now - retention_days * DAY_MS
}

pub open spec fn count_where(s: Seq<RecordingMetadata>, p: spec_fn(RecordingMetadata) -> bool) -> nat
    decreases s.len(),
{
    if s.len() == 0 {
        0
    } else {
        count_where(s.drop_last(), p) + if p(s.last()) { 1nat } else { 0nat }
    }
}

/// Sum of `f` over `s`, saturating at `u64::MAX`.
pub open spec fn sat_sum(s: Seq<RecordingMetadata>, f: spec_fn(RecordingMetadata) -> u64) -> u64
    decreases s.len(),
{
    if s.len() == 0 {
        0
    } else {
        let t = sat_sum(s.drop_last(), f) + f(s.last());
        if t > u64::MAX { u64::MAX } else { t as u64 }
    }
}

pub open spec fn started_after(t: int) -> spec_fn(RecordingMetadata) -> bool {
    |m: RecordingMetadata| m.start_time > t
}

pub open spec fn size_of_recording() -> spec_fn(RecordingMetadata) -> u64 {
    |m: RecordingMetadata| m.file_size_bytes
}

pub open spec fn duration_of_recording() -> spec_fn(RecordingMetadata) -> u64 {
    |m: RecordingMetadata| match m.duration_seconds { Some(d) => d, None => 0 }
}

#[derive(Debug, Clone, Copy)]
pub struct RecordingStats {
    pub total_recordings: usize,
    pub active_recordings: usize,
    pub recent_recordings: usize,
    pub weekly_recordings: usize,
    pub total_size_bytes: u64,
    pub total_size_mb: u64,
    pub total_duration_seconds: u64,
    pub average_duration_seconds: u64,
}

/// The recorder: recordings in progress, keyed by session, and the index of
/// finalized recordings.
pub struct RecordingManager {
    pub config: RecordingConfig,
    pub active_recordings: Vec<ActiveRecording>,
    pub metadata_cache: Vec<RecordingMetadata>,
}

pub open spec fn has_active(s: Seq<ActiveRecording>, session: Seq<char>) -> bool {
    exists|i: int| 0 <= i < s.len() && (#[trigger] s[i]).metadata.session_id@ == session
}

/// The retained recordings after a retention sweep, in their order.
pub open spec fn retained(s: Seq<RecordingMetadata>, now: i64, days: u32) -> Seq<RecordingMetadata>
    decreases s.len(),
{
    if s.len() == 0 {
        s
    } else if outdated(s.last(), now, days) {
        retained(s.drop_last(), now, days)
    } else {
        retained(s.drop_last(), now, days).push(s.last())
    }
}

pub open spec fn outdated_ids(s: Seq<RecordingMetadata>, now: i64, days: u32) -> Seq<Seq<char>>
    decreases s.len(),
{
    if s.len() == 0 {
        Seq::empty()
    } else if outdated(s.last(), now, days) {
        outdated_ids(s.drop_last(), now, days).push(s.last().recording_id@)
    } else {
        outdated_ids(s.drop_last(), now, days)
    }
}

impl RecordingManager {
    pub open spec fn wf(&self) -> bool {
        &&& forall|i: int| 0 <= i < self.active_recordings@.len() ==> (#[trigger] self.active_recordings@[i]).wf()
        &&& forall|i: int, j: int| 0 <= i < j < self.active_recordings@.len()
            ==> (#[trigger] self.active_recordings@[i]).metadata.session_id@ != (#[trigger] self.active_recordings@[j]).metadata.session_id@
    }

    pub fn new(config: RecordingConfig) -> (r: Self)
        ensures
            r.wf(),
            r.config == config,
            r.active_recordings@.len() == 0,
            r.metadata_cache@.len() == 0,
    {
        RecordingManager { config, active_recordings: Vec::new(), metadata_cache: Vec::new() }
    }

    fn find_active(&self, session_id: &String) -> (r: Option<usize>)
        ensures
            match r {
                Some(i) => i < self.active_recordings@.len() && self.active_recordings@[i as int].metadata.session_id@ == session_id@,
                None => !has_active(self.active_recordings@, session_id@),
            },
    {
        let mut i: usize = 0;
        while i < self.active_recordings.len()
            invariant
                i <= self.active_recordings@.len(),
                forall|j: int| 0 <= j < i ==> (#[trigger] self.active_recordings@[j]).metadata.session_id@ != session_id@,
            decreases self.active_recordings@.len() - i,
        {
            if self.active_recordings[i].metadata.session_id == *session_id {
                return Some(i);
            }
            i = i + 1;
        }
        None
    }

    /// Takes the recording of `session_id` out of the active set.
    fn take_active(&mut self, session_id: &String) -> (r: Option<ActiveRecording>)
        requires
            old(self).wf(),
        ensures
            final(self).wf(),
            final(self).config == old(self).config,
            final(self).metadata_cache@ == old(self).metadata_cache@,
            !has_active(final(self).active_recordings@, session_id@),
            match r {
                Some(a) => a.wf() && a.metadata.session_id@ == session_id@ && has_active(old(self).active_recordings@, session_id@)
                    && final(self).active_recordings@.len() == old(self).active_recordings@.len() - 1
                    && forall|i: int| 0 <= i < old(self).active_recordings@.len()
                        && (#[trigger] old(self).active_recordings@[i]).metadata.session_id@ == session_id@ ==> old(self).active_recordings@[i] == a,
                None => !has_active(old(self).active_recordings@, session_id@)
                    && final(self).active_recordings@ == old(self).active_recordings@,
            },
            forall|k: Seq<char>| k != session_id@ ==> has_active(final(self).active_recordings@, k) == has_active(old(self).active_recordings@, k),
    {
        let ghost before = self.active_recordings@;
        match self.find_active(session_id) {
            None => None,
            Some(i) => {
                let a = self.active_recordings.remove(i);
                proof {
                    assert forall|j: int| 0 <= j < before.len() && (#[trigger] before[j]).metadata.session_id@ == session_id@ implies before[j] == a by {
                        if j < i { assert(before[j].metadata.session_id@ != before[i as int].metadata.session_id@); }
                        if j > i { assert(before[i as int].metadata.session_id@ != before[j].metadata.session_id@); }
                    }
                    assert forall|k: Seq<char>| k != session_id@ implies has_active(self.active_recordings@, k) == has_active(before, k) by {
                        if has_active(before, k) {
                            let j = choose|j: int| 0 <= j < before.len() && (#[trigger] before[j]).metadata.session_id@ == k;
                            if j < i { assert(self.active_recordings@[j] == before[j]); } else { assert(self.active_recordings@[j - 1] == before[j]); }
                        }
                        if has_active(self.active_recordings@, k) {
                            let j = choose|j: int| 0 <= j < self.active_recordings@.len() && (#[trigger] self.active_recordings@[j]).metadata.session_id@ == k;
                            if j < i { assert(self.active_recordings@[j] == before[j]); } else { assert(self.active_recordings@[j] == before[j + 1]); }
                        }
                    }
                    assert forall|j: int| 0 <= j < self.active_recordings@.len() implies (#[trigger] self.active_recordings@[j]).metadata.session_id@ != session_id@ by {
                        if j < i { assert(self.active_recordings@[j] == before[j]); } else { assert(self.active_recordings@[j] == before[j + 1]); }
                    }
                }
                Some(a)
            },
        }
    }

    /// Starts recording `session_id` at `now` (replacing a recording of the
    /// same session) and logs a connect event. Fails when recording is disabled.
    pub fn start_recording(&mut self, session_id: String, hostname: String, user_id: Option<String>, now: i64) -> (r: AppResult<String>)
        requires
            old(self).wf(),
        ensures
            final(self).wf(),
            final(self).config == old(self).config,
            final(self).metadata_cache@ == old(self).metadata_cache@,
            !old(self).config.enabled ==> (r matches Err(AppError::OperationFailed(_)) && final(self).active_recordings@ == old(self).active_recordings@),
            old(self).config.enabled ==> (r matches Ok(id) && ({
                let n = final(self).active_recordings@.len();
                let a = final(self).active_recordings@[n - 1];
                &&& n >= 1
                &&& a.metadata.recording_id@ == id@
                &&& id@.len() == 36
                &&& a.metadata.session_id@ == session_id@
                &&& a.metadata.hostname@ == hostname@
                &&& a.metadata.start_time == now
                &&& a.events@.len() == 1
                &&& a.events@[0].event_type == TerminalEventType::Connect
                &&& a.events@[0].timestamp == now
            })),
            old(self).config.enabled ==> forall|k: Seq<char>| k != session_id@ ==> has_active(final(self).active_recordings@, k) == has_active(old(self).active_recordings@, k),
    {
        if !self.config.enabled {
            return Err(AppError::OperationFailed(String::from_str("Recording is disabled")));
        }
        let _ = self.take_active(&session_id);
        let ghost mid = self.active_recordings@;
        let mut recording = ActiveRecording::new(session_id.clone(), hostname, user_id, now);
        let recording_id = recording.metadata.recording_id.clone();
        let mut data = String::from_str("Recording started for session ");
        data.append(session_id.as_str());
        let mut meta: Vec<(String, String)> = Vec::new();
        meta.push((String::from_str("recording_id"), recording_id.clone()));
        meta.push((String::from_str("session_id"), session_id.clone()));
        let size = data.as_str().unicode_len() as u64;
        let _ = recording.add_event(
            TerminalEvent { timestamp: now, event_type: TerminalEventType::Connect, data, metadata: Some(meta) },
            size,
            now,
        );
        self.active_recordings.push(recording);
        proof {
            assert(forall|j: int| 0 <= j < mid.len() ==> self.active_recordings@[j] == mid[j]);
            assert forall|k: Seq<char>| k != session_id@ implies has_active(self.active_recordings@, k) == has_active(mid, k) by {
                if has_active(self.active_recordings@, k) {
                    let j = choose|j: int| 0 <= j < self.active_recordings@.len() && (#[trigger] self.active_recordings@[j]).metadata.session_id@ == k;
                    assert(j < mid.len());
                }
                if has_active(mid, k) {
                    let j = choose|j: int| 0 <= j < mid.len() && (#[trigger] mid[j]).metadata.session_id@ == k;
                    assert(self.active_recordings@[j] == mid[j]);
                }
            }
            assert forall|a: int, b: int| 0 <= a < b < self.active_recordings@.len() implies
                (#[trigger] self.active_recordings@[a]).metadata.session_id@ != (#[trigger] self.active_recordings@[b]).metadata.session_id@ by {
                if b == mid.len() {
                    assert(self.active_recordings@[a] == mid[a]);
                    assert(!has_active(mid, session_id@));
                }
            }
        }
        Ok(recording_id)
    }

    /// Adds `m` to the index of finalized recordings, replacing an entry
    /// with the same identity.
    pub fn cache_metadata(&mut self, m: RecordingMetadata)
        requires
            old(self).wf(),
        ensures
            final(self).wf(),
            final(self).config == old(self).config,
            final(self).active_recordings@ == old(self).active_recordings@,
            final(self).metadata_cache@.contains(m),
            exists|k: int| 0 <= k < final(self).metadata_cache@.len() && #[trigger] final(self).metadata_cache@[k] == m,
            final(self).metadata_cache@.len() <= old(self).metadata_cache@.len() + 1,
    {
        let mut i: usize = 0;
        while i < self.metadata_cache.len()
            invariant
                i <= self.metadata_cache@.len(),
                self.metadata_cache@ == old(self).metadata_cache@,
                self.active_recordings@ == old(self).active_recordings@,
                self.config == old(self).config,
                self.wf(),
            decreases self.metadata_cache@.len() - i,
        {
            if self.metadata_cache[i].recording_id == m.recording_id {
                let ghost g = m;
                let _ = self.metadata_cache.remove(i);
                self.metadata_cache.insert(i, m);
                assert(self.metadata_cache@[i as int] == g);
                assert(exists|k: int| 0 <= k < self.metadata_cache@.len() && #[trigger] self.metadata_cache@[k] == g);
                return;
            }
            i = i + 1;
        }
        let ghost g = m;
        self.metadata_cache.push(m);
        assert(self.metadata_cache@[self.metadata_cache@.len() - 1] == g);
        assert(exists|k: int| 0 <= k < self.metadata_cache@.len() && #[trigger] self.metadata_cache@[k] == g);
    }

    /// Stops the recording of `session_id`: logs a disconnect event,
    /// finalizes it at `now`, indexes and returns its metadata. `None` when
    /// the session is not being recorded.
    pub fn stop_recording(&mut self, session_id: &String, now: i64) -> (r: AppResult<Option<RecordingMetadata>>)
        requires
            old(self).wf(),
        ensures
            final(self).wf(),
            final(self).config == old(self).config,
            !has_active(final(self).active_recordings@, session_id@),
            !has_active(old(self).active_recordings@, session_id@) ==> (r matches Ok(None) && final(self).metadata_cache@ == old(self).metadata_cache@
                && final(self).active_recordings@ == old(self).active_recordings@),
            has_active(old(self).active_recordings@, session_id@) ==> (r matches Ok(Some(m)) && m.session_id@ == session_id@
                && m.end_time == Some(now) && final(self).metadata_cache@.len() >= 1
                && exists|k: int| 0 <= k < final(self).metadata_cache@.len()
                    && (#[trigger] final(self).metadata_cache@[k]).same_as(m)),
            forall|i: int| 0 <= i < old(self).active_recordings@.len()
                && (#[trigger] old(self).active_recordings@[i]).metadata.session_id@ == session_id@ ==> (r matches Ok(Some(m))
                && m.recording_id@ == old(self).active_recordings@[i].metadata.recording_id@
                && m.start_time == old(self).active_recordings@[i].metadata.start_time
                && m.total_events == if old(self).active_recordings@[i].metadata.total_events < u64::MAX {
                    old(self).active_recordings@[i].metadata.total_events + 1
                } else {
                    old(self).active_recordings@[i].metadata.total_events as int
                }
                && m.duration_seconds == Some(duration_secs(old(self).active_recordings@[i].metadata.start_time, now))),
            forall|k: Seq<char>| k != session_id@ ==> has_active(final(self).active_recordings@, k) == has_active(old(self).active_recordings@, k),
    {
        reveal(RecordingMetadata::same_as);
        match self.take_active(session_id) {
            None => Ok(None),
            Some(mut recording) => {
                if recording.metadata.total_events < u64::MAX {
                    let mut data = String::from_str("Recording stopped for session ");
                    data.append(session_id.as_str());
                    let size = data.as_str().unicode_len() as u64;
                    let _ = recording.add_event(
                        TerminalEvent { timestamp: now, event_type: TerminalEventType::Disconnect, data, metadata: None },
                        size,
                        now,
                    );
                }
                let _ = recording.finalize(now);
                let metadata = recording.metadata.duplicate();
                let result = recording.metadata.duplicate();
                let ghost g = metadata;
                self.cache_metadata(metadata);
                proof {
                    let k = choose|k: int| 0 <= k < self.metadata_cache@.len() && #[trigger] self.metadata_cache@[k] == g;
                    assert(self.metadata_cache@[k].same_as(result));
                }
                Ok(Some(result))
            },
        }
    }

    /// Records `event`, whose written form takes `size` bytes, for
    /// `session_id`. A session not being recorded, or recording disabled,
    /// changes nothing. When the event would take the recording past its
    /// size cap (or it holds the largest event count), the event is not
    /// appended: the recording is stopped instead, and its finalized
    /// metadata returned.
    pub fn record_event(&mut self, session_id: &String, event: TerminalEvent, size: u64, now: i64) -> (r: AppResult<Option<RecordingMetadata>>)
        requires
            old(self).wf(),
        ensures
            final(self).wf(),
            final(self).config == old(self).config,
            (!old(self).config.enabled || !has_active(old(self).active_recordings@, session_id@)) ==> (r matches Ok(None)
                && final(self).active_recordings@ == old(self).active_recordings@ && final(self).metadata_cache@ == old(self).metadata_cache@),
            old(self).config.enabled ==> forall|i: int| #![trigger old(self).active_recordings@[i]]
                0 <= i < old(self).active_recordings@.len() && old(self).active_recordings@[i].metadata.session_id@ == session_id@ ==> if old(
                    self,
                ).active_recordings@[i].size_bytes + size > cap_bytes(old(self).config.max_recording_size_mb)
                    || old(self).active_recordings@[i].metadata.total_events == u64::MAX {
                    (r matches Ok(Some(m)) && m.session_id@ == session_id@) && !has_active(final(self).active_recordings@, session_id@)
                } else {
                    r matches Ok(None) && final(self).metadata_cache@ == old(self).metadata_cache@
                        && final(self).active_recordings@.len() == old(self).active_recordings@.len()
                        && final(self).active_recordings@[i].events@ == old(self).active_recordings@[i].events@.push(
                        appended(old(self).active_recordings@[i].events@, event),
                    )
                        && final(self).active_recordings@[i].size_bytes == old(self).active_recordings@[i].size_bytes + size
                },
    {
        if !self.config.enabled {
            return Ok(None);
        }
        match self.find_active(session_id) {
            None => Ok(None),
            Some(i) => {
                let mb = self.config.max_recording_size_mb;
                let cap: u64 = if mb > u64::MAX / MIB { u64::MAX } else { mb * MIB };
                proof {
                    if mb > u64::MAX / MIB {
                        assert(mb * MIB > u64::MAX) by (nonlinear_arith)
                            requires mb > u64::MAX / MIB, MIB == 1048576u64;
                    } else {
                        assert(mb * MIB <= u64::MAX) by (nonlinear_arith)
                            requires mb <= u64::MAX / MIB, MIB == 1048576u64;
                    }
                }
                if self.active_recordings[i].size_bytes as u128 + size as u128 > cap as u128
                    || self.active_recordings[i].metadata.total_events == u64::MAX {
                    return self.stop_recording(session_id, now);
                }
                let ghost before = self.active_recordings@;
                let mut a = self.active_recordings.remove(i);
                let _ = a.add_event(event, size, now);
                self.active_recordings.insert(i, a);
                proof {
                    assert(self.active_recordings@ =~= before.update(i as int, a));
                    assert forall|x: int, y: int| 0 <= x < y < self.active_recordings@.len() implies
                        (#[trigger] self.active_recordings@[x]).metadata.session_id@ != (#[trigger] self.active_recordings@[y]).metadata.session_id@ by {
                        assert(before[x].metadata.session_id@ != before[y].metadata.session_id@);
                    }
                    assert forall|j: int| 0 <= j < before.len() && before[j].metadata.session_id@ == session_id@ implies j == i by {
                        if j != i {
                            if j < i { assert(before[j].metadata.session_id@ != before[i as int].metadata.session_id@); }
                            else { assert(before[i as int].metadata.session_id@ != before[j].metadata.session_id@); }
                        }
                    }
                }
                Ok(None)
            },
        }
    }

    /// Sets the PTY size of the recording of `session_id`, if it is recorded.
    pub fn set_terminal_size(&mut self, session_id: &String, cols: u16, rows: u16)
        requires
            old(self).wf(),
        ensures
            final(self).wf(),
            final(self).config == old(self).config,
            final(self).metadata_cache@ == old(self).metadata_cache@,
            final(self).active_recordings@.len() == old(self).active_recordings@.len(),
            forall|i: int| 0 <= i < old(self).active_recordings@.len() ==> if (#[trigger] old(self).active_recordings@[i]).metadata.session_id@ == session_id@ {
                final(self).active_recordings@[i].metadata.terminal_size == Some((cols, rows))
                    && final(self).active_recordings@[i].events@ == old(self).active_recordings@[i].events@
            } else {
                final(self).active_recordings@[i] == old(self).active_recordings@[i]
            },
    {
        if let Some(i) = self.find_active(session_id) {
            let mut a = self.active_recordings.remove(i);
            a.set_terminal_size(cols, rows);
            self.active_recordings.insert(i, a);
            proof {
                let before = old(self).active_recordings@;
                assert(self.active_recordings@ =~= before.update(i as int, a));
                assert forall|x: int, y: int| 0 <= x < y < self.active_recordings@.len() implies
                    (#[trigger] self.active_recordings@[x]).metadata.session_id@ != (#[trigger] self.active_recordings@[y]).metadata.session_id@ by {
                    assert(before[x].metadata.session_id@ != before[y].metadata.session_id@);
                }
                assert forall|j: int| 0 <= j < before.len() && before[j].metadata.session_id@ == session_id@ implies j == i by {
                    if j < i { assert(before[j].metadata.session_id@ != before[i as int].metadata.session_id@); }
                    if j > i { assert(before[i as int].metadata.session_id@ != before[j].metadata.session_id@); }
                }
            }
        }
    }

    /// Tags the recording of `session_id`, if it is recorded.
    pub fn add_recording_tag(&mut self, session_id: &String, tag: String)
        requires
            old(self).wf(),
        ensures
            final(self).wf(),
            final(self).config == old(self).config,
            final(self).metadata_cache@ == old(self).metadata_cache@,
            final(self).active_recordings@.len() == old(self).active_recordings@.len(),
            forall|i: int| 0 <= i < old(self).active_recordings@.len() ==> if (#[trigger] old(self).active_recordings@[i]).metadata.session_id@ == session_id@ {
                texts(final(self).active_recordings@[i].metadata.tags@).contains(tag@)
            } else {
                final(self).active_recordings@[i] == old(self).active_recordings@[i]
            },
    {
        if let Some(i) = self.find_active(session_id) {
            let ghost t = tag@;
            let mut a = self.active_recordings.remove(i);
            a.add_tag(tag);
            assert(texts(a.metadata.tags@).contains(t)) by {
                if !texts(old(self).active_recordings@[i as int].metadata.tags@).contains(t) {
                    assert(texts(a.metadata.tags@).last() == t);
                }
            }
            self.active_recordings.insert(i, a);
            proof {
                let before = old(self).active_recordings@;
                assert(self.active_recordings@ =~= before.update(i as int, a));
                assert forall|x: int, y: int| 0 <= x < y < self.active_recordings@.len() implies
                    (#[trigger] self.active_recordings@[x]).metadata.session_id@ != (#[trigger] self.active_recordings@[y]).metadata.session_id@ by {
                    assert(before[x].metadata.session_id@ != before[y].metadata.session_id@);
                }
                assert forall|j: int| 0 <= j < before.len() && before[j].metadata.session_id@ == session_id@ implies j == i by {
                    if j < i { assert(before[j].metadata.session_id@ != before[i as int].metadata.session_id@); }
                    if j > i { assert(before[i as int].metadata.session_id@ != before[j].metadata.session_id@); }
                }
            }
        }
    }

    /// Describes the recording of `session_id`, if it is recorded.
    pub fn set_recording_description(&mut self, session_id: &String, description: String)
        requires
            old(self).wf(),
        ensures
            final(self).wf(),
            final(self).config == old(self).config,
            final(self).metadata_cache@ == old(self).metadata_cache@,
            final(self).active_recordings@.len() == old(self).active_recordings@.len(),
            forall|i: int| 0 <= i < old(self).active_recordings@.len() ==> if (#[trigger] old(self).active_recordings@[i]).metadata.session_id@ == session_id@ {
                opt_text(final(self).active_recordings@[i].metadata.description) == Some(description@)
            } else {
                final(self).active_recordings@[i] == old(self).active_recordings@[i]
            },
    {
        if let Some(i) = self.find_active(session_id) {
            let mut a = self.active_recordings.remove(i);
            a.set_description(description);
            self.active_recordings.insert(i, a);
            proof {
                let before = old(self).active_recordings@;
                assert(self.active_recordings@ =~= before.update(i as int, a));
                assert forall|x: int, y: int| 0 <= x < y < self.active_recordings@.len() implies
                    (#[trigger] self.active_recordings@[x]).metadata.session_id@ != (#[trigger] self.active_recordings@[y]).metadata.session_id@ by {
                    assert(before[x].metadata.session_id@ != before[y].metadata.session_id@);
                }
                assert forall|j: int| 0 <= j < before.len() && before[j].metadata.session_id@ == session_id@ implies j == i by {
                    if j < i { assert(before[j].metadata.session_id@ != before[i as int].metadata.session_id@); }
                    if j > i { assert(before[i as int].metadata.session_id@ != before[j].metadata.session_id@); }
                }
            }
        }
    }

    /// The indexed recordings that meet `criteria`, newest first.
    #[verifier::rlimit(100)]
    pub fn search_recordings(&self, criteria: &RecordingSearchCriteria) -> (r: AppResult<Vec<RecordingMetadata>>)
        ensures
            r matches Ok(out) && search_result(self.metadata_cache@, *criteria, out@),
    {
        let ghost cache = self.metadata_cache@;
        let ghost pred = meets(*criteria);
        let ghost mut src: Seq<int> = Seq::empty();
        let mut out: Vec<RecordingMetadata> = Vec::new();
        let mut k: usize = 0;
        while k < self.metadata_cache.len()
            invariant
                k <= cache.len(),
                cache == self.metadata_cache@,
                pred == meets(*criteria),
                sorted_newest_first(out@),
                out@.len() == count_where(cache.subrange(0, k as int), pred),
                src.len() == out@.len(),
                forall|j: int| 0 <= j < out@.len() ==> 0 <= #[trigger] src[j] < k && criteria_met(cache[src[j]], *criteria)
                    && out@[j].same_as(cache[src[j]]),
                forall|a: int, b: int| 0 <= a < b < src.len() ==> #[trigger] src[a] != #[trigger] src[b],
            decreases cache.len() - k,
        {
            assert(cache.subrange(0, k as int + 1).drop_last() =~= cache.subrange(0, k as int));
            let m = &self.metadata_cache[k];
            let keep = matches_criteria(m, criteria);
            if keep {
                let ghost before = out@;
                let ghost src0 = src;
                let copy = m.duplicate();
                let ghost c = copy;
                let p = insert_newest_first(&mut out, copy);
                proof {
                    src = src0.insert(p as int, k as int);
                    assert forall|j: int| 0 <= j < out@.len() implies 0 <= #[trigger] src[j] < k + 1 && criteria_met(cache[src[j]], *criteria)
                        && out@[j].same_as(cache[src[j]]) by {
                        if j < p {
                            assert(out@[j] == before[j] && src[j] == src0[j]);
                        } else if j == p {
                            assert(out@[j] == c && src[j] == k);
                        } else {
                            assert(out@[j] == before[j - 1] && src[j] == src0[j - 1]);
                        }
                    }
                    assert forall|a: int, b: int| 0 <= a < b < src.len() implies #[trigger] src[a] != #[trigger] src[b] by {
                        if a < p && b < p {
                            assert(src[a] == src0[a] && src[b] == src0[b]);
                        } else if a < p && b == p {
                            assert(src[a] == src0[a] && src0[a] < k);
                        } else if a < p && b > p {
                            assert(src[a] == src0[a] && src[b] == src0[b - 1]);
                        } else if a == p {
                            assert(src[b] == src0[b - 1] && src0[b - 1] < k);
                        } else {
                            assert(src[a] == src0[a - 1] && src[b] == src0[b - 1]);
                        }
                    }
                }
            }
            k = k + 1;
        }
        assert(cache.subrange(0, k as int) =~= cache);
        assert forall|j: int| 0 <= j < out@.len() implies criteria_met(#[trigger] out@[j], *criteria) by {
            lemma_copy_meets(out@[j], cache[src[j]], *criteria);
        }
        assert(drawn_from(cache, *criteria, out@, src));
        assert(search_result(cache, *criteria, out@));
        Ok(out)
    }

    /// The indexed metadata of recording `recording_id`, if any.
    pub fn get_recording_metadata(&self, recording_id: &String) -> (r: AppResult<Option<RecordingMetadata>>)
        ensures
            match r {
                Ok(Some(m)) => exists|k: int| 0 <= k < self.metadata_cache@.len() && m.same_as(#[trigger] self.metadata_cache@[k])
                    && m.recording_id@ == recording_id@,
                Ok(None) => forall|k: int| 0 <= k < self.metadata_cache@.len() ==> (#[trigger] self.metadata_cache@[k]).recording_id@ != recording_id@,
                Err(_) => false,
            },
    {
        reveal(RecordingMetadata::same_as);
        let mut k: usize = 0;
        while k < self.metadata_cache.len()
            invariant
                k <= self.metadata_cache@.len(),
                forall|x: int| 0 <= x < k ==> (#[trigger] self.metadata_cache@[x]).recording_id@ != recording_id@,
            decreases self.metadata_cache@.len() - k,
        {
            if self.metadata_cache[k].recording_id == *recording_id {
                let d = self.metadata_cache[k].duplicate();
                proof {
                    reveal(RecordingMetadata::same_as);
                }
                assert(d.same_as(self.metadata_cache@[k as int]));
                assert(d.recording_id@ == recording_id@);
                return Ok(Some(d));
            }
            k = k + 1;
        }
        Ok(None)
    }

    /// Counters over the index at `now`: recordings started within the last
    /// day and week, total size and duration (saturating), and the mean
    /// duration.
    pub fn get_recording_stats(&self, now: i64) -> (r: RecordingStats)
        ensures
            r.total_recordings == self.metadata_cache@.len(),
            r.active_recordings == self.active_recordings@.len(),
            r.recent_recordings == count_where(self.metadata_cache@, started_after(now as int - DAY_MS)),
            r.weekly_recordings == count_where(self.metadata_cache@, started_after(now as int - 7 * DAY_MS)),
            r.total_size_bytes == sat_sum(self.metadata_cache@, size_of_recording()),
            r.total_size_mb == r.total_size_bytes / MIB,
            r.total_duration_seconds == sat_sum(self.metadata_cache@, duration_of_recording()),
            r.average_duration_seconds == if r.total_recordings > 0 {
                r.total_duration_seconds / r.total_recordings as u64
            } else {
                0
            },
    {
        let ghost cache = self.metadata_cache@;
        let day_cut: i128 = now as i128 - DAY_MS as i128;
        let week_cut: i128 = now as i128 - 7 * DAY_MS as i128;
        let mut recent: usize = 0;
        let mut weekly: usize = 0;
        let mut size: u64 = 0;
        let mut duration: u64 = 0;
        let mut k: usize = 0;
        while k < self.metadata_cache.len()
            invariant
                k <= cache.len(),
                cache == self.metadata_cache@,
                day_cut == now - DAY_MS,
                week_cut == now - 7 * DAY_MS,
                recent == count_where(cache.subrange(0, k as int), started_after(now as int - DAY_MS)),
                weekly == count_where(cache.subrange(0, k as int), started_after(now as int - 7 * DAY_MS)),
                recent <= k,
                weekly <= k,
                size == sat_sum(cache.subrange(0, k as int), size_of_recording()),
                duration == sat_sum(cache.subrange(0, k as int), duration_of_recording()),
            decreases cache.len() - k,
        {
            assert(cache.subrange(0, k as int + 1).drop_last() =~= cache.subrange(0, k as int));
            let m = &self.metadata_cache[k];
            if m.start_time as i128 > day_cut {
                recent = recent + 1;
            }
            if m.start_time as i128 > week_cut {
                weekly = weekly + 1;
            }
            size = size.saturating_add(m.file_size_bytes);
            let d = match m.duration_seconds {
                Some(d) => d,
                None => 0,
            };
            duration = duration.saturating_add(d);
            k = k + 1;
        }
        assert(cache.subrange(0, k as int) =~= cache);
        let total = self.metadata_cache.len();
        RecordingStats {
            total_recordings: total,
            active_recordings: self.active_recordings.len(),
            recent_recordings: recent,
            weekly_recordings: weekly,
            total_size_bytes: size,
            total_size_mb: size / MIB,
            total_duration_seconds: duration,
            average_duration_seconds: if total > 0 { duration / total as u64 } else { 0 },
        }
    }

    /// Removes from the index every recording started before the retention
    /// window at `now`, and returns their identities so that their files
    /// can be deleted.
    pub fn cleanup_old_recordings(&mut self, now: i64) -> (r: Vec<String>)
        requires
            old(self).wf(),
        ensures
            final(self).wf(),
            final(self).config == old(self).config,
            final(self).active_recordings@ == old(self).active_recordings@,
            final(self).metadata_cache@ == retained(old(self).metadata_cache@, now, old(self).config.retention_days),
            texts(r@) == outdated_ids(old(self).metadata_cache@, now, old(self).config.retention_days),
    {
        let ghost orig = self.metadata_cache@;
        let days = self.config.retention_days;
        let cutoff: i128 = now as i128 - (days as i128) * (DAY_MS as i128);
        let mut rest: Vec<RecordingMetadata> = Vec::new();
        core::mem::swap(&mut self.metadata_cache, &mut rest);
        let mut out: Vec<RecordingMetadata> = Vec::new();
        let mut gone: Vec<String> = Vec::new();
        let ghost mut i: int = 0;
        while rest.len() > 0
            invariant
                0 <= i <= orig.len(),
                cutoff == now - days * DAY_MS,
                days == old(self).config.retention_days,
                rest@ == orig.subrange(i, orig.len() as int),
                out@ == retained(orig.subrange(0, i), now, days),
                texts(gone@) == outdated_ids(orig.subrange(0, i), now, days),
                self.active_recordings@ == old(self).active_recordings@,
                self.config == old(self).config,
                self.wf(),
            decreases rest@.len(),
        {
            assert(orig.subrange(0, i + 1).drop_last() =~= orig.subrange(0, i));
            let m = rest.remove(0);
            assert(m == orig[i]);
            if (m.start_time as i128) < cutoff {
                let ghost g = gone@;
                gone.push(m.recording_id.clone());
                assert(texts(gone@) =~= texts(g).push(m.recording_id@));
            } else {
                out.push(m);
            }
            proof {
                i = i + 1;
            }
            assert(rest@ =~= orig.subrange(i, orig.len() as int));
        }
        assert(orig.subrange(0, i) =~= orig);
        self.metadata_cache = out;
        gone
    }

    /// The disconnect event that `stop_recording(session_id, now)` will
    /// append, so that it can be written out first; `None` when the session
    /// is not being recorded or its log is full.
    pub fn closing_event(&self, session_id: &String, now: i64) -> (r: Option<TerminalEvent>)
        requires
            self.wf(),
        ensures
            !has_active(self.active_recordings@, session_id@) ==> r is None,
            forall|i: int| #![trigger self.active_recordings@[i]] 0 <= i < self.active_recordings@.len()
                && self.active_recordings@[i].metadata.session_id@ == session_id@ ==> if self.active_recordings@[i].metadata.total_events < u64::MAX {
                    r matches Some(e) && e.event_type == TerminalEventType::Disconnect && e.metadata is None
                        && e.timestamp == appended(
                        self.active_recordings@[i].events@,
                        TerminalEvent { timestamp: now, ..e },
                    ).timestamp
                } else {
                    r is None
                },
    {
        match self.find_active(session_id) {
            None => None,
            Some(i) => {
                proof {
                    assert forall|j: int| 0 <= j < self.active_recordings@.len()
                        && self.active_recordings@[j].metadata.session_id@ == session_id@ implies j == i by {
                        if j < i { assert(self.active_recordings@[j].metadata.session_id@ != self.active_recordings@[i as int].metadata.session_id@); }
                        if j > i { assert(self.active_recordings@[i as int].metadata.session_id@ != self.active_recordings@[j].metadata.session_id@); }
                    }
                }
                let a = &self.active_recordings[i];
                if a.metadata.total_events == u64::MAX {
                    return None;
                }
                let n = a.events.len();
                let t = if n > 0 && now < a.events[n - 1].timestamp { a.events[n - 1].timestamp } else { now };
                let mut data = String::from_str("Recording stopped for session ");
                data.append(session_id.as_str());
                Some(TerminalEvent { timestamp: t, event_type: TerminalEventType::Disconnect, data, metadata: None })
            },
        }
    }
}

} // verus!

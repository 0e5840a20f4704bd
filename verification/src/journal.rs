//! The forensic journal kept in the application state: validated memos
//! (optionally with a snapshot of the field and of the active defenses),
//! the console log, and the manual-recording state machine.
//!
//! The snapshot attached to a memo is the type parameter `C`; the journal
//! never looks inside it.

use vstd::prelude::*;
use std::collections::VecDeque;
use crate::config::{
    duration_as_micros, duration_as_secs, duration_since_epoch, duration_subsec_nanos, system_now, truncate_to_u64,
};
use crate::memo::{
    check_memo, evicting_push, memo_verdict, push_evicting_oldest, MemoError, LOG_CAPACITY,
    MEMO_CAPACITY, MEMO_MAX_CONTENT_CHARS,
};
use crate::state::{RecordingState, RecordingStateEnum, RECORDING_WINDOW_MS};
use crate::utc::{utc_text, utc_timestamp};
use crate::vector::opt_text_view;

verus! {

broadcast use vstd::std_specs::vecdeque::group_vec_dequeue_axioms;

/// The RFC 3339 text chrono gives for the UTC time `secs` seconds and
/// `nanos` nanoseconds after the Unix epoch, or `None` when chrono cannot
/// represent that time.
pub uninterp spec fn chrono_rfc3339(secs: i64, nanos: u32) -> Option<Seq<char>>;

/// `chrono::DateTime::<Utc>::from_timestamp` followed by
/// `DateTime::to_rfc3339`: the RFC 3339 text of the time `secs` s plus
/// `nanos` ns after the epoch, or `None` when chrono cannot represent it
/// (seconds out of range, invalid nanoseconds). The text depends on the
/// arguments alone; it is named by `chrono_rfc3339`, not described.
#[verifier::external_body]
fn rfc3339_of(secs: i64, nanos: u32) -> (r: Option<String>)
    ensures
        opt_text_view(r) == chrono_rfc3339(secs, nanos),
{
    match chrono::DateTime::<chrono::Utc>::from_timestamp(secs, nanos) {
        Some(t) => Some(t.to_rfc3339()),
        None => None,
    }
}

/// Is `e` a refusal by the clock (before 1970, or too late to stamp)?
pub open spec fn clock_error(e: MemoError) -> bool {
    e == MemoError::ClockBeforeEpoch || e == MemoError::ClockOutOfRange
}

/// Microseconds of the time `secs` s plus `nanos` ns after the epoch.
pub open spec fn stamp_micros(secs: u64, nanos: u32) -> int {
    secs * 1_000_000 + nanos / 1000
}

/// Can the time `secs` s plus `nanos` ns after the epoch be stamped: as
/// chrono's RFC 3339 text, and in microseconds within 64 bits?
pub open spec fn stampable(secs: u64, nanos: u32) -> bool {
    &&& secs <= i64::MAX
    &&& chrono_rfc3339(secs as i64, nanos) is Some
    &&& stamp_micros(secs, nanos) <= u64::MAX
}

/// `stamp` is the stamp of the time `secs` s plus `nanos` ns after the
/// epoch: chrono's RFC 3339 text and the microseconds.
pub open spec fn is_stamp(stamp: (String, u64), secs: u64, nanos: u32) -> bool {
    &&& stampable(secs, nanos)
    &&& chrono_rfc3339(secs as i64, nanos) == Some(stamp.0@)
    &&& stamp.1 == stamp_micros(secs, nanos)
}

/// `text` and `micros` stamp some time the clock can read: chrono's RFC
/// 3339 text and the microseconds of one and the same instant.
pub open spec fn clock_stamp(text: Seq<char>, micros: u64) -> bool {
    exists|secs: u64, nanos: u32|
        nanos < 1_000_000_000 && #[trigger] stampable(secs, nanos) && chrono_rfc3339(secs as i64, nanos) == Some(text)
            && micros == stamp_micros(secs, nanos)
}

/// `text` is chrono's RFC 3339 text of some time the clock can read.
pub open spec fn clock_text(text: Seq<char>) -> bool {
    exists|micros: u64| #[trigger] clock_stamp(text, micros)
}

/// The stamp of the UTC time `secs` s plus `nanos` ns after the epoch;
/// refused with `ClockOutOfRange` when it cannot be stamped.
pub fn stamp_at(secs: u64, nanos: u32) -> (r: Result<(String, u64), MemoError>)
    ensures
        r is Ok <==> stampable(secs, nanos),
        r is Ok ==> is_stamp(r->Ok_0, secs, nanos),
        r is Err ==> r->Err_0 == MemoError::ClockOutOfRange,
{
    if secs > 0x7fff_ffff_ffff_ffffu64 {
        return Err(MemoError::ClockOutOfRange);
    }
    let micros = match secs.checked_mul(1_000_000) {
        Some(m) => match m.checked_add((nanos / 1000) as u64) {
            Some(t) => t,
            None => {
                return Err(MemoError::ClockOutOfRange);
            },
        },
        None => {
            return Err(MemoError::ClockOutOfRange);
        },
    };
    match rfc3339_of(secs as i64, nanos) {
        Some(text) => Ok((text, micros)),
        None => Err(MemoError::ClockOutOfRange),
    }
}

/// Stamp the current UTC time read from the system clock; refused with
/// `ClockBeforeEpoch` when the clock reads before 1970 and with
/// `ClockOutOfRange` when the time cannot be stamped.
pub fn stamp_now() -> (r: Result<(String, u64), MemoError>)
    ensures
        r is Ok ==> clock_stamp(r->Ok_0.0@, r->Ok_0.1),
        r is Err ==> clock_error(r->Err_0),
{
    let now = system_now();
    let since = match duration_since_epoch(&now) {
        Ok(d) => d,
        Err(_) => {
            return Err(MemoError::ClockBeforeEpoch);
        },
    };
    let secs = duration_as_secs(&since);
    let nanos = duration_subsec_nanos(&since);
    let r = stamp_at(secs, nanos);
    if let Ok(stamp) = &r {
        assert(is_stamp(*stamp, secs, nanos));
    }
    r
}

/// A forensic memo.
#[derive(Debug)]
pub struct MemoEntry<C> {
    /// ISO 8601 timestamp
    pub timestamp_iso8601: String,
    /// Microseconds since the Unix epoch
    pub timestamp_micros: u64,
    /// Classification tag: NOTE, EVIDENCE, MANUAL-REC, ANALYSIS
    pub tag: String,
    /// User-provided note content (at most 80 characters)
    pub content: String,
    /// Snapshot of the field and the active defenses, for EVIDENCE and
    /// MANUAL-REC memos.
    pub context: Option<C>,
}

/// `e` is the memo with these fields.
pub open spec fn is_memo<C>(
    e: MemoEntry<C>,
    ts: Seq<char>,
    micros: u64,
    tag: Seq<char>,
    content: Seq<char>,
    context: Option<C>,
) -> bool {
    &&& e.timestamp_iso8601@ == ts
    &&& e.timestamp_micros == micros
    &&& e.tag@ == tag
    &&& e.content@ == content
    &&& e.context == context
}

/// `b` is a copy of memo `a` (the snapshot copied by its `clone`).
pub open spec fn memo_copied<C: Clone>(a: MemoEntry<C>, b: MemoEntry<C>) -> bool {
    &&& b.timestamp_iso8601@ == a.timestamp_iso8601@
    &&& b.timestamp_micros == a.timestamp_micros
    &&& b.tag@ == a.tag@
    &&& b.content@ == a.content@
    &&& match (a.context, b.context) {
        (None, None) => true,
        (Some(x), Some(y)) => cloned(x, y),
        _ => false,
    }
}

impl<C> MemoEntry<C> {
    /// A validated memo without snapshot: refused when the content is
    /// longer than 80 characters or the tag is not NOTE, EVIDENCE, MANUAL-REC or
    /// ANALYSIS.
    pub fn new(timestamp_iso8601: String, timestamp_micros: u64, tag: String, content: &str) -> (r: Result<
        Self,
        MemoError,
    >)
        ensures
            memo_verdict(tag@, content@.len()) is None <==> r is Ok,
            r is Ok ==> is_memo(r->Ok_0, timestamp_iso8601@, timestamp_micros, tag@, content@, None),
            r is Err ==> Some(r->Err_0) == memo_verdict(tag@, content@.len()),
    {
        Self::build(timestamp_iso8601, timestamp_micros, tag, content, None)
    }

    /// A validated memo carrying the snapshot `context` (EVIDENCE and
    /// MANUAL-REC captures); validated as `new` does.
    pub fn with_3d_context(
        timestamp_iso8601: String,
        timestamp_micros: u64,
        tag: String,
        content: &str,
        context: C,
    ) -> (r: Result<Self, MemoError>)
        ensures
            memo_verdict(tag@, content@.len()) is None <==> r is Ok,
            r is Ok ==> is_memo(r->Ok_0, timestamp_iso8601@, timestamp_micros, tag@, content@, Some(context)),
            r is Err ==> Some(r->Err_0) == memo_verdict(tag@, content@.len()),
    {
        Self::build(timestamp_iso8601, timestamp_micros, tag, content, Some(context))
    }

    fn build(timestamp_iso8601: String, timestamp_micros: u64, tag: String, content: &str, context: Option<C>) -> (r:
        Result<Self, MemoError>)
        ensures
            memo_verdict(tag@, content@.len()) is None <==> r is Ok,
            r is Ok ==> is_memo(r->Ok_0, timestamp_iso8601@, timestamp_micros, tag@, content@, context),
            r is Err ==> Some(r->Err_0) == memo_verdict(tag@, content@.len()),
    {
        check_memo(tag.as_str(), content)?;
        Ok(MemoEntry { timestamp_iso8601, timestamp_micros, tag, content: String::from_str(content), context })
    }
}

impl<C: Clone> MemoEntry<C> {
    /// A copy of the memo.
    pub fn copy(&self) -> (r: Self)
        ensures
            memo_copied(*self, r),
    {
        let context = match &self.context {
            Some(c) => Some(c.clone()),
            None => None,
        };
        MemoEntry {
            timestamp_iso8601: self.timestamp_iso8601.clone(),
            timestamp_micros: self.timestamp_micros,
            tag: self.tag.clone(),
            content: self.content.clone(),
            context,
        }
    }
}

/// A console log message.
#[derive(Debug, Clone)]
pub struct LogMessage {
    pub timestamp: String,
    pub level: String,
    pub module: String,
    pub message: String,
}

/// `m` is the log message with these fields.
pub open spec fn is_log(m: LogMessage, ts: Seq<char>, level: Seq<char>, module: Seq<char>, message: Seq<char>) -> bool {
    &&& m.timestamp@ == ts
    &&& m.level@ == level
    &&& m.module@ == module
    &&& m.message@ == message
}

impl LogMessage {
    /// A message stamped with the current UTC time (RFC 3339); refused when
    /// the clock cannot be read or stamped.
    pub fn new(level: &str, module: &str, message: &str) -> (r: Result<Self, MemoError>)
        ensures
            r is Ok ==> {
                &&& r->Ok_0.level@ == level@
                &&& r->Ok_0.module@ == module@
                &&& r->Ok_0.message@ == message@
                &&& clock_text(r->Ok_0.timestamp@)
            },
            r is Err ==> clock_error(r->Err_0),
    {
        let (ts, micros) = stamp_now()?;
        assert(clock_stamp(ts@, micros));
        Ok(Self::at(ts, level, module, message))
    }

    /// A message stamped `timestamp`.
    pub fn at(timestamp: String, level: &str, module: &str, message: &str) -> (r: Self)
        ensures
            is_log(r, timestamp@, level@, module@, message@),
    {
        LogMessage {
            timestamp,
            level: String::from_str(level),
            module: String::from_str(module),
            message: String::from_str(message),
        }
    }
}

/// Memos, console log and manual recording state.
pub struct ForensicJournal<C> {
    /// Memos, oldest first; at most 10 000 are kept.
    pub memos: VecDeque<MemoEntry<C>>,
    /// Console messages, oldest first; at most 1000 are kept.
    pub log_buffer: VecDeque<LogMessage>,
    /// Manual REC button state.
    pub recording_state: RecordingState,
}

/// The log after appending a message: the old log with the last message
/// appended, the oldest dropped at capacity.
pub open spec fn logged(before: Seq<LogMessage>, after: Seq<LogMessage>, ts: Seq<char>, level: Seq<char>, module: Seq<
    char,
>, message: Seq<char>) -> bool {
    &&& after.len() > 0
    &&& is_log(after.last(), ts, level, module, message)
    &&& after == evicting_push(before, LOG_CAPACITY as nat, after.last())
}

impl<C> ForensicJournal<C> {
    /// Well-formedness: at most 10 000 memos and 1000 console messages.
    /// `new` establishes it and every method keeps it.
    pub open spec fn wf(&self) -> bool {
        &&& self.memos@.len() <= MEMO_CAPACITY
        &&& self.log_buffer@.len() <= LOG_CAPACITY
    }

    /// An empty journal, recording IDLE.
    pub fn new() -> (r: Self)
        ensures
            r.wf(),
            r.memos@ == Seq::<MemoEntry<C>>::empty(),
            r.log_buffer@ == Seq::<LogMessage>::empty(),
            r.recording_state.state == RecordingStateEnum::Idle,
            r.recording_state.remaining_ms == 0,
            r.recording_state.sample_count == 0,
    {
        ForensicJournal { memos: VecDeque::new(), log_buffer: VecDeque::new(), recording_state: RecordingState::new() }
    }

    /// Append a console message stamped `timestamp`.
    pub fn log_at(&mut self, timestamp: String, level: &str, module: &str, message: &str)
        requires
            old(self).wf(),
        ensures
            final(self).wf(),
            logged(old(self).log_buffer@, final(self).log_buffer@, timestamp@, level@, module@, message@),
            final(self).memos@ == old(self).memos@,
            final(self).recording_state == old(self).recording_state,
    {
        let msg = LogMessage::at(timestamp, level, module, message);
        push_evicting_oldest(&mut self.log_buffer, msg, LOG_CAPACITY);
    }

    /// Append a console message stamped with the current UTC time; when
    /// the clock cannot be read or stamped nothing is appended.
    pub fn log(&mut self, level: &str, module: &str, message: &str) -> (r: Result<(), MemoError>)
        requires
            old(self).wf(),
        ensures
            final(self).wf(),
            r is Ok ==> logged(
                old(self).log_buffer@,
                final(self).log_buffer@,
                final(self).log_buffer@.last().timestamp@,
                level@,
                module@,
                message@,
            ) && clock_text(final(self).log_buffer@.last().timestamp@),
            r is Err ==> clock_error(r->Err_0) && final(self).log_buffer@ == old(self).log_buffer@,
            final(self).memos@ == old(self).memos@,
            final(self).recording_state == old(self).recording_state,
    {
        let (ts, micros) = stamp_now()?;
        assert(clock_stamp(ts@, micros));
        self.log_at(ts, level, module, message);
        Ok(())
    }

    /// Copies of all console messages, oldest first.
    pub fn get_logs_all(&self) -> (r: Vec<LogMessage>)
        ensures
            r@.len() == self.log_buffer@.len(),
            forall|i: int|
                0 <= i < r@.len() ==> is_log(
                    #[trigger] r@[i],
                    self.log_buffer@[i].timestamp@,
                    self.log_buffer@[i].level@,
                    self.log_buffer@[i].module@,
                    self.log_buffer@[i].message@,
                ),
    {
        let mut r: Vec<LogMessage> = Vec::new();
        let n = self.log_buffer.len();
        for i in 0..n
            invariant
                n == self.log_buffer@.len(),
                r@.len() == i,
                forall|j: int|
                    0 <= j < i ==> is_log(
                        #[trigger] r@[j],
                        self.log_buffer@[j].timestamp@,
                        self.log_buffer@[j].level@,
                        self.log_buffer@[j].module@,
                        self.log_buffer@[j].message@,
                    ),
        {
            let m = &self.log_buffer[i];
            r.push(
                LogMessage {
                    timestamp: m.timestamp.clone(),
                    level: m.level.clone(),
                    module: m.module.clone(),
                    message: m.message.clone(),
                },
            );
        }
        r
    }

    /// Store a memo added at `now_micros`: validated as `MemoEntry::new`,
    /// stamped with the UTC time of `now_micros` (ISO 8601, six fraction digits), appended (the oldest dropped at
    /// 10 000). A refused memo leaves the journal unchanged.
    pub fn add_memo_at(&mut self, now_micros: u64, tag: String, content: &str) -> (r: Result<(), MemoError>)
        requires
            old(self).wf(),
        ensures
            final(self).wf(),
            memo_verdict(tag@, content@.len()) is None <==> r is Ok,
            r is Err ==> Some(r->Err_0) == memo_verdict(tag@, content@.len()) && final(self).memos@ == old(
                self,
            ).memos@,
            r is Ok ==> {
                &&& final(self).memos@.len() > 0
                &&& is_memo(
                    final(self).memos@.last(),
                    utc_text(now_micros),
                    now_micros,
                    tag@,
                    content@,
                    None,
                )
                &&& final(self).memos@ == evicting_push(
                    old(self).memos@,
                    MEMO_CAPACITY as nat,
                    final(self).memos@.last(),
                )
            },
            final(self).log_buffer@ == old(self).log_buffer@,
            final(self).recording_state == old(self).recording_state,
    {
        let ts = utc_timestamp(now_micros);
        let memo = MemoEntry::new(ts, now_micros, tag, content)?;
        push_evicting_oldest(&mut self.memos, memo, MEMO_CAPACITY);
        Ok(())
    }

    /// Store a memo stamped with the system clock, as `add_memo_at` does;
    /// refused with `ClockBeforeEpoch` when the clock reads before 1970.
    pub fn add_memo(&mut self, tag: String, content: &str) -> (r: Result<(), MemoError>)
        requires
            old(self).wf(),
        ensures
            final(self).wf(),
            r is Err && r->Err_0 != MemoError::ClockBeforeEpoch ==> Some(r->Err_0) == memo_verdict(
                tag@,
                content@.len(),
            ),
            r is Err ==> final(self).memos@ == old(self).memos@,
            r is Ok ==> {
                &&& memo_verdict(tag@, content@.len()) is None
                &&& final(self).memos@.len() > 0
                &&& final(self).memos@.last().timestamp_iso8601@ == utc_text(final(self).memos@.last().timestamp_micros)
                &&& final(self).memos@.last().tag@ == tag@
                &&& final(self).memos@.last().content@ == content@
                &&& final(self).memos@.last().context is None
                &&& final(self).memos@ == evicting_push(
                    old(self).memos@,
                    MEMO_CAPACITY as nat,
                    final(self).memos@.last(),
                )
            },
            final(self).log_buffer@ == old(self).log_buffer@,
            final(self).recording_state == old(self).recording_state,
    {
        let now = system_now();
        let since = match duration_since_epoch(&now) {
            Ok(d) => d,
            Err(_) => {
                return Err(MemoError::ClockBeforeEpoch);
            },
        };
        let micros = truncate_to_u64(duration_as_micros(&since));
        self.add_memo_at(micros, tag, content)
    }

    /// Store a memo stamped `timestamp_iso8601` / `timestamp_micros` and log
    /// "Added: <content>" stamped `log_timestamp`; a refused memo is
    /// dropped silently.
    pub fn memo_add_at(
        &mut self,
        timestamp_iso8601: String,
        timestamp_micros: u64,
        log_timestamp: String,
        tag: String,
        content: String,
    )
        requires
            old(self).wf(),
        ensures
            final(self).wf(),
            memo_verdict(tag@, content@.len()) is Some ==> final(self).memos@ == old(self).memos@
                && final(self).log_buffer@ == old(self).log_buffer@,
            memo_verdict(tag@, content@.len()) is None ==> {
                &&& final(self).memos@.len() > 0
                &&& is_memo(
                    final(self).memos@.last(),
                    timestamp_iso8601@,
                    timestamp_micros,
                    tag@,
                    content@,
                    None,
                )
                &&& final(self).memos@ == evicting_push(
                    old(self).memos@,
                    MEMO_CAPACITY as nat,
                    final(self).memos@.last(),
                )
                &&& logged(
                    old(self).log_buffer@,
                    final(self).log_buffer@,
                    log_timestamp@,
                    "INFO"@,
                    "Memo"@,
                    "Added: "@ + content@,
                )
            },
            final(self).recording_state == old(self).recording_state,
    {
        let entry = MemoEntry::new(timestamp_iso8601, timestamp_micros, tag, content.as_str());
        if let Ok(entry) = entry {
            push_evicting_oldest(&mut self.memos, entry, MEMO_CAPACITY);
            let mut text = String::from_str("Added: ");
            text.append(content.as_str());
            self.log_at(log_timestamp, "INFO", "Memo", text.as_str());
        }
    }

    /// Store a memo stamped with the current UTC time and log it, as
    /// `memo_add_at` does (memo and log line carry the same stamp); when the
    /// clock cannot be read or stamped the journal is left unchanged.
    pub fn memo_add(&mut self, tag: String, content: String) -> (r: Result<(), MemoError>)
        requires
            old(self).wf(),
        ensures
            final(self).wf(),
            r is Err ==> clock_error(r->Err_0) && final(self).memos@ == old(self).memos@
                && final(self).log_buffer@ == old(self).log_buffer@,
            r is Ok && memo_verdict(tag@, content@.len()) is Some ==> final(self).memos@ == old(self).memos@
                && final(self).log_buffer@ == old(self).log_buffer@,
            r is Ok && memo_verdict(tag@, content@.len()) is None ==> {
                &&& final(self).memos@.len() > 0
                &&& is_memo(
                    final(self).memos@.last(),
                    final(self).memos@.last().timestamp_iso8601@,
                    final(self).memos@.last().timestamp_micros,
                    tag@,
                    content@,
                    None,
                )
                &&& clock_stamp(final(self).memos@.last().timestamp_iso8601@, final(self).memos@.last().timestamp_micros)
                &&& final(self).memos@ == evicting_push(
                    old(self).memos@,
                    MEMO_CAPACITY as nat,
                    final(self).memos@.last(),
                )
                &&& logged(
                    old(self).log_buffer@,
                    final(self).log_buffer@,
                    final(self).memos@.last().timestamp_iso8601@,
                    "INFO"@,
                    "Memo"@,
                    "Added: "@ + content@,
                )
            },
            final(self).recording_state == old(self).recording_state,
    {
        let (ts, micros) = stamp_now()?;
        assert(clock_stamp(ts@, micros));
        let log_ts = ts.clone();
        self.memo_add_at(ts, micros, log_ts, tag, content);
        Ok(())
    }

    /// Remove the memo at `index`; an index past the end is ignored.
    pub fn memo_delete(&mut self, index: usize)
        requires
            old(self).wf(),
        ensures
            final(self).wf(),
            index < old(self).memos@.len() ==> final(self).memos@ == old(self).memos@.remove(index as int),
            index >= old(self).memos@.len() ==> final(self).memos@ == old(self).memos@,
            final(self).log_buffer@ == old(self).log_buffer@,
            final(self).recording_state == old(self).recording_state,
    {
        if index < self.memos.len() {
            let _ = crate::memo::delete_at(&mut self.memos, index);
        }
    }

    /// Remove the memo at `index`, refusing an index past the end.
    pub fn delete_memo(&mut self, index: usize) -> (r: Result<(), MemoError>)
        requires
            old(self).wf(),
        ensures
            final(self).wf(),
            index < old(self).memos@.len() <==> r is Ok,
            r is Ok ==> final(self).memos@ == old(self).memos@.remove(index as int),
            r is Err ==> r->Err_0 == (MemoError::IndexOutOfBounds { index, len: old(self).memos@.len() as usize })
                && final(self).memos@ == old(self).memos@,
            final(self).log_buffer@ == old(self).log_buffer@,
            final(self).recording_state == old(self).recording_state,
    {
        crate::memo::delete_at(&mut self.memos, index)
    }

    /// Number of stored memos.
    pub fn get_memo_count(&self) -> (r: usize)
        ensures
            r == self.memos@.len(),
    {
        self.memos.len()
    }

    /// Most memos kept (10 000).
    pub fn get_max_memo_capacity(&self) -> (r: usize)
        ensures
            r == MEMO_CAPACITY,
    {
        MEMO_CAPACITY
    }

    /// Start a manual recording and log it, stamped `timestamp`.
    pub fn manual_rec_start_at(&mut self, timestamp: String)
        requires
            old(self).wf(),
        ensures
            final(self).wf(),
            final(self).recording_state.state == RecordingStateEnum::Recording,
            final(self).recording_state.remaining_ms == RECORDING_WINDOW_MS,
            final(self).recording_state.sample_count == 0,
            logged(
                old(self).log_buffer@,
                final(self).log_buffer@,
                timestamp@,
                "INFO"@,
                "REC"@,
                "Manual recording STARTED (30s window)"@,
            ),
            final(self).memos@ == old(self).memos@,
    {
        self.recording_state.start_recording();
        self.log_at(timestamp, "INFO", "REC", "Manual recording STARTED (30s window)");
    }

    /// Start a manual recording and log it, stamped with the current UTC
    /// time; when the clock cannot be read or stamped nothing changes.
    pub fn manual_rec_start(&mut self) -> (r: Result<(), MemoError>)
        requires
            old(self).wf(),
        ensures
            final(self).wf(),
            r is Err ==> clock_error(r->Err_0) && final(self).recording_state == old(self).recording_state
                && final(self).log_buffer@ == old(self).log_buffer@,
            r is Ok ==> {
                &&& final(self).recording_state.state == RecordingStateEnum::Recording
                &&& final(self).recording_state.remaining_ms == RECORDING_WINDOW_MS
                &&& final(self).recording_state.sample_count == 0
                &&& logged(
                    old(self).log_buffer@,
                    final(self).log_buffer@,
                    final(self).log_buffer@.last().timestamp@,
                    "INFO"@,
                    "REC"@,
                    "Manual recording STARTED (30s window)"@,
                )
                &&& clock_text(final(self).log_buffer@.last().timestamp@)
            },
            final(self).memos@ == old(self).memos@,
    {
        let (ts, micros) = stamp_now()?;
        assert(clock_stamp(ts@, micros));
        self.manual_rec_start_at(ts);
        Ok(())
    }

    /// Stop the manual recording (SAVING) and log it, stamped `timestamp`.
    pub fn manual_rec_stop_at(&mut self, timestamp: String)
        requires
            old(self).wf(),
        ensures
            final(self).wf(),
            final(self).recording_state.state == RecordingStateEnum::Saving,
            final(self).recording_state.remaining_ms == old(self).recording_state.remaining_ms,
            final(self).recording_state.sample_count == old(self).recording_state.sample_count,
            logged(
                old(self).log_buffer@,
                final(self).log_buffer@,
                timestamp@,
                "INFO"@,
                "REC"@,
                "Manual recording STOPPED"@,
            ),
            final(self).memos@ == old(self).memos@,
    {
        self.recording_state.stop_recording();
        self.log_at(timestamp, "INFO", "REC", "Manual recording STOPPED");
    }

    /// Stop the manual recording and log it, stamped with the current UTC
    /// time; when the clock cannot be read or stamped nothing changes.
    pub fn manual_rec_stop(&mut self) -> (r: Result<(), MemoError>)
        requires
            old(self).wf(),
        ensures
            final(self).wf(),
            r is Err ==> clock_error(r->Err_0) && final(self).recording_state == old(self).recording_state
                && final(self).log_buffer@ == old(self).log_buffer@,
            r is Ok ==> {
                &&& final(self).recording_state.state == RecordingStateEnum::Saving
                &&& final(self).recording_state.remaining_ms == old(self).recording_state.remaining_ms
                &&& final(self).recording_state.sample_count == old(self).recording_state.sample_count
                &&& logged(
                    old(self).log_buffer@,
                    final(self).log_buffer@,
                    final(self).log_buffer@.last().timestamp@,
                    "INFO"@,
                    "REC"@,
                    "Manual recording STOPPED"@,
                )
                &&& clock_text(final(self).log_buffer@.last().timestamp@)
            },
            final(self).memos@ == old(self).memos@,
    {
        let (ts, micros) = stamp_now()?;
        assert(clock_stamp(ts@, micros));
        self.manual_rec_stop_at(ts);
        Ok(())
    }

    /// Save the manual recording: a MANUAL-REC memo with `notes` and the
    /// snapshot `context`, stamped `timestamp_iso8601` / `timestamp_micros`,
    /// and the log line "Saved manual recording: <notes>" stamped
    /// `log_timestamp` (notes longer than 80 characters are not saved); in every
    /// case the recording returns to IDLE.
    pub fn manual_rec_save_at(
        &mut self,
        timestamp_iso8601: String,
        timestamp_micros: u64,
        log_timestamp: String,
        notes: String,
        context: C,
    )
        requires
            old(self).wf(),
        ensures
            final(self).wf(),
            notes@.len() > MEMO_MAX_CONTENT_CHARS ==> final(self).memos@ == old(self).memos@
                && final(self).log_buffer@ == old(self).log_buffer@,
            notes@.len() <= MEMO_MAX_CONTENT_CHARS ==> {
                &&& final(self).memos@.len() > 0
                &&& is_memo(
                    final(self).memos@.last(),
                    timestamp_iso8601@,
                    timestamp_micros,
                    "MANUAL-REC"@,
                    notes@,
                    Some(context),
                )
                &&& final(self).memos@ == evicting_push(
                    old(self).memos@,
                    MEMO_CAPACITY as nat,
                    final(self).memos@.last(),
                )
                &&& logged(
                    old(self).log_buffer@,
                    final(self).log_buffer@,
                    log_timestamp@,
                    "INFO"@,
                    "REC"@,
                    "Saved manual recording: "@ + notes@,
                )
            },
            final(self).recording_state.state == RecordingStateEnum::Idle,
            final(self).recording_state.remaining_ms == 0,
            final(self).recording_state.sample_count == 0,
    {
        let entry = MemoEntry::with_3d_context(
            timestamp_iso8601,
            timestamp_micros,
            String::from_str("MANUAL-REC"),
            notes.as_str(),
            context,
        );
        if let Ok(entry) = entry {
            push_evicting_oldest(&mut self.memos, entry, MEMO_CAPACITY);
            let mut text = String::from_str("Saved manual recording: ");
            text.append(notes.as_str());
            self.log_at(log_timestamp, "INFO", "REC", text.as_str());
        }
        self.recording_state.reset();
    }

    /// Save the manual recording stamped with the current UTC time, as
    /// `manual_rec_save_at` does (memo and log line carry the same stamp);
    /// when the clock cannot be read or stamped nothing changes.
    pub fn manual_rec_save(&mut self, notes: String, context: C) -> (r: Result<(), MemoError>)
        requires
            old(self).wf(),
        ensures
            final(self).wf(),
            r is Err ==> clock_error(r->Err_0) && final(self).recording_state == old(self).recording_state
                && final(self).memos@ == old(self).memos@ && final(self).log_buffer@ == old(self).log_buffer@,
            r is Ok && notes@.len() > MEMO_MAX_CONTENT_CHARS ==> final(self).memos@ == old(self).memos@
                && final(self).log_buffer@ == old(self).log_buffer@,
            r is Ok && notes@.len() <= MEMO_MAX_CONTENT_CHARS ==> {
                &&& final(self).memos@.len() > 0
                &&& is_memo(
                    final(self).memos@.last(),
                    final(self).memos@.last().timestamp_iso8601@,
                    final(self).memos@.last().timestamp_micros,
                    "MANUAL-REC"@,
                    notes@,
                    Some(context),
                )
                &&& clock_stamp(final(self).memos@.last().timestamp_iso8601@, final(self).memos@.last().timestamp_micros)
                &&& final(self).memos@ == evicting_push(
                    old(self).memos@,
                    MEMO_CAPACITY as nat,
                    final(self).memos@.last(),
                )
                &&& logged(
                    old(self).log_buffer@,
                    final(self).log_buffer@,
                    final(self).memos@.last().timestamp_iso8601@,
                    "INFO"@,
                    "REC"@,
                    "Saved manual recording: "@ + notes@,
                )
            },
            r is Ok ==> final(self).recording_state.state == RecordingStateEnum::Idle
                && final(self).recording_state.remaining_ms == 0
                && final(self).recording_state.sample_count == 0,
    {
        let (ts, micros) = stamp_now()?;
        assert(clock_stamp(ts@, micros));
        let log_ts = ts.clone();
        self.manual_rec_save_at(ts, micros, log_ts, notes, context);
        Ok(())
    }
}

impl<C: Clone> ForensicJournal<C> {
    /// Copies of all memos, oldest first.
    pub fn memo_get_all(&self) -> (r: Vec<MemoEntry<C>>)
        ensures
            r@.len() == self.memos@.len(),
            forall|i: int| 0 <= i < r@.len() ==> memo_copied(self.memos@[i], #[trigger] r@[i]),
    {
        let mut r: Vec<MemoEntry<C>> = Vec::new();
        let n = self.memos.len();
        for i in 0..n
            invariant
                n == self.memos@.len(),
                r@.len() == i,
                forall|j: int| 0 <= j < i ==> memo_copied(self.memos@[j], #[trigger] r@[j]),
        {
            r.push(self.memos[i].copy());
        }
        r
    }

    /// Copies of all memos, oldest first.
    pub fn get_memos_all(&self) -> (r: Result<Vec<MemoEntry<C>>, MemoError>)
        ensures
            r is Ok,
            r->Ok_0@.len() == self.memos@.len(),
            forall|i: int| 0 <= i < r->Ok_0@.len() ==> memo_copied(self.memos@[i], #[trigger] r->Ok_0@[i]),
    {
        Ok(self.memo_get_all())
    }
}

} // verus!

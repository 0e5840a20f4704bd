use synesthesia::journal::{stamp_at, ForensicJournal, LogMessage, MemoEntry};
use synesthesia::utc::utc_timestamp;
use synesthesia::memo::MemoError;
use synesthesia::state::RecordingStateEnum;

#[derive(Debug, Clone, PartialEq)]
struct Snapshot {
    azimuth_centideg: i32,
}

#[test]
fn memo_entry_validation() {
    let ok: Result<MemoEntry<Snapshot>, MemoError> =
        MemoEntry::new("t".to_string(), 7, "NOTE".to_string(), "hello");
    let e = ok.unwrap();
    assert_eq!(e.timestamp_iso8601, "t");
    assert_eq!(e.timestamp_micros, 7);
    assert_eq!(e.tag, "NOTE");
    assert_eq!(e.content, "hello");
    assert!(e.context.is_none());

    let bad_tag: Result<MemoEntry<Snapshot>, MemoError> =
        MemoEntry::new("t".to_string(), 7, "TODO".to_string(), "hello");
    assert_eq!(bad_tag.unwrap_err(), MemoError::InvalidTag);

    // The limit counts characters: 80 two-byte characters are accepted.
    let wide = "é".repeat(80);
    let ok: Result<MemoEntry<Snapshot>, MemoError> = MemoEntry::new("t".to_string(), 7, "NOTE".to_string(), &wide);
    assert_eq!(ok.unwrap().content, wide);
    let long = "é".repeat(81);
    let too_long: Result<MemoEntry<Snapshot>, MemoError> =
        MemoEntry::new("t".to_string(), 7, "TODO".to_string(), &long);
    assert_eq!(too_long.unwrap_err(), MemoError::ContentTooLong { len: 81 });

    let with = MemoEntry::with_3d_context(
        "t".to_string(),
        1,
        "EVIDENCE".to_string(),
        "beam",
        Snapshot { azimuth_centideg: -4500 },
    )
    .unwrap();
    assert_eq!(with.context, Some(Snapshot { azimuth_centideg: -4500 }));
    let copy = with.copy();
    assert_eq!(copy.tag, "EVIDENCE");
    assert_eq!(copy.context, with.context);
}

#[test]
fn memo_timestamps_are_utc() {
    assert_eq!(utc_timestamp(0), "1970-01-01T00:00:00.000000Z");
    assert_eq!(utc_timestamp(999_999), "1970-01-01T00:00:00.999999Z");
    assert_eq!(utc_timestamp(1_700_000_000_000_042), "2023-11-14T22:13:20.000042Z");
    assert_eq!(utc_timestamp(951_782_400_000_000), "2000-02-29T00:00:00.000000Z");
    assert_eq!(utc_timestamp(1_709_251_199_999_999), "2024-02-29T23:59:59.999999Z");
    assert_eq!(utc_timestamp(1_709_251_200_000_000), "2024-03-01T00:00:00.000000Z");
    assert_eq!(utc_timestamp(4_102_444_800_000_000), "2100-01-01T00:00:00.000000Z");
    assert_eq!(utc_timestamp(1_772_893_394_832_401), "2026-03-07T14:23:14.832401Z");
    assert_eq!(utc_timestamp(253_402_300_799_000_000), "9999-12-31T23:59:59.000000Z");
    assert_eq!(utc_timestamp(253_402_300_800_000_000), "10000-01-01T00:00:00.000000Z");
}

#[test]
fn stamps_come_from_chrono() {
    let (text, micros) = stamp_at(0, 0).unwrap();
    assert_eq!(text, "1970-01-01T00:00:00+00:00");
    assert_eq!(micros, 0);
    let (text, micros) = stamp_at(1_700_000_000, 123_456_789).unwrap();
    assert_eq!(text, "2023-11-14T22:13:20.123456789+00:00");
    assert_eq!(micros, 1_700_000_000_123_456);
    assert_eq!(stamp_at(u64::MAX, 0), Err(MemoError::ClockOutOfRange));
    assert_eq!(stamp_at(i64::MAX as u64, 0), Err(MemoError::ClockOutOfRange));
}

#[test]
fn add_memo_and_delete() {
    let mut j: ForensicJournal<Snapshot> = ForensicJournal::new();
    assert_eq!(j.add_memo_at(5_123_456, "ANALYSIS".to_string(), "first"), Ok(()));
    assert_eq!(j.add_memo_at(6, "BAD".to_string(), "second"), Err(MemoError::InvalidTag));
    assert_eq!(j.get_memo_count(), 1);
    let all = j.memo_get_all();
    assert_eq!(all[0].timestamp_iso8601, "1970-01-01T00:00:05.123456Z");
    assert_eq!(all[0].timestamp_micros, 5_123_456);
    assert!(j.add_memo("NOTE".to_string(), "clock").is_ok());
    assert_eq!(j.get_memo_count(), 2);
    assert_eq!(j.get_max_memo_capacity(), 10_000);
    assert_eq!(j.delete_memo(5), Err(MemoError::IndexOutOfBounds { index: 5, len: 2 }));
    assert_eq!(j.delete_memo(0), Ok(()));
    assert_eq!(j.get_memos_all().unwrap()[0].content, "clock");
    j.memo_delete(9);
    assert_eq!(j.get_memo_count(), 1);
    j.memo_delete(0);
    assert_eq!(j.get_memo_count(), 0);
}

#[test]
fn memo_add_logs_the_memo() {
    let mut j: ForensicJournal<Snapshot> = ForensicJournal::new();
    j.memo_add_at("ts".to_string(), 1, "log-ts".to_string(), "NOTE".to_string(), "hi".to_string());
    j.memo_add_at("ts".to_string(), 2, "log-ts".to_string(), "nope".to_string(), "x".to_string());
    assert_eq!(j.get_memo_count(), 1);
    let logs = j.get_logs_all();
    assert_eq!(logs.len(), 1);
    assert_eq!(logs[0].timestamp, "log-ts");
    assert_eq!(logs[0].level, "INFO");
    assert_eq!(logs[0].module, "Memo");
    assert_eq!(logs[0].message, "Added: hi");
    assert_eq!(j.memo_add("EVIDENCE".to_string(), "now".to_string()), Ok(()));
    assert_eq!(j.get_memo_count(), 2);
    let logs = j.get_logs_all();
    assert_eq!(logs[1].message, "Added: now");
    assert_eq!(logs[1].timestamp, j.memo_get_all()[1].timestamp_iso8601);
}

#[test]
fn memo_store_evicts_oldest_at_capacity() {
    let mut j: ForensicJournal<Snapshot> = ForensicJournal::new();
    for i in 0..10_001u64 {
        assert!(j.add_memo_at(i, "NOTE".to_string(), "m").is_ok());
    }
    assert_eq!(j.get_memo_count(), 10_000);
    assert_eq!(j.memos.front().unwrap().timestamp_micros, 1);
    assert_eq!(j.memos.back().unwrap().timestamp_micros, 10_000);
}

#[test]
fn log_keeps_last_thousand() {
    let mut j: ForensicJournal<Snapshot> = ForensicJournal::new();
    for i in 0..1003 {
        j.log_at(format!("{}", i), "INFO", "Test", "tick");
    }
    let logs = j.get_logs_all();
    assert_eq!(logs.len(), 1000);
    assert_eq!(logs[0].timestamp, "3");
    assert_eq!(j.log("WARN", "SDR", "retune"), Ok(()));
    let last = j.get_logs_all().pop().unwrap();
    assert_eq!((last.level.as_str(), last.module.as_str(), last.message.as_str()), ("WARN", "SDR", "retune"));
    assert!(!last.timestamp.is_empty());
}

#[test]
fn manual_recording_flow() {
    let mut j: ForensicJournal<Snapshot> = ForensicJournal::new();
    assert_eq!(j.manual_rec_start(), Ok(()));
    assert_eq!(j.recording_state.state, RecordingStateEnum::Recording);
    assert_eq!(j.recording_state.remaining_ms, 30_000);
    j.recording_state.add_samples(48_000);
    assert_eq!(j.manual_rec_stop(), Ok(()));
    assert_eq!(j.recording_state.state, RecordingStateEnum::Saving);
    assert_eq!(j.recording_state.sample_count, 48_000);
    assert_eq!(j.manual_rec_save("suspicious tone".to_string(), Snapshot { azimuth_centideg: 1200 }), Ok(()));
    assert_eq!(j.recording_state.state, RecordingStateEnum::Idle);
    assert_eq!(j.recording_state.sample_count, 0);
    let memos = j.memo_get_all();
    assert_eq!(memos.len(), 1);
    assert_eq!(memos[0].tag, "MANUAL-REC");
    assert_eq!(memos[0].content, "suspicious tone");
    assert_eq!(memos[0].context, Some(Snapshot { azimuth_centideg: 1200 }));
    let msgs: Vec<String> = j.get_logs_all().into_iter().map(|m| m.message).collect();
    assert_eq!(
        msgs,
        vec![
            "Manual recording STARTED (30s window)".to_string(),
            "Manual recording STOPPED".to_string(),
            "Saved manual recording: suspicious tone".to_string()
        ]
    );
}

#[test]
fn manual_recording_save_with_long_notes_only_resets() {
    let mut j: ForensicJournal<Snapshot> = ForensicJournal::new();
    j.manual_rec_start_at("a".to_string());
    j.manual_rec_stop_at("b".to_string());
    j.manual_rec_save_at("c".to_string(), 3, "d".to_string(), "x".repeat(81), Snapshot { azimuth_centideg: 0 });
    assert_eq!(j.get_memo_count(), 0);
    assert_eq!(j.get_logs_all().len(), 2);
    assert_eq!(j.recording_state.state, RecordingStateEnum::Idle);
}

#[test]
fn log_message_fields() {
    let m = LogMessage::at("2026-01-01T00:00:00Z".to_string(), "ERROR", "SDR", "lost");
    assert_eq!(m.timestamp, "2026-01-01T00:00:00Z");
    assert_eq!(m.level, "ERROR");
    let n = LogMessage::new("INFO", "UI", "hello").unwrap();
    assert_eq!(n.message, "hello");
    assert!(n.timestamp.starts_with("20"));
}

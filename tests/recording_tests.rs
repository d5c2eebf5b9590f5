use termgate::errors::AppError;
use termgate::recording::{
    apply_playback_filters, PlaybackControl, RecordingConfig, RecordingManager, RecordingSearchCriteria, TerminalEvent,
    TerminalEventType,
};

fn event(t: i64, kind: TerminalEventType, data: &str) -> TerminalEvent {
    TerminalEvent { timestamp: t, event_type: kind, data: data.to_string(), metadata: None }
}

fn criteria() -> RecordingSearchCriteria {
    RecordingSearchCriteria {
        session_id: None,
        user_id: None,
        hostname: None,
        start_date: None,
        end_date: None,
        tags: Vec::new(),
        min_duration_seconds: None,
        max_duration_seconds: None,
        text_search: None,
    }
}

#[test]
fn recording_counts_every_event_in_order() {
    let mut rm = RecordingManager::new(RecordingConfig::default());
    let s = "s1".to_string();
    let id = rm.start_recording(s.clone(), "host".to_string(), Some("alice".to_string()), 1_000).unwrap();
    rm.record_event(&s, event(2_000, TerminalEventType::Output, "hello\n"), 6, 2_000).unwrap();
    rm.record_event(&s, event(1_500, TerminalEventType::Input, "ls"), 2, 2_100).unwrap();
    let active = &rm.active_recordings[0];
    assert_eq!(active.events[2].timestamp, 2_000);
    let m = rm.stop_recording(&s, 6_500).unwrap().unwrap();
    assert_eq!(m.recording_id, id);
    assert_eq!(m.total_events, 4);
    assert_eq!(m.end_time, Some(6_500));
    assert_eq!(m.duration_seconds, Some(5));
    assert!(rm.active_recordings.is_empty());
    assert_eq!(rm.get_recording_metadata(&id).unwrap().unwrap().total_events, 4);
    assert!(rm.stop_recording(&s, 7_000).unwrap().is_none());
}

#[test]
fn disabled_recorder_refuses_to_start() {
    let mut config = RecordingConfig::default();
    config.enabled = false;
    let mut rm = RecordingManager::new(config);
    let r = rm.start_recording("s".to_string(), "h".to_string(), None, 0);
    assert!(matches!(r, Err(AppError::OperationFailed(_))));
}

#[test]
fn size_cap_stops_recording() {
    let mut config = RecordingConfig::default();
    config.max_recording_size_mb = 0;
    let mut rm = RecordingManager::new(config);
    let s = "s".to_string();
    rm.start_recording(s.clone(), "h".to_string(), None, 0).unwrap();
    let finished = rm.record_event(&s, event(1, TerminalEventType::Output, "x"), 1, 1).unwrap();
    assert!(finished.is_some());
    assert!(rm.active_recordings.is_empty());
    assert!(rm.record_event(&s, event(2, TerminalEventType::Output, "y"), 1, 2).unwrap().is_none());
}

#[test]
fn search_filters_and_orders_newest_first() {
    let mut rm = RecordingManager::new(RecordingConfig::default());
    for (k, host) in ["a", "b", "a"].iter().enumerate() {
        let s = format!("s{}", k);
        rm.start_recording(s.clone(), host.to_string(), None, (k as i64 + 1) * 1_000).unwrap();
        rm.add_recording_tag(&s, "prod".to_string());
        rm.stop_recording(&s, (k as i64 + 1) * 1_000 + 10_000).unwrap();
    }
    let mut c = criteria();
    c.hostname = Some("a".to_string());
    let found = rm.search_recordings(&c).unwrap();
    assert_eq!(found.len(), 2);
    assert_eq!(found[0].start_time, 3_000);
    assert_eq!(found[1].start_time, 1_000);
    let mut c = criteria();
    c.tags = vec!["dev".to_string()];
    assert!(rm.search_recordings(&c).unwrap().is_empty());
    let mut c = criteria();
    c.min_duration_seconds = Some(11);
    assert!(rm.search_recordings(&c).unwrap().is_empty());
    let stats = rm.get_recording_stats(3_000 + 86_400_000);
    assert_eq!(stats.total_recordings, 3);
    assert_eq!(stats.recent_recordings, 0);
    assert_eq!(stats.weekly_recordings, 3);
    assert_eq!(stats.total_duration_seconds, 30);
    assert_eq!(stats.average_duration_seconds, 10);
}

#[test]
fn retention_sweep_removes_old_recordings() {
    let mut rm = RecordingManager::new(RecordingConfig::default());
    let s = "s".to_string();
    let id = rm.start_recording(s.clone(), "h".to_string(), None, 0).unwrap();
    rm.stop_recording(&s, 10).unwrap();
    assert!(rm.cleanup_old_recordings(30 * 86_400_000).is_empty());
    let gone = rm.cleanup_old_recordings(30 * 86_400_000 + 1);
    assert_eq!(gone, vec![id]);
    assert_eq!(rm.get_recording_stats(0).total_recordings, 0);
}

#[test]
fn playback_filters_by_time_and_kind() {
    let events = vec![
        event(1, TerminalEventType::Input, "a"),
        event(2, TerminalEventType::Output, "b"),
        event(3, TerminalEventType::Output, "c"),
        event(4, TerminalEventType::Resize, "d"),
    ];
    let control = PlaybackControl {
        speed_percent: 200,
        start_time: Some(2),
        end_time: Some(4),
        filter_event_types: Some(vec![TerminalEventType::Output]),
    };
    let kept = apply_playback_filters(events, &control);
    let data: Vec<String> = kept.into_iter().map(|e| e.data).collect();
    assert_eq!(data, vec!["b".to_string(), "c".to_string()]);
    assert_eq!(PlaybackControl::default().speed_percent, 100);
}

#[test]
fn closing_event_matches_what_stop_appends() {
    let mut rm = RecordingManager::new(RecordingConfig::default());
    let s = "s9".to_string();
    rm.start_recording(s.clone(), "h".to_string(), None, 100).unwrap();
    let closing = rm.closing_event(&s, 50).unwrap();
    assert_eq!(closing.event_type, TerminalEventType::Disconnect);
    assert_eq!(closing.timestamp, 100);
    assert_eq!(closing.data, "Recording stopped for session s9");
    let m = rm.stop_recording(&s, 50).unwrap().unwrap();
    assert_eq!(m.total_events, 2);
    assert!(rm.closing_event(&s, 60).is_none());
}

#[test]
fn cap_stops_before_an_append_would_exceed_it() {
    let mut config = RecordingConfig::default();
    config.max_recording_size_mb = 1;
    let mut rm = RecordingManager::new(config);
    let s = "s".to_string();
    rm.start_recording(s.clone(), "h".to_string(), None, 0).unwrap();
    let used = rm.active_recordings[0].size_bytes;
    assert_eq!(used, "Recording started for session s".len() as u64);
    let fill = 1_048_576 - used;
    assert!(rm.record_event(&s, event(1, TerminalEventType::Output, "a"), fill, 1).unwrap().is_none());
    assert_eq!(rm.active_recordings[0].size_bytes, 1_048_576);
    assert_eq!(rm.active_recordings[0].events.len(), 2);
    let stopped = rm.record_event(&s, event(2, TerminalEventType::Output, "b"), 1, 2).unwrap().unwrap();
    assert_eq!(stopped.total_events, 3);
    assert!(rm.active_recordings.is_empty());
}

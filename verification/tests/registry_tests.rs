use stream_orchestrator::registry::Registry;
use stream_orchestrator::session::{PipelineHandle, SessionState, StopReason};

fn key(s: &str) -> String {
    s.to_string()
}

#[test]
fn new_registry_is_empty() {
    let r = Registry::new();
    assert_eq!(r.snapshot().len(), 0);
    assert!(!r.contains(&key("rtsp://cam1-HLS")));
}

#[test]
fn upsert_then_get() {
    let mut r = Registry::new();
    r.upsert(key("rtsp://cam1-HLS"), SessionState::Starting);
    assert!(r.contains(&key("rtsp://cam1-HLS")));
    assert!(matches!(r.get(&key("rtsp://cam1-HLS")), Some(SessionState::Starting)));
    assert!(r.get(&key("rtsp://cam1-WEBRTC")).is_none());
}

#[test]
fn same_source_different_kind_is_distinct() {
    let mut r = Registry::new();
    r.upsert(key("rtsp://cam1-HLS"), SessionState::Starting);
    r.upsert(key("rtsp://cam1-WEBRTC"), SessionState::Running(PipelineHandle { id: 4 }));
    assert_eq!(r.snapshot().len(), 2);
}

#[test]
fn readd_overwrites_and_keeps_one_entry() {
    let mut r = Registry::new();
    r.upsert(key("rtsp://cam1-HLS"), SessionState::Stopped(StopReason::NormalEnd));
    r.upsert(key("rtsp://cam1-HLS"), SessionState::Starting);
    let snap = r.snapshot();
    assert_eq!(snap.len(), 1);
    assert_eq!(snap[0].0, "rtsp://cam1-HLS");
    assert_eq!(snap[0].1.status, false);
    assert_eq!(snap[0].1.message, "Starting");
}

#[test]
fn remove_reports_presence() {
    let mut r = Registry::new();
    r.upsert(key("a-HLS"), SessionState::Starting);
    assert!(r.remove(&key("a-HLS")));
    assert!(!r.remove(&key("a-HLS")));
    assert!(!r.contains(&key("a-HLS")));
}

#[test]
fn remove_absent_key_changes_nothing() {
    let mut r = Registry::new();
    r.upsert(key("a-HLS"), SessionState::Starting);
    r.upsert(key("b-HLS"), SessionState::Running(PipelineHandle { id: 9 }));
    assert!(!r.remove(&key("c-HLS")));
    let mut keys: Vec<String> = r.snapshot().into_iter().map(|e| e.0).collect();
    keys.sort();
    assert_eq!(keys, vec!["a-HLS".to_string(), "b-HLS".to_string()]);
}

#[test]
fn snapshot_is_decoupled_and_complete() {
    let mut r = Registry::new();
    r.upsert(key("a-HLS"), SessionState::Starting);
    r.upsert(key("b-HLS"), SessionState::Running(PipelineHandle { id: 1 }));
    r.upsert(key("c-HLS"), SessionState::Stopped(StopReason::NormalEnd));
    let snap = r.snapshot();
    assert_eq!(snap.len(), 3);
    // every key appears exactly once
    let mut keys: Vec<&str> = snap.iter().map(|e| e.0.as_str()).collect();
    keys.sort();
    assert_eq!(keys, vec!["a-HLS", "b-HLS", "c-HLS"]);
    // the snapshot does not change when the registry does
    r.remove(&key("a-HLS"));
    r.upsert(key("b-HLS"), SessionState::Stopped(StopReason::SinkUnavailable));
    assert_eq!(snap.len(), 3);
    let b = snap.iter().find(|e| e.0 == "b-HLS").unwrap();
    assert_eq!(b.1.status, true);
    assert_eq!(b.1.message, "Started");
}

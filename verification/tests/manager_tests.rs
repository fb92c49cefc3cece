use stream_orchestrator::manager::{
    add_stream_core, apply_session_event, delete_stream_core, get_streams_core, stream_key,
};
use stream_orchestrator::registry::Registry;
use stream_orchestrator::session::{
    PipelineHandle, SessionEvent, SessionState, StopReason, advance, to_response,
};
use stream_orchestrator::structures::{EncodeOptions, StreamData};

fn add_request(rtsp: &str, stream_type: &str, mode: Option<EncodeOptions>) -> StreamData {
    StreamData {
        rtsp: rtsp.to_string(),
        stream_type: stream_type.to_string(),
        encode_options: mode,
        hls_options: None,
    }
}

fn listed(reg: &Registry, key: &str) -> Option<(bool, String)> {
    let r = get_streams_core(reg);
    assert!(r.status);
    assert_eq!(r.message, "Fetch Success");
    r.data
        .unwrap()
        .into_iter()
        .find(|e| e.0 == key)
        .map(|e| (e.1.status, e.1.message))
}

#[test]
fn stream_key_joins_source_and_kind() {
    assert_eq!(stream_key("rtsp://cam1", "HLS"), "rtsp://cam1-HLS");
    assert_eq!(stream_key("rtsp://cam1", "WEBRTC"), "rtsp://cam1-WEBRTC");
}

#[test]
fn add_lists_starting_then_started() {
    let mut reg = Registry::new();
    let req = add_request("rtsp://cam1", "HLS", Some(EncodeOptions::MULTI));
    let out = add_stream_core(&mut reg, &req);
    assert!(out.response.status);
    assert_eq!(out.response.message, "Initiated");
    assert_eq!(out.key, "rtsp://cam1-HLS");
    assert_eq!(out.layout.quality_dirs.len(), 3);
    assert_eq!(
        listed(&reg, "rtsp://cam1-HLS"),
        Some((false, "Starting".to_string()))
    );

    apply_session_event(&mut reg, &out.key, SessionEvent::GraphStarted(PipelineHandle { id: 11 }));
    assert_eq!(
        listed(&reg, "rtsp://cam1-HLS"),
        Some((true, "Started".to_string()))
    );
}

#[test]
fn construction_failure_becomes_visible_through_listing() {
    let mut reg = Registry::new();
    let req = add_request("rtsp://unreachable", "HLS", None);
    let out = add_stream_core(&mut reg, &req);
    assert!(out.response.status);
    apply_session_event(
        &mut reg,
        &out.key,
        SessionEvent::BuildFailed("Failed to create rtspsrc".to_string()),
    );
    assert_eq!(
        listed(&reg, "rtsp://unreachable-HLS"),
        Some((false, "Failed to create rtspsrc".to_string()))
    );
}

#[test]
fn pipeline_end_is_recorded_only_while_registered() {
    let mut reg = Registry::new();
    let out = add_stream_core(&mut reg, &add_request("rtsp://cam1", "HLS", None));
    apply_session_event(&mut reg, &out.key, SessionEvent::GraphStarted(PipelineHandle { id: 3 }));
    apply_session_event(&mut reg, &out.key, SessionEvent::GraphEnded);
    assert_eq!(
        listed(&reg, "rtsp://cam1-HLS"),
        Some((false, "Pipeline Ended".to_string()))
    );

    // a session deleted before its terminal signal is not resurrected
    let out2 = add_stream_core(&mut reg, &add_request("rtsp://cam2", "HLS", None));
    apply_session_event(&mut reg, &out2.key, SessionEvent::GraphStarted(PipelineHandle { id: 4 }));
    let del = delete_stream_core(&mut reg, "rtsp://cam2", "HLS");
    assert!(del.response.status);
    apply_session_event(&mut reg, &out2.key, SessionEvent::GraphEnded);
    assert_eq!(listed(&reg, "rtsp://cam2-HLS"), None);
}

#[test]
fn delete_running_session_hides_it_immediately() {
    let mut reg = Registry::new();
    let out = add_stream_core(&mut reg, &add_request("rtsp://cam1", "HLS", None));
    apply_session_event(&mut reg, &out.key, SessionEvent::GraphStarted(PipelineHandle { id: 42 }));
    let del = delete_stream_core(&mut reg, "rtsp://cam1", "HLS");
    assert!(del.response.status);
    assert_eq!(del.response.message, "Stream 'rtsp://cam1' deleted successfully");
    // the live handle is surrendered so the graph can be asked to end
    assert_eq!(del.to_stop, Some(PipelineHandle { id: 42 }));
    assert_eq!(listed(&reg, "rtsp://cam1-HLS"), None);
}

#[test]
fn delete_absent_key_reports_success_and_alters_nothing() {
    let mut reg = Registry::new();
    let out = add_stream_core(&mut reg, &add_request("rtsp://cam1", "HLS", None));
    let del = delete_stream_core(&mut reg, "rtsp://other", "HLS");
    assert!(del.response.status);
    assert_eq!(del.response.message, "Stream not found");
    assert_eq!(del.to_stop, None);
    assert_eq!(
        listed(&reg, "rtsp://cam1-HLS"),
        Some((false, "Starting".to_string()))
    );
    let _ = out;
}

#[test]
fn readding_a_key_overwrites_the_first_session() {
    let mut reg = Registry::new();
    let out1 = add_stream_core(&mut reg, &add_request("rtsp://cam1", "HLS", None));
    apply_session_event(&mut reg, &out1.key, SessionEvent::GraphStarted(PipelineHandle { id: 1 }));
    let _out2 = add_stream_core(&mut reg, &add_request("rtsp://cam1", "HLS", None));
    let snap = get_streams_core(&reg).data.unwrap();
    assert_eq!(snap.len(), 1);
    assert_eq!(snap[0].0, "rtsp://cam1-HLS");
    assert_eq!(snap[0].1.message, "Starting");
}

#[test]
fn stale_supervisor_event_cannot_disturb_a_readded_session() {
    let mut reg = Registry::new();
    let out1 = add_stream_core(&mut reg, &add_request("rtsp://cam1", "HLS", None));
    apply_session_event(&mut reg, &out1.key, SessionEvent::GraphStarted(PipelineHandle { id: 1 }));
    // the stream is registered again; the old session's late end signal
    // must not move the fresh entry
    let out2 = add_stream_core(&mut reg, &add_request("rtsp://cam1", "HLS", None));
    apply_session_event(&mut reg, &out2.key, SessionEvent::GraphEnded);
    assert_eq!(
        listed(&reg, "rtsp://cam1-HLS"),
        Some((false, "Starting".to_string()))
    );
}

#[test]
fn lifecycle_advances_forward_only() {
    let s = advance(SessionState::Starting, SessionEvent::GraphStarted(PipelineHandle { id: 5 }));
    assert!(matches!(s, SessionState::Running(PipelineHandle { id: 5 })));
    let s = advance(s, SessionEvent::GraphEnded);
    assert!(matches!(s, SessionState::Stopped(StopReason::NormalEnd)));
    // terminal: no further event moves the session
    let s = advance(s, SessionEvent::GraphStarted(PipelineHandle { id: 6 }));
    assert!(matches!(s, SessionState::Stopped(StopReason::NormalEnd)));
    let s = advance(s, SessionEvent::GraphErrored("late".to_string()));
    assert!(matches!(s, SessionState::Stopped(StopReason::NormalEnd)));
}

#[test]
fn lifecycle_records_failures() {
    let s = advance(
        SessionState::Starting,
        SessionEvent::BuildFailed("Failed to create tee".to_string()),
    );
    let r = to_response(&s);
    assert!(!r.status);
    assert_eq!(r.message, "Failed to create tee");

    let s = advance(
        SessionState::Running(PipelineHandle { id: 1 }),
        SessionEvent::NoEventSource,
    );
    let r = to_response(&s);
    assert!(!r.status);
    assert_eq!(r.message, "Bus not initialized");

    let s = advance(
        SessionState::Running(PipelineHandle { id: 1 }),
        SessionEvent::GraphErrored("decoder fault".to_string()),
    );
    let r = to_response(&s);
    assert!(!r.status);
    assert_eq!(r.message, "decoder fault");
}

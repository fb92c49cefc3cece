use stream_orchestrator::manifest::quality_ladder;
use stream_orchestrator::structures::{EncodeOptions, HLSOptions};
use stream_orchestrator::topology::{
    DEFAULT_DURATION, DEFAULT_MAX_FILES, Link, LinkTarget, NodeSpec, PropValue, hls_plan,
    node_failure_message, select_parser, webrtc_plan,
};

fn factories(nodes: &[NodeSpec]) -> Vec<&str> {
    nodes.iter().map(|n| n.factory.as_str()).collect()
}

fn prop<'a>(n: &'a NodeSpec, name: &str) -> &'a PropValue {
    &n.props.iter().find(|p| p.0 == name).unwrap().1
}

#[test]
fn parser_selection_accepts_only_whitelisted_encodings() {
    assert_eq!(select_parser("video/x-h264"), Some("h264parse".to_string()));
    assert_eq!(select_parser("video/x-h265"), Some("h265parse".to_string()));
    assert_eq!(select_parser("audio/mpeg"), None);
    assert_eq!(select_parser("video/x-vp9"), None);
    assert_eq!(select_parser(""), None);
}

#[test]
fn failure_message_names_the_factory() {
    assert_eq!(node_failure_message("rtspsrc"), "Failed to create rtspsrc");
    assert_eq!(node_failure_message("decodebin"), "Failed to create decodebin");
}

#[test]
fn webrtc_plan_passthrough() {
    let p = webrtc_plan("rtsp://cam1", &EncodeOptions::NONE);
    assert_eq!(factories(&p.nodes), vec!["rtspsrc", "parsebin", "webrtcsink"]);
    assert!(matches!(prop(&p.nodes[0], "location"), PropValue::Str(s) if s == "rtsp://cam1"));
    assert!(matches!(prop(&p.nodes[2], "name"), PropValue::Str(s) if s == "rtsp://cam1"));
    assert!(matches!(prop(&p.nodes[2], "meta"), PropValue::Meta(s) if s == "rtsp://cam1"));
    assert!(p.links.is_empty());
    assert_eq!(p.deferred.len(), 2);
    assert_eq!(p.deferred[0].from, 0);
    assert_eq!(p.deferred[0].to, LinkTarget::StaticSink(1));
    assert_eq!(p.deferred[1].from, 1);
    assert_eq!(p.deferred[1].to, LinkTarget::RequestVideoPad(2));
    assert!(p.parser_rules.is_empty());
}

#[test]
fn webrtc_plan_single_quality() {
    let p = webrtc_plan("rtsp://cam1", &EncodeOptions::SINGLE);
    assert_eq!(
        factories(&p.nodes),
        vec!["rtspsrc", "parsebin", "webrtcsink", "decodebin", "videoconvert", "queue", "x264enc"]
    );
    assert_eq!(
        p.links,
        vec![
            Link { from: 4, to: 6 },
            Link { from: 6, to: 5 },
            Link { from: 5, to: 2 },
        ]
    );
    assert_eq!(p.deferred.len(), 3);
    assert_eq!(p.deferred[1].from, 1);
    assert_eq!(p.deferred[1].to, LinkTarget::StaticSink(3));
    assert_eq!(p.deferred[2].from, 3);
    assert_eq!(p.deferred[2].to, LinkTarget::StaticSink(4));
}

#[test]
fn hls_plan_passthrough_uses_default_retention() {
    let p = hls_plan("rtsp://cam1", quality_ladder(&EncodeOptions::NONE), &EncodeOptions::NONE, None);
    assert_eq!(factories(&p.nodes), vec!["rtspsrc", "parsebin", "hlssink2"]);
    let sink = &p.nodes[2];
    assert!(matches!(
        prop(sink, "location"),
        PropValue::Str(s) if s == "./hls/rtsp___cam1/1080p/segment%05d.ts"
    ));
    assert!(matches!(
        prop(sink, "playlist-location"),
        PropValue::Str(s) if s == "./hls/rtsp___cam1/1080p/playlist.m3u8"
    ));
    assert!(matches!(prop(sink, "max-files"), PropValue::U32(n) if *n == DEFAULT_MAX_FILES));
    assert!(matches!(prop(sink, "playlist-length"), PropValue::U32(n) if *n == DEFAULT_MAX_FILES));
    assert!(matches!(prop(sink, "target-duration"), PropValue::U32(n) if *n == DEFAULT_DURATION));
    assert!(p.links.is_empty());
    assert_eq!(p.deferred.len(), 1);
    assert_eq!(p.parser_rules.len(), 1);
    assert_eq!(p.parser_rules[0].from, 1);
    assert_eq!(p.parser_rules[0].downstream, 2);
}

#[test]
fn hls_plan_multi_quality_fanout() {
    let opts = HLSOptions { max_files: 10, duration: 4 };
    let p = hls_plan(
        "rtsp://cam1",
        quality_ladder(&EncodeOptions::MULTI),
        &EncodeOptions::MULTI,
        Some(opts),
    );
    // 4 base nodes plus 8 per rendition branch
    assert_eq!(p.nodes.len(), 4 + 3 * 8);
    assert_eq!(factories(&p.nodes[..4]), vec!["rtspsrc", "parsebin", "decodebin", "tee"]);
    for (branch, height, bitrate) in [(0usize, 1080u32, 4000u32), (1, 720, 2500), (2, 480, 1000)] {
        let b = 4 + 8 * branch;
        assert_eq!(
            factories(&p.nodes[b..b + 8]),
            vec![
                "queue", "videoscale", "capsfilter", "videoconvert", "queue", "x264enc",
                "h264parse", "hlssink2"
            ]
        );
        assert!(matches!(
            prop(&p.nodes[b + 2], "caps"),
            PropValue::Caps { height: h, .. } if *h as u32 == height
        ));
        assert!(matches!(prop(&p.nodes[b + 5], "bitrate"), PropValue::U32(n) if *n == bitrate));
        let loc = format!("./hls/rtsp___cam1/{}p/segment%05d.ts", height);
        assert!(matches!(prop(&p.nodes[b + 7], "location"), PropValue::Str(s) if *s == loc));
        assert!(matches!(prop(&p.nodes[b + 7], "max-files"), PropValue::U32(n) if *n == 10));
        assert!(matches!(prop(&p.nodes[b + 7], "target-duration"), PropValue::U32(n) if *n == 4));
        // each branch hangs off the fan-out node
        assert_eq!(p.links[8 * branch], Link { from: 3, to: b });
    }
    assert_eq!(p.links.len(), 3 * 8);
    // decoder feeds the fan-out, source feeds the demultiplexer
    assert_eq!(p.deferred.len(), 2);
    assert_eq!(p.deferred[0].from, 2);
    assert_eq!(p.deferred[0].to, LinkTarget::StaticSink(3));
    assert_eq!(p.deferred[1].from, 0);
    assert_eq!(p.deferred[1].to, LinkTarget::StaticSink(1));
    // the parser is chosen at negotiation time, between demultiplexer and decoder
    assert_eq!(p.parser_rules.len(), 1);
    assert_eq!(p.parser_rules[0].from, 1);
    assert_eq!(p.parser_rules[0].downstream, 2);
}

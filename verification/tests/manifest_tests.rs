use stream_orchestrator::manifest::{
    master_path, master_text, playlist_location, prepare_layout, quality_dir, quality_ladder,
    sanitize_source, segment_location, source_dir, u32_to_dec,
};
use stream_orchestrator::structures::EncodeOptions;

#[test]
fn decimal_rendering_exact() {
    assert_eq!(u32_to_dec(0), "0");
    assert_eq!(u32_to_dec(7), "7");
    assert_eq!(u32_to_dec(480), "480");
    assert_eq!(u32_to_dec(1080), "1080");
    assert_eq!(u32_to_dec(4000000), "4000000");
    assert_eq!(u32_to_dec(u32::MAX), "4294967295");
}

#[test]
fn sanitization_replaces_url_characters() {
    assert_eq!(sanitize_source("rtsp://cam1"), "rtsp___cam1");
    assert_eq!(sanitize_source("rtsp://host:554/a?b&c"), "rtsp___host_554_a_b_c");
    assert_eq!(sanitize_source(""), "");
    assert_eq!(sanitize_source("plain"), "plain");
}

#[test]
fn directory_and_file_paths() {
    assert_eq!(source_dir("rtsp://cam1"), "./hls/rtsp___cam1");
    assert_eq!(quality_dir("rtsp://cam1", 1080), "./hls/rtsp___cam1/1080p");
    assert_eq!(
        segment_location("rtsp://cam1", 720),
        "./hls/rtsp___cam1/720p/segment%05d.ts"
    );
    assert_eq!(
        playlist_location("rtsp://cam1", 480),
        "./hls/rtsp___cam1/480p/playlist.m3u8"
    );
    assert_eq!(master_path("rtsp://cam1"), "./hls/rtsp___cam1/master.m3u");
}

#[test]
fn ladder_has_three_tiers_for_multi() {
    let l = quality_ladder(&EncodeOptions::MULTI);
    assert_eq!(l.len(), 3);
    assert_eq!((l[0].width, l[0].height, l[0].bitrate), (1920, 1080, 4000));
    assert_eq!((l[1].width, l[1].height, l[1].bitrate), (1280, 720, 2500));
    assert_eq!((l[2].width, l[2].height, l[2].bitrate), (640, 480, 1000));
}

#[test]
fn ladder_has_one_tier_otherwise() {
    for mode in [EncodeOptions::NONE, EncodeOptions::SINGLE] {
        let l = quality_ladder(&mode);
        assert_eq!(l.len(), 1);
        assert_eq!((l[0].width, l[0].height, l[0].bitrate), (1920, 1080, 4000));
    }
}

#[test]
fn master_text_multi_exact() {
    let l = quality_ladder(&EncodeOptions::MULTI);
    let text = master_text(&l);
    let expected = "#EXTM3U\n#EXT-X-VERSION:3\n\n\
        #EXT-X-STREAM-INF:BANDWIDTH=4000000,RESOLUTION=1920x1080\n1080p/playlist.m3u8\n\
        #EXT-X-STREAM-INF:BANDWIDTH=2500000,RESOLUTION=1280x720\n720p/playlist.m3u8\n\
        #EXT-X-STREAM-INF:BANDWIDTH=1000000,RESOLUTION=640x480\n480p/playlist.m3u8\n";
    assert_eq!(text, expected);
    assert_eq!(text.matches("#EXT-X-STREAM-INF").count(), 3);
}

#[test]
fn one_directory_and_entry_per_tier() {
    let p = prepare_layout("rtsp://cam1", &EncodeOptions::MULTI);
    assert_eq!(p.qualities.len(), 3);
    assert_eq!(p.quality_dirs.len(), 3);
    assert_eq!(p.master_entries.len(), 3);
    assert_eq!(p.quality_dirs[0], "./hls/rtsp___cam1/1080p");
    assert_eq!(p.quality_dirs[1], "./hls/rtsp___cam1/720p");
    assert_eq!(p.quality_dirs[2], "./hls/rtsp___cam1/480p");
    assert_eq!(p.master_text.matches("#EXT-X-STREAM-INF").count(), 3);
    assert!(p.master_text.contains("BANDWIDTH=4000000"));
    assert!(p.master_text.contains("BANDWIDTH=2500000"));
    assert!(p.master_text.contains("BANDWIDTH=1000000"));

    let single = prepare_layout("rtsp://cam1", &EncodeOptions::NONE);
    assert_eq!(single.quality_dirs.len(), 1);
    assert_eq!(single.master_entries.len(), 1);
    assert_eq!(single.master_text.matches("#EXT-X-STREAM-INF").count(), 1);
}

#[test]
fn repeated_preparation_is_identical() {
    let a = prepare_layout("rtsp://cam1", &EncodeOptions::MULTI);
    let b = prepare_layout("rtsp://cam1", &EncodeOptions::MULTI);
    assert_eq!(a.source_dir, b.source_dir);
    assert_eq!(a.quality_dirs, b.quality_dirs);
    assert_eq!(a.master_path, b.master_path);
    assert_eq!(a.master_entries, b.master_entries);
    assert_eq!(a.master_text, b.master_text);
}

//! Request and response records shared between the orchestration core and
//! the HTTP front end.

use vstd::prelude::*;

verus! {

/// How a source is transcoded before delivery: passed through untouched,
/// re-encoded once, or fanned out into a ladder of qualities.
#[derive(Debug, Clone, Copy)]
pub enum EncodeOptions {
    NONE,
    SINGLE,
    MULTI,
}

/// Segment retention for segmented output: how many segment files are kept
/// per rendition and how long each segment runs, in seconds.
#[derive(Clone, Copy)]
pub struct HLSOptions {
    pub max_files: u32,
    pub duration: u32,
}

/// An add/delete request: the source locator, the requested output kind
/// ("HLS" for segmented files, anything else for peer delivery), and the
/// optional transcode and retention settings.
pub struct StreamData {
    pub rtsp: String,
    pub stream_type: String,
    pub encode_options: Option<EncodeOptions>,
    pub hls_options: Option<HLSOptions>,
}

/// The envelope every front-end reply is wrapped in.
pub struct ResponseData<T> {
    pub status: bool,
    pub message: String,
    pub data: Option<T>,
}

/// The per-session projection handed out by a listing request.
#[derive(Clone, Debug)]
pub struct RtspResponse {
    pub status: bool,
    pub message: String,
}

} // verus!

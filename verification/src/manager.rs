//! Request handling and lifecycle supervision over the session registry.
//!
//! The functions here are the compute half of the front end: they derive the
//! stream key, record the registration, compute the output layout and the
//! graph plan, and apply the supervisor's lifecycle outcomes to the
//! registry. The caller runs them under the registry lock, performs the
//! filesystem and media-runtime work they describe outside it, and feeds the
//! results back in.

use vstd::prelude::*;
use crate::manifest::{LayoutPlan, ladder_spec, master_entry_spec, master_path_spec,
    master_text_spec, prepare_layout, quality_dir_spec, source_dir_spec};
use crate::registry::Registry;
use crate::session::{PipelineHandle, SessionEvent, SessionState, SessionStateView, StopReason,
    advance, next_state};
use crate::structures::{EncodeOptions, HLSOptions, ResponseData, RtspResponse, StreamData};
use crate::topology::{GraphPlan, effective_retention, hls_plan, hls_plan_spec, str_eq,
    webrtc_plan, webrtc_plan_spec};

verus! {

/// A session's identity: the source locator and the requested output kind,
/// joined so that the same source under two output kinds makes two distinct
/// sessions.
pub open spec fn stream_key_spec(rtsp: Seq<char>, stream_type: Seq<char>) -> Seq<char> {
    rtsp + "-"@ + stream_type
}

/// Derives the registry key of a session.
pub fn stream_key(rtsp: &str, stream_type: &str) -> (r: String)
    ensures
        r@ == stream_key_spec(rtsp@, stream_type@),
{
    let mut r = rtsp.to_owned();
    r.append("-");
    r.append(stream_type);
    r
}

/// The transcode mode actually applied: the request's own, or pass-through
/// when the request named none.
pub open spec fn effective_mode(o: Option<EncodeOptions>) -> EncodeOptions {
    match o {
        Option::Some(m) => m,
        Option::None => EncodeOptions::NONE,
    }
}

/// What an accepted add request hands back to the caller: the session's key,
/// the layout to realise on disk, and the immediate reply.
pub struct AddOutcome {
    pub key: String,
    pub layout: LayoutPlan,
    pub response: ResponseData<()>,
}

/// Registers a new session as starting and computes its output layout. The
/// reply is always an acceptance: construction failures surface later,
/// through the registry, never to the caller of add. Registering an existing
/// key replaces its entry outright.
pub fn add_stream_core(registry: &mut Registry, payload: &StreamData) -> (r: AddOutcome)
    requires
        old(registry).wf(),
    ensures
        final(registry).wf(),
        final(registry)@ == old(registry)@.insert(
            stream_key_spec(payload.rtsp@, payload.stream_type@),
            SessionStateView::Starting,
        ),
        r.key@ == stream_key_spec(payload.rtsp@, payload.stream_type@),
        r.response.status == true,
        r.response.message@ == "Initiated"@,
        r.response.data is None,
        r.layout.qualities@ == ladder_spec(effective_mode(payload.encode_options)),
        r.layout.source_dir@ == source_dir_spec(payload.rtsp@),
        r.layout.quality_dirs@.len() == ladder_spec(effective_mode(payload.encode_options)).len(),
        forall|i: int|
            0 <= i < r.layout.quality_dirs@.len() ==> (#[trigger] r.layout.quality_dirs@[i])@
                == quality_dir_spec(
                payload.rtsp@,
                ladder_spec(effective_mode(payload.encode_options))[i].height as nat,
            ),
        r.layout.master_path@ == master_path_spec(payload.rtsp@),
        r.layout.master_entries@.len() == ladder_spec(effective_mode(payload.encode_options)).len(),
        forall|i: int|
            0 <= i < r.layout.master_entries@.len() ==> (#[trigger] r.layout.master_entries@[i])@
                == master_entry_spec(ladder_spec(effective_mode(payload.encode_options))[i]),
        r.layout.master_text@ == master_text_spec(ladder_spec(effective_mode(payload.encode_options))),
{
    let mode = match payload.encode_options {
        Option::Some(m) => m,
        Option::None => EncodeOptions::NONE,
    };
    let layout = prepare_layout(payload.rtsp.as_str(), &mode);
    let key = stream_key(payload.rtsp.as_str(), payload.stream_type.as_str());
    registry.upsert(key.clone(), SessionState::Starting);
    AddOutcome {
        key,
        layout,
        response: ResponseData {
            status: true,
            message: "Initiated".to_owned(),
            data: Option::None,
        },
    }
}

/// Chooses and builds the graph plan for a session, as the request named it:
/// segmented output for the "HLS" kind, peer delivery for every other kind.
pub fn build_plan(
    stream_type: &str,
    rtsp: &str,
    qualities: Vec<crate::manifest::Quality>,
    encode_options: &EncodeOptions,
    hls_options: Option<HLSOptions>,
) -> (r: GraphPlan)
    requires
        qualities@.len() <= 256,
        forall|i: int| 0 <= i < qualities@.len() ==> (#[trigger] qualities@[i]).wf(),
    ensures
        stream_type@ == "HLS"@ ==> r@ == hls_plan_spec(
            rtsp@,
            qualities@,
            *encode_options,
            effective_retention(hls_options).0,
            effective_retention(hls_options).1,
        ),
        stream_type@ != "HLS"@ ==> r@ == webrtc_plan_spec(rtsp@, *encode_options),
{
    if str_eq(stream_type, "HLS") {
        hls_plan(rtsp, qualities, encode_options, hls_options)
    } else {
        webrtc_plan(rtsp, encode_options)
    }
}

fn clone_state(s: &SessionState) -> (r: SessionState)
    ensures
        r@ == s@,
{
    match s {
        SessionState::Starting => SessionState::Starting,
        SessionState::Running(h) => SessionState::Running(*h),
        SessionState::Stopped(reason) => SessionState::Stopped(
            match reason {
                StopReason::NormalEnd => StopReason::NormalEnd,
                StopReason::ConstructionError(d) => StopReason::ConstructionError(d.clone()),
                StopReason::RuntimeError(d) => StopReason::RuntimeError(d.clone()),
                StopReason::SinkUnavailable => StopReason::SinkUnavailable,
            },
        ),
    }
}

/// The supervisor's one write path: advances the session registered under
/// `key` by one lifecycle event — but only if the entry still exists. A
/// session that a concurrent delete already removed is not resurrected, and
/// a stopped session is never moved again.
pub fn apply_session_event(registry: &mut Registry, key: &String, ev: SessionEvent)
    requires
        old(registry).wf(),
    ensures
        final(registry).wf(),
        old(registry)@.contains_key(key@) ==> final(registry)@ == old(registry)@.insert(
            key@,
            next_state(old(registry)@[key@], ev@),
        ),
        !old(registry)@.contains_key(key@) ==> final(registry)@ == old(registry)@,
{
    let next = match registry.get(key) {
        Option::Some(s) => Option::Some(advance(clone_state(s), ev)),
        Option::None => Option::None,
    };
    match next {
        Option::Some(n) => {
            registry.upsert(key.clone(), n);
        }
        Option::None => {
        }
    }
}

/// Once a session is stopped, the supervisor's writes leave the registry
/// exactly as it is: only a fresh registration or a delete can touch that
/// key again.
pub proof fn lemma_stopped_entry_is_stable(
    m: Map<Seq<char>, SessionStateView>,
    k: Seq<char>,
    ev: crate::session::SessionEventView,
)
    requires
        m.contains_key(k),
        m[k] is Stopped,
    ensures
        m.insert(k, next_state(m[k], ev)) == m,
{
    crate::session::lemma_stopped_is_terminal(m[k], ev);
    assert(m.insert(k, m[k]) =~= m);
}

/// What a delete request hands back: the reply, and the live graph handle to
/// signal for a graceful end of stream, when the session was running.
pub struct DeleteOutcome {
    pub response: ResponseData<()>,
    pub to_stop: Option<PipelineHandle>,
}

/// Removes a session. Deleting a running session surrenders its graph
/// handle so the caller can request a graceful end of stream; deleting an
/// absent key is reported as success with a distinguishing message and
/// changes nothing.
pub fn delete_stream_core(registry: &mut Registry, rtsp: &str, stream_type: &str) -> (r:
    DeleteOutcome)
    requires
        old(registry).wf(),
    ensures
        final(registry).wf(),
        final(registry)@ == old(registry)@.remove(stream_key_spec(rtsp@, stream_type@)),
        r.response.status == true,
        r.response.data is None,
        old(registry)@.contains_key(stream_key_spec(rtsp@, stream_type@))
            ==> r.response.message@ == "Stream '"@ + rtsp@ + "' deleted successfully"@,
        !old(registry)@.contains_key(stream_key_spec(rtsp@, stream_type@)) ==> {
            &&& final(registry)@ == old(registry)@
            &&& r.response.message@ == "Stream not found"@
        },
        match r.to_stop {
            Option::Some(h) => old(registry)@.contains_key(stream_key_spec(rtsp@, stream_type@))
                && old(registry)@[stream_key_spec(rtsp@, stream_type@)]
                == SessionStateView::Running(h.id),
            Option::None => !old(registry)@.contains_key(stream_key_spec(rtsp@, stream_type@))
                || !(old(registry)@[stream_key_spec(rtsp@, stream_type@)] is Running),
        },
{
    let key = stream_key(rtsp, stream_type);
    let to_stop: Option<PipelineHandle> = match registry.get(&key) {
        Option::Some(SessionState::Running(h)) => Option::Some(*h),
        _ => Option::None,
    };
    let found = registry.remove(&key);
    if found {
        let mut message = "Stream '".to_owned();
        message.append(rtsp);
        message.append("' deleted successfully");
        DeleteOutcome {
            response: ResponseData { status: true, message, data: Option::None },
            to_stop,
        }
    } else {
        proof {
            assert(old(registry)@.remove(key@) =~= old(registry)@);
        }
        DeleteOutcome {
            response: ResponseData {
                status: true,
                message: "Stream not found".to_owned(),
                data: Option::None,
            },
            to_stop,
        }
    }
}

/// Takes a decoupled, projected snapshot of every session. Listing never
/// exposes a half-updated entry: the snapshot is complete, duplicate-free,
/// and owned by the caller.
pub fn get_streams_core(registry: &Registry) -> (r: ResponseData<Vec<(String, RtspResponse)>>)
    requires
        registry.wf(),
    ensures
        r.status == true,
        r.message@ == "Fetch Success"@,
        r.data is Some,
        match r.data {
            Option::Some(snap) => crate::registry::is_snapshot_of(snap@, registry@),
            Option::None => false,
        },
{
    let snap = registry.snapshot();
    ResponseData {
        status: true,
        message: "Fetch Success".to_owned(),
        data: Option::Some(snap),
    }
}

/// Registering the same key twice keeps exactly the second registration:
/// the first write is overwritten outright, and exactly one session remains
/// under that key.
pub proof fn lemma_readd_overwrites(
    m: Map<Seq<char>, SessionStateView>,
    k: Seq<char>,
    a: SessionStateView,
    b: SessionStateView,
)
    ensures
        m.insert(k, a).insert(k, b) == m.insert(k, b),
{
    assert(m.insert(k, a).insert(k, b) =~= m.insert(k, b));
}

/// A deleted session disappears from every later snapshot at once, however
/// long its graph takes to wind down: no snapshot of the registry after the
/// removal carries the deleted key.
pub proof fn lemma_deleted_never_listed(
    m: Map<Seq<char>, SessionStateView>,
    k: Seq<char>,
    snap: Seq<(String, RtspResponse)>,
)
    requires
        forall|i: int|
            0 <= i < snap.len() ==> m.remove(k).contains_key((#[trigger] snap[i]).0@),
    ensures
        forall|i: int| 0 <= i < snap.len() ==> (#[trigger] snap[i]).0@ != k,
{
}

} // verus!

//! Topology planning: decides the exact shape of the processing graph for a
//! session — which nodes to allocate, how to configure them, which ports to
//! link up front, and which links to defer until capability negotiation
//! fires at runtime.
//!
//! A plan is plain data. The runtime interpreter allocates one node per
//! [`NodeSpec`], applies the listed properties, links every [`Link`] pair,
//! and registers one negotiation callback per [`DeferredLink`] and
//! [`ParserRule`]. Deferred links carry an idempotency discipline: the
//! interpreter links a newly exposed port only if the target port is not
//! linked yet, so a negotiation event that fires twice changes nothing.

use vstd::prelude::*;
use crate::manifest::{Quality, playlist_location, playlist_location_spec, segment_location,
    segment_location_spec};
use crate::structures::{EncodeOptions, HLSOptions};

verus! {

/// Default segment retention: 17280 segments of 2 seconds each.
pub const DEFAULT_MAX_FILES: u32 = 17280;

pub const DEFAULT_DURATION: u32 = 2;

/// A property value applied to a node after construction.
pub enum PropValue {
    Str(String),
    U32(u32),
    I32(i32),
    /// A fixed-resolution capability constraint (for a capsfilter node).
    Caps { width: i32, height: i32 },
    /// A metadata record carrying the source locator, attached to a
    /// peer-delivered sink so the signalling layer can correlate sessions.
    Meta(String),
}

/// One node of the graph: the factory that builds it and the properties set
/// on it.
pub struct NodeSpec {
    pub factory: String,
    pub props: Vec<(String, PropValue)>,
}

/// A static link from one node's output to the next node's input, fixed at
/// construction time.
#[derive(Clone, Copy, PartialEq, Eq, Structural, Debug)]
pub struct Link {
    pub from: usize,
    pub to: usize,
}

/// Where a deferred link attaches once the upstream node exposes a port.
#[derive(Clone, Copy, PartialEq, Eq, Structural, Debug)]
pub enum LinkTarget {
    /// The fixed input port of the target node.
    StaticSink(usize),
    /// A fresh video input port requested from the target node.
    RequestVideoPad(usize),
}

/// When node `from` exposes a new output port, link it to `to` — exactly
/// once, even if the negotiation event fires again for the same port.
#[derive(Clone, Copy, PartialEq, Eq, Structural, Debug)]
pub struct DeferredLink {
    pub from: usize,
    pub to: LinkTarget,
}

/// When node `from` exposes a port, inspect its negotiated encoding; if
/// [`select_parser`] accepts it, build that parser while the graph runs,
/// link it to `downstream`, and start it immediately. Ports with any other
/// encoding are skipped silently.
#[derive(Clone, Copy, PartialEq, Eq, Structural, Debug)]
pub struct ParserRule {
    pub from: usize,
    pub downstream: usize,
}

/// Spec-level mirror of [`PropValue`].
pub ghost enum PropValueView {
    Str(Seq<char>),
    U32(u32),
    I32(i32),
    Caps { width: i32, height: i32 },
    Meta(Seq<char>),
}

impl View for PropValue {
    type V = PropValueView;

    open spec fn view(&self) -> PropValueView {
        match self {
            PropValue::Str(s) => PropValueView::Str(s@),
            PropValue::U32(n) => PropValueView::U32(*n),
            PropValue::I32(n) => PropValueView::I32(*n),
            PropValue::Caps { width, height } => PropValueView::Caps {
                width: *width,
                height: *height,
            },
            PropValue::Meta(s) => PropValueView::Meta(s@),
        }
    }
}

/// Spec-level mirror of [`NodeSpec`].
#[verifier::ext_equal]
pub ghost struct NodeSpecView {
    pub factory: Seq<char>,
    pub props: Seq<(Seq<char>, PropValueView)>,
}

impl View for NodeSpec {
    type V = NodeSpecView;

    open spec fn view(&self) -> NodeSpecView {
        NodeSpecView {
            factory: self.factory@,
            props: self.props@.map_values(|p: (String, PropValue)| (p.0@, p.1@)),
        }
    }
}

/// Spec-level mirror of [`GraphPlan`].
#[verifier::ext_equal]
pub ghost struct GraphPlanView {
    pub nodes: Seq<NodeSpecView>,
    pub links: Seq<Link>,
    pub deferred: Seq<DeferredLink>,
    pub parser_rules: Seq<ParserRule>,
}

/// The full shape of one session's processing graph.
pub struct GraphPlan {
    pub nodes: Vec<NodeSpec>,
    pub links: Vec<Link>,
    pub deferred: Vec<DeferredLink>,
    pub parser_rules: Vec<ParserRule>,
}

impl View for GraphPlan {
    type V = GraphPlanView;

    open spec fn view(&self) -> GraphPlanView {
        GraphPlanView {
            nodes: self.nodes@.map_values(|n: NodeSpec| n@),
            links: self.links@,
            deferred: self.deferred@,
            parser_rules: self.parser_rules@,
        }
    }
}

pub open spec fn link_target_index(t: LinkTarget) -> int {
    match t {
        LinkTarget::StaticSink(i) => i as int,
        LinkTarget::RequestVideoPad(i) => i as int,
    }
}

impl GraphPlanView {
    /// Every link, deferred link and parser rule refers to a node of the
    /// plan.
    pub open spec fn wf(self) -> bool {
        &&& forall|i: int|
            0 <= i < self.links.len() ==> (#[trigger] self.links[i]).from < self.nodes.len()
                && self.links[i].to < self.nodes.len()
        &&& forall|i: int|
            0 <= i < self.deferred.len() ==> (#[trigger] self.deferred[i]).from
                < self.nodes.len() && link_target_index(self.deferred[i].to) < self.nodes.len()
        &&& forall|i: int|
            0 <= i < self.parser_rules.len() ==> (#[trigger] self.parser_rules[i]).from
                < self.nodes.len() && self.parser_rules[i].downstream < self.nodes.len()
    }
}

impl GraphPlan {
    /// An empty plan.
    pub fn new() -> (r: GraphPlan)
        ensures
            r@.nodes =~= Seq::<NodeSpecView>::empty(),
            r@.links =~= Seq::<Link>::empty(),
            r@.deferred =~= Seq::<DeferredLink>::empty(),
            r@.parser_rules =~= Seq::<ParserRule>::empty(),
    {
        let r = GraphPlan {
            nodes: Vec::new(),
            links: Vec::new(),
            deferred: Vec::new(),
            parser_rules: Vec::new(),
        };
        proof {
            assert(r@.nodes =~= Seq::<NodeSpecView>::empty());
        }
        r
    }

    /// Adds a node and returns its index.
    pub fn add_node(&mut self, n: NodeSpec) -> (idx: usize)
        ensures
            final(self)@.nodes =~= old(self)@.nodes.push(n@),
            final(self)@.links == old(self)@.links,
            final(self)@.deferred == old(self)@.deferred,
            final(self)@.parser_rules == old(self)@.parser_rules,
            idx as int == old(self)@.nodes.len(),
    {
        let idx = self.nodes.len();
        self.nodes.push(n);
        proof {
            assert(self@.nodes =~= old(self)@.nodes.push(self.nodes@.last()@));
        }
        idx
    }

    /// Fixes a static link from node `from` to node `to`.
    pub fn link(&mut self, from: usize, to: usize)
        ensures
            final(self)@.nodes == old(self)@.nodes,
            final(self)@.links =~= old(self)@.links.push(Link { from, to }),
            final(self)@.deferred == old(self)@.deferred,
            final(self)@.parser_rules == old(self)@.parser_rules,
    {
        self.links.push(Link { from, to });
    }

    /// Defers a link from `from`'s next exposed port to the fixed input of
    /// `to`.
    pub fn defer_static(&mut self, from: usize, to: usize)
        ensures
            final(self)@.nodes == old(self)@.nodes,
            final(self)@.links == old(self)@.links,
            final(self)@.deferred =~= old(self)@.deferred.push(
                DeferredLink { from, to: LinkTarget::StaticSink(to) },
            ),
            final(self)@.parser_rules == old(self)@.parser_rules,
    {
        self.deferred.push(DeferredLink { from, to: LinkTarget::StaticSink(to) });
    }

    /// Defers a link from `from`'s next exposed port to a freshly requested
    /// video input of `to`.
    pub fn defer_request_video(&mut self, from: usize, to: usize)
        ensures
            final(self)@.nodes == old(self)@.nodes,
            final(self)@.links == old(self)@.links,
            final(self)@.deferred =~= old(self)@.deferred.push(
                DeferredLink { from, to: LinkTarget::RequestVideoPad(to) },
            ),
            final(self)@.parser_rules == old(self)@.parser_rules,
    {
        self.deferred.push(DeferredLink { from, to: LinkTarget::RequestVideoPad(to) });
    }

    /// Registers encoding-dependent parser insertion between `from` and
    /// `downstream`.
    pub fn add_parser_rule(&mut self, from: usize, downstream: usize)
        ensures
            final(self)@.nodes == old(self)@.nodes,
            final(self)@.links == old(self)@.links,
            final(self)@.deferred == old(self)@.deferred,
            final(self)@.parser_rules =~= old(self)@.parser_rules.push(
                ParserRule { from, downstream },
            ),
    {
        self.parser_rules.push(ParserRule { from, downstream });
    }
}

/// The bitstream parser for a negotiated media encoding: only the two
/// whitelisted video codecs are accepted; every other encoding is skipped.
pub open spec fn parser_for(encoding: Seq<char>) -> Option<Seq<char>> {
    if encoding == "video/x-h264"@ {
        Option::Some("h264parse"@)
    } else if encoding == "video/x-h265"@ {
        Option::Some("h265parse"@)
    } else {
        Option::None
    }
}

/// Decides which parser a newly negotiated port needs, if any.
pub fn select_parser(encoding: &str) -> (r: Option<String>)
    ensures
        match r {
            Option::Some(f) => parser_for(encoding@) == Option::Some(f@),
            Option::None => parser_for(encoding@) is None,
        },
{
    if str_eq(encoding, "video/x-h264") {
        Option::Some("h264parse".to_owned())
    } else if str_eq(encoding, "video/x-h265") {
        Option::Some("h265parse".to_owned())
    } else {
        Option::None
    }
}

/// Relies on str's PartialEq: character-for-character comparison.
#[verifier::external_body]
pub(crate) fn str_eq(a: &str, b: &str) -> (r: bool)
    ensures
        r == (a@ == b@),
{
    a == b
}

/// The message recorded when a node of the given factory cannot be built.
pub open spec fn node_failure_message_spec(factory: Seq<char>) -> Seq<char> {
    "Failed to create "@ + factory
}

/// Renders the construction-failure message for a factory.
pub fn node_failure_message(factory: &str) -> (r: String)
    ensures
        r@ == node_failure_message_spec(factory@),
{
    let mut r = "Failed to create ".to_owned();
    r.append(factory);
    r
}

/// A node with no properties to set.
fn plain_node(factory: &str) -> (r: NodeSpec)
    ensures
        r@ =~= plain_spec(factory@),
{
    let r = NodeSpec { factory: factory.to_owned(), props: Vec::new() };
    proof {
        assert(r@.props =~= plain_spec(factory@).props);
    }
    r
}

fn node_with_props(factory: &str, props: Vec<(String, PropValue)>) -> (r: NodeSpec)
    ensures
        r@.factory == factory@,
        r@.props == props@.map_values(|p: (String, PropValue)| (p.0@, p.1@)),
{
    NodeSpec { factory: factory.to_owned(), props }
}

pub open spec fn plain_spec(factory: Seq<char>) -> NodeSpecView {
    NodeSpecView { factory, props: Seq::empty() }
}

/// The source node, bound to the session's source locator.
pub open spec fn rtspsrc_spec(rtsp: Seq<char>) -> NodeSpecView {
    NodeSpecView {
        factory: "rtspsrc"@,
        props: seq![("location"@, PropValueView::Str(rtsp))],
    }
}

/// The peer-delivered sink, named after the source and carrying it as
/// session metadata for the signalling layer.
pub open spec fn webrtcsink_spec(rtsp: Seq<char>) -> NodeSpecView {
    NodeSpecView {
        factory: "webrtcsink"@,
        props: seq![
            ("name"@, PropValueView::Str(rtsp)),
            ("meta"@, PropValueView::Meta(rtsp)),
        ],
    }
}

/// An encoder targeting the given bitrate.
pub open spec fn x264enc_spec(bitrate: u32) -> NodeSpecView {
    NodeSpecView {
        factory: "x264enc"@,
        props: seq![("bitrate"@, PropValueView::U32(bitrate))],
    }
}

/// A capability filter pinning the resolution of one rendition.
pub open spec fn capsfilter_spec(width: i32, height: i32) -> NodeSpecView {
    NodeSpecView {
        factory: "capsfilter"@,
        props: seq![("caps"@, PropValueView::Caps { width, height })],
    }
}

/// The segmented-file sink of one rendition: where its segments and rolling
/// playlist live, and the retention policy applied to them.
pub open spec fn hlssink_spec(rtsp: Seq<char>, height: nat, max_files: u32, duration: u32)
    -> NodeSpecView {
    NodeSpecView {
        factory: "hlssink2"@,
        props: seq![
            ("location"@, PropValueView::Str(segment_location_spec(rtsp, height))),
            ("playlist-location"@, PropValueView::Str(playlist_location_spec(rtsp, height))),
            ("target-duration"@, PropValueView::U32(duration)),
            ("max-files"@, PropValueView::U32(max_files)),
            ("playlist-length"@, PropValueView::U32(max_files)),
        ],
    }
}

fn rtspsrc_node(rtsp: &str) -> (r: NodeSpec)
    ensures
        r@ =~= rtspsrc_spec(rtsp@),
{
    let mut props: Vec<(String, PropValue)> = Vec::new();
    props.push(("location".to_owned(), PropValue::Str(rtsp.to_owned())));
    let r = node_with_props("rtspsrc", props);
    proof {
        assert(r@.props =~= rtspsrc_spec(rtsp@).props);
    }
    r
}

fn webrtcsink_node(rtsp: &str) -> (r: NodeSpec)
    ensures
        r@ =~= webrtcsink_spec(rtsp@),
{
    let mut props: Vec<(String, PropValue)> = Vec::new();
    props.push(("name".to_owned(), PropValue::Str(rtsp.to_owned())));
    props.push(("meta".to_owned(), PropValue::Meta(rtsp.to_owned())));
    let r = node_with_props("webrtcsink", props);
    proof {
        assert(r@.props =~= webrtcsink_spec(rtsp@).props);
    }
    r
}

fn x264enc_node(bitrate: u32) -> (r: NodeSpec)
    ensures
        r@ =~= x264enc_spec(bitrate),
{
    let mut props: Vec<(String, PropValue)> = Vec::new();
    props.push(("bitrate".to_owned(), PropValue::U32(bitrate)));
    let r = node_with_props("x264enc", props);
    proof {
        assert(r@.props =~= x264enc_spec(bitrate).props);
    }
    r
}

fn capsfilter_node(width: i32, height: i32) -> (r: NodeSpec)
    ensures
        r@ =~= capsfilter_spec(width, height),
{
    let mut props: Vec<(String, PropValue)> = Vec::new();
    props.push(("caps".to_owned(), PropValue::Caps { width, height }));
    let r = node_with_props("capsfilter", props);
    proof {
        assert(r@.props =~= capsfilter_spec(width, height).props);
    }
    r
}

fn hlssink_node(rtsp: &str, height: u32, max_files: u32, duration: u32) -> (r: NodeSpec)
    ensures
        r@ =~= hlssink_spec(rtsp@, height as nat, max_files, duration),
{
    let mut props: Vec<(String, PropValue)> = Vec::new();
    props.push(("location".to_owned(), PropValue::Str(segment_location(rtsp, height))));
    props.push((
        "playlist-location".to_owned(),
        PropValue::Str(playlist_location(rtsp, height)),
    ));
    props.push(("target-duration".to_owned(), PropValue::U32(duration)));
    props.push(("max-files".to_owned(), PropValue::U32(max_files)));
    props.push(("playlist-length".to_owned(), PropValue::U32(max_files)));
    let r = node_with_props("hlssink2", props);
    proof {
        assert(r@.props =~= hlssink_spec(rtsp@, height as nat, max_files, duration).props);
    }
    r
}

/// The peer-delivered graph: source into demultiplexer, demultiplexer into
/// the sink either directly (no transcode) or through a decode, convert and
/// encode section whose inner wiring is itself deferred to negotiation.
pub open spec fn webrtc_plan_spec(rtsp: Seq<char>, encode_options: EncodeOptions)
    -> GraphPlanView {
    match encode_options {
        EncodeOptions::NONE => GraphPlanView {
            nodes: seq![rtspsrc_spec(rtsp), plain_spec("parsebin"@), webrtcsink_spec(rtsp)],
            links: Seq::empty(),
            deferred: seq![
                DeferredLink { from: 0, to: LinkTarget::StaticSink(1) },
                DeferredLink { from: 1, to: LinkTarget::RequestVideoPad(2) },
            ],
            parser_rules: Seq::empty(),
        },
        EncodeOptions::SINGLE => GraphPlanView {
            nodes: seq![
                rtspsrc_spec(rtsp),
                plain_spec("parsebin"@),
                webrtcsink_spec(rtsp),
                plain_spec("decodebin"@),
                plain_spec("videoconvert"@),
                plain_spec("queue"@),
                plain_spec("x264enc"@),
            ],
            links: seq![
                Link { from: 4, to: 6 },
                Link { from: 6, to: 5 },
                Link { from: 5, to: 2 },
            ],
            deferred: seq![
                DeferredLink { from: 0, to: LinkTarget::StaticSink(1) },
                DeferredLink { from: 1, to: LinkTarget::StaticSink(3) },
                DeferredLink { from: 3, to: LinkTarget::StaticSink(4) },
            ],
            parser_rules: Seq::empty(),
        },
        EncodeOptions::MULTI => GraphPlanView {
            nodes: seq![
                rtspsrc_spec(rtsp),
                plain_spec("parsebin"@),
                webrtcsink_spec(rtsp),
                plain_spec("decodebin"@),
                plain_spec("videoconvert"@),
            ],
            links: seq![Link { from: 4, to: 2 }],
            deferred: seq![
                DeferredLink { from: 0, to: LinkTarget::StaticSink(1) },
                DeferredLink { from: 1, to: LinkTarget::StaticSink(3) },
                DeferredLink { from: 3, to: LinkTarget::StaticSink(4) },
            ],
            parser_rules: Seq::empty(),
        },
    }
}

/// Builds the peer-delivered graph plan for a source.
pub fn webrtc_plan(rtsp: &str, encode_options: &EncodeOptions) -> (r: GraphPlan)
    ensures
        r@ == webrtc_plan_spec(rtsp@, *encode_options),
{
    let mut plan = GraphPlan::new();
    let src = plan.add_node(rtspsrc_node(rtsp));
    let parse = plan.add_node(plain_node("parsebin"));
    let sink = plan.add_node(webrtcsink_node(rtsp));
    plan.defer_static(src, parse);
    match encode_options {
        EncodeOptions::NONE => {
            plan.defer_request_video(parse, sink);
        }
        EncodeOptions::SINGLE => {
            let dec = plan.add_node(plain_node("decodebin"));
            let conv = plan.add_node(plain_node("videoconvert"));
            let queue = plan.add_node(plain_node("queue"));
            let enc = plan.add_node(plain_node("x264enc"));
            plan.link(conv, enc);
            plan.link(enc, queue);
            plan.link(queue, sink);
            plan.defer_static(parse, dec);
            plan.defer_static(dec, conv);
        }
        EncodeOptions::MULTI => {
            let dec = plan.add_node(plain_node("decodebin"));
            let conv = plan.add_node(plain_node("videoconvert"));
            plan.link(conv, sink);
            plan.defer_static(parse, dec);
            plan.defer_static(dec, conv);
        }
    }
    proof {
        assert(plan@ =~~= webrtc_plan_spec(rtsp@, *encode_options));
    }
    plan
}

/// The deferred links of the peer-delivered plan guard against duplicate
/// negotiation events: no output port is wired to the same target twice.
pub proof fn lemma_webrtc_plan_wf(rtsp: Seq<char>, encode_options: EncodeOptions)
    ensures
        webrtc_plan_spec(rtsp, encode_options).wf(),
        forall|i: int, j: int|
            0 <= i < webrtc_plan_spec(rtsp, encode_options).deferred.len() && 0 <= j
                < webrtc_plan_spec(rtsp, encode_options).deferred.len() && i != j
                ==> webrtc_plan_spec(rtsp, encode_options).deferred[i]
                != webrtc_plan_spec(rtsp, encode_options).deferred[j],
{
}

/// The nodes of one rendition's branch behind the fan-out node: buffer,
/// scale, pin the resolution, convert, encode at the rendition's bitrate,
/// buffer again, parse, and write segments.
pub open spec fn quality_branch_nodes(rtsp: Seq<char>, q: Quality, max_files: u32, duration: u32)
    -> Seq<NodeSpecView> {
    seq![
        plain_spec("queue"@),
        plain_spec("videoscale"@),
        capsfilter_spec(q.width, q.height),
        plain_spec("videoconvert"@),
        plain_spec("queue"@),
        x264enc_spec(q.bitrate),
        plain_spec("h264parse"@),
        hlssink_spec(rtsp, q.height as nat, max_files, duration),
    ]
}

/// The links of one rendition's branch, with the branch's first node at
/// index `b` and the fan-out node at index 3.
pub open spec fn quality_branch_links(b: int) -> Seq<Link> {
    seq![
        Link { from: 3 as usize, to: b as usize },
        Link { from: b as usize, to: (b + 3) as usize },
        Link { from: (b + 3) as usize, to: (b + 1) as usize },
        Link { from: (b + 1) as usize, to: (b + 2) as usize },
        Link { from: (b + 2) as usize, to: (b + 5) as usize },
        Link { from: (b + 5) as usize, to: (b + 4) as usize },
        Link { from: (b + 4) as usize, to: (b + 6) as usize },
        Link { from: (b + 6) as usize, to: (b + 7) as usize },
    ]
}

/// All branch nodes of a quality ladder, in ladder order.
pub open spec fn fanout_nodes(rtsp: Seq<char>, qs: Seq<Quality>, max_files: u32, duration: u32)
    -> Seq<NodeSpecView>
    decreases qs.len(),
{
    if qs.len() == 0 {
        Seq::empty()
    } else {
        fanout_nodes(rtsp, qs.drop_last(), max_files, duration) + quality_branch_nodes(
            rtsp,
            qs.last(),
            max_files,
            duration,
        )
    }
}

/// All branch links of a ladder of `n` qualities, branch `j` starting at
/// node index `4 + 8 j`.
pub open spec fn fanout_links(n: int) -> Seq<Link>
    decreases n,
{
    if n <= 0 {
        Seq::empty()
    } else {
        fanout_links(n - 1) + quality_branch_links(4 + 8 * (n - 1))
    }
}

pub proof fn lemma_fanout_nodes_len(
    rtsp: Seq<char>,
    qs: Seq<Quality>,
    max_files: u32,
    duration: u32,
)
    ensures
        fanout_nodes(rtsp, qs, max_files, duration).len() == 8 * qs.len(),
    decreases qs.len(),
{
    if qs.len() > 0 {
        lemma_fanout_nodes_len(rtsp, qs.drop_last(), max_files, duration);
    }
}

pub proof fn lemma_fanout_links_len(n: int)
    requires
        n >= 0,
    ensures
        fanout_links(n).len() == 8 * n,
    decreases n,
{
    if n > 0 {
        lemma_fanout_links_len(n - 1);
    }
}

/// The segment retention actually applied: the request's own policy, or the
/// default when the request named none.
pub open spec fn effective_retention(o: Option<HLSOptions>) -> (u32, u32) {
    match o {
        Option::Some(h) => (h.max_files, h.duration),
        Option::None => (DEFAULT_MAX_FILES, DEFAULT_DURATION),
    }
}

/// The segmented-output graph: source into demultiplexer; without transcode
/// the accepted stream is parsed straight into a single 1080p segment sink;
/// with transcode it is decoded, fanned out, and each rendition branch
/// scales, re-encodes and writes its own segments. The demultiplexer's
/// downstream wiring is deferred: the encoding-specific parser is chosen and
/// attached only once capability negotiation reveals the stream's encoding.
pub open spec fn hls_plan_spec(
    rtsp: Seq<char>,
    qs: Seq<Quality>,
    encode_options: EncodeOptions,
    max_files: u32,
    duration: u32,
) -> GraphPlanView {
    match encode_options {
        EncodeOptions::NONE => GraphPlanView {
            nodes: seq![
                rtspsrc_spec(rtsp),
                plain_spec("parsebin"@),
                hlssink_spec(rtsp, 1080, max_files, duration),
            ],
            links: Seq::empty(),
            deferred: seq![DeferredLink { from: 0 as usize, to: LinkTarget::StaticSink(1) }],
            parser_rules: seq![ParserRule { from: 1 as usize, downstream: 2 as usize }],
        },
        _ => GraphPlanView {
            nodes: seq![
                rtspsrc_spec(rtsp),
                plain_spec("parsebin"@),
                plain_spec("decodebin"@),
                plain_spec("tee"@),
            ] + fanout_nodes(rtsp, qs, max_files, duration),
            links: fanout_links(qs.len() as int),
            deferred: seq![
                DeferredLink { from: 2 as usize, to: LinkTarget::StaticSink(3) },
                DeferredLink { from: 0 as usize, to: LinkTarget::StaticSink(1) },
            ],
            parser_rules: seq![ParserRule { from: 1 as usize, downstream: 2 as usize }],
        },
    }
}

/// Builds the segmented-output graph plan for a source and its quality
/// ladder, applying the default retention when the request named none.
pub fn hls_plan(
    rtsp: &str,
    qualities: Vec<Quality>,
    encode_options: &EncodeOptions,
    hls_options: Option<HLSOptions>,
) -> (r: GraphPlan)
    requires
        qualities@.len() <= 256,
        forall|i: int| 0 <= i < qualities@.len() ==> (#[trigger] qualities@[i]).wf(),
    ensures
        r@ == hls_plan_spec(
            rtsp@,
            qualities@,
            *encode_options,
            effective_retention(hls_options).0,
            effective_retention(hls_options).1,
        ),
{
    let (max_files, duration) = match hls_options {
        Option::Some(h) => (h.max_files, h.duration),
        Option::None => (DEFAULT_MAX_FILES, DEFAULT_DURATION),
    };
    let mut plan = GraphPlan::new();
    let src = plan.add_node(rtspsrc_node(rtsp));
    let parse = plan.add_node(plain_node("parsebin"));
    match encode_options {
        EncodeOptions::NONE => {
            let sink = plan.add_node(hlssink_node(rtsp, 1080, max_files, duration));
            plan.defer_static(src, parse);
            plan.add_parser_rule(parse, sink);
            proof {
                assert(plan@ =~~= hls_plan_spec(
                    rtsp@,
                    qualities@,
                    *encode_options,
                    max_files,
                    duration,
                ));
            }
        }
        _ => {
            let dec = plan.add_node(plain_node("decodebin"));
            let tee = plan.add_node(plain_node("tee"));
            let ghost base_nodes = plan@.nodes;
            let mut i: usize = 0;
            while i < qualities.len()
                invariant
                    i <= qualities@.len(),
                    qualities@.len() <= 256,
                    forall|j: int| 0 <= j < qualities@.len() ==> (#[trigger] qualities@[j]).wf(),
                    tee == 3,
                    base_nodes.len() == 4,
                    plan@.nodes =~= base_nodes + fanout_nodes(
                        rtsp@,
                        qualities@.take(i as int),
                        max_files,
                        duration,
                    ),
                    plan@.links =~= fanout_links(i as int),
                    plan@.deferred =~= Seq::<DeferredLink>::empty(),
                    plan@.parser_rules =~= Seq::<ParserRule>::empty(),
                decreases qualities@.len() - i,
            {
                proof {
                    lemma_fanout_nodes_len(
                        rtsp@,
                        qualities@.take(i as int),
                        max_files,
                        duration,
                    );
                    lemma_fanout_links_len(i as int);
                }
                let ghost links0 = plan@.links;
                let q_width = qualities[i].width;
                let q_height = qualities[i].height;
                let q_bitrate = qualities[i].bitrate;
                let b = plan.add_node(plain_node("queue"));
                let _scale = plan.add_node(plain_node("videoscale"));
                let _filter = plan.add_node(capsfilter_node(q_width, q_height));
                let _conv = plan.add_node(plain_node("videoconvert"));
                let _queue1 = plan.add_node(plain_node("queue"));
                let _enc = plan.add_node(x264enc_node(q_bitrate));
                let _hparse = plan.add_node(plain_node("h264parse"));
                let _sink = plan.add_node(
                    hlssink_node(rtsp, q_height as u32, max_files, duration),
                );
                plan.link(tee, b);
                plan.link(b, b + 3);
                plan.link(b + 3, b + 1);
                plan.link(b + 1, b + 2);
                plan.link(b + 2, b + 5);
                plan.link(b + 5, b + 4);
                plan.link(b + 4, b + 6);
                plan.link(b + 6, b + 7);
                i = i + 1;
                proof {
                    assert(qualities@.take(i as int).drop_last() =~= qualities@.take(i - 1));
                    assert(qualities@.take(i as int).last() == qualities@[i - 1]);
                    assert(plan@.nodes =~= base_nodes + fanout_nodes(
                        rtsp@,
                        qualities@.take(i as int),
                        max_files,
                        duration,
                    ));
                    assert(plan@.links =~= links0 + quality_branch_links(b as int));
                    assert(plan@.links =~= fanout_links(i as int));
                }
            }
            plan.defer_static(dec, tee);
            plan.defer_static(src, parse);
            plan.add_parser_rule(parse, dec);
            proof {
                assert(qualities@.take(qualities@.len() as int) =~= qualities@);
                assert(plan@ =~~= hls_plan_spec(
                    rtsp@,
                    qualities@,
                    *encode_options,
                    max_files,
                    duration,
                ));
            }
        }
    }
    plan
}

pub proof fn lemma_fanout_links_wf(n: int)
    requires
        n >= 0,
    ensures
        forall|k: int|
            0 <= k < fanout_links(n).len() ==> (#[trigger] fanout_links(n)[k]).from < 4 + 8 * n
                && fanout_links(n)[k].to < 4 + 8 * n,
    decreases n,
{
    if n > 0 {
        lemma_fanout_links_wf(n - 1);
        lemma_fanout_links_len(n - 1);
        assert forall|k: int| 0 <= k < fanout_links(n).len() implies (
        #[trigger] fanout_links(n)[k]).from < 4 + 8 * n && fanout_links(n)[k].to < 4 + 8 * n by {
            if k >= fanout_links(n - 1).len() {
                assert(fanout_links(n)[k] == quality_branch_links(4 + 8 * (n - 1))[k - 8 * (n
                    - 1)]);
            }
        }
    }
}

/// Every reference of the segmented-output plan stays inside the plan, and
/// no negotiation target is wired twice.
pub proof fn lemma_hls_plan_wf(
    rtsp: Seq<char>,
    qs: Seq<Quality>,
    encode_options: EncodeOptions,
    max_files: u32,
    duration: u32,
)
    requires
        qs.len() <= 256,
    ensures
        hls_plan_spec(rtsp, qs, encode_options, max_files, duration).wf(),
        forall|i: int, j: int|
            0 <= i < hls_plan_spec(rtsp, qs, encode_options, max_files, duration).deferred.len()
                && 0 <= j < hls_plan_spec(
                rtsp,
                qs,
                encode_options,
                max_files,
                duration,
            ).deferred.len() && i != j ==> hls_plan_spec(
                rtsp,
                qs,
                encode_options,
                max_files,
                duration,
            ).deferred[i] != hls_plan_spec(rtsp, qs, encode_options, max_files, duration).deferred[j],
{
    let p = hls_plan_spec(rtsp, qs, encode_options, max_files, duration);
    match encode_options {
        EncodeOptions::NONE => {
        }
        _ => {
            lemma_fanout_nodes_len(rtsp, qs, max_files, duration);
            lemma_fanout_links_len(qs.len() as int);
            lemma_fanout_links_wf(qs.len() as int);
            assert(p.nodes.len() == 4 + 8 * qs.len());
        }
    }
}

} // verus!

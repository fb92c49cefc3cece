//! Manifest layout management: derives the quality ladder from the requested
//! transcode mode, maps a source locator to a filesystem-safe directory
//! layout, and renders the master manifest that indexes every rendition.
//!
//! Everything here is pure computation over strings and integers; the caller
//! performs the actual directory and file writes from the returned plan.

use vstd::prelude::*;
use vstd::assert_by_contradiction;
use crate::structures::EncodeOptions;

verus! {

/// One adaptive-bitrate rendition target: resolution and encoder bitrate
/// (in kilobits per second).
#[derive(Clone, Debug)]
pub struct Quality {
    pub width: i32,
    pub height: i32,
    pub bitrate: u32,
}

impl Quality {
    /// Bounds under which every derived quantity (bandwidth, rendered
    /// dimension strings) stays within machine integer ranges.
    pub open spec fn wf(self) -> bool {
        &&& 0 < self.width <= 100000
        &&& 0 < self.height <= 100000
        &&& 0 < self.bitrate <= 4_000_000
    }
}

/// The ladder of renditions implied by a transcode mode: a fixed three-tier
/// ladder for multi-quality fan-out, a single 1080p tier otherwise.
pub open spec fn ladder_spec(encode_options: EncodeOptions) -> Seq<Quality> {
    match encode_options {
        EncodeOptions::MULTI => seq![
            Quality { width: 1920, height: 1080, bitrate: 4000 },
            Quality { width: 1280, height: 720, bitrate: 2500 },
            Quality { width: 640, height: 480, bitrate: 1000 },
        ],
        _ => seq![Quality { width: 1920, height: 1080, bitrate: 4000 }],
    }
}

pub proof fn lemma_ladder_wf(encode_options: EncodeOptions)
    ensures
        forall|i: int|
            0 <= i < ladder_spec(encode_options).len() ==> (
            #[trigger] ladder_spec(encode_options)[i]).wf(),
{
}

/// Builds the quality ladder for a transcode mode.
pub fn quality_ladder(encode_options: &EncodeOptions) -> (r: Vec<Quality>)
    ensures
        r@ == ladder_spec(*encode_options),
{
    let mut r: Vec<Quality> = Vec::new();
    match encode_options {
        EncodeOptions::MULTI => {
            r.push(Quality { width: 1920, height: 1080, bitrate: 4000 });
            r.push(Quality { width: 1280, height: 720, bitrate: 2500 });
            r.push(Quality { width: 640, height: 480, bitrate: 1000 });
            proof {
                assert(r@ =~= ladder_spec(*encode_options));
            }
        }
        _ => {
            r.push(Quality { width: 1920, height: 1080, bitrate: 4000 });
            proof {
                assert(r@ =~= ladder_spec(*encode_options));
            }
        }
    }
    r
}

/// Characters that carry meaning in paths or URLs are replaced by an
/// underscore; everything else is kept.
pub open spec fn sanitize_char(c: char) -> char {
    if c == '/' || c == ':' || c == '?' || c == '&' {
        '_'
    } else {
        c
    }
}

pub open spec fn sanitized(s: Seq<char>) -> Seq<char> {
    s.map_values(|c: char| sanitize_char(c))
}

/// Relies on String::push: appends the given character to the end of the
/// string.
#[verifier::external_body]
fn push_char(s: &mut String, c: char)
    ensures
        final(s)@ == old(s)@.push(c),
{
    s.push(c);
}

/// Derives the filesystem-safe form of a source locator.
pub fn sanitize_source(s: &str) -> (r: String)
    ensures
        r@ == sanitized(s@),
{
    let n = s.unicode_len();
    let mut r = String::new();
    let mut i: usize = 0;
    while i < n
        invariant
            n == s@.len(),
            i <= n,
            r@ == sanitized(s@.take(i as int)),
        decreases n - i,
    {
        let c = s.get_char(i);
        if c == '/' || c == ':' || c == '?' || c == '&' {
            push_char(&mut r, '_');
        } else {
            push_char(&mut r, c);
        }
        i = i + 1;
        proof {
            assert(s@.take(i as int).drop_last() =~= s@.take(i - 1));
            assert(r@ =~= sanitized(s@.take(i as int)));
        }
    }
    proof {
        assert(s@.take(n as int) =~= s@);
    }
    r
}

/// The decimal digit character for a value below ten.
pub open spec fn dec_digit(n: nat) -> char
    recommends
        n < 10,
{
    if n == 0 {
        '0'
    } else if n == 1 {
        '1'
    } else if n == 2 {
        '2'
    } else if n == 3 {
        '3'
    } else if n == 4 {
        '4'
    } else if n == 5 {
        '5'
    } else if n == 6 {
        '6'
    } else if n == 7 {
        '7'
    } else if n == 8 {
        '8'
    } else {
        '9'
    }
}

/// The usual decimal rendering of a natural number, most significant digit
/// first, with no leading zeros (a lone zero renders as "0").
pub open spec fn dec_rep(n: nat) -> Seq<char>
    decreases n,
{
    if n < 10 {
        seq![dec_digit(n)]
    } else {
        dec_rep(n / 10).push(dec_digit(n % 10))
    }
}

fn dec_digit_exec(n: u32) -> (c: char)
    requires
        n < 10,
    ensures
        c == dec_digit(n as nat),
{
    if n == 0 {
        '0'
    } else if n == 1 {
        '1'
    } else if n == 2 {
        '2'
    } else if n == 3 {
        '3'
    } else if n == 4 {
        '4'
    } else if n == 5 {
        '5'
    } else if n == 6 {
        '6'
    } else if n == 7 {
        '7'
    } else if n == 8 {
        '8'
    } else {
        '9'
    }
}

/// Renders a number in decimal.
pub fn u32_to_dec(n: u32) -> (r: String)
    ensures
        r@ == dec_rep(n as nat),
    decreases n,
{
    if n < 10 {
        let mut s = String::new();
        push_char(&mut s, dec_digit_exec(n));
        proof {
            assert(s@ =~= dec_rep(n as nat));
        }
        s
    } else {
        let mut s = u32_to_dec(n / 10);
        push_char(&mut s, dec_digit_exec(n % 10));
        s
    }
}

/// The root directory under which every session's output lives.
pub open spec fn hls_root() -> Seq<char> {
    "./hls"@
}

/// `<root>/<sanitized-source>`: the per-session output directory.
pub open spec fn source_dir_spec(rtsp: Seq<char>) -> Seq<char> {
    hls_root() + "/"@ + sanitized(rtsp)
}

/// `<session-dir>/<height>p`: the directory of one rendition.
pub open spec fn quality_dir_spec(rtsp: Seq<char>, height: nat) -> Seq<char> {
    source_dir_spec(rtsp) + "/"@ + dec_rep(height) + "p"@
}

/// The segment filename pattern of one rendition.
pub open spec fn segment_location_spec(rtsp: Seq<char>, height: nat) -> Seq<char> {
    quality_dir_spec(rtsp, height) + "/segment%05d.ts"@
}

/// The rolling playlist of one rendition.
pub open spec fn playlist_location_spec(rtsp: Seq<char>, height: nat) -> Seq<char> {
    quality_dir_spec(rtsp, height) + "/playlist.m3u8"@
}

/// `<session-dir>/master.m3u`: where the master manifest is written.
pub open spec fn master_path_spec(rtsp: Seq<char>) -> Seq<char> {
    source_dir_spec(rtsp) + "/master.m3u"@
}

pub fn source_dir(rtsp: &str) -> (r: String)
    ensures
        r@ == source_dir_spec(rtsp@),
{
    let mut r = "./hls".to_owned();
    r.append("/");
    let s = sanitize_source(rtsp);
    r.append(s.as_str());
    r
}

pub fn quality_dir(rtsp: &str, height: u32) -> (r: String)
    ensures
        r@ == quality_dir_spec(rtsp@, height as nat),
{
    let mut r = source_dir(rtsp);
    r.append("/");
    let h = u32_to_dec(height);
    r.append(h.as_str());
    r.append("p");
    r
}

pub fn segment_location(rtsp: &str, height: u32) -> (r: String)
    ensures
        r@ == segment_location_spec(rtsp@, height as nat),
{
    let mut r = quality_dir(rtsp, height);
    r.append("/segment%05d.ts");
    r
}

pub fn playlist_location(rtsp: &str, height: u32) -> (r: String)
    ensures
        r@ == playlist_location_spec(rtsp@, height as nat),
{
    let mut r = quality_dir(rtsp, height);
    r.append("/playlist.m3u8");
    r
}

pub fn master_path(rtsp: &str) -> (r: String)
    ensures
        r@ == master_path_spec(rtsp@),
{
    let mut r = source_dir(rtsp);
    r.append("/master.m3u");
    r
}

/// One stream entry of the master manifest: the rendition's bandwidth in
/// bits per second (bitrate times 1000), its resolution, and the relative
/// path of its own playlist.
pub open spec fn master_entry_spec(q: Quality) -> Seq<char>
    recommends
        q.wf(),
{
    "#EXT-X-STREAM-INF:BANDWIDTH="@ + dec_rep((q.bitrate * 1000) as nat) + ",RESOLUTION="@
        + dec_rep(q.width as nat) + "x"@ + dec_rep(q.height as nat) + "\n"@ + dec_rep(q.height as nat)
        + "p/playlist.m3u8\n"@
}

/// The fixed header of the master manifest.
pub open spec fn master_header() -> Seq<char> {
    "#EXTM3U\n#EXT-X-VERSION:3\n\n"@
}

/// The whole master manifest: the header followed by one entry per
/// rendition, in ladder order.
pub open spec fn master_text_spec(qs: Seq<Quality>) -> Seq<char>
    decreases qs.len(),
{
    if qs.len() == 0 {
        master_header()
    } else {
        master_text_spec(qs.drop_last()) + master_entry_spec(qs.last())
    }
}

fn master_entry(q: &Quality) -> (r: String)
    requires
        q.wf(),
    ensures
        r@ == master_entry_spec(*q),
{
    let mut r = "#EXT-X-STREAM-INF:BANDWIDTH=".to_owned();
    let bw = u32_to_dec(q.bitrate * 1000);
    r.append(bw.as_str());
    r.append(",RESOLUTION=");
    let w = u32_to_dec(q.width as u32);
    r.append(w.as_str());
    r.append("x");
    let h = u32_to_dec(q.height as u32);
    r.append(h.as_str());
    r.append("\n");
    r.append(h.as_str());
    r.append("p/playlist.m3u8\n");
    r
}

/// Renders the master manifest for a ladder of renditions.
pub fn master_text(qs: &Vec<Quality>) -> (r: String)
    requires
        forall|i: int| 0 <= i < qs@.len() ==> (#[trigger] qs@[i]).wf(),
    ensures
        r@ == master_text_spec(qs@),
{
    let mut r = "#EXTM3U\n#EXT-X-VERSION:3\n\n".to_owned();
    let mut i: usize = 0;
    while i < qs.len()
        invariant
            i <= qs@.len(),
            forall|j: int| 0 <= j < qs@.len() ==> (#[trigger] qs@[j]).wf(),
            r@ == master_text_spec(qs@.take(i as int)),
        decreases qs@.len() - i,
    {
        let e = master_entry(&qs[i]);
        r.append(e.as_str());
        i = i + 1;
        proof {
            assert(qs@.take(i as int).drop_last() =~= qs@.take(i - 1));
            assert(qs@.take(i as int).last() == qs@[i - 1]);
        }
    }
    proof {
        assert(qs@.take(qs@.len() as int) =~= qs@);
    }
    r
}

/// Everything the filesystem side needs to lay a session's output area out:
/// the per-session directory (cleared recursively first, so every
/// registration starts from a clean slate), the rendition directories to
/// create inside it, and the master manifest to write.
pub struct LayoutPlan {
    /// The ladder the layout was computed for, in order.
    pub qualities: Vec<Quality>,
    /// The per-session directory; any prior contents are discarded.
    pub source_dir: String,
    /// One directory per rendition, in ladder order.
    pub quality_dirs: Vec<String>,
    /// Where the master manifest is written.
    pub master_path: String,
    /// One master-manifest stream entry per rendition, in ladder order.
    pub master_entries: Vec<String>,
    /// The full rendered master manifest.
    pub master_text: String,
}

/// Computes the output layout of a session: the quality ladder implied by
/// the transcode mode, one directory per tier, and the master manifest
/// listing exactly one stream entry per tier.
pub fn prepare_layout(rtsp: &str, encode_options: &EncodeOptions) -> (p: LayoutPlan)
    ensures
        p.qualities@ == ladder_spec(*encode_options),
        p.source_dir@ == source_dir_spec(rtsp@),
        p.quality_dirs@.len() == ladder_spec(*encode_options).len(),
        forall|i: int|
            0 <= i < p.quality_dirs@.len() ==> (#[trigger] p.quality_dirs@[i])@
                == quality_dir_spec(rtsp@, ladder_spec(*encode_options)[i].height as nat),
        p.master_path@ == master_path_spec(rtsp@),
        p.master_entries@.len() == ladder_spec(*encode_options).len(),
        forall|i: int|
            0 <= i < p.master_entries@.len() ==> (#[trigger] p.master_entries@[i])@
                == master_entry_spec(ladder_spec(*encode_options)[i]),
        p.master_text@ == master_text_spec(ladder_spec(*encode_options)),
{
    let qualities = quality_ladder(encode_options);
    proof {
        lemma_ladder_wf(*encode_options);
    }
    let mut quality_dirs: Vec<String> = Vec::new();
    let mut master_entries: Vec<String> = Vec::new();
    let mut i: usize = 0;
    while i < qualities.len()
        invariant
            i <= qualities@.len(),
            qualities@ == ladder_spec(*encode_options),
            forall|j: int| 0 <= j < qualities@.len() ==> (#[trigger] qualities@[j]).wf(),
            quality_dirs@.len() == i,
            forall|j: int|
                0 <= j < i ==> (#[trigger] quality_dirs@[j])@ == quality_dir_spec(
                    rtsp@,
                    qualities@[j].height as nat,
                ),
            master_entries@.len() == i,
            forall|j: int|
                0 <= j < i ==> (#[trigger] master_entries@[j])@ == master_entry_spec(
                    qualities@[j],
                ),
        decreases qualities@.len() - i,
    {
        let h = qualities[i].height as u32;
        quality_dirs.push(quality_dir(rtsp, h));
        master_entries.push(master_entry(&qualities[i]));
        i = i + 1;
    }
    let text = master_text(&qualities);
    LayoutPlan {
        qualities,
        source_dir: source_dir(rtsp),
        quality_dirs,
        master_path: master_path(rtsp),
        master_entries,
        master_text: text,
    }
}

/// The ladder has three tiers under multi-quality fan-out and one tier
/// otherwise, so a layout holds exactly that many rendition directories and
/// exactly that many master-manifest stream entries.
pub proof fn lemma_one_dir_and_entry_per_tier(encode_options: EncodeOptions)
    ensures
        ladder_spec(encode_options).len() == (match encode_options {
            EncodeOptions::MULTI => 3int,
            _ => 1int,
        }),
{
}

/// Renditions of different heights write to different directories: the
/// decimal height renderings differ, so the directory names differ after
/// their common prefix.
pub proof fn lemma_distinct_heights_distinct_dirs(rtsp: Seq<char>, ha: nat, hb: nat)
    requires
        dec_rep(ha) != dec_rep(hb),
    ensures
        quality_dir_spec(rtsp, ha) != quality_dir_spec(rtsp, hb),
{
    let prefix = source_dir_spec(rtsp) + "/"@;
    let a = dec_rep(ha);
    let b = dec_rep(hb);
    if a.len() != b.len() {
        assert(quality_dir_spec(rtsp, ha).len() != quality_dir_spec(rtsp, hb).len());
    } else {
        let i = choose|i: int| 0 <= i < a.len() && a[i] != b[i];
        assert(exists|i: int| 0 <= i < a.len() && a[i] != b[i]) by {
            assert_by_contradiction!(exists|i: int| 0 <= i < a.len() && a[i] != b[i], {
                assert(a =~= b);
            });
        }
        assert(quality_dir_spec(rtsp, ha)[prefix.len() + i] == a[i]);
        assert(quality_dir_spec(rtsp, hb)[prefix.len() + i] == b[i]);
    }
}

/// In the fixed ladder every tier has its own height, so every tier gets a
/// directory of its own: the layout holds exactly one directory per tier.
pub proof fn lemma_ladder_dirs_distinct(rtsp: Seq<char>, encode_options: EncodeOptions)
    ensures
        forall|i: int, j: int|
            0 <= i < ladder_spec(encode_options).len() && 0 <= j < ladder_spec(
                encode_options,
            ).len() && i != j ==> quality_dir_spec(
                rtsp,
                ladder_spec(encode_options)[i].height as nat,
            ) != quality_dir_spec(rtsp, ladder_spec(encode_options)[j].height as nat),
{
    reveal_with_fuel(dec_rep, 5);
    assert(dec_rep(1080) =~= seq!['1', '0', '8', '0']);
    assert(dec_rep(720) =~= seq!['7', '2', '0']);
    assert(dec_rep(480) =~= seq!['4', '8', '0']);
    lemma_distinct_heights_distinct_dirs(rtsp, 1080, 720);
    lemma_distinct_heights_distinct_dirs(rtsp, 720, 1080);
    lemma_distinct_heights_distinct_dirs(rtsp, 1080, 480);
    lemma_distinct_heights_distinct_dirs(rtsp, 480, 1080);
    lemma_distinct_heights_distinct_dirs(rtsp, 720, 480);
    lemma_distinct_heights_distinct_dirs(rtsp, 480, 720);
}

/// The layout is a function of the source and the transcode mode alone:
/// two plans computed for the same inputs describe the same directories and
/// the same master manifest, whatever was on disk before. Each field is
/// pinned by [`prepare_layout`]'s contract, so a repeated preparation
/// starts from the same clean description every time.
pub proof fn lemma_layout_deterministic(
    rtsp: Seq<char>,
    encode_options: EncodeOptions,
    a: LayoutPlan,
    b: LayoutPlan,
)
    requires
        a.qualities@ == ladder_spec(encode_options),
        a.source_dir@ == source_dir_spec(rtsp),
        a.quality_dirs@.len() == ladder_spec(encode_options).len(),
        forall|i: int|
            0 <= i < a.quality_dirs@.len() ==> (#[trigger] a.quality_dirs@[i])@
                == quality_dir_spec(rtsp, ladder_spec(encode_options)[i].height as nat),
        a.master_text@ == master_text_spec(ladder_spec(encode_options)),
        b.qualities@ == ladder_spec(encode_options),
        b.source_dir@ == source_dir_spec(rtsp),
        b.quality_dirs@.len() == ladder_spec(encode_options).len(),
        forall|i: int|
            0 <= i < b.quality_dirs@.len() ==> (#[trigger] b.quality_dirs@[i])@
                == quality_dir_spec(rtsp, ladder_spec(encode_options)[i].height as nat),
        b.master_text@ == master_text_spec(ladder_spec(encode_options)),
    ensures
        a.qualities@ == b.qualities@,
        a.source_dir@ == b.source_dir@,
        a.quality_dirs@.len() == b.quality_dirs@.len(),
        forall|i: int|
            0 <= i < a.quality_dirs@.len() ==> (#[trigger] a.quality_dirs@[i])@
                == b.quality_dirs@[i]@,
        a.master_text@ == b.master_text@,
{
}

} // verus!

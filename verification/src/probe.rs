//! The channel probe pipeline: decide from a fetched channel page whether the
//! channel is live, resolve the broadcast's title from its watch page, and
//! record the `(title, live id)` pair in the deduplicating store. Fetching is
//! not done here: every stage takes the fetched text, or `None` where the
//! fetch failed, so the decisions are verified for every fetch result.

use vstd::prelude::*;
use crate::extract::{init_data_blob, page_title, extract_init_data, extract_title};
use crate::text::{trim_spec, trim_str};
use crate::json::{JsonTree, node_at_spec, node_at, path_view};
use crate::jsonio::{json_tree_of, parse_json_tree};
use crate::store::{LiveEntry, LiveStore, RecordV, contains_pair, insert_model};

verus! {

/// Why a probe failed; benign outcomes are not failures.
#[derive(Debug, PartialEq, Eq)]
pub enum FailureKind {
    NetworkFailure,
    MalformedPage,
    NoTitleFound,
    StoreUnavailable,
}

/// The transient result of probing one channel: not broadcasting, or a live
/// broadcast's title and video id, or a failure.
#[derive(Debug)]
pub enum ProbeOutcome {
    NoBroadcast,
    ResolvedTitle(String, String),
    Failure(FailureKind),
}

/// What the first stage concludes from a channel page.
#[derive(Debug)]
pub enum LiveStatus {
    NotLive,
    Live(String),
    Malformed,
}

/// A probe part-way through: finished, or waiting for the live broadcast's
/// watch page to be fetched.
#[derive(Debug)]
pub enum ProbeStep {
    Done(ProbeOutcome),
    NeedWatchPage(String),
}

/// One probe's terminal, logged result.
#[derive(Debug)]
pub enum ProbeReport {
    Inserted(LiveEntry),
    AlreadyRecorded,
    NotLive,
    Failed(FailureKind),
}

/// The field path to the live badge inside a channel page's data blob.
pub open spec fn badge_path() -> Seq<Seq<char>> {
    seq![
        "header"@,
        "pageHeaderRenderer"@,
        "content"@,
        "pageHeaderViewModel"@,
        "image"@,
        "decoratedAvatarViewModel"@,
        "liveData"@,
        "liveBadgeText"@,
    ]
}

/// The field path to the live video id inside a channel page's data blob.
pub open spec fn video_id_path() -> Seq<Seq<char>> {
    seq![
        "header"@,
        "pageHeaderRenderer"@,
        "content"@,
        "pageHeaderViewModel"@,
        "image"@,
        "decoratedAvatarViewModel"@,
        "rendererContext"@,
        "commandContext"@,
        "onTap"@,
        "innertubeCommand"@,
        "watchEndpoint"@,
        "videoId"@,
    ]
}

/// What a parsed data blob says: a missing, null or empty live badge means
/// the channel is not broadcasting; a non-empty string badge means it is, and
/// the live video id must then be present as a string; anything else fails
/// closed.
pub open spec fn live_status_of_tree(t: JsonTree) -> LiveStatus {
    match node_at_spec(t, badge_path()) {
        Option::None => LiveStatus::NotLive,
        Option::Some(badge) => match badge {
            JsonTree::Null => LiveStatus::NotLive,
            JsonTree::Str(b) => if b@.len() == 0 {
                LiveStatus::NotLive
            } else {
                match node_at_spec(t, video_id_path()) {
                    Option::Some(JsonTree::Str(id)) => LiveStatus::Live(id),
                    _ => LiveStatus::Malformed,
                }
            },
            _ => LiveStatus::Malformed,
        },
    }
}

/// Stage A on a whole channel page: locate the data blob, parse it, read the
/// live badge and video id. A missing blob or unparseable document fails.
pub open spec fn resolve_live_spec(page: Seq<char>) -> LiveStatus {
    match init_data_blob(page) {
        Option::None => LiveStatus::Malformed,
        Option::Some(blob) => match json_tree_of(trim_spec(blob)) {
            Option::None => LiveStatus::Malformed,
            Option::Some(t) => live_status_of_tree(t),
        },
    }
}

/// Read the live badge and video id out of a parsed data blob.
pub fn interpret_tree(t: &JsonTree) -> (r: LiveStatus)
    ensures
        r == live_status_of_tree(*t),
{
    let mut badge_keys: Vec<&str> = Vec::new();
    badge_keys.push("header");
    badge_keys.push("pageHeaderRenderer");
    badge_keys.push("content");
    badge_keys.push("pageHeaderViewModel");
    badge_keys.push("image");
    badge_keys.push("decoratedAvatarViewModel");
    badge_keys.push("liveData");
    badge_keys.push("liveBadgeText");
    proof {
        assert(path_view(badge_keys@) =~= badge_path());
    }
    match node_at(t, badge_keys.as_slice()) {
        Option::None => LiveStatus::NotLive,
        Option::Some(badge) => match badge {
            JsonTree::Null => LiveStatus::NotLive,
            JsonTree::Str(b) => if b.as_str().is_empty() {
                LiveStatus::NotLive
            } else {
                let mut id_keys: Vec<&str> = Vec::new();
                id_keys.push("header");
                id_keys.push("pageHeaderRenderer");
                id_keys.push("content");
                id_keys.push("pageHeaderViewModel");
                id_keys.push("image");
                id_keys.push("decoratedAvatarViewModel");
                id_keys.push("rendererContext");
                id_keys.push("commandContext");
                id_keys.push("onTap");
                id_keys.push("innertubeCommand");
                id_keys.push("watchEndpoint");
                id_keys.push("videoId");
                proof {
                    assert(path_view(id_keys@) =~= video_id_path());
                }
                match node_at(t, id_keys.as_slice()) {
                    Option::Some(JsonTree::Str(id)) => LiveStatus::Live(id.clone()),
                    _ => LiveStatus::Malformed,
                }
            },
            _ => LiveStatus::Malformed,
        },
    }
}

/// Stage A on a fetched channel page.
pub fn resolve_live(page: &str) -> (r: LiveStatus)
    ensures
        r == resolve_live_spec(page@),
{
    match extract_init_data(page) {
        Option::None => LiveStatus::Malformed,
        Option::Some(blob) => {
            let trimmed = trim_str(blob.as_str());
            match parse_json_tree(trimmed.as_str()) {
                Option::None => LiveStatus::Malformed,
                Option::Some(t) => interpret_tree(&t),
            }
        },
    }
}

/// The view of an optional fetched page.
pub open spec fn view_opt(o: Option<&str>) -> Option<Seq<char>> {
    match o {
        Option::Some(s) => Option::Some(s@),
        Option::None => Option::None,
    }
}

/// Begin a probe on the channel page's fetch result. The watch page is asked
/// for only when the channel turned out to be live.
pub fn probe_start(channel_page: Option<&str>) -> (s: ProbeStep)
    ensures
        match view_opt(channel_page) {
            Option::None => s == ProbeStep::Done(
                ProbeOutcome::Failure(FailureKind::NetworkFailure),
            ),
            Option::Some(p) => match resolve_live_spec(p) {
                LiveStatus::Malformed => s == ProbeStep::Done(
                    ProbeOutcome::Failure(FailureKind::MalformedPage),
                ),
                LiveStatus::NotLive => s == ProbeStep::Done(ProbeOutcome::NoBroadcast),
                LiveStatus::Live(id) => s matches ProbeStep::NeedWatchPage(l) && l@ == id@,
            },
        },
{
    match channel_page {
        Option::None => ProbeStep::Done(ProbeOutcome::Failure(FailureKind::NetworkFailure)),
        Option::Some(p) => match resolve_live(p) {
            LiveStatus::Malformed => ProbeStep::Done(
                ProbeOutcome::Failure(FailureKind::MalformedPage),
            ),
            LiveStatus::NotLive => ProbeStep::Done(ProbeOutcome::NoBroadcast),
            LiveStatus::Live(id) => ProbeStep::NeedWatchPage(id),
        },
    }
}

/// Finish a live probe on the watch page's fetch result.
pub fn probe_finish(live_id: String, watch_page: Option<&str>) -> (o: ProbeOutcome)
    ensures
        match view_opt(watch_page) {
            Option::None => o == ProbeOutcome::Failure(FailureKind::NetworkFailure),
            Option::Some(w) => match page_title(w) {
                Option::None => o == ProbeOutcome::Failure(FailureKind::NoTitleFound),
                Option::Some(t) => o matches ProbeOutcome::ResolvedTitle(ot, ol) && ot@ == t && ol@
                    == live_id@,
            },
        },
{
    match watch_page {
        Option::None => ProbeOutcome::Failure(FailureKind::NetworkFailure),
        Option::Some(w) => match extract_title(w) {
            Option::None => ProbeOutcome::Failure(FailureKind::NoTitleFound),
            Option::Some(t) => ProbeOutcome::ResolvedTitle(t, live_id),
        },
    }
}

/// The outcome a probe owes for given fetch results.
pub open spec fn probe_outcome_ok(
    o: ProbeOutcome,
    cp: Option<Seq<char>>,
    wp: Option<Seq<char>>,
) -> bool {
    match cp {
        Option::None => o == ProbeOutcome::Failure(FailureKind::NetworkFailure),
        Option::Some(p) => match resolve_live_spec(p) {
            LiveStatus::Malformed => o == ProbeOutcome::Failure(FailureKind::MalformedPage),
            LiveStatus::NotLive => o == ProbeOutcome::NoBroadcast,
            LiveStatus::Live(id) => match wp {
                Option::None => o == ProbeOutcome::Failure(FailureKind::NetworkFailure),
                Option::Some(w) => match page_title(w) {
                    Option::None => o == ProbeOutcome::Failure(FailureKind::NoTitleFound),
                    Option::Some(t) => o matches ProbeOutcome::ResolvedTitle(ot, ol) && ot@ == t
                        && ol@ == id@,
                },
            },
        },
    }
}

/// Stages A and B of one probe on already-fetched pages.
pub fn probe_outcome(channel_page: Option<&str>, watch_page: Option<&str>) -> (o: ProbeOutcome)
    ensures
        probe_outcome_ok(o, view_opt(channel_page), view_opt(watch_page)),
{
    match probe_start(channel_page) {
        ProbeStep::Done(o) => o,
        ProbeStep::NeedWatchPage(id) => probe_finish(id, watch_page),
    }
}

/// The report owed for an outcome, and the store it leaves behind: only a
/// resolved title touches the store, and benignly so when already recorded.
pub open spec fn report_ok(
    rep: ProbeReport,
    o: ProbeOutcome,
    s0: Seq<RecordV>,
    s1: Seq<RecordV>,
) -> bool {
    match o {
        ProbeOutcome::NoBroadcast => rep == ProbeReport::NotLive && s1 == s0,
        ProbeOutcome::Failure(k) => rep == ProbeReport::Failed(k) && s1 == s0,
        ProbeOutcome::ResolvedTitle(t, l) => {
            &&& s1 == insert_model(s0, t@, l@)
            &&& if contains_pair(s0, t@, l@) {
                rep == ProbeReport::AlreadyRecorded
            } else {
                rep matches ProbeReport::Inserted(e) && e@ == (RecordV {
                    id: s0.len() as int + 1,
                    title: t@,
                    live_id: l@,
                })
            }
        },
    }
}

/// Stage C: record a resolved broadcast; pass every other outcome through.
pub fn persist_outcome(o: ProbeOutcome, store: &mut LiveStore) -> (rep: ProbeReport)
    requires
        old(store).wf(),
        old(store)@.len() < i32::MAX,
    ensures
        final(store).wf(),
        report_ok(rep, o, old(store)@, final(store)@),
{
    match o {
        ProbeOutcome::NoBroadcast => ProbeReport::NotLive,
        ProbeOutcome::Failure(k) => ProbeReport::Failed(k),
        ProbeOutcome::ResolvedTitle(t, l) => match store.insert_if_absent(
            t.as_str(),
            l.as_str(),
        ) {
            Option::Some(e) => ProbeReport::Inserted(e),
            Option::None => ProbeReport::AlreadyRecorded,
        },
    }
}

/// The report and store change one whole probe owes for given fetch results.
pub open spec fn probe_report_ok(
    rep: ProbeReport,
    cp: Option<Seq<char>>,
    wp: Option<Seq<char>>,
    s0: Seq<RecordV>,
    s1: Seq<RecordV>,
) -> bool {
    match cp {
        Option::None => rep == ProbeReport::Failed(FailureKind::NetworkFailure) && s1 == s0,
        Option::Some(p) => match resolve_live_spec(p) {
            LiveStatus::Malformed => rep == ProbeReport::Failed(FailureKind::MalformedPage) && s1
                == s0,
            LiveStatus::NotLive => rep == ProbeReport::NotLive && s1 == s0,
            LiveStatus::Live(id) => match wp {
                Option::None => rep == ProbeReport::Failed(FailureKind::NetworkFailure) && s1
                    == s0,
                Option::Some(w) => match page_title(w) {
                    Option::None => rep == ProbeReport::Failed(FailureKind::NoTitleFound) && s1
                        == s0,
                    Option::Some(t) => {
                        &&& s1 == insert_model(s0, t, id@)
                        &&& if contains_pair(s0, t, id@) {
                            rep == ProbeReport::AlreadyRecorded
                        } else {
                            rep matches ProbeReport::Inserted(e) && e@ == (RecordV {
                                id: s0.len() as int + 1,
                                title: t,
                                live_id: id@,
                            })
                        }
                    },
                },
            },
        },
    }
}

/// One whole probe: stages A and B on the fetched pages, then stage C.
pub fn run_probe(
    channel_page: Option<&str>,
    watch_page: Option<&str>,
    store: &mut LiveStore,
) -> (rep: ProbeReport)
    requires
        old(store).wf(),
        old(store)@.len() < i32::MAX,
    ensures
        final(store).wf(),
        probe_report_ok(
            rep,
            view_opt(channel_page),
            view_opt(watch_page),
            old(store)@,
            final(store)@,
        ),
{
    let o = probe_outcome(channel_page, watch_page);
    persist_outcome(o, store)
}

/// A channel with no live broadcast at probe time yields the benign not-live
/// report and leaves the store unchanged.
pub proof fn lemma_not_live_leaves_store(
    rep: ProbeReport,
    p: Seq<char>,
    wp: Option<Seq<char>>,
    s0: Seq<RecordV>,
    s1: Seq<RecordV>,
)
    requires
        resolve_live_spec(p) is NotLive,
        probe_report_ok(rep, Option::Some(p), wp, s0, s1),
    ensures
        rep == ProbeReport::NotLive,
        s1 == s0,
{
}

/// A data blob that lacks the live-status field entirely, or carries it as
/// null, reports no broadcast — never a failure, and no watch page is asked
/// for.
pub proof fn lemma_missing_badge_not_live(t: JsonTree)
    requires
        node_at_spec(t, badge_path()) is None || node_at_spec(t, badge_path()) == Option::Some(
            JsonTree::Null,
        ),
    ensures
        live_status_of_tree(t) == LiveStatus::NotLive,
{
}

} // verus!

use tcc_live_capture::json::{node_at, JsonTree};
use tcc_live_capture::jsonio::parse_json_tree;
use tcc_live_capture::probe::{
    probe_start, run_probe, FailureKind, ProbeOutcome, ProbeReport, ProbeStep,
};
use tcc_live_capture::store::LiveStore;

fn avatar_blob(avatar_fields: &str) -> String {
    let mut blob = String::new();
    blob.push_str("{\"header\":{\"pageHeaderRenderer\":{\"content\":{\"pageHeaderViewModel\":");
    blob.push_str("{\"image\":{\"decoratedAvatarViewModel\":{");
    blob.push_str(avatar_fields);
    blob.push_str("}}}}}}}");
    blob
}

fn live_blob(video_id: &str) -> String {
    let mut fields = String::new();
    fields.push_str("\"liveData\":{\"liveBadgeText\":\"LIVE\"},");
    fields.push_str("\"rendererContext\":{\"commandContext\":{\"onTap\":{\"innertubeCommand\":");
    fields.push_str("{\"watchEndpoint\":{\"videoId\":\"");
    fields.push_str(video_id);
    fields.push_str("\"}}}}}");
    avatar_blob(&fields)
}

fn channel_page(blob: &str) -> String {
    format!(
        "<html><body><script>var ytInitialData = {};</script></body></html>",
        blob
    )
}

#[test]
fn live_channel_stores_one_row() {
    // Channel resolves to live video id "abc123"; the watch page carries the
    // title element; exactly one row with that pair is stored.
    let page = channel_page(&live_blob("abc123"));
    let watch = "<html><head><title>Example Live - YouTube</title></head></html>";
    let mut store = LiveStore::new();
    let rep = run_probe(Some(&page), Some(watch), &mut store);
    match rep {
        ProbeReport::Inserted(e) => {
            assert_eq!(e.id, 1);
            assert_eq!(e.title, "Example Live - YouTube");
            assert_eq!(e.live_id, "abc123");
        }
        other => panic!("expected an inserted record, got {:?}", other),
    }
    assert_eq!(store.len(), 1);
    let rows = store.list_all();
    assert_eq!(rows.len(), 1);
    assert_eq!(rows[0].title, "Example Live - YouTube");
    assert_eq!(rows[0].live_id, "abc123");
}

#[test]
fn repeated_tick_adds_no_row() {
    // Repeating the same probe while the same broadcast is live stores
    // nothing more and reports the benign duplicate.
    let page = channel_page(&live_blob("abc123"));
    let watch = "<html><head><title>Example Live - YouTube</title></head></html>";
    let mut store = LiveStore::new();
    let first = run_probe(Some(&page), Some(watch), &mut store);
    assert!(matches!(first, ProbeReport::Inserted(_)));
    let second = run_probe(Some(&page), Some(watch), &mut store);
    assert!(matches!(second, ProbeReport::AlreadyRecorded));
    assert_eq!(store.len(), 1);
}

#[test]
fn missing_live_status_reports_no_broadcast() {
    // The data blob parses but lacks the live-status field entirely: the
    // probe is done without asking for a watch page.
    let blob = "{\"header\":{\"pageHeaderRenderer\":{}}}";
    let page = channel_page(blob);
    match probe_start(Some(&page)) {
        ProbeStep::Done(ProbeOutcome::NoBroadcast) => {}
        other => panic!("expected a finished no-broadcast probe, got {:?}", other),
    }
    // The whole probe succeeds without any watch page at all, and the store
    // stays untouched.
    let mut store = LiveStore::new();
    let rep = run_probe(Some(&page), None, &mut store);
    assert!(matches!(rep, ProbeReport::NotLive));
    assert_eq!(store.len(), 0);
}

#[test]
fn null_live_badge_reports_no_broadcast() {
    let blob = avatar_blob("\"liveData\":{\"liveBadgeText\":null}");
    let page = channel_page(&blob);
    let mut store = LiveStore::new();
    let rep = run_probe(Some(&page), None, &mut store);
    assert!(matches!(rep, ProbeReport::NotLive));
    assert_eq!(store.len(), 0);
}

#[test]
fn empty_live_badge_reports_no_broadcast() {
    // The badge is present and a string, but empty: only a non-empty badge
    // means a live broadcast, so the probe ends without a watch page.
    let mut fields = String::new();
    fields.push_str("\"liveData\":{\"liveBadgeText\":\"\"},");
    fields.push_str("\"rendererContext\":{\"commandContext\":{\"onTap\":{\"innertubeCommand\":");
    fields.push_str("{\"watchEndpoint\":{\"videoId\":\"abc123\"}}}}}");
    let blob = avatar_blob(&fields);
    let page = channel_page(&blob);
    match probe_start(Some(&page)) {
        ProbeStep::Done(ProbeOutcome::NoBroadcast) => {}
        other => panic!("expected a finished no-broadcast probe, got {:?}", other),
    }
    let mut store = LiveStore::new();
    let rep = run_probe(Some(&page), None, &mut store);
    assert!(matches!(rep, ProbeReport::NotLive));
    assert_eq!(store.len(), 0);
}

#[test]
fn failed_channel_fetch_is_network_failure() {
    let mut store = LiveStore::new();
    let rep = run_probe(None, None, &mut store);
    assert!(matches!(
        rep,
        ProbeReport::Failed(FailureKind::NetworkFailure)
    ));
    assert_eq!(store.len(), 0);
}

#[test]
fn page_without_blob_is_malformed() {
    let mut store = LiveStore::new();
    let rep = run_probe(Some("<html>nothing here</html>"), None, &mut store);
    assert!(matches!(rep, ProbeReport::Failed(FailureKind::MalformedPage)));
    assert_eq!(store.len(), 0);
}

#[test]
fn unparseable_blob_is_malformed() {
    let page = channel_page("{not json at all");
    let mut store = LiveStore::new();
    let rep = run_probe(Some(&page), None, &mut store);
    assert!(matches!(rep, ProbeReport::Failed(FailureKind::MalformedPage)));
}

#[test]
fn mistyped_live_badge_is_malformed() {
    let blob = avatar_blob("\"liveData\":{\"liveBadgeText\":7}");
    let page = channel_page(&blob);
    let mut store = LiveStore::new();
    let rep = run_probe(Some(&page), None, &mut store);
    assert!(matches!(rep, ProbeReport::Failed(FailureKind::MalformedPage)));
}

#[test]
fn live_badge_without_video_id_is_malformed() {
    let blob = avatar_blob("\"liveData\":{\"liveBadgeText\":\"LIVE\"}");
    let page = channel_page(&blob);
    let mut store = LiveStore::new();
    let rep = run_probe(Some(&page), None, &mut store);
    assert!(matches!(rep, ProbeReport::Failed(FailureKind::MalformedPage)));
}

#[test]
fn failed_watch_fetch_is_network_failure() {
    let page = channel_page(&live_blob("abc123"));
    let mut store = LiveStore::new();
    let rep = run_probe(Some(&page), None, &mut store);
    assert!(matches!(
        rep,
        ProbeReport::Failed(FailureKind::NetworkFailure)
    ));
}

#[test]
fn watch_page_without_title_is_no_title_found() {
    let page = channel_page(&live_blob("abc123"));
    let watch = "<html><head></head><body>no title element</body></html>";
    let mut store = LiveStore::new();
    let rep = run_probe(Some(&page), Some(watch), &mut store);
    assert!(matches!(rep, ProbeReport::Failed(FailureKind::NoTitleFound)));
    assert_eq!(store.len(), 0);
}

#[test]
fn parsed_tree_navigates_by_field_names() {
    let doc = "{\"a\":{\"b\":\"c\",\"n\":null,\"k\":7}}";
    let tree = parse_json_tree(doc).expect("valid document");
    match node_at(&tree, &["a", "b"]) {
        Some(JsonTree::Str(s)) => assert_eq!(s, "c"),
        other => panic!("expected the string under a.b, got {:?}", other),
    }
    assert!(matches!(node_at(&tree, &["a", "n"]), Some(JsonTree::Null)));
    assert!(matches!(node_at(&tree, &["a", "k"]), Some(JsonTree::Other)));
    assert!(node_at(&tree, &["a", "missing"]).is_none());
    assert!(node_at(&tree, &["a", "b", "deeper"]).is_none());
    assert!(parse_json_tree("{broken").is_none());
}

#[test]
fn watch_page_title_is_trimmed() {
    let page = channel_page(&live_blob("xyz"));
    let watch = "<title>  Spaced Out \n</title>";
    let mut store = LiveStore::new();
    let rep = run_probe(Some(&page), Some(watch), &mut store);
    match rep {
        ProbeReport::Inserted(e) => {
            assert_eq!(e.title, "Spaced Out");
            assert_eq!(e.live_id, "xyz");
        }
        other => panic!("expected an inserted record, got {:?}", other),
    }
}

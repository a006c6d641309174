use tcc_live_capture::config::{build_config, parse_channel_list, parse_interval, parse_u64, ConfigError};
use tcc_live_capture::extract::{extract_embed_live_id, extract_init_data, extract_title};
use tcc_live_capture::text::{find_str_from, str_eq, trim_str};
use tcc_live_capture::yt_util::cvt_video_id_url;

#[test]
fn video_url_appends_the_id() {
    assert_eq!(
        cvt_video_id_url("u_x7T0mT-K4"),
        "https://www.youtube.com/watch?v=u_x7T0mT-K4"
    );
    assert_eq!(cvt_video_id_url(""), "https://www.youtube.com/watch?v=");
}

#[test]
fn find_str_finds_first_occurrence() {
    assert_eq!(find_str_from("abcabc", "bc", 0), Some(1));
    assert_eq!(find_str_from("abcabc", "bc", 2), Some(4));
    assert_eq!(find_str_from("abcabc", "zz", 0), None);
    assert_eq!(find_str_from("abc", "", 1), Some(1));
}

#[test]
fn str_eq_compares_by_characters() {
    assert!(str_eq("abc", "abc"));
    assert!(!str_eq("abc", "abd"));
    assert!(!str_eq("abc", "ab"));
    assert!(str_eq("", ""));
}

#[test]
fn trim_removes_surrounding_whitespace() {
    assert_eq!(trim_str("  hello \t\n"), "hello");
    assert_eq!(trim_str("hello"), "hello");
    assert_eq!(trim_str(" \r\n\t "), "");
    assert_eq!(trim_str("a b"), "a b");
}

#[test]
fn trim_matches_std_on_unicode_whitespace() {
    let padded = "\u{0C}\u{0B} title \u{A0}\u{2028}\u{3000}";
    assert_eq!(trim_str(padded), padded.trim());
    assert_eq!(trim_str(padded), "title");
    assert_eq!(trim_str("\u{85}x\u{205F}"), "x");
}

#[test]
fn init_data_extraction_handles_spacing() {
    let p1 = "<script>var ytInitialData = {\"a\":1};</script>";
    assert_eq!(extract_init_data(p1).as_deref(), Some("{\"a\":1}"));
    let p2 = "<script>var ytInitialData={\"a\":1};</script>";
    assert_eq!(extract_init_data(p2).as_deref(), Some("{\"a\":1}"));
    let p3 = "<script>var ytInitialData ={};</script>";
    assert_eq!(extract_init_data(p3).as_deref(), Some("{}"));
}

#[test]
fn init_data_extraction_fails_closed() {
    assert_eq!(extract_init_data("<html>plain</html>"), None);
    assert_eq!(extract_init_data("var ytInitialData {}"), None);
    assert_eq!(extract_init_data("var ytInitialData = {}"), None);
}

#[test]
fn init_data_extraction_skips_decoy_marker() {
    // A marker occurrence not followed by `=` is skipped; the next complete
    // form is taken.
    let page = "<p>var ytInitialData in prose</p><script>var ytInitialData = {\"k\":0};</script>";
    assert_eq!(extract_init_data(page).as_deref(), Some("{\"k\":0}"));
}

#[test]
fn title_extraction_takes_first_complete_element() {
    assert_eq!(
        extract_title("<head><title>First</title><title>Second</title></head>").as_deref(),
        Some("First")
    );
    assert_eq!(
        extract_title("<title><title>inner</title>").as_deref(),
        Some("inner")
    );
    assert_eq!(extract_title("<title>unclosed"), None);
    assert_eq!(extract_title("no element at all"), None);
    assert_eq!(extract_title("<title></title>").as_deref(), Some(""));
}

#[test]
fn embed_live_id_reads_until_escape() {
    let page = "x https://www.youtube.com/watch?v\\u003dlive42\\u0026rest";
    assert_eq!(extract_embed_live_id(page).as_deref(), Some("live42"));
    let tail = "pre https://www.youtube.com/watch?v\\u003dtail-id";
    assert_eq!(extract_embed_live_id(tail).as_deref(), Some("tail-id"));
    assert_eq!(extract_embed_live_id("nothing to see"), None);
}

#[test]
fn channel_list_drops_empty_segments() {
    assert_eq!(parse_channel_list("a;b;;c"), vec!["a", "b", "c"]);
    assert_eq!(parse_channel_list("solo"), vec!["solo"]);
    assert_eq!(parse_channel_list(";;"), Vec::<String>::new());
    assert_eq!(parse_channel_list(""), Vec::<String>::new());
    assert_eq!(parse_channel_list(";tail"), vec!["tail"]);
}

#[test]
fn u64_parsing_matches_std() {
    assert_eq!(parse_u64("0"), Some(0));
    assert_eq!(parse_u64("42"), Some(42));
    assert_eq!(parse_u64("+7"), Some(7));
    assert_eq!(parse_u64("18446744073709551615"), Some(u64::MAX));
    assert_eq!(parse_u64("18446744073709551616"), None);
    assert_eq!(parse_u64(""), None);
    assert_eq!(parse_u64("+"), None);
    assert_eq!(parse_u64("-1"), None);
    assert_eq!(parse_u64("1 2"), None);
    assert_eq!(parse_u64("12a"), None);
}

#[test]
fn interval_defaults_when_unset_or_unparseable() {
    assert_eq!(parse_interval(None), 100);
    assert_eq!(parse_interval(Some("nonsense")), 100);
    assert_eq!(parse_interval(Some("30")), 30);
}

#[test]
fn config_fails_fast_without_channels() {
    match build_config(None, None) {
        Err(ConfigError::MissingChannelList) => {}
        other => panic!("expected a missing-list error, got {:?}", other),
    }
    match build_config(Some(";;"), None) {
        Err(ConfigError::EmptyChannelList) => {}
        other => panic!("expected an empty-list error, got {:?}", other),
    }
    let cfg = build_config(Some("one;two"), Some("5")).expect("valid configuration");
    assert_eq!(cfg.channels, vec!["one", "two"]);
    assert_eq!(cfg.interval_secs, 5);
}

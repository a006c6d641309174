//! The marker-delimited extractions the probe performs on fetched pages: the
//! initial-data blob of a channel page, the title element of a watch page, and
//! the live URL embedded in a channel's stream-embed page.

use vstd::prelude::*;
use crate::text::{
    occurs_at, find_from, trim_spec, find_str_from, match_at, trim_str, lemma_find_from_some,
};

verus! {

/// Position just past an `=` that may be flanked by single spaces, or `None`
/// if no `=` stands at `i`.
pub open spec fn after_assign(s: Seq<char>, i: int) -> Option<int> {
    let j = if i < s.len() && s[i] == ' ' {
        i + 1
    } else {
        i
    };
    if j < s.len() && s[j] == '=' {
        let k = j + 1;
        Some(
            if k < s.len() && s[k] == ' ' {
                k + 1
            } else {
                k
            },
        )
    } else {
        None
    }
}

/// A data blob bound to the marker at `i`: `var ytInitialData`, an `=` that
/// may be flanked by single spaces, then the text up to the first following
/// `;</script>`, untrimmed.
pub open spec fn blob_at(s: Seq<char>, i: int) -> Option<Seq<char>> {
    if occurs_at(s, "var ytInitialData"@, i) {
        match after_assign(s, i + "var ytInitialData"@.len()) {
            None => None,
            Some(c) => match find_from(s, ";</script>"@, c) {
                None => None,
                Some(e) => Some(s.subrange(c, e)),
            },
        }
    } else {
        None
    }
}

/// The blob of the first position at or after `i` where the whole form
/// matches; a marker occurrence not followed by the `=` is skipped.
pub open spec fn blob_from(s: Seq<char>, i: int) -> Option<Seq<char>>
    decreases s.len() + 1 - i,
    when 0 <= i
{
    if i + "var ytInitialData"@.len() > s.len() {
        None
    } else {
        match blob_at(s, i) {
            Some(b) => Some(b),
            None => blob_from(s, i + 1),
        }
    }
}

/// The raw initial-data blob of a channel page.
pub open spec fn init_data_blob(page: Seq<char>) -> Option<Seq<char>> {
    blob_from(page, 0)
}

/// Locate the initial-data blob in a fetched channel page.
pub fn extract_init_data(page: &str) -> (r: Option<String>)
    ensures
        match r {
            Some(b) => init_data_blob(page@) == Some(b@),
            None => init_data_blob(page@) is None,
        },
{
    let n = page.unicode_len();
    let m = "var ytInitialData".unicode_len();
    proof {
        reveal_strlit("var ytInitialData");
    }
    if n < m {
        return None;
    }
    let mut i: usize = 0;
    while i <= n - m
        invariant
            m == "var ytInitialData"@.len(),
            1 <= m,
            m <= n,
            i <= n,
            n == page@.len(),
            blob_from(page@, 0) == blob_from(page@, i as int),
        decreases n - i,
    {
        if match_at(page, "var ytInitialData", i) {
            let p = i + m;
            let j = if p < n && page.get_char(p) == ' ' {
                p + 1
            } else {
                p
            };
            if j < n && page.get_char(j) == '=' {
                let k = j + 1;
                let c = if k < n && page.get_char(k) == ' ' {
                    k + 1
                } else {
                    k
                };
                match find_str_from(page, ";</script>", c) {
                    Some(e) => {
                        proof {
                            lemma_find_from_some(page@, ";</script>"@, c as int, e as int);
                        }
                        return Some(String::from_str(page.substring_char(c, e)));
                    },
                    None => {},
                }
            }
        }
        i += 1;
    }
    None
}

/// A title element starting at `i`: `<title>`, then the text up to the first
/// following `<`, which must open `</title>`.
pub open spec fn title_at(s: Seq<char>, i: int) -> Option<Seq<char>> {
    if occurs_at(s, "<title>"@, i) {
        let c = i + "<title>"@.len();
        match find_from(s, "<"@, c) {
            None => None,
            Some(e) => if occurs_at(s, "</title>"@, e) {
                Some(s.subrange(c, e))
            } else {
                None
            },
        }
    } else {
        None
    }
}

/// The text of the first title element at or after `i`.
pub open spec fn title_from(s: Seq<char>, i: int) -> Option<Seq<char>>
    decreases s.len() + 1 - i,
    when 0 <= i
{
    if i + "<title>"@.len() > s.len() {
        None
    } else {
        match title_at(s, i) {
            Some(t) => Some(t),
            None => title_from(s, i + 1),
        }
    }
}

/// The trimmed text of the first title element of a watch page, if any.
pub open spec fn page_title(s: Seq<char>) -> Option<Seq<char>> {
    match title_from(s, 0) {
        Some(t) => Some(trim_spec(t)),
        None => None,
    }
}

/// Extract the title of a fetched watch page.
pub fn extract_title(page: &str) -> (r: Option<String>)
    ensures
        match r {
            Some(t) => page_title(page@) == Some(t@),
            None => page_title(page@) is None,
        },
{
    let n = page.unicode_len();
    let m = "<title>".unicode_len();
    let close_len = "</title>".unicode_len();
    proof {
        reveal_strlit("<title>");
    }
    if n < m {
        return None;
    }
    let mut i: usize = 0;
    while i <= n - m
        invariant
            m == "<title>"@.len(),
            1 <= m,
            close_len == "</title>"@.len(),
            m <= n,
            i <= n,
            n == page@.len(),
            title_from(page@, 0) == title_from(page@, i as int),
        decreases n - i,
    {
        if match_at(page, "<title>", i) {
            let c = i + m;
            match find_str_from(page, "<", c) {
                Some(e) => {
                    proof {
                        lemma_find_from_some(page@, "<"@, c as int, e as int);
                    }
                    if close_len <= n - e && match_at(page, "</title>", e) {
                        return Some(trim_str(page.substring_char(c, e)));
                    }
                },
                None => {},
            }
        }
        i += 1;
    }
    None
}

/// The live URL marker of a stream-embed page, with the escaped `=` that
/// precedes the video id.
pub open spec fn embed_marker() -> Seq<char> {
    "https://www.youtube.com/watch?v\\u003d"@
}

/// The trimmed video id of a stream-embed page: the text between the live URL
/// marker and the next escape character, or the end of the page.
pub open spec fn embed_live_id(page: Seq<char>) -> Option<Seq<char>> {
    match find_from(page, embed_marker(), 0) {
        None => None,
        Some(m) => {
            let c = m + embed_marker().len();
            let e = match find_from(page, "\\"@, c) {
                Some(e) => e,
                None => page.len() as int,
            };
            Some(trim_spec(page.subrange(c, e)))
        },
    }
}

/// Extract the live video id from a fetched stream-embed page.
pub fn extract_embed_live_id(page: &str) -> (r: Option<String>)
    ensures
        match r {
            Some(id) => embed_live_id(page@) == Some(id@),
            None => embed_live_id(page@) is None,
        },
{
    let marker = "https://www.youtube.com/watch?v\\u003d";
    let n = page.unicode_len();
    let m = match find_str_from(page, marker, 0) {
        None => {
            return None;
        },
        Some(m) => m,
    };
    proof {
        lemma_find_from_some(page@, marker@, 0, m as int);
    }
    let c = m + marker.unicode_len();
    let e = match find_str_from(page, "\\", c) {
        Some(e) => {
            proof {
                lemma_find_from_some(page@, "\\"@, c as int, e as int);
            }
            e
        },
        None => n,
    };
    Some(trim_str(page.substring_char(c, e)))
}

} // verus!

//! Small helpers around video identifiers and their URLs.

use vstd::prelude::*;

verus! {

/// Append a video id to the standard watch-page URL prefix.
pub fn cvt_video_id_url(video_id: &str) -> (r: String)
    ensures
        r@ == "https://www.youtube.com/watch?v="@ + video_id@,
{
    let base = String::from_str("https://www.youtube.com/watch?v=");
    base.concat(video_id)
}

} // verus!

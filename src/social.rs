//! The availability classifier: turns one platform's HTTP answer into a
//! verdict.
use vstd::prelude::*;
use crate::config::views;
use crate::text::{chars_of, contains, has_substring, joined, lower_of, lowercase};

verus! {

broadcast use vstd::string::group_string_axioms;

/// The verdict on one target.
#[derive(Debug, Clone, Copy, PartialEq, Eq, Structural)]
pub enum SocialStatus {
    Available,
    Taken,
    /// The handle breaks the platform's syntax rules; nothing was fetched.
    Invalid,
    /// The probe failed or the answer could not be read.
    Unknown,
}

/// The verdict on one social platform, by the platform's name.
#[derive(Debug, Clone)]
pub struct SocialResult {
    pub platform: String,
    pub status: SocialStatus,
}

/// What one probe brought back.
#[derive(Debug, Clone)]
pub enum ProbeOutcome {
    /// An HTTP answer. `body` holds the page where it was read; it is read
    /// only where `needs_body` asks for it.
    Response { status: u16, body: Option<String> },
    /// Timeout, DNS, connection or TLS failure, or a body that could not be
    /// read.
    TransportFailure,
}

/// A 2xx status.
pub open spec fn is_success(status: u16) -> bool {
    200 <= status < 300
}

/// TikTok, on a lower-cased page: the profile exists.
pub open spec fn tiktok_taken(body: Seq<char>) -> bool {
    let has_unique_id = has_substring(body, "\"uniqueid\":\""@);
    let has_status_zero = has_substring(body, "\"statuscode\":0"@);
    let has_error = has_substring(body, "\"statuscode\":10221"@) || has_substring(
        body,
        "\"statuscode\":10222"@,
    ) || has_substring(body, "\"statusmsg\":\"user banned\""@) || has_substring(
        body,
        "\"statusmsg\":\"user not found\""@,
    );
    if has_unique_id && has_status_zero {
        true
    } else if has_error {
        false
    } else {
        has_unique_id
    }
}

/// Where the last `/`-separated segment of `s` starts.
pub open spec fn segment_start(s: Seq<char>) -> int
    decreases s.len(),
{
    if s.len() == 0 {
        0
    } else if s.last() == '/' {
        s.len() as int
    } else {
        segment_start(s.drop_last())
    }
}

/// The text after the last `/` of `s` (all of `s` where it has none).
pub open spec fn last_segment(s: Seq<char>) -> Seq<char> {
    s.subrange(segment_start(s), s.len() as int)
}

/// The lower-cased forms of `@handle` that an Instagram profile title shows;
/// none for an empty handle.
pub open spec fn title_markers(handle: Seq<char>) -> Seq<Seq<char>> {
    if handle.len() == 0 {
        seq![]
    } else {
        seq![
            lower_of("<title> (@"@ + handle),
            lower_of("<title> (&#064;"@ + handle),
            lower_of("(@"@ + handle + ")"@),
            lower_of("(&#064;"@ + handle + ")"@),
        ]
    }
}

/// Instagram, on a lower-cased page and the markers of the handle: a marker in
/// the title means taken; else the bare generic title means available; else
/// the weaker `profilepage` token decides.
pub open spec fn instagram_taken(body: Seq<char>, markers: Seq<Seq<char>>) -> bool {
    if exists|k: int| 0 <= k < markers.len() && has_substring(body, #[trigger] markers[k]) {
        true
    } else if has_substring(body, "<title>instagram</title>"@) || has_substring(
        body,
        "<title>login \u{2022} instagram</title>"@,
    ) {
        false
    } else {
        has_substring(body, "profilepage"@)
    }
}

/// A lower-cased 2xx page from `url` shows an existing profile.
pub open spec fn page_taken(body: Seq<char>, url: Seq<char>) -> bool {
    if has_substring(url, "instagram.com"@) {
        instagram_taken(body, title_markers(last_segment(url)))
    } else if has_substring(url, "tiktok.com"@) {
        tiktok_taken(body)
    } else {
        true
    }
}

/// The status alone does not settle the verdict for `url`: the page is needed.
pub open spec fn body_needed(url: Seq<char>, status: u16) -> bool {
    !has_substring(url, "youtube.com"@) && status != 404 && is_success(status)
}

/// The verdict on the probe of `url` that brought `outcome`.
pub open spec fn outcome_verdict(url: Seq<char>, outcome: ProbeOutcome) -> SocialStatus {
    match outcome {
        ProbeOutcome::TransportFailure => SocialStatus::Unknown,
        ProbeOutcome::Response { status, body } => {
            if status == 404 {
                SocialStatus::Available
            } else if !is_success(status) {
                SocialStatus::Unknown
            } else if has_substring(url, "youtube.com"@) {
                SocialStatus::Taken
            } else {
                match body {
                    Some(page) => if page_taken(lower_of(page@), url) {
                        SocialStatus::Taken
                    } else {
                        SocialStatus::Available
                    },
                    None => SocialStatus::Unknown,
                }
            }
        },
    }
}

/// Classifies a lower-cased TikTok page.
pub fn check_tiktok_availability(body_lower: &str) -> (taken: bool)
    ensures
        taken == tiktok_taken(body_lower@),
{
    let has_unique_id = contains(body_lower, "\"uniqueid\":\"");
    let has_status_zero = contains(body_lower, "\"statuscode\":0");
    let has_error = contains(body_lower, "\"statuscode\":10221") || contains(
        body_lower,
        "\"statuscode\":10222",
    ) || contains(body_lower, "\"statusmsg\":\"user banned\"") || contains(
        body_lower,
        "\"statusmsg\":\"user not found\"",
    );
    if has_unique_id && has_status_zero {
        true
    } else if has_error {
        false
    } else {
        has_unique_id
    }
}

/// The text after the last `/` of `url`.
pub fn last_path_segment(url: &str) -> (r: &str)
    ensures
        r@ == last_segment(url@),
{
    let v = chars_of(url);
    let mut start: usize = 0;
    let mut i: usize = 0;
    while i < v.len()
        invariant
            v@ == url@,
            i <= v.len(),
            start == segment_start(url@.take(i as int)),
            start <= i,
        decreases v.len() - i,
    {
        proof {
            assert(url@.take(i + 1).drop_last() =~= url@.take(i as int));
        }
        if v[i] == '/' {
            start = i + 1;
        }
        i = i + 1;
    }
    proof {
        assert(url@.take(v.len() as int) =~= url@);
    }
    url.substring_char(start, v.len())
}

/// The lower-cased `@handle` markers of an Instagram profile title.
pub fn instagram_markers(handle: &str) -> (r: Vec<String>)
    ensures
        views(r@) == title_markers(handle@),
{
    let mut r: Vec<String> = Vec::new();
    if handle.is_empty() {
        assert(views(r@) =~= title_markers(handle@));
        return r;
    }
    let open_at = joined("<title> (@", handle);
    let open_entity = joined("<title> (&#064;", handle);
    let paren_at = joined("(@", handle);
    let paren_at = joined(paren_at.as_str(), ")");
    let paren_entity = joined("(&#064;", handle);
    let paren_entity = joined(paren_entity.as_str(), ")");
    r.push(lowercase(open_at.as_str()));
    r.push(lowercase(open_entity.as_str()));
    r.push(lowercase(paren_at.as_str()));
    r.push(lowercase(paren_entity.as_str()));
    assert(views(r@) =~= title_markers(handle@));
    r
}

/// Classifies a lower-cased Instagram page, given the lower-cased markers of
/// the handle.
pub fn instagram_title_verdict(body_lower: &str, markers: &Vec<String>) -> (taken: bool)
    ensures
        taken == instagram_taken(body_lower@, views(markers@)),
{
    let mut k: usize = 0;
    while k < markers.len()
        invariant
            k <= markers.len(),
            forall|j: int| 0 <= j < k ==> !has_substring(body_lower@, #[trigger] markers@[j]@),
        decreases markers.len() - k,
    {
        if contains(body_lower, markers[k].as_str()) {
            assert(has_substring(body_lower@, views(markers@)[k as int]));
            return true;
        }
        k = k + 1;
    }
    assert(!exists|j: int|
        0 <= j < views(markers@).len() && has_substring(body_lower@, #[trigger] views(markers@)[j])) by {
        assert forall|j: int| 0 <= j < views(markers@).len() implies !has_substring(
            body_lower@,
            #[trigger] views(markers@)[j],
        ) by {
            assert(views(markers@)[j] == markers@[j]@);
        }
    }
    if contains(body_lower, "<title>instagram</title>") || contains(
        body_lower,
        "<title>login \u{2022} instagram</title>",
    ) {
        false
    } else {
        contains(body_lower, "profilepage")
    }
}

/// Classifies a lower-cased Instagram page fetched from `url`, whose last path
/// segment is the handle.
pub fn check_instagram_availability(body_lower: &str, url: &str) -> (taken: bool)
    ensures
        taken == instagram_taken(body_lower@, title_markers(last_segment(url@))),
{
    let handle = last_path_segment(url);
    let markers = instagram_markers(handle);
    instagram_title_verdict(body_lower, &markers)
}

/// Classifies a lower-cased 2xx page by the platform that `url` points at; a
/// page of a platform without rules of its own counts as a profile.
pub fn check_platform_availability(body_lower: &str, url: &str) -> (taken: bool)
    ensures
        taken == page_taken(body_lower@, url@),
{
    if contains(url, "instagram.com") {
        check_instagram_availability(body_lower, url)
    } else if contains(url, "tiktok.com") {
        check_tiktok_availability(body_lower)
    } else {
        true
    }
}

/// Whether the verdict on `url` with this status needs the page itself.
pub fn needs_body(url: &str, status: u16) -> (r: bool)
    ensures
        r == body_needed(url@, status),
{
    !contains(url, "youtube.com") && status != 404 && 200 <= status && status < 300
}

/// The verdict on the probe of `url` that brought `outcome`.
pub fn classify_outcome(url: &str, outcome: &ProbeOutcome) -> (r: SocialStatus)
    ensures
        r == outcome_verdict(url@, *outcome),
{
    match outcome {
        ProbeOutcome::TransportFailure => SocialStatus::Unknown,
        ProbeOutcome::Response { status, body } => {
            let status = *status;
            if status == 404 {
                SocialStatus::Available
            } else if !(200 <= status && status < 300) {
                SocialStatus::Unknown
            } else if contains(url, "youtube.com") {
                SocialStatus::Taken
            } else {
                match body {
                    Some(page) => {
                        let page_lower = lowercase(page.as_str());
                        if check_platform_availability(page_lower.as_str(), url) {
                            SocialStatus::Taken
                        } else {
                            SocialStatus::Available
                        }
                    },
                    None => SocialStatus::Unknown,
                }
            }
        },
    }
}

/// A 404 means available on every platform, whatever else came with it.
pub proof fn not_found_is_available(url: Seq<char>, body: Option<String>)
    ensures
        outcome_verdict(url, ProbeOutcome::Response { status: 404, body }) == SocialStatus::Available,
{
}

} // verus!

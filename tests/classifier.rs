use chexx0r::social::{check_platform_availability, classify_outcome, instagram_markers, instagram_title_verdict, last_path_segment, needs_body, ProbeOutcome};
use chexx0r::{check_instagram_availability, check_tiktok_availability, SocialStatus};

const YOUTUBE: &str = "https://www.youtube.com/@alice";
const INSTAGRAM: &str = "https://www.instagram.com/alice";
const TIKTOK: &str = "https://www.tiktok.com/@bob";

fn page(status: u16, body: &str) -> ProbeOutcome {
    ProbeOutcome::Response { status, body: Some(body.to_string()) }
}

#[test]
fn not_found_is_available_everywhere() {
    for url in [YOUTUBE, INSTAGRAM, TIKTOK, "https://example.org/alice"] {
        assert_eq!(classify_outcome(url, &page(404, "\"uniqueId\":\"x\" profilepage")), SocialStatus::Available);
        assert_eq!(classify_outcome(url, &ProbeOutcome::Response { status: 404, body: None }), SocialStatus::Available);
    }
}

#[test]
fn youtube_success_is_taken() {
    assert_eq!(classify_outcome(YOUTUBE, &ProbeOutcome::Response { status: 200, body: None }), SocialStatus::Taken);
    assert_eq!(classify_outcome(YOUTUBE, &page(204, "")), SocialStatus::Taken);
}

#[test]
fn other_statuses_are_unknown() {
    assert_eq!(classify_outcome(YOUTUBE, &page(500, "")), SocialStatus::Unknown);
    assert_eq!(classify_outcome(INSTAGRAM, &page(429, "<title>Instagram</title>")), SocialStatus::Unknown);
    assert_eq!(classify_outcome(TIKTOK, &page(302, "")), SocialStatus::Unknown);
}

#[test]
fn transport_failure_is_unknown() {
    assert_eq!(classify_outcome(YOUTUBE, &ProbeOutcome::TransportFailure), SocialStatus::Unknown);
    assert_eq!(classify_outcome(TIKTOK, &ProbeOutcome::TransportFailure), SocialStatus::Unknown);
}

#[test]
fn missing_body_is_unknown() {
    assert_eq!(classify_outcome(INSTAGRAM, &ProbeOutcome::Response { status: 200, body: None }), SocialStatus::Unknown);
}

#[test]
fn instagram_generic_title_is_available() {
    let body = "<html><head><title>Instagram</title></head></html>";
    assert_eq!(classify_outcome(INSTAGRAM, &page(200, body)), SocialStatus::Available);
    let login = "<title>Login • Instagram</title>";
    assert_eq!(classify_outcome(INSTAGRAM, &page(200, login)), SocialStatus::Available);
}

#[test]
fn instagram_handle_in_title_is_taken() {
    let body = "<head><title> (@alice) • Instagram photos and videos</title>";
    assert_eq!(classify_outcome(INSTAGRAM, &page(200, body)), SocialStatus::Taken);
    let entity = "<title>Alice (&#064;ALICE) • Instagram</title>";
    assert_eq!(classify_outcome(INSTAGRAM, &page(200, entity)), SocialStatus::Taken);
}

#[test]
fn instagram_fallback_on_profilepage() {
    assert_eq!(classify_outcome(INSTAGRAM, &page(200, "<title>something</title> ProfilePage")), SocialStatus::Taken);
    assert_eq!(classify_outcome(INSTAGRAM, &page(200, "<title>something</title>")), SocialStatus::Available);
}

#[test]
fn instagram_on_lowered_pages() {
    let url = "https://www.instagram.com/Alice";
    assert!(check_instagram_availability("<title> (@alice) • instagram</title>", url));
    assert!(!check_instagram_availability("<title>instagram</title>", url));
    // An empty last segment has no markers: only the generic title and the fallback count.
    assert!(!check_instagram_availability("(@) <title>instagram</title>", "https://www.instagram.com/"));
}

#[test]
fn instagram_markers_are_lowered() {
    let markers = instagram_markers("Alice");
    assert_eq!(markers, vec!["<title> (@alice", "<title> (&#064;alice", "(@alice)", "(&#064;alice)"]);
    assert!(instagram_markers("").is_empty());
    assert!(instagram_title_verdict("xx (&#064;alice) xx", &markers));
    assert!(!instagram_title_verdict("<title>login • instagram</title>", &markers));
    assert!(instagram_title_verdict("nothing here but profilepage", &vec![]));
}

#[test]
fn last_segment_of_url() {
    assert_eq!(last_path_segment("https://www.instagram.com/alice"), "alice");
    assert_eq!(last_path_segment("https://www.instagram.com/"), "");
    assert_eq!(last_path_segment("alice"), "alice");
}

#[test]
fn tiktok_profile_with_status_zero_is_taken() {
    let body = "{\"userInfo\":{\"user\":{\"uniqueId\":\"bob\"}},\"statusCode\":0}";
    assert_eq!(classify_outcome(TIKTOK, &page(200, body)), SocialStatus::Taken);
}

#[test]
fn tiktok_error_code_is_available() {
    assert_eq!(classify_outcome(TIKTOK, &page(200, "{\"statusCode\":10221}")), SocialStatus::Available);
    assert_eq!(classify_outcome(TIKTOK, &page(200, "{\"statusCode\":10222}")), SocialStatus::Available);
    assert_eq!(classify_outcome(TIKTOK, &page(200, "{\"statusMsg\":\"User banned\"}")), SocialStatus::Available);
}

#[test]
fn tiktok_fallbacks() {
    assert!(check_tiktok_availability("\"uniqueid\":\"bob\""));
    assert!(!check_tiktok_availability("\"uniqueid\":\"bob\" \"statusmsg\":\"user not found\""));
    assert!(check_tiktok_availability("\"uniqueid\":\"bob\" \"statuscode\":0 \"statuscode\":10221"));
    assert!(!check_tiktok_availability("<html></html>"));
    // The page must already be lower-cased.
    assert!(!check_tiktok_availability("\"uniqueId\":\"bob\""));
}

#[test]
fn unknown_platform_success_is_taken() {
    assert!(check_platform_availability("anything", "https://example.org/alice"));
    assert_eq!(classify_outcome("https://example.org/alice", &page(200, "")), SocialStatus::Taken);
}

#[test]
fn body_is_needed_only_for_pages_that_decide() {
    assert!(!needs_body(YOUTUBE, 200));
    assert!(!needs_body(INSTAGRAM, 404));
    assert!(!needs_body(TIKTOK, 500));
    assert!(needs_body(INSTAGRAM, 200));
    assert!(needs_body(TIKTOK, 299));
}

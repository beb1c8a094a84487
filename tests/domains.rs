use chexx0r::config::{fill_template, get_preset_tlds, social_platforms, tlds_for_preset};
use chexx0r::domain::{domain_candidates, split_custom_tlds, tld_list};
use chexx0r::{DomainResult, SocialStatus};

#[test]
fn presets() {
    assert_eq!(get_preset_tlds("startup"), vec!["com", "org", "io", "ai", "tech", "app", "dev", "xyz"]);
    assert_eq!(get_preset_tlds("enterprise"), vec!["com", "org", "net", "info", "biz", "us"]);
    assert_eq!(get_preset_tlds("country"), vec!["us", "uk", "de", "fr", "ca", "au", "jp", "br", "in"]);
    assert_eq!(get_preset_tlds("whatever"), get_preset_tlds("startup"));
}

#[test]
fn preset_names_ignore_case() {
    assert_eq!(get_preset_tlds("ENTERPRISE"), vec!["com", "org", "net", "info", "biz", "us"]);
    assert_eq!(get_preset_tlds("Country").len(), 9);
    // Compared as given, an upper-case name is unknown.
    assert_eq!(tlds_for_preset("ENTERPRISE").len(), 8);
}

#[test]
fn custom_list_is_split_and_trimmed() {
    assert_eq!(split_custom_tlds("com, org ,io"), vec!["com", "org", "io"]);
    assert_eq!(split_custom_tlds("com"), vec!["com"]);
    assert_eq!(split_custom_tlds(""), vec![""]);
    assert_eq!(split_custom_tlds("a,,b,"), vec!["a", "", "b", ""]);
    assert_eq!(split_custom_tlds("\tnet\n"), vec!["net"]);
}

#[test]
fn custom_list_overrides_preset() {
    assert_eq!(tld_list("enterprise", Some("dev,app")), vec!["dev", "app"]);
    assert_eq!(tld_list("enterprise", None), get_preset_tlds("enterprise"));
}

#[test]
fn candidates_follow_tld_order() {
    let tlds = vec!["com".to_string(), "io".to_string()];
    assert_eq!(domain_candidates("nike", &tlds), vec!["nike.com", "nike.io"]);
    assert!(domain_candidates("nike", &vec![]).is_empty());
}

#[test]
fn lookup_answers_map_to_verdicts() {
    let free = DomainResult::from_lookup("a.com".to_string(), Ok(Some(true)));
    let taken = DomainResult::from_lookup("b.com".to_string(), Ok(Some(false)));
    let unsure = DomainResult::from_lookup("c.com".to_string(), Ok(None));
    let failed = DomainResult::from_lookup("d.com".to_string(), Err(()));
    assert_eq!(free.domain, "a.com");
    assert_eq!(free.available, Some(true));
    assert_eq!(failed.available, None);
    assert_eq!(free.verdict(), SocialStatus::Available);
    assert_eq!(taken.verdict(), SocialStatus::Taken);
    assert_eq!(unsure.verdict(), SocialStatus::Unknown);
    assert_eq!(failed.verdict(), SocialStatus::Unknown);
}

#[test]
fn templates_fill_every_slot() {
    assert_eq!(fill_template("https://www.tiktok.com/@{}", "bob"), "https://www.tiktok.com/@bob");
    assert_eq!(fill_template("{}/{}", "x"), "x/x");
    assert_eq!(fill_template("no slot", "x"), "no slot");
    assert_eq!(fill_template("{", "x"), "{");
    let platforms = social_platforms();
    assert_eq!(platforms.len(), 3);
    assert_eq!(platforms[1].name, "instagram");
    assert_eq!(platforms[1].url_template, "https://www.instagram.com/{}");
}

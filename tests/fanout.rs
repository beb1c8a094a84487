use chexx0r::fanout::{assemble_social_results, plan_social_checks, SocialTarget};
use chexx0r::social::ProbeOutcome;
use chexx0r::SocialStatus;

fn ok_page(status: u16) -> ProbeOutcome {
    ProbeOutcome::Response { status, body: Some(String::new()) }
}

fn statuses(targets: &Vec<SocialTarget>, arrivals: &Vec<(usize, ProbeOutcome)>) -> Vec<SocialStatus> {
    assemble_social_results(targets, arrivals).iter().map(|r| r.status).collect()
}

#[test]
fn plan_lists_platforms_in_order() {
    let targets = plan_social_checks("nike");
    let names: Vec<&str> = targets.iter().map(|t| t.platform.as_str()).collect();
    assert_eq!(names, vec!["youtube", "instagram", "tiktok"]);
    assert_eq!(targets[0].url, "https://www.youtube.com/@nike");
    assert_eq!(targets[1].url, "https://www.instagram.com/nike");
    assert_eq!(targets[2].url, "https://www.tiktok.com/@nike");
    assert!(targets.iter().all(|t| t.valid));
}

#[test]
fn social_only_run_for_valid_handle() {
    let targets = plan_social_checks("nike");
    let arrivals = vec![
        (2, ProbeOutcome::TransportFailure),
        (0, ok_page(200)),
        (1, ProbeOutcome::Response { status: 200, body: Some("<title>Instagram</title>".to_string()) }),
    ];
    let results = assemble_social_results(&targets, &arrivals);
    assert_eq!(results.len(), 3);
    let names: Vec<&str> = results.iter().map(|r| r.platform.as_str()).collect();
    assert_eq!(names, vec!["youtube", "instagram", "tiktok"]);
    assert!(results.iter().all(|r| r.status != SocialStatus::Invalid));
    assert_eq!(statuses(&targets, &arrivals), vec![SocialStatus::Taken, SocialStatus::Available, SocialStatus::Unknown]);
}

#[test]
fn short_handle_is_invalid_on_youtube_without_probe() {
    let targets = plan_social_checks("a");
    assert!(!targets[0].valid);
    assert!(targets[1].valid);
    assert!(targets[2].valid);
    // Nothing was fetched for YouTube; the others answered 404.
    let arrivals = vec![(1, ok_page(404)), (2, ok_page(404))];
    assert_eq!(statuses(&targets, &arrivals), vec![SocialStatus::Invalid, SocialStatus::Available, SocialStatus::Available]);
}

#[test]
fn one_failed_probe_leaves_the_others_alone() {
    let targets = plan_social_checks("nike");
    let all_ok = vec![(0, ok_page(404)), (1, ok_page(404)), (2, ok_page(404))];
    let one_failed = vec![(0, ok_page(404)), (1, ProbeOutcome::TransportFailure), (2, ok_page(404))];
    assert_eq!(statuses(&targets, &all_ok), vec![SocialStatus::Available; 3]);
    assert_eq!(statuses(&targets, &one_failed), vec![SocialStatus::Available, SocialStatus::Unknown, SocialStatus::Available]);
}

#[test]
fn completion_order_does_not_change_results() {
    let targets = plan_social_checks("nike");
    let a = (0, ok_page(200));
    let b = (1, ok_page(404));
    let c = (2, ProbeOutcome::TransportFailure);
    let orders = vec![
        vec![a.clone(), b.clone(), c.clone()],
        vec![c.clone(), b.clone(), a.clone()],
        vec![b.clone(), a.clone(), c.clone()],
        vec![c.clone(), a.clone(), b.clone()],
    ];
    let expected = vec![SocialStatus::Taken, SocialStatus::Available, SocialStatus::Unknown];
    for arrivals in &orders {
        let results = assemble_social_results(&targets, arrivals);
        let names: Vec<&str> = results.iter().map(|r| r.platform.as_str()).collect();
        assert_eq!(names, vec!["youtube", "instagram", "tiktok"]);
        assert_eq!(statuses(&targets, arrivals), expected);
    }
}

#[test]
fn missing_arrival_is_unknown_and_strays_are_ignored() {
    let targets = plan_social_checks("nike");
    let arrivals = vec![(7, ok_page(200)), (0, ok_page(404))];
    assert_eq!(statuses(&targets, &arrivals), vec![SocialStatus::Available, SocialStatus::Unknown, SocialStatus::Unknown]);
}

#[test]
fn later_arrival_for_a_target_wins() {
    let targets = plan_social_checks("nike");
    let arrivals = vec![(0, ok_page(404)), (0, ok_page(200))];
    assert_eq!(statuses(&targets, &arrivals)[0], SocialStatus::Taken);
}

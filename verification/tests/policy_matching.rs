use gearbox_maintenance::config::policy::{
    Condition, ConditionMatch, DeletePolicy, PolicyMatch,
};
use gearbox_maintenance::{ErrorType, Torrent, TorrentStatus};

const NOW: i64 = 2_000_000_000;

fn tracker_precondition(host: &str) -> PolicyMatch {
    PolicyMatch::new(vec![host.to_string()])
}

fn standard_condition() -> Condition {
    // ratio 1.0, min seeding 60 min, max seeding 2 days
    Condition {
        max_ratio: Some(1000),
        min_seeding_time: Some(60 * 60),
        max_seeding_time: Some(2 * 24 * 60 * 60),
    }
}

fn make_torrent(
    done_date: Option<i64>,
    upload_ratio: i64,
    computed_upload_ratio: i64,
    num_files: usize,
    tracker: &str,
) -> Torrent {
    Torrent {
        id: 1,
        hash: "abcd".to_string(),
        name: "testcase".to_string(),
        done_date,
        error: ErrorType::NoError,
        error_string: "".to_string(),
        upload_ratio,
        computed_upload_ratio,
        status: TorrentStatus::Seeding,
        num_files,
        total_size: 30000,
        trackers: vec![tracker.to_string()],
    }
}

fn noop_policy(precondition: PolicyMatch, match_when: Condition) -> DeletePolicy {
    DeletePolicy {
        name: None,
        precondition,
        match_when,
        delete_data: false,
    }
}

fn evaluate(pol: &DeletePolicy, t: &Torrent) -> Option<ConditionMatch> {
    pol.applicable(t).map(|a| a.matches(NOW))
}

#[test]
fn condition_seed_time() {
    let cases: Vec<(i64, i64, Option<ConditionMatch>)> = vec![
        // Should never delete younglings:
        (60, 0, Some(ConditionMatch::NoMatch)),
        (60, 7000, Some(ConditionMatch::NoMatch)),
        // If they're older, we can delete if ratio is met:
        (6 * 60 * 60, 1100, Some(ConditionMatch::Ratio(1100))),
        (6 * 60 * 60, 900, Some(ConditionMatch::NoMatch)),
        // Any that are really old are fair game:
        (12 * 24 * 60 * 60, 900, Some(ConditionMatch::SeedTime(12 * 24 * 60 * 60))),
        (12 * 24 * 60 * 60, 1500, Some(ConditionMatch::Ratio(1500))),
    ];
    for (elapsed, upload_ratio, expected) in cases {
        let pol = noop_policy(tracker_precondition("tracker"), standard_condition());
        let t = make_torrent(
            Some(NOW - elapsed),
            upload_ratio,
            upload_ratio,
            1,
            "https://tracker:8080/announce",
        );
        assert_eq!(evaluate(&pol, &t), expected);
    }
}

#[test]
fn condition_num_files() {
    let cases: Vec<(usize, bool)> = vec![
        (1, true),  // single-file torrent: rejected
        (2, false), // within range
        (3, false),
        (4, false),
        (5, true),  // out of range
    ];
    for (num_files, rejected) in cases {
        let precondition =
            tracker_precondition("tracker").with_min_file_count(2).with_max_file_count(4);
        let pol = noop_policy(precondition, standard_condition());
        let t = make_torrent(
            Some(NOW - 12 * 24 * 60 * 60),
            2000,
            2000,
            num_files,
            "https://tracker:8080/announce",
        );
        if rejected {
            assert_eq!(evaluate(&pol, &t), None);
        } else {
            assert_ne!(evaluate(&pol, &t), None);
        }
    }
}

#[test]
fn tracker_url() {
    let cases: Vec<(&str, bool)> = vec![
        ("http://example.com:8080/announce", false),
        ("http://example-nomatch.com:8080/announce", true),
    ];
    for (tracker, rejected) in cases {
        let precondition =
            tracker_precondition("example.com").with_min_file_count(2).with_max_file_count(4);
        let pol = noop_policy(precondition, standard_condition());
        let t = make_torrent(Some(NOW - 12 * 24 * 60 * 60), 2000, 2000, 3, tracker);
        if rejected {
            assert_eq!(evaluate(&pol, &t), None);
        } else {
            assert_ne!(evaluate(&pol, &t), None);
        }
    }
}

#[test]
fn not_seeding_is_not_governed() {
    let pol = noop_policy(tracker_precondition("tracker"), standard_condition());
    let mut t = make_torrent(
        Some(NOW - 12 * 24 * 60 * 60),
        2000,
        2000,
        1,
        "https://tracker:8080/announce",
    );
    t.status = TorrentStatus::Downloading;
    assert_eq!(evaluate(&pol, &t), None);
}

#[test]
fn never_completed_is_left_alone() {
    let pol = noop_policy(tracker_precondition("tracker"), standard_condition());
    let t = make_torrent(None, 9000, 9000, 1, "https://tracker:8080/announce");
    assert_eq!(evaluate(&pol, &t), Some(ConditionMatch::NoMatch));
}

#[test]
fn epoch_sentinel_never_ages_past_a_minimum() {
    // A completion stamp of 0 is the "never" sentinel: with a minimum
    // seeding time configured it can never productively age.
    let pol = noop_policy(tracker_precondition("tracker"), standard_condition());
    let t = make_torrent(Some(0), 9000, 9000, 1, "https://tracker:8080/announce");
    assert_eq!(evaluate(&pol, &t), Some(ConditionMatch::NoMatch));
}

#[test]
fn epoch_sentinel_without_minimum_can_match_by_ratio() {
    // Without a minimum-seeding-time threshold the sentinel check does
    // not apply, and the ratio test proceeds.
    let condition = Condition {
        max_ratio: Some(1000),
        min_seeding_time: None,
        max_seeding_time: None,
    };
    let pol = noop_policy(tracker_precondition("tracker"), condition);
    let t = make_torrent(Some(0), 1500, 1500, 1, "https://tracker:8080/announce");
    assert_eq!(evaluate(&pol, &t), Some(ConditionMatch::Ratio(1500)));
}

#[test]
fn ratio_boundary_is_inclusive() {
    let pol = noop_policy(tracker_precondition("tracker"), standard_condition());
    let t = make_torrent(Some(NOW - 6 * 60 * 60), 1000, 1000, 1, "https://tracker:8080/announce");
    assert_eq!(evaluate(&pol, &t), Some(ConditionMatch::Ratio(1000)));
}

#[test]
fn minimum_seeding_boundary_is_inclusive() {
    // A seeding time exactly equal to the minimum is not below it.
    let pol = noop_policy(tracker_precondition("tracker"), standard_condition());
    let t = make_torrent(Some(NOW - 60 * 60), 1200, 1200, 1, "https://tracker:8080/announce");
    assert_eq!(evaluate(&pol, &t), Some(ConditionMatch::Ratio(1200)));
}

#[test]
fn maximum_seeding_boundary_is_inclusive() {
    let pol = noop_policy(tracker_precondition("tracker"), standard_condition());
    let t = make_torrent(
        Some(NOW - 2 * 24 * 60 * 60),
        500,
        500,
        1,
        "https://tracker:8080/announce",
    );
    assert_eq!(evaluate(&pol, &t), Some(ConditionMatch::SeedTime(2 * 24 * 60 * 60)));
}

#[test]
fn negative_reported_ratio_falls_back_to_computed() {
    let pol = noop_policy(tracker_precondition("tracker"), standard_condition());
    let t = make_torrent(Some(NOW - 6 * 60 * 60), -100, 1200, 1, "https://tracker:8080/announce");
    assert_eq!(evaluate(&pol, &t), Some(ConditionMatch::Ratio(1200)));
}

#[test]
fn negative_reported_ratio_with_low_computed_does_not_match() {
    let pol = noop_policy(tracker_precondition("tracker"), standard_condition());
    let t = make_torrent(Some(NOW - 6 * 60 * 60), -100, 800, 1, "https://tracker:8080/announce");
    assert_eq!(evaluate(&pol, &t), Some(ConditionMatch::NoMatch));
}

#[test]
fn evaluation_is_deterministic() {
    // The same (torrent, policy, instant) pair evaluated twice gives the
    // identical outcome.
    let pol = noop_policy(tracker_precondition("tracker"), standard_condition());
    let t = make_torrent(Some(NOW - 6 * 60 * 60), 1100, 1100, 1, "https://tracker:8080/announce");
    let first = evaluate(&pol, &t);
    let second = evaluate(&pol, &t);
    assert_eq!(first, second);
    assert_eq!(first, Some(ConditionMatch::Ratio(1100)));
}

#[test]
fn match_outcome_predicates() {
    assert!(!ConditionMatch::NoMatch.is_match());
    assert!(ConditionMatch::NoMatch.is_real_mismatch());
    assert!(ConditionMatch::Ratio(1000).is_match());
    assert!(!ConditionMatch::Ratio(1000).is_real_mismatch());
    assert!(ConditionMatch::SeedTime(60).is_match());
    assert!(!ConditionMatch::SeedTime(60).is_real_mismatch());
}

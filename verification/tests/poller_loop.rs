use gearbox_maintenance::config::policy::{Condition, DeletePolicy, PolicyMatch};
use gearbox_maintenance::config::transmission::Transmission;
use gearbox_maintenance::config::Instance;
use gearbox_maintenance::poller::{
    evaluate_tick_at, Poller, PollerAction, PollerEvent, PollerPhase, SizeObservation,
};
use gearbox_maintenance::{ErrorType, Torrent, TorrentStatus};

const NOW: i64 = 2_000_000_000;

fn seeded_torrent(hash: &str, upload_ratio: i64, size: usize, tracker: &str) -> Torrent {
    Torrent {
        id: 1,
        hash: hash.to_string(),
        name: hash.to_string(),
        done_date: Some(NOW - 6 * 60 * 60),
        error: ErrorType::NoError,
        error_string: "".to_string(),
        upload_ratio,
        computed_upload_ratio: upload_ratio,
        status: TorrentStatus::Seeding,
        num_files: 1,
        total_size: size,
        trackers: vec![tracker.to_string()],
    }
}

fn ratio_policy(name: &str, host: &str, delete_data: bool) -> DeletePolicy {
    let pre = PolicyMatch::new(vec![host.to_string()]);
    let cond = Condition::new().with_max_ratio(1000);
    if delete_data {
        DeletePolicy::new_real(name, pre, cond).unwrap()
    } else {
        DeletePolicy::new_noop(name, pre, cond).unwrap()
    }
}

fn test_instance(policies: Vec<DeletePolicy>) -> Instance {
    Instance::new(Transmission::new("http://localhost:9091"), policies)
}

#[test]
fn evaluation_aggregates_per_policy() {
    // Two policies over three torrents: "wipe" (deletes data) governs the
    // "tracker" host, "keep" (metadata only) governs the "other" host.
    let policies = vec![
        ratio_policy("wipe", "tracker", true),
        ratio_policy("keep", "other", false),
    ];
    let torrents = vec![
        seeded_torrent("aaaa", 1500, 100, "https://tracker/announce"),
        seeded_torrent("bbbb", 500, 200, "https://tracker/announce"),
        seeded_torrent("cccc", 2000, 400, "https://other/announce"),
    ];
    let eval = evaluate_tick_at(&torrents, &policies, NOW);

    assert_eq!(eval.stats.len(), 2);
    assert_eq!(eval.stats[0].label, "wipe");
    assert_eq!(eval.stats[0].seen, 2);
    assert_eq!(eval.stats[0].size_total, 300);
    assert_eq!(eval.stats[0].deleted, 1);
    assert_eq!(eval.stats[1].label, "keep");
    assert_eq!(eval.stats[1].seen, 1);
    assert_eq!(eval.stats[1].size_total, 400);
    assert_eq!(eval.stats[1].deleted, 1);

    assert_eq!(eval.delete_with_data, vec!["aaaa".to_string()]);
    assert_eq!(eval.delete_without_data, vec!["cccc".to_string()]);

    assert_eq!(
        eval.observations,
        vec![
            SizeObservation { policy: 0, size: 100 },
            SizeObservation { policy: 0, size: 200 },
            SizeObservation { policy: 1, size: 400 },
        ]
    );
}

#[test]
fn evaluation_routes_one_torrent_through_multiple_policies() {
    // A torrent matched by several policies is scheduled once per match;
    // the removal operation is idempotent per hash.
    let policies = vec![
        ratio_policy("a", "tracker", true),
        ratio_policy("b", "tracker", false),
    ];
    let torrents = vec![seeded_torrent("dddd", 1500, 100, "https://tracker/announce")];
    let eval = evaluate_tick_at(&torrents, &policies, NOW);
    assert_eq!(eval.delete_with_data, vec!["dddd".to_string()]);
    assert_eq!(eval.delete_without_data, vec!["dddd".to_string()]);
}

#[test]
fn evaluation_ignores_ungoverned_torrents() {
    let policies = vec![ratio_policy("a", "tracker", true)];
    let torrents = vec![seeded_torrent("eeee", 9000, 100, "https://elsewhere/announce")];
    let eval = evaluate_tick_at(&torrents, &policies, NOW);
    assert_eq!(eval.stats[0].seen, 0);
    assert_eq!(eval.stats[0].size_total, 0);
    assert_eq!(eval.stats[0].deleted, 0);
    assert!(eval.observations.is_empty());
    assert!(eval.delete_with_data.is_empty());
    assert!(eval.delete_without_data.is_empty());
}

#[test]
fn unnamed_policies_report_under_their_index() {
    let mut p = ratio_policy("x", "tracker", false);
    p.name = None;
    let eval = evaluate_tick_at(&Vec::new(), &vec![p], NOW);
    assert_eq!(eval.stats[0].label, "0");
}

#[test]
fn dry_run_tick_issues_no_removal() {
    let inst = test_instance(vec![ratio_policy("wipe", "tracker", true)]);
    let mut poller = Poller::new(inst, false);

    let action = poller.step(PollerEvent::TickDue);
    assert!(matches!(action, PollerAction::Fetch));

    let torrents = vec![seeded_torrent("aaaa", 1500, 100, "https://tracker/announce")];
    let action = poller.step(PollerEvent::FetchCompleted { torrents });
    match action {
        PollerAction::Evaluated { evaluation, remove } => {
            assert!(remove.is_none());
            assert_eq!(evaluation.delete_with_data, vec!["aaaa".to_string()]);
        }
        other => panic!("expected an evaluation, got {:?}", other),
    }
    assert!(matches!(poller.phase, PollerPhase::Idle));
    assert_eq!(poller.ticks_succeeded, 1);
    assert_eq!(poller.ticks_failed, 0);
}

#[test]
fn destructive_tick_issues_both_removals_in_order() {
    let inst = test_instance(vec![
        ratio_policy("wipe", "tracker", true),
        ratio_policy("keep", "other", false),
    ]);
    let mut poller = Poller::new(inst, true);

    assert!(matches!(poller.step(PollerEvent::TickDue), PollerAction::Fetch));
    let torrents = vec![
        seeded_torrent("aaaa", 1500, 100, "https://tracker/announce"),
        seeded_torrent("cccc", 2000, 400, "https://other/announce"),
    ];
    let action = poller.step(PollerEvent::FetchCompleted { torrents });
    match action {
        PollerAction::Evaluated { remove, .. } => {
            let call = remove.expect("the delete-with-data call comes first");
            assert!(call.delete_data);
            assert_eq!(call.hashes, vec!["aaaa".to_string()]);
        }
        other => panic!("expected an evaluation, got {:?}", other),
    }

    let action = poller.step(PollerEvent::RemoveCompleted);
    match action {
        PollerAction::Remove(call) => {
            assert!(!call.delete_data);
            assert_eq!(call.hashes, vec!["cccc".to_string()]);
        }
        other => panic!("expected the second removal, got {:?}", other),
    }

    let action = poller.step(PollerEvent::RemoveCompleted);
    assert!(matches!(action, PollerAction::TickDone { success: true }));
    assert_eq!(poller.ticks_succeeded, 1);
    assert_eq!(poller.ticks_failed, 0);
}

#[test]
fn removal_failure_abandons_the_tick() {
    let inst = test_instance(vec![
        ratio_policy("wipe", "tracker", true),
        ratio_policy("keep", "other", false),
    ]);
    let mut poller = Poller::new(inst, true);
    poller.step(PollerEvent::TickDue);
    let torrents = vec![
        seeded_torrent("aaaa", 1500, 100, "https://tracker/announce"),
        seeded_torrent("cccc", 2000, 400, "https://other/announce"),
    ];
    poller.step(PollerEvent::FetchCompleted { torrents });

    // The first removal fails: the second is skipped, the tick counts as
    // failed, and the loop is back at Idle for the next interval.
    let action = poller.step(PollerEvent::RemoveFailed);
    assert!(matches!(action, PollerAction::TickDone { success: false }));
    assert!(matches!(poller.phase, PollerPhase::Idle));
    assert_eq!(poller.ticks_succeeded, 0);
    assert_eq!(poller.ticks_failed, 1);
    assert!(matches!(poller.step(PollerEvent::TickDue), PollerAction::Fetch));
}

#[test]
fn fetch_failure_is_isolated_between_instances() {
    // Two independent pollers: one instance's fetch failure neither stops
    // its own loop nor touches the other's counters.
    let mut failing = Poller::new(
        test_instance(vec![ratio_policy("wipe", "tracker", true)]),
        false,
    );
    let mut healthy = Poller::new(
        test_instance(vec![ratio_policy("wipe", "tracker", true)]),
        false,
    );

    assert!(matches!(failing.step(PollerEvent::TickDue), PollerAction::Fetch));
    assert!(matches!(healthy.step(PollerEvent::TickDue), PollerAction::Fetch));

    let action = failing.step(PollerEvent::FetchFailed);
    assert!(matches!(action, PollerAction::TickDone { success: false }));

    let torrents = vec![seeded_torrent("aaaa", 1500, 100, "https://tracker/announce")];
    let action = healthy.step(PollerEvent::FetchCompleted { torrents });
    assert!(matches!(action, PollerAction::Evaluated { .. }));

    // The healthy instance still reports a successful tick.
    assert_eq!(healthy.ticks_succeeded, 1);
    assert_eq!(healthy.ticks_failed, 0);
    // The failing one counted its own failure and keeps polling.
    assert_eq!(failing.ticks_failed, 1);
    assert_eq!(failing.ticks_succeeded, 0);
    assert!(matches!(failing.phase, PollerPhase::Idle));
    assert!(matches!(failing.step(PollerEvent::TickDue), PollerAction::Fetch));
}

#[test]
fn events_in_the_wrong_phase_change_nothing() {
    let inst = test_instance(vec![ratio_policy("wipe", "tracker", true)]);
    let mut poller = Poller::new(inst, true);
    assert!(matches!(poller.step(PollerEvent::FetchFailed), PollerAction::Ignored));
    assert!(matches!(poller.step(PollerEvent::RemoveCompleted), PollerAction::Ignored));
    assert!(matches!(poller.step(PollerEvent::RemoveFailed), PollerAction::Ignored));
    assert_eq!(poller.ticks_failed, 0);
    assert_eq!(poller.ticks_succeeded, 0);
    assert!(matches!(poller.phase, PollerPhase::Idle));

    poller.step(PollerEvent::TickDue);
    assert!(matches!(poller.step(PollerEvent::TickDue), PollerAction::Ignored));
}

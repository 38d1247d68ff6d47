use cloud_detect::race::{Arrival, Event, Race, Verdict};
use cloud_detect::roster::Roster;
use cloud_detect::{detect, detect_with_timeout, ProviderId, DEFAULT_DETECTION_TIMEOUT_MS};

fn two() -> Roster {
    Roster::new().register(ProviderId::Alibaba).register(ProviderId::Azure)
}

fn at(at_ms: u64, event: Event) -> Arrival {
    Arrival { at_ms, event }
}

#[test]
fn an_empty_roster_is_unknown_at_once() {
    assert_eq!(detect(&Roster::new(), &vec![]), ProviderId::Unknown);
    assert_eq!(Race::new(0).verdict(), Verdict::Resolved(ProviderId::Unknown));
    assert_eq!(detect_with_timeout(&Roster::new(), &vec![], 0), Some(ProviderId::Unknown));
}

#[test]
fn a_late_match_beats_an_early_miss() {
    let events = vec![Event::Finished, Event::Report(ProviderId::Azure), Event::Finished];
    assert_eq!(detect(&two(), &events), ProviderId::Azure);
}

#[test]
fn an_instant_match_does_not_wait_for_the_others() {
    let events = vec![Event::Report(ProviderId::Alibaba)];
    assert_eq!(detect(&two(), &events), ProviderId::Alibaba);

    let mut race = Race::new(2);
    assert_eq!(race.verdict(), Verdict::Pending);
    assert!(race.report(ProviderId::Alibaba));
    assert_eq!(race.verdict(), Verdict::Resolved(ProviderId::Alibaba));
    assert_eq!(race.outstanding(), 2);
}

#[test]
fn a_match_after_the_deadline_is_not_returned() {
    let roster = Roster::new().register(ProviderId::Alibaba);
    let timeline = vec![
        at(10_000, Event::Report(ProviderId::Alibaba)),
        at(10_000, Event::Finished),
    ];
    assert_eq!(detect_with_timeout(&roster, &timeline, 1_000), None);
}

#[test]
fn no_match_is_unknown_only_when_all_have_finished() {
    let mut race = Race::new(3);
    assert_eq!(race.verdict(), Verdict::Pending);
    assert!(!race.finish());
    assert_eq!(race.verdict(), Verdict::Pending);
    assert!(!race.finish());
    assert_eq!(race.verdict(), Verdict::Pending);
    assert_eq!(race.outstanding(), 1);
    assert!(race.finish());
    assert_eq!(race.outstanding(), 0);
    assert_eq!(race.verdict(), Verdict::Resolved(ProviderId::Unknown));

    let events = vec![Event::Finished; 9];
    assert_eq!(detect(&Roster::standard(), &events), ProviderId::Unknown);
}

#[test]
fn a_single_match_wins_from_any_place() {
    let roster = Roster::standard();
    for place in 0..roster.len() {
        let id = roster.get(place).unwrap();
        for reported_after in 0..roster.len() {
            let mut events = vec![Event::Finished; reported_after];
            events.push(Event::Report(id));
            events.extend(vec![Event::Finished; roster.len() - reported_after]);
            assert_eq!(detect(&roster, &events), id);
        }
    }
}

#[test]
fn the_first_of_two_matches_wins() {
    let events = vec![
        Event::Report(ProviderId::Azure),
        Event::Report(ProviderId::Alibaba),
        Event::Finished,
        Event::Finished,
    ];
    assert_eq!(detect(&two(), &events), ProviderId::Azure);
    let events = vec![
        Event::Report(ProviderId::Alibaba),
        Event::Finished,
        Event::Report(ProviderId::Azure),
        Event::Finished,
    ];
    assert_eq!(detect(&two(), &events), ProviderId::Alibaba);
}

#[test]
fn a_second_report_is_dropped() {
    let mut race = Race::new(2);
    assert!(race.report(ProviderId::Azure));
    assert!(!race.report(ProviderId::Alibaba));
    assert!(!race.report(ProviderId::Azure));
    assert_eq!(race.verdict(), Verdict::Resolved(ProviderId::Azure));
    race.finish();
    race.finish();
    assert_eq!(race.verdict(), Verdict::Resolved(ProviderId::Azure));
}

#[test]
fn a_match_is_not_shadowed_by_completion() {
    let mut race = Race::new(1);
    assert!(race.report(ProviderId::OCI));
    assert!(race.finish());
    assert_eq!(race.outstanding(), 0);
    assert_eq!(race.verdict(), Verdict::Resolved(ProviderId::OCI));
}

#[test]
fn a_report_after_completion_is_dropped() {
    let mut race = Race::new(1);
    assert!(race.finish());
    assert!(!race.report(ProviderId::OCI));
    assert_eq!(race.verdict(), Verdict::Resolved(ProviderId::Unknown));
}

#[test]
fn finishing_more_often_than_launched_is_harmless() {
    let mut race = Race::new(1);
    assert!(race.finish());
    assert!(!race.finish());
    assert_eq!(race.outstanding(), 0);
    assert_eq!(race.verdict(), Verdict::Resolved(ProviderId::Unknown));
    let mut race = Race::new(0);
    assert!(!race.finish());
    assert_eq!(race.verdict(), Verdict::Resolved(ProviderId::Unknown));
}

#[test]
fn the_deadline_times_a_pending_race_out() {
    let mut race = Race::new(2);
    race.finish();
    assert!(race.expire());
    assert_eq!(race.verdict(), Verdict::TimedOut);
    assert!(!race.report(ProviderId::Azure));
    assert_eq!(race.verdict(), Verdict::TimedOut);
    race.finish();
    assert_eq!(race.outstanding(), 0);
    assert_eq!(race.verdict(), Verdict::TimedOut);
    assert!(!race.expire());
    race.close();
    assert_eq!(race.verdict(), Verdict::TimedOut);
}

#[test]
fn the_deadline_leaves_a_decided_race_alone() {
    let mut race = Race::new(2);
    race.report(ProviderId::Azure);
    assert!(!race.expire());
    assert_eq!(race.verdict(), Verdict::Resolved(ProviderId::Azure));

    let mut race = Race::new(1);
    race.finish();
    assert!(!race.expire());
    assert_eq!(race.verdict(), Verdict::Resolved(ProviderId::Unknown));
}

#[test]
fn closing_resolves_a_pending_race_to_unknown() {
    let mut race = Race::new(3);
    race.finish();
    race.close();
    assert_eq!(race.outstanding(), 0);
    assert_eq!(race.verdict(), Verdict::Resolved(ProviderId::Unknown));
    assert!(!race.report(ProviderId::GCP));
    assert_eq!(race.verdict(), Verdict::Resolved(ProviderId::Unknown));
}

#[test]
fn closing_keeps_a_delivered_report() {
    let mut race = Race::new(3);
    race.report(ProviderId::GCP);
    race.close();
    assert_eq!(race.verdict(), Verdict::Resolved(ProviderId::GCP));
}

#[test]
fn apply_does_what_the_event_says() {
    let mut race = Race::new(2);
    race.apply(Event::Finished);
    assert_eq!(race.outstanding(), 1);
    assert_eq!(race.verdict(), Verdict::Pending);
    race.apply(Event::Report(ProviderId::Alibaba));
    assert_eq!(race.verdict(), Verdict::Resolved(ProviderId::Alibaba));
    race.apply(Event::Finished);
    assert_eq!(race.outstanding(), 0);
    assert_eq!(race.verdict(), Verdict::Resolved(ProviderId::Alibaba));
}

#[test]
fn an_undecided_race_reads_as_unknown_without_a_deadline() {
    assert_eq!(detect(&two(), &vec![]), ProviderId::Unknown);
    assert_eq!(detect(&two(), &vec![Event::Finished]), ProviderId::Unknown);
}

#[test]
fn an_undecided_race_is_none_with_a_deadline() {
    assert_eq!(detect_with_timeout(&two(), &vec![], 1_000), None);
    assert_eq!(detect_with_timeout(&two(), &vec![at(10, Event::Finished)], 1_000), None);
}

#[test]
fn a_match_in_time_is_returned() {
    let timeline = vec![
        at(20, Event::Finished),
        at(900, Event::Report(ProviderId::Azure)),
        at(900, Event::Finished),
    ];
    assert_eq!(detect_with_timeout(&two(), &timeline, 1_000), Some(ProviderId::Azure));
    assert_eq!(detect_with_timeout(&two(), &timeline, 900), Some(ProviderId::Azure));
    assert_eq!(detect_with_timeout(&two(), &timeline, 899), None);
    assert_eq!(detect_with_timeout(&two(), &timeline, 0), None);
}

#[test]
fn no_match_in_time_is_unknown_not_none() {
    let timeline = vec![at(20, Event::Finished), at(30, Event::Finished)];
    assert_eq!(detect_with_timeout(&two(), &timeline, 1_000), Some(ProviderId::Unknown));
    assert_eq!(detect_with_timeout(&two(), &timeline, 30), Some(ProviderId::Unknown));
    assert_eq!(detect_with_timeout(&two(), &timeline, 29), None);
}

#[test]
fn what_comes_after_a_late_arrival_is_late_too() {
    let timeline = vec![
        at(2_000, Event::Finished),
        at(10, Event::Report(ProviderId::Azure)),
        at(10, Event::Finished),
    ];
    assert_eq!(detect_with_timeout(&two(), &timeline, 1_000), None);
    assert_eq!(detect_with_timeout(&two(), &timeline, 2_000), Some(ProviderId::Azure));
}

#[test]
fn a_result_in_time_is_the_result_without_deadline() {
    let timeline = vec![
        at(5, Event::Report(ProviderId::Alibaba)),
        at(6_000, Event::Report(ProviderId::Azure)),
        at(6_000, Event::Finished),
        at(7_000, Event::Finished),
    ];
    let events: Vec<Event> = timeline.iter().map(|a| a.event).collect();
    for timeout_ms in [0, 4, 5, 6, 5_999, 6_000, 7_000, u64::MAX] {
        if let Some(id) = detect_with_timeout(&two(), &timeline, timeout_ms) {
            assert_eq!(id, detect(&two(), &events));
        } else {
            assert!(timeout_ms < 5);
        }
    }
}

#[test]
fn the_default_timeout_is_five_seconds() {
    assert_eq!(DEFAULT_DETECTION_TIMEOUT_MS, 5_000);
    let timeline = vec![at(5_000, Event::Report(ProviderId::Azure))];
    assert_eq!(
        detect_with_timeout(&two(), &timeline, DEFAULT_DETECTION_TIMEOUT_MS),
        Some(ProviderId::Azure)
    );
    let timeline = vec![at(5_001, Event::Report(ProviderId::Azure))];
    assert_eq!(detect_with_timeout(&two(), &timeline, DEFAULT_DETECTION_TIMEOUT_MS), None);
}

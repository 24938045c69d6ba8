use oxidizer_firewall::countdown::{CancelAction, CancelEvent};
use oxidizer_firewall::countdown::{
    atq_contains, atq_job_ids, cancel_outcome, countdown_frame, countdown_step, gradient_color,
    latest_atq_job, parse_at_job_id, render_bar, CancelOutcome, CountdownAction, CountdownEvent,
    SafetyTimer,
};
use oxidizer_firewall::logging::LogLevel;

#[test]
fn parses_job_id_from_at_output() {
    let text = "warning: commands will be executed using /bin/sh\njob 42 at Thu Jan  1 00:01:00 1970\n";
    assert_eq!(parse_at_job_id(text), Some("42".to_string()));
}

#[test]
fn gradient_hits_expected_endpoints() {
    assert_eq!(gradient_color(0), (255, 0, 180));
    assert_eq!(gradient_color(255), (0, 255, 200));
}

#[test]
fn gradient_middle_stop_is_orange() {
    assert_eq!(gradient_color(128), (255, 160, 0));
    assert_eq!(gradient_color(127), (255, 158, 2));
}

#[test]
fn job_id_needs_a_second_word() {
    assert_eq!(parse_at_job_id("job\njob 7 at now\n"), Some("7".to_string()));
    assert_eq!(parse_at_job_id("no job here\n"), None);
    assert_eq!(parse_at_job_id(""), None);
    assert_eq!(parse_at_job_id("  job   9\r\n"), Some("9".to_string()));
}

#[test]
fn atq_listing_gives_first_words() {
    let listing = "12\tThu Jan  1 00:01:00 1970 a root\n\n7\tThu Jan  1 00:02:00 1970 a root\n";
    assert_eq!(atq_job_ids(listing), vec!["12".to_string(), "7".to_string()]);
    assert!(atq_contains(listing, "7"));
    assert!(!atq_contains(listing, "1"));
}

#[test]
fn latest_job_is_the_greatest_numeric_id() {
    let listing = "9 x\n011 y\nabc z\n+3 w\n";
    assert_eq!(latest_atq_job(listing), Some("11".to_string()));
    assert_eq!(latest_atq_job("abc\n-1\n"), None);
    assert_eq!(latest_atq_job(""), None);
    assert_eq!(latest_atq_job("18446744073709551616 too big\n5\n"), Some("5".to_string()));
}

#[test]
fn cancel_outcome_reports_whether_job_remains() {
    match cancel_outcome("4".to_string(), "4\tThu a root\n") {
        CancelOutcome::FailedStillQueued(id) => assert_eq!(id, "4"),
        _ => panic!("job 4 is still queued"),
    }
    assert!(matches!(cancel_outcome("4".to_string(), "5\tThu a root\n"), CancelOutcome::Cleared));
}

#[test]
fn timer_keeps_reported_job_id() {
    let t = SafetyTimer::from_at_output(1, 100, "job 3 at Thu\n");
    assert_eq!(t.job_id(), Some("3".to_string()));
    assert_eq!(t.minutes, 1);
    assert_eq!(t.armed_at, 100);
    let t = SafetyTimer::from_at_output(1, 100, "at: cannot queue\n");
    assert_eq!(t.job_id(), None);
}

#[test]
fn frame_fills_as_time_passes() {
    let t = SafetyTimer::from_at_output(1, 1000, "");
    let f = countdown_frame(&t, 1030);
    assert_eq!((f.percentage, f.remaining, f.expired), (50, 30, false));
    let f = countdown_frame(&t, 990);
    assert_eq!((f.percentage, f.remaining, f.expired), (0, 60, false));
    let f = countdown_frame(&t, 1060);
    assert_eq!((f.percentage, f.remaining, f.expired), (100, 0, true));
    let f = countdown_frame(&t, 5000);
    assert_eq!((f.percentage, f.remaining, f.expired), (100, 0, true));
}

#[test]
fn empty_bar_is_all_dashes() {
    let bar = render_bar(0, 60);
    assert_eq!(
        bar,
        format!("\r\x1b[1m[\x1b[38;5;240m{}\x1b[0m] 0% (60s remaining)\x1b[0m", "-".repeat(40))
    );
}

#[test]
fn full_bar_has_forty_cells() {
    let bar = render_bar(100, 0);
    assert_eq!(bar.matches('░').count(), 40);
    assert!(!bar.contains('-'));
    assert!(bar.starts_with("\r\x1b[1m[\x1b[38;2;255;0;180m░\x1b[0m"));
    assert!(bar.ends_with("] 100% (0s remaining)\x1b[0m"));
}

#[test]
fn half_bar_has_twenty_cells() {
    let bar = render_bar(50, 30);
    assert_eq!(bar.matches('░').count(), 20);
    assert_eq!(bar.matches('-').count(), 20);
}

#[test]
fn countdown_steps() {
    let t = SafetyTimer::from_at_output(1, 0, "job 8 at x\n");
    match countdown_step(true, &t, CountdownEvent::Tick { now: 6 }) {
        CountdownAction::Show { bar } => assert_eq!(bar, render_bar(10, 54)),
        _ => panic!("countdown is running"),
    }
    assert!(matches!(
        countdown_step(true, &t, CountdownEvent::Tick { now: 61 }),
        CountdownAction::Expire { .. }
    ));
    assert!(matches!(countdown_step(true, &t, CountdownEvent::KeyPressed), CountdownAction::CancelTimer));
    match countdown_step(false, &t, CountdownEvent::KeyPressed) {
        CountdownAction::Finish(line) => {
            assert_eq!(line.level, LogLevel::Info);
            assert_eq!(line.text, "Progress bar dismissed. Returning safely to normal prompt context.");
        }
        _ => panic!("production mode just stops"),
    }
    match countdown_step(true, &t, CountdownEvent::CancelFinished(CancelOutcome::FailedStillQueued("8".to_string()))) {
        CountdownAction::Finish(line) => {
            assert_eq!(line.level, LogLevel::Error);
            assert_eq!(line.text, "Failed to cancel safety timer (job 8 still queued)! Check 'atq' manually NOW.");
        }
        _ => panic!("cancel report ends the countdown"),
    }
    match countdown_step(true, &t, CountdownEvent::CancelFinished(CancelOutcome::NotFound)) {
        CountdownAction::Finish(line) => assert_eq!(line.level, LogLevel::Warning),
        _ => panic!("cancel report ends the countdown"),
    }
}

#[test]
fn cancel_steps() {
    let t = SafetyTimer::from_at_output(1, 0, "job 8 at x\n");
    match t.cancel_step(CancelEvent::Begin) {
        CancelAction::RemoveJob(id) => assert_eq!(id, "8"),
        _ => panic!("the armed job is removed"),
    }
    let u = SafetyTimer::from_at_output(1, 0, "");
    assert!(matches!(u.cancel_step(CancelEvent::Begin), CancelAction::ListQueue));
    match u.cancel_step(CancelEvent::QueueListed { listing: "3 a\n12 b\n".to_string(), removed: None }) {
        CancelAction::RemoveJob(id) => assert_eq!(id, "12"),
        _ => panic!("the latest job is removed"),
    }
    assert!(matches!(
        u.cancel_step(CancelEvent::QueueListed { listing: String::new(), removed: None }),
        CancelAction::Finish(CancelOutcome::NotFound)
    ));
    assert!(matches!(
        u.cancel_step(CancelEvent::QueueListed { listing: "3 a\n".to_string(), removed: Some("12".to_string()) }),
        CancelAction::Finish(CancelOutcome::Cleared)
    ));
    assert!(matches!(
        u.cancel_step(CancelEvent::QueueListed { listing: "12 a\n".to_string(), removed: Some("12".to_string()) }),
        CancelAction::Finish(CancelOutcome::FailedStillQueued(_))
    ));
}

#[test]
fn bar_at_102_percent_is_full() {
    let bar = render_bar(102, 0);
    assert_eq!(bar.matches('░').count(), 40);
    assert!(bar.ends_with("] 102% (0s remaining)\x1b[0m"));
}

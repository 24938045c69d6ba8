use oxidizer_firewall::countdown::SafetyTimer;
use oxidizer_firewall::logging::LogLevel;
use oxidizer_firewall::network::Host;
use oxidizer_firewall::{current_step, run, step_name, Action, Event, ExitOutcome, Phase, Provisioning, RunOptions};

fn opts(is_test_mode: bool, geoip_enabled: bool) -> RunOptions {
    RunOptions { is_test_mode, geoip_enabled }
}

#[test]
fn production_run_order() {
    let mut p = Provisioning::new(opts(false, true));
    assert_eq!(current_step(&p), "Initialization");
    assert!(matches!(run(&mut p, Event::Begin).action, Action::DetectHost));
    assert_eq!(current_step(&p), "Host Detection");
    let r = run(&mut p, Event::HostDetected(Host::Radon));
    assert!(matches!(r.action, Action::DetectInterface));
    assert_eq!(r.logs.len(), 2);
    assert_eq!(r.logs[1].line.text, "Detected host: radon");
    let r = run(&mut p, Event::InterfaceDetected("eth0".to_string()));
    assert!(matches!(r.action, Action::PromptCountrySelection));
    assert_eq!(r.logs[0].line.text, "Detected network interface: eth0");
    assert_eq!(current_step(&p), "Country Selection Menu");
    let r = run(&mut p, Event::CountriesSelected(vec!["CN".to_string()]));
    assert!(matches!(r.action, Action::FlushRuleset));
    assert_eq!(r.logs[0].line.text, "Flushing existing rules...");
    assert_eq!(current_step(&p), "Flushing Existing Rulesets");
    assert!(matches!(run(&mut p, Event::Done).action, Action::SetupGeoipBlocking));
    assert_eq!(p.interface(), "eth0");
    assert_eq!(p.blocked_countries(), &["CN".to_string()]);
    assert!(matches!(run(&mut p, Event::Done).action, Action::CreateMainFirewall(Host::Radon)));
    assert_eq!(current_step(&p), "Assembling Layer-3 Inet Ruleset");
    assert!(matches!(run(&mut p, Event::Done).action, Action::DisplayCompletionInfo));
    assert!(matches!(run(&mut p, Event::Done).action, Action::Exit(ExitOutcome::Success)));
    assert_eq!(p.phase(), Phase::Finished);
}

#[test]
fn test_mode_arms_timer_first_and_rolls_back() {
    let mut p = Provisioning::new(opts(true, false));
    assert!(matches!(run(&mut p, Event::Begin).action, Action::ArmSafetyTimer { minutes: 1 }));
    assert_eq!(current_step(&p), "Arming Safety Timer");
    let t = SafetyTimer::from_at_output(1, 0, "job 5 at now\n");
    assert!(matches!(run(&mut p, Event::TimerArmed(t)).action, Action::DetectHost));
    assert!(p.safety_timer().is_some());
    run(&mut p, Event::HostDetected(Host::Cobalt));
    let r = run(&mut p, Event::InterfaceDetected("ens3".to_string()));
    assert!(matches!(r.action, Action::FlushRuleset));
    let r = run(&mut p, Event::Done);
    assert!(matches!(r.action, Action::CreateMainFirewall(Host::Cobalt)));
    assert_eq!(r.logs[0].line.level, LogLevel::Warning);
    assert!(matches!(run(&mut p, Event::Done).action, Action::VerifySshSession));
    assert_eq!(current_step(&p), "Verifying Live SSH Session");
    let r = run(&mut p, Event::SessionChecked(false));
    assert!(matches!(r.action, Action::FlushRuleset));
    assert_eq!(r.logs[0].line.level, LogLevel::Error);
    assert!(matches!(run(&mut p, Event::Done).action, Action::CancelAllPendingJobs));
    assert!(matches!(run(&mut p, Event::Done).action, Action::Exit(ExitOutcome::CleanExit)));
}

#[test]
fn test_mode_countdown() {
    let mut p = Provisioning::new(opts(true, false));
    run(&mut p, Event::Begin);
    run(&mut p, Event::TimerArmed(SafetyTimer::from_at_output(1, 0, "")));
    run(&mut p, Event::HostDetected(Host::Oxidizer));
    run(&mut p, Event::InterfaceDetected("eth0".to_string()));
    run(&mut p, Event::Done);
    run(&mut p, Event::Done);
    assert!(matches!(run(&mut p, Event::SessionChecked(true)).action, Action::DisplayCompletionInfo));
    assert!(matches!(run(&mut p, Event::Done).action, Action::RunProgressCountdown));
    assert_eq!(current_step(&p), "Running Safety Test Countdown Visualizer");
    assert!(matches!(run(&mut p, Event::Done).action, Action::Exit(ExitOutcome::Success)));
}

#[test]
fn unknown_host_stops_cleanly() {
    let mut p = Provisioning::new(opts(false, true));
    run(&mut p, Event::Begin);
    let r = run(&mut p, Event::HostDetected(Host::Unknown));
    assert!(matches!(r.action, Action::Exit(ExitOutcome::CleanExit)));
    assert_eq!(r.logs[0].line.text, "fw not setup");
    assert_eq!(r.logs[0].line.level, LogLevel::Error);
}

#[test]
fn failure_keeps_step_for_report() {
    let mut p = Provisioning::new(opts(false, false));
    run(&mut p, Event::Begin);
    run(&mut p, Event::HostDetected(Host::Tungsten));
    match run(&mut p, Event::Failed("network interface detection failed".to_string())).action {
        Action::Crash(m) => assert_eq!(m, "network interface detection failed"),
        _ => panic!("a failure crashes the run"),
    }
    assert_eq!(current_step(&p), "Network Interface Detection");
    assert!(matches!(run(&mut p, Event::Done).action, Action::Crash(_)));
}

#[test]
fn unexpected_event_crashes() {
    let mut p = Provisioning::new(opts(false, true));
    assert!(matches!(run(&mut p, Event::Done).action, Action::Crash(_)));
    assert_eq!(p.phase(), Phase::Finished);
}

#[test]
fn armed_timer_is_the_one_kept() {
    let mut p = Provisioning::new(opts(true, true));
    run(&mut p, Event::Begin);
    run(&mut p, Event::TimerArmed(SafetyTimer::from_at_output(1, 12345, "job 77 at now\n")));
    let t = p.safety_timer().unwrap();
    assert_eq!((t.armed_at, t.minutes), (12345, 1));
    assert_eq!(t.job_id(), Some("77".to_string()));
}

#[test]
fn messages_carry_their_steps() {
    let mut p = Provisioning::new(opts(false, false));
    run(&mut p, Event::Begin);
    let r = run(&mut p, Event::HostDetected(Host::Cobalt));
    assert_eq!(step_name(r.logs[0].step), "Host Detection");
    assert_eq!(step_name(r.logs[1].step), "Host Detection");
    let r = run(&mut p, Event::InterfaceDetected("eth0".to_string()));
    assert_eq!(step_name(r.logs[0].step), "Network Interface Detection");
    assert_eq!(step_name(r.logs[1].step), "Flushing Existing Rulesets");
    let r = run(&mut p, Event::Done);
    assert_eq!(step_name(r.logs[0].step), "Compiling Layer-2 GeoIP Rules");
    assert_eq!(r.logs[0].line.text, "Skipping GeoIP blocking (--geoipblock=false) - main ruleset only this run.");
    assert_eq!(current_step(&p), "Assembling Layer-3 Inet Ruleset");
}

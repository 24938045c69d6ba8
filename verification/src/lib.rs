//! Provisioning logic of the RustyKey(R) nftables firewall: what to install,
//! in what order, and what to do when a step fails or the operator's own
//! session does not survive the reload.

pub mod cli;
pub mod config;
pub mod countdown;
pub mod diagnostics;
pub mod firewall;
pub mod geoip;
pub mod logging;
pub mod network;
pub mod selector;
pub mod session;
pub mod text;

use vstd::prelude::*;

use crate::config::SAFETY_TIMER_MINUTES;
use crate::countdown::{SafetyTimer, TimerView, timer_view};
use crate::logging::{LogLevel, LogLine, log_line};
use crate::network::{Host, host_name};
use crate::text::string_views;

verus! {

/// How a provisioning run ended, short of a failure.
#[derive(Debug, Clone, Copy, PartialEq, Eq, Structural)]
pub enum ExitOutcome {
    /// Provisioning completed - process should exit 0.
    Success,
    /// A known, intentional stop condition (unmapped host, SSH session
    /// lost) - process should exit 1 without the "crashed" framing.
    CleanExit,
}

/// Command-line options controlling a single provisioning run.
#[derive(Debug, Clone, Copy)]
pub struct RunOptions {
    /// `test` mode: arms the `at` safety-flush timer and runs the
    /// interactive countdown/confirmation before rules are considered final.
    pub is_test_mode: bool,
    /// Whether netdev GeoIP blocking is applied this run.
    pub geoip_enabled: bool,
}

/// The step of a run that is in flight, named so that a failure can say
/// where it happened.
#[derive(Debug, Clone, Copy, PartialEq, Eq, Structural)]
pub enum Step {
    Initialization,
    ArmingSafetyTimer,
    HostDetection,
    NetworkInterfaceDetection,
    CountrySelectionMenu,
    FlushingExistingRulesets,
    CompilingGeoipRules,
    AssemblingInetRuleset,
    VerifyingLiveSshSession,
    DisplayingFinalStatistics,
    RunningCountdown,
}

/// The name of a step, as a crash report gives it.
pub open spec fn step_label(s: Step) -> Seq<char> {
    match s {
        Step::Initialization => "Initialization"@,
        Step::ArmingSafetyTimer => "Arming Safety Timer"@,
        Step::HostDetection => "Host Detection"@,
        Step::NetworkInterfaceDetection => "Network Interface Detection"@,
        Step::CountrySelectionMenu => "Country Selection Menu"@,
        Step::FlushingExistingRulesets => "Flushing Existing Rulesets"@,
        Step::CompilingGeoipRules => "Compiling Layer-2 GeoIP Rules"@,
        Step::AssemblingInetRuleset => "Assembling Layer-3 Inet Ruleset"@,
        Step::VerifyingLiveSshSession => "Verifying Live SSH Session"@,
        Step::DisplayingFinalStatistics => "Displaying Final Statistics"@,
        Step::RunningCountdown => "Running Safety Test Countdown Visualizer"@,
    }
}

/// What a run is waiting for.
#[derive(Debug, Clone, Copy, PartialEq, Eq, Structural)]
pub enum Phase {
    /// Nothing has happened yet.
    Start,
    /// The `at` safety timer is being armed.
    AwaitTimer,
    /// The host is being detected.
    AwaitHost,
    /// The network interface is being detected.
    AwaitInterface,
    /// The operator is choosing the countries to block.
    AwaitCountries,
    /// The existing ruleset is being flushed.
    AwaitFlush,
    /// The netdev GeoIP ruleset is being installed.
    AwaitGeoip,
    /// The `inet filter` table is being installed.
    AwaitMainFirewall,
    /// The operator's SSH session is being checked.
    AwaitSessionCheck,
    /// The ruleset is being flushed because the session was lost.
    AwaitRollbackFlush,
    /// The pending `at` jobs are being cancelled after the rollback.
    AwaitRollbackCancel,
    /// The summary is being printed.
    AwaitDisplay,
    /// The countdown of test mode is running.
    AwaitCountdown,
    /// The run is over.
    Finished,
}

/// What the caller reports back after carrying out an action.
pub enum Event {
    /// Start the run.
    Begin,
    /// The safety timer was armed.
    TimerArmed(SafetyTimer),
    /// The host was detected.
    HostDetected(Host),
    /// The network interface was detected.
    InterfaceDetected(String),
    /// The operator chose these countries.
    CountriesSelected(Vec<String>),
    /// The operator's SSH session survived (true) or not.
    SessionChecked(bool),
    /// The action finished without a result to report.
    Done,
    /// The action failed, for this reason.
    Failed(String),
}

/// What the caller is to do next.
pub enum Action {
    /// Queue `nft flush ruleset` with `at` to run in `minutes` minutes.
    ArmSafetyTimer { minutes: u64 },
    /// Find out which host this is.
    DetectHost,
    /// Find out which interface faces the network.
    DetectInterface,
    /// Let the operator choose the countries to block.
    PromptCountrySelection,
    /// Run `nft flush ruleset`.
    FlushRuleset,
    /// Install the netdev GeoIP ruleset for the run's interface and
    /// countries.
    SetupGeoipBlocking,
    /// Install the `inet filter` table for this host.
    CreateMainFirewall(Host),
    /// Check that the operator's SSH session survived.
    VerifySshSession,
    /// Cancel every pending `at` job.
    CancelAllPendingJobs,
    /// Print the summary of the run.
    DisplayCompletionInfo,
    /// Run the countdown of test mode with the run's safety timer.
    RunProgressCountdown,
    /// Stop, the run having ended this way.
    Exit(ExitOutcome),
    /// Stop: the run failed at the current step, for this reason.
    Crash(String),
}

/// A message, with the step during which it is printed (what a crash
/// report names should printing fail).
pub struct StepLog {
    pub step: Step,
    pub line: LogLine,
}

/// The caller's next action, and the messages to print before it.
pub struct Response {
    pub logs: Vec<StepLog>,
    pub action: Action,
}

/// The state of a provisioning run.
pub struct Provisioning {
    opts: RunOptions,
    phase: Phase,
    step: Step,
    host: Host,
    interface: String,
    countries: Vec<String>,
    timer: Option<SafetyTimer>,
}

/// A run's state as the contracts speak of it.
pub struct ProvisioningView {
    pub opts: RunOptions,
    pub phase: Phase,
    pub step: Step,
    pub host: Host,
    pub interface: Seq<char>,
    pub countries: Seq<Seq<char>>,
    pub timer: Option<TimerView>,
}

impl View for Provisioning {
    type V = ProvisioningView;

    closed spec fn view(&self) -> ProvisioningView {
        ProvisioningView {
            opts: self.opts,
            phase: self.phase,
            step: self.step,
            host: self.host,
            interface: self.interface@,
            countries: string_views(self.countries@),
            timer: match self.timer {
                Some(t) => Some(timer_view(t)),
                None => None,
            },
        }
    }
}

/// An event as the contracts speak of it.
pub enum EventView {
    Begin,
    TimerArmed(TimerView),
    HostDetected(Host),
    InterfaceDetected(Seq<char>),
    CountriesSelected(Seq<Seq<char>>),
    SessionChecked(bool),
    Done,
    Failed(Seq<char>),
}

/// The view of an event.
pub open spec fn event_view(e: Event) -> EventView {
    match e {
        Event::Begin => EventView::Begin,
        Event::TimerArmed(t) => EventView::TimerArmed(timer_view(t)),
        Event::HostDetected(h) => EventView::HostDetected(h),
        Event::InterfaceDetected(i) => EventView::InterfaceDetected(i@),
        Event::CountriesSelected(c) => EventView::CountriesSelected(string_views(c@)),
        Event::SessionChecked(b) => EventView::SessionChecked(b),
        Event::Done => EventView::Done,
        Event::Failed(m) => EventView::Failed(m@),
    }
}

/// An action as the contracts speak of it.
pub enum ActionView {
    ArmSafetyTimer { minutes: u64 },
    DetectHost,
    DetectInterface,
    PromptCountrySelection,
    FlushRuleset,
    SetupGeoipBlocking,
    CreateMainFirewall(Host),
    VerifySshSession,
    CancelAllPendingJobs,
    DisplayCompletionInfo,
    RunProgressCountdown,
    Exit(ExitOutcome),
    Crash(Seq<char>),
}

/// The view of an action.
pub open spec fn action_view(a: Action) -> ActionView {
    match a {
        Action::ArmSafetyTimer { minutes } => ActionView::ArmSafetyTimer { minutes },
        Action::DetectHost => ActionView::DetectHost,
        Action::DetectInterface => ActionView::DetectInterface,
        Action::PromptCountrySelection => ActionView::PromptCountrySelection,
        Action::FlushRuleset => ActionView::FlushRuleset,
        Action::SetupGeoipBlocking => ActionView::SetupGeoipBlocking,
        Action::CreateMainFirewall(h) => ActionView::CreateMainFirewall(h),
        Action::VerifySshSession => ActionView::VerifySshSession,
        Action::CancelAllPendingJobs => ActionView::CancelAllPendingJobs,
        Action::DisplayCompletionInfo => ActionView::DisplayCompletionInfo,
        Action::RunProgressCountdown => ActionView::RunProgressCountdown,
        Action::Exit(o) => ActionView::Exit(o),
        Action::Crash(m) => ActionView::Crash(m@),
    }
}

/// A message as the contracts speak of it: the step it belongs to, its
/// level and its text.
pub type LogEntry = (Step, LogLevel, Seq<char>);

/// The view of a message.
pub open spec fn log_view(l: StepLog) -> LogEntry {
    (l.step, l.line.level, l.line.text@)
}

/// The views of a sequence of messages.
pub open spec fn logs_view(v: Seq<StepLog>) -> Seq<LogEntry> {
    v.map_values(|l: StepLog| log_view(l))
}

/// The state in which a run with `opts` begins.
pub open spec fn initial(opts: RunOptions) -> ProvisioningView {
    ProvisioningView {
        opts,
        phase: Phase::Start,
        step: Step::Initialization,
        host: Host::Unknown,
        interface: seq![],
        countries: seq![],
        timer: None,
    }
}

/// The result of a transition: the new state, the messages, the action.
pub type Transition = (ProvisioningView, Seq<LogEntry>, ActionView);

/// Move to `phase` at `step` and ask for `action`, printing `logs` first.
pub open spec fn go(
    s: ProvisioningView,
    phase: Phase,
    step: Step,
    logs: Seq<LogEntry>,
    action: ActionView,
) -> Transition {
    (ProvisioningView { phase, step, ..s }, logs, action)
}

/// End the run with `action`, the step left as it was.
pub open spec fn stop(s: ProvisioningView, logs: Seq<LogEntry>, action: ActionView) -> Transition {
    (ProvisioningView { phase: Phase::Finished, ..s }, logs, action)
}

/// The step after the interface is known, or the countries are: flush the
/// existing ruleset.
pub open spec fn begin_flush(s: ProvisioningView, logs: Seq<LogEntry>) -> Transition {
    go(
        s,
        Phase::AwaitFlush,
        Step::FlushingExistingRulesets,
        logs.push((Step::FlushingExistingRulesets, LogLevel::Honey, "Flushing existing rules..."@)),
        ActionView::FlushRuleset,
    )
}

/// Install the `inet filter` table.
pub open spec fn begin_main_firewall(s: ProvisioningView, logs: Seq<LogEntry>) -> Transition {
    go(
        s,
        Phase::AwaitMainFirewall,
        Step::AssemblingInetRuleset,
        logs,
        ActionView::CreateMainFirewall(s.host),
    )
}

/// Print the summary.
pub open spec fn begin_display(s: ProvisioningView) -> Transition {
    go(
        s,
        Phase::AwaitDisplay,
        Step::DisplayingFinalStatistics,
        seq![],
        ActionView::DisplayCompletionInfo,
    )
}

/// How a run moves on when `e` is reported in state `s`: the order of the
/// steps, the early stops (unmapped host, lost session), and the crash on a
/// failure, which leaves the step where the failure happened. Each message
/// carries the step during which it is printed; without GeoIP blocking the
/// run passes through the GeoIP step only to say that it is skipped.
pub open spec fn transition(s: ProvisioningView, e: EventView) -> Transition {
    if s.phase == Phase::Finished {
        stop(s, seq![], ActionView::Crash("provisioning run already finished"@))
    } else if e is Failed {
        stop(s, seq![], ActionView::Crash(e->Failed_0))
    } else {
        match (s.phase, e) {
            (Phase::Start, EventView::Begin) => if s.opts.is_test_mode {
                go(
                    s,
                    Phase::AwaitTimer,
                    Step::ArmingSafetyTimer,
                    seq![],
                    ActionView::ArmSafetyTimer { minutes: SAFETY_TIMER_MINUTES },
                )
            } else {
                go(s, Phase::AwaitHost, Step::HostDetection, seq![], ActionView::DetectHost)
            },
            (Phase::AwaitTimer, EventView::TimerArmed(t)) => go(
                ProvisioningView { timer: Some(t), ..s },
                Phase::AwaitHost,
                Step::HostDetection,
                seq![],
                ActionView::DetectHost,
            ),
            (Phase::AwaitHost, EventView::HostDetected(h)) => if h == Host::Unknown {
                stop(
                    s,
                    seq![
                        (Step::HostDetection, LogLevel::Error, "fw not setup"@),
                        (
                            Step::HostDetection,
                            LogLevel::Warning,
                            "Host is not mapped to an existing firewall configuration profile."@,
                        ),
                    ],
                    ActionView::Exit(ExitOutcome::CleanExit),
                )
            } else {
                go(
                    ProvisioningView { host: h, ..s },
                    Phase::AwaitInterface,
                    Step::NetworkInterfaceDetection,
                    seq![
                        (Step::HostDetection, LogLevel::Honey, "Setting up your nftables firewall..."@),
                        (Step::HostDetection, LogLevel::Success, "Detected host: "@ + host_name(h)),
                    ],
                    ActionView::DetectInterface,
                )
            },
            (Phase::AwaitInterface, EventView::InterfaceDetected(i)) => {
                let s2 = ProvisioningView { interface: i, ..s };
                let logs = seq![
                    (
                        Step::NetworkInterfaceDetection,
                        LogLevel::Success,
                        "Detected network interface: "@ + i,
                    ),
                ];
                if s.opts.geoip_enabled {
                    go(
                        s2,
                        Phase::AwaitCountries,
                        Step::CountrySelectionMenu,
                        logs,
                        ActionView::PromptCountrySelection,
                    )
                } else {
                    begin_flush(s2, logs)
                }
            },
            (Phase::AwaitCountries, EventView::CountriesSelected(c)) => begin_flush(
                ProvisioningView { countries: c, ..s },
                seq![],
            ),
            (Phase::AwaitFlush, EventView::Done) => if s.opts.geoip_enabled {
                go(
                    s,
                    Phase::AwaitGeoip,
                    Step::CompilingGeoipRules,
                    seq![],
                    ActionView::SetupGeoipBlocking,
                )
            } else {
                begin_main_firewall(
                    s,
                    seq![
                        (
                            Step::CompilingGeoipRules,
                            LogLevel::Warning,
                            "Skipping GeoIP blocking (--geoipblock=false) - main ruleset only this run."@,
                        ),
                    ],
                )
            },
            (Phase::AwaitGeoip, EventView::Done) => begin_main_firewall(s, seq![]),
            (Phase::AwaitMainFirewall, EventView::Done) => if s.opts.is_test_mode {
                go(
                    s,
                    Phase::AwaitSessionCheck,
                    Step::VerifyingLiveSshSession,
                    seq![],
                    ActionView::VerifySshSession,
                )
            } else {
                begin_display(s)
            },
            (Phase::AwaitSessionCheck, EventView::SessionChecked(alive)) => if alive {
                begin_display(s)
            } else {
                go(
                    s,
                    Phase::AwaitRollbackFlush,
                    s.step,
                    seq![
                        (
                            Step::VerifyingLiveSshSession,
                            LogLevel::Error,
                            "Immediate rollback triggered - flushing ruleset now to restore access."@,
                        ),
                    ],
                    ActionView::FlushRuleset,
                )
            },
            (Phase::AwaitRollbackFlush, EventView::Done) => go(
                s,
                Phase::AwaitRollbackCancel,
                s.step,
                seq![],
                ActionView::CancelAllPendingJobs,
            ),
            (Phase::AwaitRollbackCancel, EventView::Done) => stop(
                s,
                seq![],
                ActionView::Exit(ExitOutcome::CleanExit),
            ),
            (Phase::AwaitDisplay, EventView::Done) => if s.opts.is_test_mode {
                if s.timer is Some {
                    go(
                        s,
                        Phase::AwaitCountdown,
                        Step::RunningCountdown,
                        seq![],
                        ActionView::RunProgressCountdown,
                    )
                } else {
                    stop(
                        ProvisioningView { step: Step::RunningCountdown, ..s },
                        seq![],
                        ActionView::Crash("safety timer was not armed in test mode"@),
                    )
                }
            } else {
                stop(s, seq![], ActionView::Exit(ExitOutcome::Success))
            },
            (Phase::AwaitCountdown, EventView::Done) => stop(
                s,
                seq![],
                ActionView::Exit(ExitOutcome::Success),
            ),
            _ => stop(s, seq![], ActionView::Crash("unexpected event for this step"@)),
        }
    }
}

impl Provisioning {
    /// A run with `opts` that has not begun.
    pub fn new(opts: RunOptions) -> (p: Provisioning)
        ensures
            p@ == initial(opts),
    {
        let p = Provisioning {
            opts,
            phase: Phase::Start,
            step: Step::Initialization,
            host: Host::Unknown,
            interface: String::new(),
            countries: Vec::new(),
            timer: None,
        };
        assert(p@.countries =~= Seq::<Seq<char>>::empty());
        p
    }

    /// The options of the run.
    pub fn options(&self) -> (r: RunOptions)
        ensures
            r == self@.opts,
    {
        self.opts
    }

    /// What the run is waiting for.
    pub fn phase(&self) -> (r: Phase)
        ensures
            r == self@.phase,
    {
        self.phase
    }

    /// The detected host (`Unknown` before detection).
    pub fn host(&self) -> (r: Host)
        ensures
            r == self@.host,
    {
        self.host
    }

    /// The detected network interface (empty before detection).
    pub fn interface(&self) -> (r: &str)
        ensures
            r@ == self@.interface,
    {
        self.interface.as_str()
    }

    /// The countries chosen for blocking (none without GeoIP blocking).
    pub fn blocked_countries(&self) -> (r: &[String])
        ensures
            string_views(r@) == self@.countries,
    {
        self.countries.as_slice()
    }

    /// The safety timer that arming returned, in test mode once it is
    /// armed.
    pub fn safety_timer(&self) -> (r: Option<&SafetyTimer>)
        ensures
            match r {
                Some(t) => self@.timer == Some(timer_view(*t)),
                None => self@.timer is None,
            },
    {
        match &self.timer {
            Some(t) => Some(t),
            None => None,
        }
    }
}

/// The name of a step, as a crash report gives it.
pub fn step_name(step: Step) -> (r: &'static str)
    ensures
        r@ == step_label(step),
{
    match step {
        Step::Initialization => "Initialization",
        Step::ArmingSafetyTimer => "Arming Safety Timer",
        Step::HostDetection => "Host Detection",
        Step::NetworkInterfaceDetection => "Network Interface Detection",
        Step::CountrySelectionMenu => "Country Selection Menu",
        Step::FlushingExistingRulesets => "Flushing Existing Rulesets",
        Step::CompilingGeoipRules => "Compiling Layer-2 GeoIP Rules",
        Step::AssemblingInetRuleset => "Assembling Layer-3 Inet Ruleset",
        Step::VerifyingLiveSshSession => "Verifying Live SSH Session",
        Step::DisplayingFinalStatistics => "Displaying Final Statistics",
        Step::RunningCountdown => "Running Safety Test Countdown Visualizer",
    }
}

/// The name of the step that `state` is at, for the crash report.
pub fn current_step(state: &Provisioning) -> (r: &'static str)
    ensures
        r@ == step_label(state@.step),
{
    step_name(state.step)
}

impl Provisioning {
    fn set_step(&mut self, phase: Phase, step: Step)
        ensures
            final(self)@ == (ProvisioningView { phase, step, ..old(self)@ }),
    {
        self.phase = phase;
        self.step = step;
    }

    fn finish(&mut self)
        ensures
            final(self)@ == (ProvisioningView { phase: Phase::Finished, ..old(self)@ }),
    {
        self.phase = Phase::Finished;
    }
}

fn say(logs: &mut Vec<StepLog>, step: Step, level: LogLevel, text: &str)
    ensures
        logs_view(final(logs)@) == logs_view(old(logs)@).push((step, level, text@)),
{
    logs.push(StepLog { step, line: log_line(level, text) });
    assert(logs_view(logs@) =~= logs_view(old(logs)@).push((step, level, text@)));
}

fn say_string(logs: &mut Vec<StepLog>, step: Step, level: LogLevel, text: String)
    ensures
        logs_view(final(logs)@) == logs_view(old(logs)@).push((step, level, text@)),
{
    let ghost t = text@;
    logs.push(StepLog { step, line: LogLine { level, text } });
    assert(logs_view(logs@) =~= logs_view(old(logs)@).push((step, level, t)));
}

/// Moves the run on by `event`, the outcome of the last action: records
/// what it reported, sets the step, and says what to do next (see
/// `transition`).
pub fn run(state: &mut Provisioning, event: Event) -> (resp: Response)
    ensures
        (final(state)@, logs_view(resp.logs@), action_view(resp.action)) == transition(
            old(state)@,
            event_view(event),
        ),
{
    let ghost e = event_view(event);
    let mut logs: Vec<StepLog> = Vec::new();
    assert(logs_view(logs@) =~= Seq::<LogEntry>::empty());
    if state.phase == Phase::Finished {
        return Response {
            logs,
            action: Action::Crash(String::from_str("provisioning run already finished")),
        };
    }
    let action = match event {
        Event::Failed(m) => {
            state.finish();
            Action::Crash(m)
        },
        Event::Begin => {
            if state.phase == Phase::Start {
                if state.opts.is_test_mode {
                    state.set_step(Phase::AwaitTimer, Step::ArmingSafetyTimer);
                    Action::ArmSafetyTimer { minutes: SAFETY_TIMER_MINUTES }
                } else {
                    state.set_step(Phase::AwaitHost, Step::HostDetection);
                    Action::DetectHost
                }
            } else {
                state.finish();
                Action::Crash(String::from_str("unexpected event for this step"))
            }
        },
        Event::TimerArmed(t) => {
            if state.phase == Phase::AwaitTimer {
                state.timer = Some(t);
                state.set_step(Phase::AwaitHost, Step::HostDetection);
                Action::DetectHost
            } else {
                state.finish();
                Action::Crash(String::from_str("unexpected event for this step"))
            }
        },
        Event::HostDetected(h) => {
            if state.phase == Phase::AwaitHost {
                if h == Host::Unknown {
                    say(&mut logs, Step::HostDetection, LogLevel::Error, "fw not setup");
                    say(
                        &mut logs,
                        Step::HostDetection,
                        LogLevel::Warning,
                        "Host is not mapped to an existing firewall configuration profile.",
                    );
                    state.finish();
                    Action::Exit(ExitOutcome::CleanExit)
                } else {
                    state.host = h;
                    say(&mut logs, Step::HostDetection, LogLevel::Honey, "Setting up your nftables firewall...");
                    let mut t = String::from_str("Detected host: ");
                    t.append(h.as_str());
                    say_string(&mut logs, Step::HostDetection, LogLevel::Success, t);
                    state.set_step(Phase::AwaitInterface, Step::NetworkInterfaceDetection);
                    Action::DetectInterface
                }
            } else {
                state.finish();
                Action::Crash(String::from_str("unexpected event for this step"))
            }
        },
        Event::InterfaceDetected(i) => {
            if state.phase == Phase::AwaitInterface {
                let mut t = String::from_str("Detected network interface: ");
                t.append(i.as_str());
                say_string(&mut logs, Step::NetworkInterfaceDetection, LogLevel::Success, t);
                state.interface = i;
                if state.opts.geoip_enabled {
                    state.set_step(Phase::AwaitCountries, Step::CountrySelectionMenu);
                    Action::PromptCountrySelection
                } else {
                    say(&mut logs, Step::FlushingExistingRulesets, LogLevel::Honey, "Flushing existing rules...");
                    state.set_step(Phase::AwaitFlush, Step::FlushingExistingRulesets);
                    Action::FlushRuleset
                }
            } else {
                state.finish();
                Action::Crash(String::from_str("unexpected event for this step"))
            }
        },
        Event::CountriesSelected(c) => {
            if state.phase == Phase::AwaitCountries {
                state.countries = c;
                say(&mut logs, Step::FlushingExistingRulesets, LogLevel::Honey, "Flushing existing rules...");
                state.set_step(Phase::AwaitFlush, Step::FlushingExistingRulesets);
                Action::FlushRuleset
            } else {
                state.finish();
                Action::Crash(String::from_str("unexpected event for this step"))
            }
        },
        Event::SessionChecked(alive) => {
            if state.phase == Phase::AwaitSessionCheck {
                if alive {
                    state.set_step(Phase::AwaitDisplay, Step::DisplayingFinalStatistics);
                    Action::DisplayCompletionInfo
                } else {
                    say(
                        &mut logs,
                        Step::VerifyingLiveSshSession,
                        LogLevel::Error,
                        "Immediate rollback triggered - flushing ruleset now to restore access.",
                    );
                    let step = state.step;
                    state.set_step(Phase::AwaitRollbackFlush, step);
                    Action::FlushRuleset
                }
            } else {
                state.finish();
                Action::Crash(String::from_str("unexpected event for this step"))
            }
        },
        Event::Done => {
            match state.phase {
                Phase::AwaitFlush => {
                    if state.opts.geoip_enabled {
                        state.set_step(Phase::AwaitGeoip, Step::CompilingGeoipRules);
                        Action::SetupGeoipBlocking
                    } else {
                        say(
                            &mut logs,
                            Step::CompilingGeoipRules,
                            LogLevel::Warning,
                            "Skipping GeoIP blocking (--geoipblock=false) - main ruleset only this run.",
                        );
                        state.set_step(Phase::AwaitMainFirewall, Step::AssemblingInetRuleset);
                        Action::CreateMainFirewall(state.host)
                    }
                },
                Phase::AwaitGeoip => {
                    state.set_step(Phase::AwaitMainFirewall, Step::AssemblingInetRuleset);
                    Action::CreateMainFirewall(state.host)
                },
                Phase::AwaitMainFirewall => {
                    if state.opts.is_test_mode {
                        state.set_step(Phase::AwaitSessionCheck, Step::VerifyingLiveSshSession);
                        Action::VerifySshSession
                    } else {
                        state.set_step(Phase::AwaitDisplay, Step::DisplayingFinalStatistics);
                        Action::DisplayCompletionInfo
                    }
                },
                Phase::AwaitRollbackFlush => {
                    let step = state.step;
                    state.set_step(Phase::AwaitRollbackCancel, step);
                    Action::CancelAllPendingJobs
                },
                Phase::AwaitRollbackCancel => {
                    state.finish();
                    Action::Exit(ExitOutcome::CleanExit)
                },
                Phase::AwaitDisplay => {
                    if state.opts.is_test_mode {
                        if state.timer.is_some() {
                            state.set_step(Phase::AwaitCountdown, Step::RunningCountdown);
                            Action::RunProgressCountdown
                        } else {
                            state.set_step(Phase::Finished, Step::RunningCountdown);
                            Action::Crash(
                                String::from_str("safety timer was not armed in test mode"),
                            )
                        }
                    } else {
                        state.finish();
                        Action::Exit(ExitOutcome::Success)
                    }
                },
                Phase::AwaitCountdown => {
                    state.finish();
                    Action::Exit(ExitOutcome::Success)
                },
                _ => {
                    state.finish();
                    Action::Crash(String::from_str("unexpected event for this step"))
                },
            }
        },
    };
    Response { logs, action }
}

// ---------------------------------------------------------------------------
// Laws of a run
// ---------------------------------------------------------------------------

/// Whether a run in this phase has got past arming the safety timer.
pub open spec fn past_timer(p: Phase) -> bool {
    p != Phase::Start && p != Phase::AwaitTimer && p != Phase::Finished
}

/// Whether a run in this phase has got past host detection.
pub open spec fn past_host(p: Phase) -> bool {
    past_timer(p) && p != Phase::AwaitHost
}

/// Whether an action changes the kernel's ruleset.
pub open spec fn modifies_ruleset(a: ActionView) -> bool {
    a is FlushRuleset || a is SetupGeoipBlocking || a is CreateMainFirewall
}

/// What holds in every state that a run passes through: in test mode the
/// safety timer is armed once the run is past arming it; without GeoIP
/// blocking no country is chosen and the GeoIP phases are not entered;
/// past host detection the host is known.
pub open spec fn run_inv(s: ProvisioningView) -> bool {
    &&& (s.opts.is_test_mode && past_timer(s.phase)) ==> s.timer is Some
    &&& !s.opts.geoip_enabled ==> s.countries.len() == 0
    &&& past_host(s.phase) ==> s.host != Host::Unknown
    &&& (s.phase == Phase::AwaitCountries || s.phase == Phase::AwaitGeoip) ==> s.opts.geoip_enabled
}

/// A run begins in a state that satisfies the invariant.
pub proof fn law_initial_state_inv(opts: RunOptions)
    ensures
        run_inv(initial(opts)),
{
}

/// Every transition keeps the invariant.
pub proof fn law_transition_keeps_inv(s: ProvisioningView, e: EventView)
    requires
        run_inv(s),
    ensures
        run_inv(transition(s, e).0),
{
}

/// The safety valve: in test mode no action changes the ruleset before
/// the `at` timer that flushes it again is armed, and no action changes it
/// before the host is known.
pub proof fn law_ruleset_changes_need_safety_net(s: ProvisioningView, e: EventView)
    requires
        run_inv(s),
        modifies_ruleset(transition(s, e).2),
    ensures
        s.opts.is_test_mode ==> transition(s, e).0.timer is Some,
        transition(s, e).0.host != Host::Unknown,
{
}

/// A host without a profile ends the run cleanly, with nothing installed.
pub proof fn law_unknown_host_exits_cleanly(s: ProvisioningView)
    requires
        s.phase == Phase::AwaitHost,
    ensures
        transition(s, EventView::HostDetected(Host::Unknown)).2 == ActionView::Exit(
            ExitOutcome::CleanExit,
        ),
        transition(s, EventView::HostDetected(Host::Unknown)).0.phase == Phase::Finished,
{
}

/// A failed action ends the run with a crash that carries its reason, and
/// the step stays the one at which it failed, for the crash report.
pub proof fn law_failure_keeps_step(s: ProvisioningView, m: Seq<char>)
    requires
        s.phase != Phase::Finished,
    ensures
        transition(s, EventView::Failed(m)).2 == ActionView::Crash(m),
        transition(s, EventView::Failed(m)).0.step == s.step,
        transition(s, EventView::Failed(m)).0.phase == Phase::Finished,
{
}

/// A lost SSH session is answered with an immediate flush of the ruleset,
/// then the cancelling of every pending `at` job, then a clean exit.
pub proof fn law_lost_session_rolls_back(s: ProvisioningView)
    requires
        s.phase == Phase::AwaitSessionCheck,
    ensures
        ({
            let t1 = transition(s, EventView::SessionChecked(false));
            let t2 = transition(t1.0, EventView::Done);
            let t3 = transition(t2.0, EventView::Done);
            &&& t1.2 == ActionView::FlushRuleset
            &&& t2.2 == ActionView::CancelAllPendingJobs
            &&& t3.2 == ActionView::Exit(ExitOutcome::CleanExit)
        }),
{
}

/// Without GeoIP blocking the operator is never asked for countries and no
/// netdev ruleset is installed.
pub proof fn law_no_geoip_when_disabled(s: ProvisioningView, e: EventView)
    requires
        !s.opts.geoip_enabled,
    ensures
        !(transition(s, e).2 is PromptCountrySelection),
        !(transition(s, e).2 is SetupGeoipBlocking),
{
}

/// The countdown runs only in test mode, and then always finds the armed
/// safety timer: a run that keeps the invariant never crashes for want
/// of it.
pub proof fn law_countdown_has_timer(s: ProvisioningView, e: EventView)
    requires
        run_inv(s),
    ensures
        transition(s, e).2 is RunProgressCountdown ==> s.opts.is_test_mode && transition(
            s,
            e,
        ).0.timer is Some && transition(s, e).0.timer == s.timer,
        (s.phase == Phase::AwaitDisplay && s.opts.is_test_mode && e == EventView::Done)
            ==> transition(s, e).2 is RunProgressCountdown,
{
}

/// A production run with GeoIP blocking, where every step succeeds, asks
/// for: host, interface, countries, flush, GeoIP ruleset, main table,
/// summary, and ends with success.
pub proof fn law_production_run(host: Host, iface: Seq<char>, countries: Seq<Seq<char>>)
    requires
        host != Host::Unknown,
    ensures
        ({
            let opts = RunOptions { is_test_mode: false, geoip_enabled: true };
            let t1 = transition(initial(opts), EventView::Begin);
            let t2 = transition(t1.0, EventView::HostDetected(host));
            let t3 = transition(t2.0, EventView::InterfaceDetected(iface));
            let t4 = transition(t3.0, EventView::CountriesSelected(countries));
            let t5 = transition(t4.0, EventView::Done);
            let t6 = transition(t5.0, EventView::Done);
            let t7 = transition(t6.0, EventView::Done);
            let t8 = transition(t7.0, EventView::Done);
            &&& t1.2 == ActionView::DetectHost
            &&& t2.2 == ActionView::DetectInterface
            &&& t3.2 == ActionView::PromptCountrySelection
            &&& t4.2 == ActionView::FlushRuleset
            &&& t5.2 == ActionView::SetupGeoipBlocking
            &&& t5.0.interface == iface && t5.0.countries == countries
            &&& t6.2 == ActionView::CreateMainFirewall(host)
            &&& t7.2 == ActionView::DisplayCompletionInfo
            &&& t8.2 == ActionView::Exit(ExitOutcome::Success)
        }),
{
}

/// A test-mode run without GeoIP blocking, where every step succeeds and
/// the session survives, asks for: the safety timer, host, interface,
/// flush, main table, session check, summary, countdown, and ends with
/// success; the countdown runs with exactly the timer that arming
/// returned, and success comes only after it.
pub proof fn law_test_run(host: Host, iface: Seq<char>, timer: TimerView)
    requires
        host != Host::Unknown,
    ensures
        ({
            let opts = RunOptions { is_test_mode: true, geoip_enabled: false };
            let t1 = transition(initial(opts), EventView::Begin);
            let t2 = transition(t1.0, EventView::TimerArmed(timer));
            let t3 = transition(t2.0, EventView::HostDetected(host));
            let t4 = transition(t3.0, EventView::InterfaceDetected(iface));
            let t5 = transition(t4.0, EventView::Done);
            let t6 = transition(t5.0, EventView::Done);
            let t7 = transition(t6.0, EventView::SessionChecked(true));
            let t8 = transition(t7.0, EventView::Done);
            let t9 = transition(t8.0, EventView::Done);
            &&& t1.2 == ActionView::ArmSafetyTimer { minutes: SAFETY_TIMER_MINUTES }
            &&& t2.2 == ActionView::DetectHost
            &&& t3.2 == ActionView::DetectInterface
            &&& t4.2 == ActionView::FlushRuleset
            &&& t5.2 == ActionView::CreateMainFirewall(host)
            &&& t6.2 == ActionView::VerifySshSession
            &&& t7.2 == ActionView::DisplayCompletionInfo
            &&& t8.2 == ActionView::RunProgressCountdown
            &&& t8.0.timer == Some(timer)
            &&& t9.2 == ActionView::Exit(ExitOutcome::Success)
        }),
{
}

/// The armed timer is set once and never changed: only the report that
/// arming succeeded, while the run waits for it, stores a timer, and it
/// stores exactly the timer reported.
pub proof fn law_armed_timer_kept(s: ProvisioningView, e: EventView)
    ensures
        (s.phase == Phase::AwaitTimer && e is TimerArmed) ==> transition(s, e).0.timer == Some(
            e->TimerArmed_0,
        ),
        !(s.phase == Phase::AwaitTimer && e is TimerArmed) ==> transition(s, e).0.timer == s.timer,
{
}

/// In test mode a run ends in success only right after the countdown ran,
/// and that countdown used the timer that arming returned.
pub proof fn law_success_follows_countdown(s: ProvisioningView, e: EventView)
    requires
        run_inv(s),
        s.opts.is_test_mode,
        transition(s, e).2 == ActionView::Exit(ExitOutcome::Success),
    ensures
        s.phase == Phase::AwaitCountdown,
        e == EventView::Done,
        s.timer is Some,
        transition(s, e).0.timer == s.timer,
{
}

/// A production run without GeoIP blocking, where every step succeeds,
/// asks for: host, interface, flush, main table, summary, and ends with
/// success; the table it installed is never flushed again.
pub proof fn law_production_run_without_geoip(host: Host, iface: Seq<char>)
    requires
        host != Host::Unknown,
    ensures
        ({
            let opts = RunOptions { is_test_mode: false, geoip_enabled: false };
            let t1 = transition(initial(opts), EventView::Begin);
            let t2 = transition(t1.0, EventView::HostDetected(host));
            let t3 = transition(t2.0, EventView::InterfaceDetected(iface));
            let t4 = transition(t3.0, EventView::Done);
            let t5 = transition(t4.0, EventView::Done);
            let t6 = transition(t5.0, EventView::Done);
            &&& t1.2 == ActionView::DetectHost
            &&& t2.2 == ActionView::DetectInterface
            &&& t3.2 == ActionView::FlushRuleset
            &&& t4.2 == ActionView::CreateMainFirewall(host)
            &&& t5.2 == ActionView::DisplayCompletionInfo
            &&& t6.2 == ActionView::Exit(ExitOutcome::Success)
        }),
{
}

/// The phases that only a run in test mode passes through: arming the
/// timer, the session check, the rollback and the countdown.
pub open spec fn test_only_phase(p: Phase) -> bool {
    p == Phase::AwaitTimer || p == Phase::AwaitSessionCheck || p == Phase::AwaitRollbackFlush
        || p == Phase::AwaitRollbackCancel || p == Phase::AwaitCountdown
}

/// A production run never enters a phase of test mode: it begins outside
/// them, and no transition leads into one.
pub proof fn law_production_skips_test_phases(s: ProvisioningView, e: EventView)
    requires
        !s.opts.is_test_mode,
        !test_only_phase(s.phase),
    ensures
        !test_only_phase(initial(s.opts).phase),
        !test_only_phase(transition(s, e).0.phase),
{
}

/// A production run keeps the firewall it installs: the only flush it asks
/// for is the one before installing, it never cancels `at` jobs, it ends
/// cleanly without success only on a host without a profile, and once the
/// main table is installed it prints the summary and then ends in success.
pub proof fn law_production_keeps_firewall(s: ProvisioningView, e: EventView)
    requires
        !s.opts.is_test_mode,
        !test_only_phase(s.phase),
    ensures
        transition(s, e).2 is FlushRuleset ==> (s.phase == Phase::AwaitInterface || s.phase
            == Phase::AwaitCountries),
        !(transition(s, e).2 is CancelAllPendingJobs),
        !(transition(s, e).2 is VerifySshSession),
        !(transition(s, e).2 is RunProgressCountdown),
        transition(s, e).2 == ActionView::Exit(ExitOutcome::CleanExit) ==> (s.phase
            == Phase::AwaitHost && e == EventView::HostDetected(Host::Unknown)),
        (s.phase == Phase::AwaitMainFirewall && e == EventView::Done) ==> transition(s, e).2
            == ActionView::DisplayCompletionInfo,
        (s.phase == Phase::AwaitDisplay && e == EventView::Done) ==> transition(s, e).2
            == ActionView::Exit(ExitOutcome::Success),
{
}

/// A test-mode run with GeoIP blocking, where every step succeeds and the
/// session survives, asks for: the safety timer, host, interface,
/// countries, flush, GeoIP ruleset, main table, session check, summary,
/// countdown, and ends with success.
pub proof fn law_test_run_with_geoip(
    host: Host,
    iface: Seq<char>,
    countries: Seq<Seq<char>>,
    timer: TimerView,
)
    requires
        host != Host::Unknown,
    ensures
        ({
            let opts = RunOptions { is_test_mode: true, geoip_enabled: true };
            let t1 = transition(initial(opts), EventView::Begin);
            let t2 = transition(t1.0, EventView::TimerArmed(timer));
            let t3 = transition(t2.0, EventView::HostDetected(host));
            let t4 = transition(t3.0, EventView::InterfaceDetected(iface));
            let t5 = transition(t4.0, EventView::CountriesSelected(countries));
            let t6 = transition(t5.0, EventView::Done);
            let t7 = transition(t6.0, EventView::Done);
            let t8 = transition(t7.0, EventView::Done);
            let t9 = transition(t8.0, EventView::SessionChecked(true));
            let t10 = transition(t9.0, EventView::Done);
            let t11 = transition(t10.0, EventView::Done);
            &&& t1.2 == ActionView::ArmSafetyTimer { minutes: 1 }
            &&& t2.2 == ActionView::DetectHost
            &&& t3.2 == ActionView::DetectInterface
            &&& t4.2 == ActionView::PromptCountrySelection
            &&& t5.2 == ActionView::FlushRuleset
            &&& t6.2 == ActionView::SetupGeoipBlocking
            &&& t6.0.interface == iface && t6.0.countries == countries
            &&& t7.2 == ActionView::CreateMainFirewall(host)
            &&& t8.2 == ActionView::VerifySshSession
            &&& t9.2 == ActionView::DisplayCompletionInfo
            &&& t10.2 == ActionView::RunProgressCountdown
            &&& t10.0.timer == Some(timer)
            &&& t11.2 == ActionView::Exit(ExitOutcome::Success)
        }),
{
}

} // verus!

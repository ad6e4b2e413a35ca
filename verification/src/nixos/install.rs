//! The installation run: its stages, the messages it reports, the executors
//! that do the system work, and the rules that decide, step by step, what is
//! reported and what is done next.
//!
//! The run itself is a state machine. Its driver performs each requested
//! action (writing the configuration, calling an executor, pausing) and
//! hands the outcome back; the machine answers with the messages to report
//! and the next action.

use vstd::prelude::*;
use vstd::string::*;
use crate::error::{CommandError, ConfigError, InstallerError, command_error_text, installer_error_text};
use crate::system::command::CommandOutput;
use crate::text::{cat, decimal, opt_view, u64_to_decimal};

verus! {

/// Stage of an installation.
#[derive(Debug, Clone, PartialEq)]
pub enum InstallStage {
    /// Generating configuration files
    GeneratingConfig,
    /// Running the hardware detection
    GeneratingHardwareConfig,
    /// Installing NixOS
    Installing,
    /// Verifying the installation
    Verifying,
    /// Installation complete
    Complete,
    /// Installation failed
    Failed(String),
}

/// Progress of an installation.
#[derive(Debug, Clone)]
pub struct InstallProgress {
    /// Current stage
    pub stage: InstallStage,
    /// Percentage done (0-100)
    pub percent: u8,
    /// What is being done
    pub operation: String,
    /// Latest log line
    pub log_line: Option<String>,
}

/// A message of the installation to whoever follows it.
#[derive(Debug, Clone)]
pub enum InstallMessage {
    /// Progress update
    Progress(InstallProgress),
    /// A line of the log
    Log(String),
    /// The installation succeeded
    Success,
    /// The installation failed
    Error(String),
}

/// What an installation message says.
pub enum Report {
    Progress { stage: InstallStage, percent: u8, operation: Seq<char>, log_line: Option<Seq<char>> },
    Log(Seq<char>),
    Success,
    Error(Seq<char>),
}

impl View for InstallMessage {
    type V = Report;

    open spec fn view(&self) -> Report {
        match self {
            InstallMessage::Progress(p) => Report::Progress {
                stage: p.stage,
                percent: p.percent,
                operation: p.operation@,
                log_line: opt_view(p.log_line),
            },
            InstallMessage::Log(l) => Report::Log(l@),
            InstallMessage::Success => Report::Success,
            InstallMessage::Error(e) => Report::Error(e@),
        }
    }
}

/// What a list of messages says, in order.
pub open spec fn reports(msgs: Seq<InstallMessage>) -> Seq<Report> {
    msgs.map_values(|m: InstallMessage| m@)
}

/// The system work of an installation under a root directory.
pub trait InstallExecutor {
    /// Generates the hardware configuration.
    fn generate_hardware_config(&self, root_path: &str) -> Result<(), InstallerError>;

    /// Installs the system.
    fn execute_install(&self, root_path: &str) -> Result<(), InstallerError>;

    /// Checks that the installation went through.
    fn verify_installation(&self, root_path: &str) -> Result<(), InstallerError>;
}

/// An executor that does no system work, for simulations and tests: every
/// step succeeds, or every step fails.
pub struct MockInstallExecutor {
    should_fail: bool,
}

/// The error of the simulated hardware configuration step when it fails.
pub open spec fn mock_hardware_failure(e: InstallerError) -> bool {
    e matches InstallerError::Config(ConfigError::GenerationFailed(m)) && m@ == "Mock failure"@
}

/// The error of the simulated installation step when it fails.
pub open spec fn mock_install_failure(e: InstallerError) -> bool {
    e matches InstallerError::Command(CommandError::ExecutionFailed { command, code, stderr })
        && command@ == "nixos-install"@ && code == 1 && stderr@ == "Mock installation failure"@
}

/// The error of the simulated verification step when it fails.
pub open spec fn mock_verify_failure(e: InstallerError) -> bool {
    e matches InstallerError::Other(m) && m@ == "Verification failed"@
}

impl MockInstallExecutor {
    /// An executor whose steps all succeed.
    pub fn new() -> (r: Self)
        ensures
            !r.fails(),
    {
        MockInstallExecutor { should_fail: false }
    }

    /// The same executor, set to fail every step or none.
    pub fn with_failure(self, should_fail: bool) -> (r: Self)
        ensures
            r.fails() == should_fail,
    {
        MockInstallExecutor { should_fail }
    }

    /// Whether every step fails.
    pub closed spec fn fails(&self) -> bool {
        self.should_fail
    }
}

impl Default for MockInstallExecutor {
    fn default() -> (r: Self)
        ensures
            !r.fails(),
    {
        MockInstallExecutor::new()
    }
}

impl InstallExecutor for MockInstallExecutor {
    fn generate_hardware_config(&self, root_path: &str) -> (r: Result<(), InstallerError>)
        ensures
            !self.fails() ==> r is Ok,
            self.fails() ==> (r matches Err(e) && mock_hardware_failure(e)),
    {
        if self.should_fail {
            return Err(InstallerError::Config(ConfigError::GenerationFailed(
                String::from_str("Mock failure"),
            )));
        }
        Ok(())
    }

    fn execute_install(&self, root_path: &str) -> (r: Result<(), InstallerError>)
        ensures
            !self.fails() ==> r is Ok,
            self.fails() ==> (r matches Err(e) && mock_install_failure(e)),
    {
        if self.should_fail {
            return Err(InstallerError::Command(CommandError::ExecutionFailed {
                command: String::from_str("nixos-install"),
                code: 1,
                stderr: String::from_str("Mock installation failure"),
            }));
        }
        Ok(())
    }

    fn verify_installation(&self, root_path: &str) -> (r: Result<(), InstallerError>)
        ensures
            !self.fails() ==> r is Ok,
            self.fails() ==> (r matches Err(e) && mock_verify_failure(e)),
    {
        if self.should_fail {
            return Err(InstallerError::other("Verification failed"));
        }
        Ok(())
    }
}

/// `rel` under the directory `root`, joined as paths are: `rel` alone under
/// an empty root, no second `/` after a root that ends in one.
pub open spec fn path_under(root: Seq<char>, rel: Seq<char>) -> Seq<char> {
    if root.len() == 0 {
        rel
    } else if root.last() == '/' {
        root + rel
    } else {
        root + "/"@ + rel
    }
}

/// `rel` under the directory `root`.
pub fn join_path(root: &str, rel: &str) -> (r: String)
    ensures
        r@ == path_under(root@, rel@),
{
    let n = root.unicode_len();
    if n == 0 {
        String::from_str(rel)
    } else if root.get_char(n - 1) == '/' {
        cat(root, rel)
    } else {
        cat(root, "/").concat(rel)
    }
}

/// Where the run is.
#[derive(Debug, Clone, Copy, PartialEq, Eq, Structural)]
pub enum InstallPhase {
    /// Nothing has happened yet
    NotStarted,
    /// Waiting for the configuration to be written
    WritingConfig,
    /// Waiting for the hardware configuration
    GeneratingHardware,
    /// Waiting for the pause before the given installing step (0 to 5)
    Pausing(u8),
    /// Waiting for the system to be installed
    Installing,
    /// Waiting for the verification
    Verifying,
    /// The run is over
    Finished,
}

/// What the driver of a run is asked to do next.
#[derive(Debug, Clone, Copy, PartialEq, Eq, Structural)]
pub enum InstallAction {
    /// Write the configuration file to the run's configuration path
    WriteConfiguration,
    /// Generate the hardware configuration
    GenerateHardwareConfig,
    /// Pause for the given number of milliseconds
    Wait(u64),
    /// Install the system
    RunInstall,
    /// Verify the installation
    Verify,
    /// Nothing: the run is over
    Done,
}

/// What the driver hands back to the run.
#[derive(Debug)]
pub enum InstallEvent {
    /// The driver is ready to begin
    Begin,
    /// A requested pause is over
    Waited,
    /// A requested step ended, with its outcome
    StepDone(Result<(), InstallerError>),
}

/// The state of a run, seen from outside.
pub struct RunState {
    pub phase: InstallPhase,
    pub config_path: Seq<char>,
    pub pause_millis: u64,
}

/// An installation run.
pub struct InstallRun {
    phase: InstallPhase,
    config_path: String,
    pause_millis: u64,
}

impl View for InstallRun {
    type V = RunState;

    closed spec fn view(&self) -> RunState {
        RunState { phase: self.phase, config_path: self.config_path@, pause_millis: self.pause_millis }
    }
}

/// The action a run in `phase` waits on.
pub open spec fn pending_action(phase: InstallPhase, pause_millis: u64) -> InstallAction {
    match phase {
        InstallPhase::NotStarted => InstallAction::Done,
        InstallPhase::WritingConfig => InstallAction::WriteConfiguration,
        InstallPhase::GeneratingHardware => InstallAction::GenerateHardwareConfig,
        InstallPhase::Pausing(_) => InstallAction::Wait(pause_millis),
        InstallPhase::Installing => InstallAction::RunInstall,
        InstallPhase::Verifying => InstallAction::Verify,
        InstallPhase::Finished => InstallAction::Done,
    }
}

/// A progress report.
pub open spec fn progress(stage: InstallStage, percent: u8, operation: Seq<char>, log_line: Option<Seq<char>>) -> Report {
    Report::Progress { stage, percent, operation, log_line }
}

/// The percentage reported at installing step `i`.
pub open spec fn step_percent(i: u8) -> u8 {
    (30 + 10 * i) as u8
}

/// Whether `event` is the one a run in `phase` waits for.
pub open spec fn answers(phase: InstallPhase, event: InstallEvent) -> bool {
    match phase {
        InstallPhase::NotStarted => event is Begin,
        InstallPhase::Pausing(i) => i < 6 && event is Waited,
        InstallPhase::Finished => false,
        _ => event is StepDone,
    }
}

/// The phase after `event`, when it answers `phase`.
pub open spec fn next_phase(phase: InstallPhase, event: InstallEvent) -> InstallPhase {
    match event {
        InstallEvent::StepDone(Err(_)) => InstallPhase::Finished,
        _ => match phase {
            InstallPhase::NotStarted => InstallPhase::WritingConfig,
            InstallPhase::WritingConfig => InstallPhase::GeneratingHardware,
            InstallPhase::GeneratingHardware => InstallPhase::Pausing(0),
            InstallPhase::Pausing(i) => if i < 5 { InstallPhase::Pausing((i + 1) as u8) } else { InstallPhase::Installing },
            InstallPhase::Installing => InstallPhase::Verifying,
            _ => InstallPhase::Finished,
        },
    }
}

/// The messages reported on `event`, when it answers `phase`.
pub open spec fn step_reports(phase: InstallPhase, event: InstallEvent, config_path: Seq<char>) -> Seq<Report> {
    match event {
        InstallEvent::StepDone(Err(e)) => seq![Report::Error(
            match phase {
                InstallPhase::WritingConfig => "Failed to write configuration: "@,
                InstallPhase::GeneratingHardware => "Failed to generate hardware configuration: "@,
                InstallPhase::Installing => "Installation failed: "@,
                _ => "Installation verification failed: "@,
            } + installer_error_text(e),
        )],
        _ => match phase {
            InstallPhase::NotStarted => seq![
                progress(InstallStage::GeneratingConfig, 5, "Generating NixOS configuration..."@, None),
            ],
            InstallPhase::WritingConfig => seq![
                Report::Log("Configuration written to "@ + config_path),
                progress(InstallStage::GeneratingHardwareConfig, 20, "Generating hardware configuration..."@, None),
            ],
            InstallPhase::GeneratingHardware => seq![
                Report::Log("Hardware configuration generated successfully"@),
                progress(InstallStage::Installing, 30, "Installing NixOS (this may take a while)..."@, None),
            ],
            InstallPhase::Pausing(i) => seq![
                progress(
                    InstallStage::Installing,
                    step_percent(i),
                    "Installing NixOS... "@ + decimal(step_percent(i) as nat) + "%"@,
                    Some("Installing system packages (step "@ + decimal((i + 1) as nat) + ")"@),
                ),
            ],
            InstallPhase::Installing => seq![
                Report::Log("NixOS installation completed successfully"@),
                progress(InstallStage::Verifying, 90, "Verifying installation..."@, None),
            ],
            _ => seq![
                Report::Log("Installation verified successfully"@),
                progress(InstallStage::Complete, 100, "Installation complete!"@, None),
                Report::Success,
            ],
        },
    }
}

/// An error report: `prefix` followed by how `e` reads.
fn error_message(prefix: &str, e: &InstallerError) -> (m: InstallMessage)
    ensures
        m@ == Report::Error(prefix@ + installer_error_text(*e)),
{
    InstallMessage::Error(cat(prefix, e.to_string().as_str()))
}

/// A progress report without log line.
fn progress_message(stage: InstallStage, percent: u8, operation: &str) -> (m: InstallMessage)
    ensures
        m@ == progress(stage, percent, operation@, None),
{
    InstallMessage::Progress(InstallProgress { stage, percent, operation: String::from_str(operation), log_line: None })
}

/// A log report.
fn log_message(text: &str) -> (m: InstallMessage)
    ensures
        m@ == Report::Log(text@),
{
    InstallMessage::Log(String::from_str(text))
}

impl InstallRun {
    /// A run that installs under `root_path`; in simulation its pauses are
    /// short.
    pub fn new(root_path: &str, is_mock: bool) -> (r: Self)
        ensures
            r@.phase == InstallPhase::NotStarted,
            r@.config_path == path_under(root_path@, "etc/nixos/configuration.nix"@),
            r@.pause_millis == if is_mock { 200u64 } else { 5000u64 },
    {
        InstallRun {
            phase: InstallPhase::NotStarted,
            config_path: join_path(root_path, "etc/nixos/configuration.nix"),
            pause_millis: if is_mock { 200 } else { 5000 },
        }
    }

    /// Where the run stands.
    pub fn phase(&self) -> (p: InstallPhase)
        ensures
            p == self@.phase,
    {
        self.phase
    }

    /// Where the configuration file is to be written.
    pub fn config_path(&self) -> (p: &str)
        ensures
            p@ == self@.config_path,
    {
        self.config_path.as_str()
    }

    /// What the run waits on.
    pub fn pending(&self) -> (a: InstallAction)
        ensures
            a == pending_action(self@.phase, self@.pause_millis),
    {
        match self.phase {
            InstallPhase::NotStarted => InstallAction::Done,
            InstallPhase::WritingConfig => InstallAction::WriteConfiguration,
            InstallPhase::GeneratingHardware => InstallAction::GenerateHardwareConfig,
            InstallPhase::Pausing(_) => InstallAction::Wait(self.pause_millis),
            InstallPhase::Installing => InstallAction::RunInstall,
            InstallPhase::Verifying => InstallAction::Verify,
            InstallPhase::Finished => InstallAction::Done,
        }
    }

    /// Takes in what the driver hands back and answers with the messages
    /// to report and the next action. An event the run does not wait for
    /// changes nothing and reports nothing.
    pub fn step(&mut self, event: InstallEvent) -> (r: (Vec<InstallMessage>, InstallAction))
        ensures
            final(self)@.config_path == old(self)@.config_path,
            final(self)@.pause_millis == old(self)@.pause_millis,
            answers(old(self)@.phase, event) ==> {
                &&& final(self)@.phase == next_phase(old(self)@.phase, event)
                &&& reports(r.0@) == step_reports(old(self)@.phase, event, old(self)@.config_path)
            },
            !answers(old(self)@.phase, event) ==> final(self)@.phase == old(self)@.phase && r.0@.len() == 0,
            r.1 == pending_action(final(self)@.phase, final(self)@.pause_millis),
    {
        let mut msgs: Vec<InstallMessage> = Vec::new();
        let phase = self.phase;
        match (phase, &event) {
            (InstallPhase::NotStarted, InstallEvent::Begin) => {
                msgs.push(progress_message(InstallStage::GeneratingConfig, 5, "Generating NixOS configuration..."));
                self.phase = InstallPhase::WritingConfig;
            },
            (InstallPhase::Pausing(i), InstallEvent::Waited) => {
                if i < 6 {
                    let percent: u8 = 30 + 10 * i;
                    let operation = cat("Installing NixOS... ", u64_to_decimal(percent as u64).as_str()).concat("%");
                    let log_line = cat("Installing system packages (step ", u64_to_decimal((i + 1) as u64).as_str()).concat(")");
                    msgs.push(InstallMessage::Progress(InstallProgress {
                        stage: InstallStage::Installing,
                        percent,
                        operation,
                        log_line: Some(log_line),
                    }));
                    self.phase = if i < 5 { InstallPhase::Pausing(i + 1) } else { InstallPhase::Installing };
                }
            },
            (InstallPhase::WritingConfig, InstallEvent::StepDone(outcome))
            | (InstallPhase::GeneratingHardware, InstallEvent::StepDone(outcome))
            | (InstallPhase::Installing, InstallEvent::StepDone(outcome))
            | (InstallPhase::Verifying, InstallEvent::StepDone(outcome)) => {
                match outcome {
                    Err(e) => {
                        let prefix = match phase {
                            InstallPhase::WritingConfig => "Failed to write configuration: ",
                            InstallPhase::GeneratingHardware => "Failed to generate hardware configuration: ",
                            InstallPhase::Installing => "Installation failed: ",
                            _ => "Installation verification failed: ",
                        };
                        msgs.push(error_message(prefix, e));
                        self.phase = InstallPhase::Finished;
                    },
                    Ok(()) => {
                        match phase {
                            InstallPhase::WritingConfig => {
                                msgs.push(InstallMessage::Log(cat("Configuration written to ", self.config_path.as_str())));
                                msgs.push(progress_message(
                                    InstallStage::GeneratingHardwareConfig,
                                    20,
                                    "Generating hardware configuration...",
                                ));
                                self.phase = InstallPhase::GeneratingHardware;
                            },
                            InstallPhase::GeneratingHardware => {
                                msgs.push(log_message("Hardware configuration generated successfully"));
                                msgs.push(progress_message(
                                    InstallStage::Installing,
                                    30,
                                    "Installing NixOS (this may take a while)...",
                                ));
                                self.phase = InstallPhase::Pausing(0);
                            },
                            InstallPhase::Installing => {
                                msgs.push(log_message("NixOS installation completed successfully"));
                                msgs.push(progress_message(InstallStage::Verifying, 90, "Verifying installation..."));
                                self.phase = InstallPhase::Verifying;
                            },
                            _ => {
                                msgs.push(log_message("Installation verified successfully"));
                                msgs.push(progress_message(InstallStage::Complete, 100, "Installation complete!"));
                                msgs.push(InstallMessage::Success);
                                self.phase = InstallPhase::Finished;
                            },
                        }
                    },
                }
            },
            _ => {},
        }
        proof {
            assert(reports(msgs@) =~= msgs@.map_values(|m: InstallMessage| m@));
        }
        let action = self.pending();
        (msgs, action)
    }
}

/// The last percentage a run in `phase` has reported.
pub open spec fn last_percent(phase: InstallPhase) -> int {
    match phase {
        InstallPhase::NotStarted => 0,
        InstallPhase::WritingConfig => 5,
        InstallPhase::GeneratingHardware => 20,
        InstallPhase::Pausing(i) => if i == 0 { 30 } else { 20 + 10 * i },
        InstallPhase::Installing => 80,
        InstallPhase::Verifying => 90,
        InstallPhase::Finished => 100,
    }
}

/// Progress never goes back: each step of a run reports percentages no
/// lower than any reported before and no higher than where it leaves the
/// run.
pub proof fn lemma_progress_never_goes_back(phase: InstallPhase, event: InstallEvent, config_path: Seq<char>)
    requires
        answers(phase, event),
    ensures
        last_percent(phase) <= last_percent(next_phase(phase, event)),
        forall|k: int| 0 <= k < step_reports(phase, event, config_path).len()
            ==> (#[trigger] step_reports(phase, event, config_path)[k] matches Report::Progress { percent, .. }
                ==> last_percent(phase) <= percent <= last_percent(next_phase(phase, event))),
{
}

/// A failed step ends the run: the one message reported is the error, and
/// the run then waits on nothing.
pub proof fn lemma_failure_ends_run(phase: InstallPhase, e: InstallerError, config_path: Seq<char>, pause_millis: u64)
    requires
        answers(phase, InstallEvent::StepDone(Err(e))),
    ensures
        next_phase(phase, InstallEvent::StepDone(Err(e))) == InstallPhase::Finished,
        step_reports(phase, InstallEvent::StepDone(Err(e)), config_path).len() == 1,
        step_reports(phase, InstallEvent::StepDone(Err(e)), config_path)[0] is Error,
        pending_action(InstallPhase::Finished, pause_millis) == InstallAction::Done,
{
}

/// A finished run stays finished and reports nothing more.
pub proof fn lemma_finished_is_final(event: InstallEvent)
    ensures
        !answers(InstallPhase::Finished, event),
{
}

/// Success is reported only when the verification succeeded, as the last
/// message, right after the complete stage at one hundred percent.
pub proof fn lemma_success_only_after_verification(phase: InstallPhase, event: InstallEvent, config_path: Seq<char>)
    requires
        answers(phase, event),
    ensures
        forall|k: int| 0 <= k < step_reports(phase, event, config_path).len()
            && #[trigger] step_reports(phase, event, config_path)[k] is Success
            ==> {
                &&& phase == InstallPhase::Verifying
                &&& event matches InstallEvent::StepDone(Ok(_))
                &&& k == step_reports(phase, event, config_path).len() - 1
                &&& k >= 1
                &&& step_reports(phase, event, config_path)[k - 1] == progress(InstallStage::Complete, 100, "Installation complete!"@, None)
                &&& next_phase(phase, event) == InstallPhase::Finished
            },
{
}

/// Whether a report ends a run: its success or its error.
pub open spec fn ends_run(r: Report) -> bool {
    r is Success || r is Error
}

/// The reports of a run in `phase` that the driver hands `events` in
/// turn: each event the run waits for reports its step; any other event
/// reports nothing and changes nothing.
pub open spec fn run_reports(phase: InstallPhase, events: Seq<InstallEvent>, config_path: Seq<char>) -> Seq<Report>
    decreases events.len(),
{
    if events.len() == 0 {
        Seq::empty()
    } else if answers(phase, events[0]) {
        step_reports(phase, events[0], config_path)
            + run_reports(next_phase(phase, events[0]), events.drop_first(), config_path)
    } else {
        run_reports(phase, events.drop_first(), config_path)
    }
}

/// The events a driver hands a fresh run that it carries to the end: the
/// start, the outcomes of writing the configuration and of generating the
/// hardware configuration, the six pauses, and the outcomes of installing
/// and of verifying.
pub open spec fn driven_events(
    write: Result<(), InstallerError>,
    hardware: Result<(), InstallerError>,
    install: Result<(), InstallerError>,
    verify: Result<(), InstallerError>,
) -> Seq<InstallEvent> {
    seq![
        InstallEvent::Begin,
        InstallEvent::StepDone(write),
        InstallEvent::StepDone(hardware),
        InstallEvent::Waited,
        InstallEvent::Waited,
        InstallEvent::Waited,
        InstallEvent::Waited,
        InstallEvent::Waited,
        InstallEvent::Waited,
        InstallEvent::StepDone(install),
        InstallEvent::StepDone(verify),
    ]
}

/// Within one step: its progress reports lie between where the run was and
/// where it goes, it reports progress at most once, and a report that ends
/// the run comes last and finishes the run.
proof fn lemma_step_shape(phase: InstallPhase, event: InstallEvent, config_path: Seq<char>)
    requires
        answers(phase, event),
    ensures
        last_percent(phase) <= last_percent(next_phase(phase, event)),
        forall|k: int| 0 <= k < step_reports(phase, event, config_path).len()
            ==> (#[trigger] step_reports(phase, event, config_path)[k] matches Report::Progress { percent, .. }
                ==> last_percent(phase) <= percent <= last_percent(next_phase(phase, event))),
        forall|j: int, k: int| 0 <= j < k < step_reports(phase, event, config_path).len()
            ==> !(#[trigger] step_reports(phase, event, config_path)[j] is Progress
                && #[trigger] step_reports(phase, event, config_path)[k] is Progress),
        forall|k: int| 0 <= k < step_reports(phase, event, config_path).len()
            && ends_run(#[trigger] step_reports(phase, event, config_path)[k])
            ==> k == step_reports(phase, event, config_path).len() - 1
                && next_phase(phase, event) == InstallPhase::Finished,
{
    lemma_progress_never_goes_back(phase, event, config_path);
}

/// A finished run reports nothing more, whatever it is handed.
proof fn lemma_finished_reports_nothing(events: Seq<InstallEvent>, config_path: Seq<char>)
    ensures
        run_reports(InstallPhase::Finished, events, config_path).len() == 0,
    decreases events.len(),
{
    if events.len() > 0 {
        lemma_finished_reports_nothing(events.drop_first(), config_path);
    }
}

/// Over a whole run, whatever the driver hands it: the percentages never
/// go back and never fall below where the run stood, and a success or an
/// error is the last report, with nothing after it.
pub proof fn lemma_run_in_order(phase: InstallPhase, events: Seq<InstallEvent>, config_path: Seq<char>)
    ensures
        forall|k: int| 0 <= k < run_reports(phase, events, config_path).len()
            ==> (#[trigger] run_reports(phase, events, config_path)[k] matches Report::Progress { percent, .. }
                ==> last_percent(phase) <= percent),
        forall|j: int, k: int| 0 <= j < k < run_reports(phase, events, config_path).len()
            ==> (#[trigger] run_reports(phase, events, config_path)[j] matches Report::Progress { percent: pj, .. }
                ==> (#[trigger] run_reports(phase, events, config_path)[k] matches Report::Progress { percent: pk, .. }
                    ==> pj <= pk)),
        forall|k: int| 0 <= k < run_reports(phase, events, config_path).len()
            && ends_run(#[trigger] run_reports(phase, events, config_path)[k])
            ==> k == run_reports(phase, events, config_path).len() - 1,
    decreases events.len(),
{
    if events.len() == 0 {
        return;
    }
    let e = events[0];
    let rest = events.drop_first();
    if !answers(phase, e) {
        lemma_run_in_order(phase, rest, config_path);
        return;
    }
    let next = next_phase(phase, e);
    let st = step_reports(phase, e, config_path);
    let t = run_reports(next, rest, config_path);
    let r = run_reports(phase, events, config_path);
    lemma_step_shape(phase, e, config_path);
    lemma_run_in_order(next, rest, config_path);
    if next == InstallPhase::Finished {
        lemma_finished_reports_nothing(rest, config_path);
    }
    assert(r == st + t);
    assert forall|k: int| 0 <= k < r.len() implies
        (#[trigger] r[k] matches Report::Progress { percent, .. } ==> last_percent(phase) <= percent) by {
        if k >= st.len() {
            assert(r[k] == t[k - st.len()]);
        } else {
            assert(r[k] == st[k]);
        }
    }
    assert forall|j: int, k: int| 0 <= j < k < r.len() implies
        (#[trigger] r[j] matches Report::Progress { percent: pj, .. }
            ==> (#[trigger] r[k] matches Report::Progress { percent: pk, .. } ==> pj <= pk)) by {
        if j >= st.len() {
            assert(r[j] == t[j - st.len()]);
            assert(r[k] == t[k - st.len()]);
        } else if k >= st.len() {
            assert(r[j] == st[j]);
            assert(r[k] == t[k - st.len()]);
        } else {
            assert(r[j] == st[j]);
            assert(r[k] == st[k]);
        }
    }
    assert forall|k: int| 0 <= k < r.len() && ends_run(#[trigger] r[k]) implies k == r.len() - 1 by {
        if k >= st.len() {
            assert(r[k] == t[k - st.len()]);
        } else {
            assert(r[k] == st[k]);
        }
    }
}

/// The reports of a run after a step that ends it: the step's own reports.
proof fn lemma_last_step(phase: InstallPhase, events: Seq<InstallEvent>, config_path: Seq<char>)
    requires
        events.len() > 0,
        answers(phase, events[0]),
        next_phase(phase, events[0]) == InstallPhase::Finished,
    ensures
        run_reports(phase, events, config_path) == step_reports(phase, events[0], config_path),
{
    lemma_finished_reports_nothing(events.drop_first(), config_path);
    assert(run_reports(phase, events, config_path) =~= step_reports(phase, events[0], config_path));
}

/// The reports of a run after a step that does not end it: the step's own
/// reports, then the rest of the run's.
proof fn lemma_next_step(phase: InstallPhase, events: Seq<InstallEvent>, config_path: Seq<char>)
    requires
        events.len() > 0,
        answers(phase, events[0]),
    ensures
        run_reports(phase, events, config_path) == step_reports(phase, events[0], config_path)
            + run_reports(next_phase(phase, events[0]), events.drop_first(), config_path),
{
}

/// The six progress reports of the installing pauses: 30 to 80 percent,
/// each naming its step.
pub open spec fn installing_reports() -> Seq<Report> {
    Seq::new(6, |k: int| progress(
        InstallStage::Installing,
        step_percent(k as u8),
        "Installing NixOS... "@ + decimal(step_percent(k as u8) as nat) + "%"@,
        Some("Installing system packages (step "@ + decimal((k + 1) as nat) + ")"@),
    ))
}

/// Every message of a run carried to the end by its driver, in order:
/// each stage's progress, each step's log line once it succeeded, and the
/// error of the first step that failed, which ends the run; after the last
/// step, the complete stage at one hundred percent and the success.
pub open spec fn driven_reports(
    write: Result<(), InstallerError>,
    hardware: Result<(), InstallerError>,
    install: Result<(), InstallerError>,
    verify: Result<(), InstallerError>,
    config_path: Seq<char>,
) -> Seq<Report> {
    let start = seq![progress(InstallStage::GeneratingConfig, 5, "Generating NixOS configuration..."@, None)];
    match write {
        Err(e) => start.push(Report::Error("Failed to write configuration: "@ + installer_error_text(e))),
        Ok(_) => start + seq![
            Report::Log("Configuration written to "@ + config_path),
            progress(InstallStage::GeneratingHardwareConfig, 20, "Generating hardware configuration..."@, None),
        ] + match hardware {
            Err(e) => seq![Report::Error("Failed to generate hardware configuration: "@ + installer_error_text(e))],
            Ok(_) => seq![
                Report::Log("Hardware configuration generated successfully"@),
                progress(InstallStage::Installing, 30, "Installing NixOS (this may take a while)..."@, None),
            ] + installing_reports() + match install {
                Err(e) => seq![Report::Error("Installation failed: "@ + installer_error_text(e))],
                Ok(_) => seq![
                    Report::Log("NixOS installation completed successfully"@),
                    progress(InstallStage::Verifying, 90, "Verifying installation..."@, None),
                ] + match verify {
                    Err(e) => seq![Report::Error("Installation verification failed: "@ + installer_error_text(e))],
                    Ok(_) => seq![
                        Report::Log("Installation verified successfully"@),
                        progress(InstallStage::Complete, 100, "Installation complete!"@, None),
                        Report::Success,
                    ],
                },
            },
        },
    }
}

/// The whole message sequence of a run carried to the end by its driver
/// is `driven_reports` of the four steps' outcomes.
pub proof fn lemma_driven_run_reports(
    write: Result<(), InstallerError>,
    hardware: Result<(), InstallerError>,
    install: Result<(), InstallerError>,
    verify: Result<(), InstallerError>,
    config_path: Seq<char>,
)
    ensures
        run_reports(InstallPhase::NotStarted, driven_events(write, hardware, install, verify), config_path)
            == driven_reports(write, hardware, install, verify, config_path),
{
    let p = config_path;
    let ev = driven_events(write, hardware, install, verify);
    let e1 = ev.drop_first();
    let e2 = e1.drop_first();
    let e3 = e2.drop_first();
    let e4 = e3.drop_first();
    let e5 = e4.drop_first();
    let e6 = e5.drop_first();
    let e7 = e6.drop_first();
    let e8 = e7.drop_first();
    let e9 = e8.drop_first();
    let e10 = e9.drop_first();
    assert(e1[0] == InstallEvent::StepDone(write));
    assert(e2[0] == InstallEvent::StepDone(hardware));
    assert(e3[0] == InstallEvent::Waited);
    assert(e4[0] == InstallEvent::Waited);
    assert(e5[0] == InstallEvent::Waited);
    assert(e6[0] == InstallEvent::Waited);
    assert(e7[0] == InstallEvent::Waited);
    assert(e8[0] == InstallEvent::Waited);
    assert(e9[0] == InstallEvent::StepDone(install));
    assert(e10[0] == InstallEvent::StepDone(verify));
    assert(e10.len() == 1);
    let d = driven_reports(write, hardware, install, verify, p);
    lemma_next_step(InstallPhase::NotStarted, ev, p);
    let s0 = step_reports(InstallPhase::NotStarted, ev[0], p);
    if write is Err {
        lemma_last_step(InstallPhase::WritingConfig, e1, p);
        assert(run_reports(InstallPhase::NotStarted, ev, p) =~= d);
        return;
    }
    lemma_next_step(InstallPhase::WritingConfig, e1, p);
    let s1 = step_reports(InstallPhase::WritingConfig, e1[0], p);
    if hardware is Err {
        lemma_last_step(InstallPhase::GeneratingHardware, e2, p);
        assert(run_reports(InstallPhase::NotStarted, ev, p) =~= d);
        return;
    }
    lemma_next_step(InstallPhase::GeneratingHardware, e2, p);
    lemma_next_step(InstallPhase::Pausing(0), e3, p);
    lemma_next_step(InstallPhase::Pausing(1), e4, p);
    lemma_next_step(InstallPhase::Pausing(2), e5, p);
    lemma_next_step(InstallPhase::Pausing(3), e6, p);
    lemma_next_step(InstallPhase::Pausing(4), e7, p);
    lemma_next_step(InstallPhase::Pausing(5), e8, p);
    let pauses = step_reports(InstallPhase::Pausing(0), e3[0], p) + step_reports(InstallPhase::Pausing(1), e4[0], p)
        + step_reports(InstallPhase::Pausing(2), e5[0], p) + step_reports(InstallPhase::Pausing(3), e6[0], p)
        + step_reports(InstallPhase::Pausing(4), e7[0], p) + step_reports(InstallPhase::Pausing(5), e8[0], p);
    assert(pauses =~= installing_reports());
    if install is Err {
        lemma_last_step(InstallPhase::Installing, e9, p);
        assert(run_reports(InstallPhase::NotStarted, ev, p) =~= d);
        return;
    }
    lemma_next_step(InstallPhase::Installing, e9, p);
    lemma_last_step(InstallPhase::Verifying, e10, p);
    assert(run_reports(InstallPhase::NotStarted, ev, p) =~= d);
}

/// A run carried to the end by its driver reports exactly one success or
/// error, as its last report: success when writing the configuration,
/// generating the hardware configuration, installing and verifying all
/// succeeded, an error otherwise; its percentages never go back.
pub proof fn lemma_driven_run(
    write: Result<(), InstallerError>,
    hardware: Result<(), InstallerError>,
    install: Result<(), InstallerError>,
    verify: Result<(), InstallerError>,
    config_path: Seq<char>,
)
    ensures
        ({
            let r = run_reports(InstallPhase::NotStarted, driven_events(write, hardware, install, verify), config_path);
            &&& r.len() > 0
            &&& ends_run(r.last())
            &&& (r.last() is Success <==> (write is Ok && hardware is Ok && install is Ok && verify is Ok))
            &&& forall|k: int| 0 <= k < r.len() && ends_run(#[trigger] r[k]) ==> k == r.len() - 1
            &&& forall|j: int, k: int| 0 <= j < k < r.len()
                ==> (#[trigger] r[j] matches Report::Progress { percent: pj, .. }
                    ==> (#[trigger] r[k] matches Report::Progress { percent: pk, .. } ==> pj <= pk))
        }),
{
    let ev = driven_events(write, hardware, install, verify);
    lemma_run_in_order(InstallPhase::NotStarted, ev, config_path);
    let e1 = ev.drop_first();
    let e2 = e1.drop_first();
    let e3 = e2.drop_first();
    let e4 = e3.drop_first();
    let e5 = e4.drop_first();
    let e6 = e5.drop_first();
    let e7 = e6.drop_first();
    let e8 = e7.drop_first();
    let e9 = e8.drop_first();
    let e10 = e9.drop_first();
    assert(e1[0] == InstallEvent::StepDone(write));
    assert(e2[0] == InstallEvent::StepDone(hardware));
    assert(e3[0] == InstallEvent::Waited);
    assert(e4[0] == InstallEvent::Waited);
    assert(e5[0] == InstallEvent::Waited);
    assert(e6[0] == InstallEvent::Waited);
    assert(e7[0] == InstallEvent::Waited);
    assert(e8[0] == InstallEvent::Waited);
    assert(e9[0] == InstallEvent::StepDone(install));
    assert(e10[0] == InstallEvent::StepDone(verify));
    assert(e10.len() == 1);
    let p = config_path;
    lemma_next_step(InstallPhase::NotStarted, ev, p);
    let r0 = step_reports(InstallPhase::NotStarted, ev[0], p);
    let r = run_reports(InstallPhase::NotStarted, ev, p);
    if write is Err {
        lemma_last_step(InstallPhase::WritingConfig, e1, p);
        assert(r == r0 + step_reports(InstallPhase::WritingConfig, e1[0], p));
        return;
    }
    lemma_next_step(InstallPhase::WritingConfig, e1, p);
    if hardware is Err {
        lemma_last_step(InstallPhase::GeneratingHardware, e2, p);
        return;
    }
    lemma_next_step(InstallPhase::GeneratingHardware, e2, p);
    lemma_next_step(InstallPhase::Pausing(0), e3, p);
    lemma_next_step(InstallPhase::Pausing(1), e4, p);
    lemma_next_step(InstallPhase::Pausing(2), e5, p);
    lemma_next_step(InstallPhase::Pausing(3), e6, p);
    lemma_next_step(InstallPhase::Pausing(4), e7, p);
    lemma_next_step(InstallPhase::Pausing(5), e8, p);
    if install is Err {
        lemma_last_step(InstallPhase::Installing, e9, p);
        return;
    }
    lemma_next_step(InstallPhase::Installing, e9, p);
    lemma_last_step(InstallPhase::Verifying, e10, p);
}

/// How an executor's error reads where it is quoted: a command's failure
/// as the command error says it, anything else as the installer error
/// says it.
pub open spec fn quoted_error(e: InstallerError) -> Seq<char> {
    match e {
        InstallerError::Command(c) => command_error_text(c),
        _ => installer_error_text(e),
    }
}

/// How an executor's error reads where it is quoted.
fn quote_error(e: &InstallerError) -> (r: String)
    ensures
        r@ == quoted_error(*e),
{
    match e {
        InstallerError::Command(c) => c.to_string(),
        _ => e.to_string(),
    }
}

/// What running the hardware detection came to: a configuration error
/// quoting why it could not run, or its error output when it failed.
pub fn hardware_config_result(run: Result<CommandOutput, InstallerError>) -> (r: Result<(), InstallerError>)
    ensures
        match run {
            Err(e) => r matches Err(InstallerError::Config(ConfigError::GenerationFailed(m))) && m@ == quoted_error(e),
            Ok(o) => if o.success {
                r is Ok
            } else {
                r matches Err(InstallerError::Config(ConfigError::GenerationFailed(m))) && m@ == o.stderr@
            },
        },
{
    match run {
        Err(e) => Err(InstallerError::Config(ConfigError::GenerationFailed(quote_error(&e)))),
        Ok(o) => if o.success {
            Ok(())
        } else {
            Err(InstallerError::Config(ConfigError::GenerationFailed(o.stderr)))
        },
    }
}

/// What running the installer command came to: a failure of
/// `nixos-install` with code -1 quoting why it could not run, or with its
/// exit code and error output when it failed.
pub fn install_result(run: Result<CommandOutput, InstallerError>) -> (r: Result<(), InstallerError>)
    ensures
        match run {
            Err(e) => r matches Err(InstallerError::Command(CommandError::ExecutionFailed { command, code, stderr }))
                && command@ == "nixos-install"@ && code == -1 && stderr@ == quoted_error(e),
            Ok(o) => if o.success {
                r is Ok
            } else {
                r matches Err(InstallerError::Command(CommandError::ExecutionFailed { command, code, stderr }))
                    && command@ == "nixos-install"@ && code == o.exit_code && stderr@ == o.stderr@
            },
        },
{
    match run {
        Err(e) => Err(InstallerError::Command(CommandError::ExecutionFailed {
            command: String::from_str("nixos-install"),
            code: -1,
            stderr: quote_error(&e),
        })),
        Ok(o) => if o.success {
            Ok(())
        } else {
            Err(InstallerError::Command(CommandError::ExecutionFailed {
                command: String::from_str("nixos-install"),
                code: o.exit_code,
                stderr: o.stderr,
            }))
        },
    }
}

/// What checking an installation under `root_path` came to, given which of
/// its parts exist: the configuration file, the hardware configuration
/// file, and the boot directory, checked in that order.
pub fn verification_result(root_path: &str, config_exists: bool, hardware_config_exists: bool, boot_exists: bool) -> (r: Result<(), InstallerError>)
    ensures
        !config_exists ==> (r matches Err(InstallerError::Config(ConfigError::ReadFailed { path, reason }))
            && path@ == path_under(root_path@, "etc/nixos/configuration.nix"@)
            && reason@ == "Configuration file not found"@),
        config_exists && !hardware_config_exists ==> (r matches Err(InstallerError::Config(ConfigError::ReadFailed { path, reason }))
            && path@ == path_under(root_path@, "etc/nixos/hardware-configuration.nix"@)
            && reason@ == "Hardware configuration file not found"@),
        config_exists && hardware_config_exists && !boot_exists ==> (r matches Err(InstallerError::Other(m))
            && m@ == "Boot directory not found after installation"@),
        config_exists && hardware_config_exists && boot_exists ==> r is Ok,
{
    if !config_exists {
        return Err(InstallerError::Config(ConfigError::ReadFailed {
            path: join_path(root_path, "etc/nixos/configuration.nix"),
            reason: String::from_str("Configuration file not found"),
        }));
    }
    if !hardware_config_exists {
        return Err(InstallerError::Config(ConfigError::ReadFailed {
            path: join_path(root_path, "etc/nixos/hardware-configuration.nix"),
            reason: String::from_str("Hardware configuration file not found"),
        }));
    }
    if !boot_exists {
        return Err(InstallerError::other("Boot directory not found after installation"));
    }
    Ok(())
}

} // verus!

//! The build run as a state machine. The caller performs each action and
//! hands back what came of it; the session decides what is done next and
//! keeps one result per application.

use crate::failure::{Failure, FailureView, Subprocess, SubprocessView};
use crate::manifest::{views, Application, ApplicationView};
use crate::report::{exit_code, exit_code_of, result_views, BuildResult, BuildResultView};
use crate::text::{contains, occurs_in, views_of};
use crate::toolchain::{
    any_cargo_toml, any_tsconfig, build_command, build_dir, build_dir_of, build_of,
    install_command, install_of, manager_of_locks, missing, missing_tools, needs_assemblyscript,
    needs_rust, resolve_package_manager, AppKind, Command, CommandView, MissingTool,
    PackageManager, Probe, Tools, WorkDir,
};
use vstd::prelude::*;

verus! {

/// What is known of the project before the run starts.
#[derive(Clone, Copy, Debug, PartialEq, Eq, Structural)]
pub struct Project {
    /// The tool checks are skipped and every tool is taken to be there.
    pub skip_checks: bool,
    /// The project directory holds a `package.json`.
    pub has_package_json: bool,
    /// The package manager that the lock files tell.
    pub manager: PackageManager,
    /// The project directory holds a `node_modules` directory.
    pub dependencies_installed: bool,
    /// Some chosen application has a `Cargo.toml`.
    pub needs_rust: bool,
    /// Some chosen application has a `tsconfig.json`.
    pub needs_assemblyscript: bool,
}

/// What the project directory holds.
#[derive(Clone, Copy, Debug, PartialEq, Eq, Structural)]
pub struct ProjectFiles {
    pub package_json: bool,
    pub yarn_lock: bool,
    pub pnpm_lock: bool,
    pub package_lock: bool,
    pub node_modules: bool,
}

impl Project {
    /// What is known of a project from the files in its directory and from
    /// what was found at the root directories of the chosen applications.
    pub open spec fn surveyed(skip_checks: bool, files: ProjectFiles, probes: Seq<Probe>) -> Project {
        Project {
            skip_checks,
            has_package_json: files.package_json,
            manager: manager_of_locks(files.yarn_lock, files.pnpm_lock),
            dependencies_installed: files.node_modules,
            needs_rust: any_cargo_toml(probes),
            needs_assemblyscript: any_tsconfig(probes),
        }
    }

    /// Gathers what is known of a project before its run starts.
    pub fn survey(skip_checks: bool, files: ProjectFiles, probes: &Vec<Probe>) -> (project: Project)
        ensures
            project == Project::surveyed(skip_checks, files, probes@),
    {
        Project {
            skip_checks,
            has_package_json: files.package_json,
            manager: resolve_package_manager(files.yarn_lock, files.pnpm_lock, files.package_lock),
            dependencies_installed: files.node_modules,
            needs_rust: needs_rust(probes),
            needs_assemblyscript: needs_assemblyscript(probes),
        }
    }
}

/// Where the run stands.
#[derive(Clone, Copy, Debug, PartialEq, Eq, Structural)]
pub enum Phase {
    /// The tools are being looked up.
    Tools,
    /// The user is asked whether to go on without the missing tools.
    ToolsQuestion,
    /// The user is asked whether to install the dependencies.
    InstallQuestion,
    /// The dependencies are being installed.
    Installing,
    /// The user is asked whether to go on without the dependencies.
    ProceedQuestion,
    /// The next application's directory is being looked at.
    Detecting,
    /// The next application, of this kind, is being built.
    Building(AppKind),
    /// The last result is being shown.
    Reporting,
    /// Every application has its result.
    Finished,
    /// The run was given up.
    Aborted,
}

/// How a subprocess ended.
#[derive(Debug, PartialEq, Eq)]
pub enum ProcessEnd {
    /// It ran and exited, with status 0 where `success` holds.
    Exited { success: bool },
    /// It could not be started; the field is the error's text.
    NotStarted(String),
}

/// `ProcessEnd` over texts.
pub enum ProcessEndView {
    Exited { success: bool },
    NotStarted(Seq<char>),
}

impl View for ProcessEnd {
    type V = ProcessEndView;

    open spec fn view(&self) -> ProcessEndView {
        match self {
            ProcessEnd::Exited { success } => ProcessEndView::Exited { success: *success },
            ProcessEnd::NotStarted(error) => ProcessEndView::NotStarted(error@),
        }
    }
}

impl ProcessEndView {
    /// The process ran and exited with status 0.
    pub open spec fn succeeded(self) -> bool {
        self == (ProcessEndView::Exited { success: true })
    }

    /// The error's text where the process could not be started, else
    /// nothing.
    pub open spec fn error_text(self) -> Seq<char> {
        match self {
            ProcessEndView::NotStarted(error) => error,
            ProcessEndView::Exited { .. } => Seq::empty(),
        }
    }
}

/// What the caller reports back.
#[derive(Debug, PartialEq, Eq)]
pub enum Event {
    /// The tools were looked up.
    ToolsFound(Tools),
    /// The user answered the question.
    Answer(bool),
    /// The install command ended.
    Installed(ProcessEnd),
    /// The application's directory was looked at.
    Probed(Probe),
    /// The build command ended after `elapsed_ms` milliseconds.
    Built { end: ProcessEnd, elapsed_ms: u64 },
    /// The result was shown.
    Continue,
}

/// `Event` over texts.
pub enum EventView {
    ToolsFound(Tools),
    Answer(bool),
    Installed(ProcessEndView),
    Probed(Probe),
    Built { end: ProcessEndView, elapsed_ms: u64 },
    Continue,
}

impl View for Event {
    type V = EventView;

    open spec fn view(&self) -> EventView {
        match self {
            Event::ToolsFound(tools) => EventView::ToolsFound(*tools),
            Event::Answer(yes) => EventView::Answer(*yes),
            Event::Installed(end) => EventView::Installed(end@),
            Event::Probed(probe) => EventView::Probed(*probe),
            Event::Built { end, elapsed_ms } => EventView::Built {
                end: end@,
                elapsed_ms: *elapsed_ms,
            },
            Event::Continue => EventView::Continue,
        }
    }
}

/// A question to the user. Each is answered with yes or no.
#[derive(Debug, PartialEq, Eq)]
pub enum Question {
    /// Tools are missing: go on anyway? Asked with no as the default.
    ContinueWithoutTools(Vec<MissingTool>),
    /// Install the dependencies now? Asked with yes as the default.
    InstallDependencies,
    /// Go on without the dependencies? Asked with no as the default.
    ContinueWithoutDependencies,
}

/// `Question` over sequences.
pub enum QuestionView {
    ContinueWithoutTools(Seq<MissingTool>),
    InstallDependencies,
    ContinueWithoutDependencies,
}

impl View for Question {
    type V = QuestionView;

    open spec fn view(&self) -> QuestionView {
        match self {
            Question::ContinueWithoutTools(tools) => QuestionView::ContinueWithoutTools(tools@),
            Question::InstallDependencies => QuestionView::InstallDependencies,
            Question::ContinueWithoutDependencies => QuestionView::ContinueWithoutDependencies,
        }
    }
}

/// What helps after a failed build.
#[derive(Clone, Copy, Debug, PartialEq, Eq, Structural)]
pub enum Hint {
    InstallRust,
    InstallCargoComponent,
    AddWasmTarget,
    InstallNode,
    InstallDependencies,
}

/// Why an application got the result it has.
#[derive(Clone, Copy, Debug, PartialEq, Eq, Structural)]
pub enum Outcome {
    /// Its root directory is not there; no build was run.
    MissingDirectory,
    /// Its kind is unknown; no build was run.
    UnknownKind,
    /// A tool that its kind needs is missing; no build was run.
    Blocked { tool: MissingTool, hint: Option<Hint> },
    /// The build command did not end with status 0.
    Failed { hint: Option<Hint> },
    /// The build command ended with status 0.
    Built,
}

/// What the caller is to do next.
#[derive(Debug, PartialEq, Eq)]
pub enum Action {
    /// Look the tools up and report `ToolsFound`.
    LookUpTools,
    /// Ask the user and report `Answer`.
    Ask(Question),
    /// Run the install command in the project directory and report
    /// `Installed`.
    Install(Command),
    /// Look at the root directory of the application at this index and
    /// report `Probed`.
    Probe(usize),
    /// Run the build command for the application at `index` in `dir` and
    /// report `Built`.
    Run { index: usize, command: Command, dir: WorkDir },
    /// Show the result of the application at `index` and report `Continue`.
    Report { index: usize, outcome: Outcome },
    /// Show the summary and exit with this code.
    Finish { exit_code: i32 },
    /// Give up with this failure.
    Abort(Failure),
    /// The event does not answer the last action: nothing changed.
    Ignored,
}

/// `Action` over texts.
pub enum ActionView {
    LookUpTools,
    Ask(QuestionView),
    Install(CommandView),
    Probe(usize),
    Run { index: usize, command: CommandView, dir: WorkDir },
    Report { index: usize, outcome: Outcome },
    Finish { exit_code: i32 },
    Abort(FailureView),
    Ignored,
}

impl View for Action {
    type V = ActionView;

    open spec fn view(&self) -> ActionView {
        match self {
            Action::LookUpTools => ActionView::LookUpTools,
            Action::Ask(question) => ActionView::Ask(question@),
            Action::Install(command) => ActionView::Install(command@),
            Action::Probe(index) => ActionView::Probe(*index),
            Action::Run { index, command, dir } => ActionView::Run {
                index: *index,
                command: command@,
                dir: *dir,
            },
            Action::Report { index, outcome } => ActionView::Report {
                index: *index,
                outcome: *outcome,
            },
            Action::Finish { exit_code } => ActionView::Finish { exit_code: *exit_code },
            Action::Abort(failure) => ActionView::Abort(failure@),
            Action::Ignored => ActionView::Ignored,
        }
    }
}

impl MissingTool {
    /// The error shown where a build cannot be run for want of the tool.
    pub open spec fn complaint(self) -> Seq<char> {
        match self {
            MissingTool::RustToolchain =>
                "Rust toolchain not found. Please install Rust from https://rustup.rs/"@,
            MissingTool::CargoComponent =>
                "cargo-component not found. Please install with: cargo install cargo-component"@,
            MissingTool::Node =>
                "Node.js not found. Please install Node.js from https://nodejs.org/"@,
            MissingTool::Npm => "npm not found. It usually comes with Node.js installation."@,
        }
    }

    /// The error shown where a build cannot be run for want of the tool.
    pub fn not_found(&self) -> (out: &'static str)
        ensures
            out@ == self.complaint(),
    {
        match self {
            MissingTool::RustToolchain =>
                "Rust toolchain not found. Please install Rust from https://rustup.rs/",
            MissingTool::CargoComponent =>
                "cargo-component not found. Please install with: cargo install cargo-component",
            MissingTool::Node =>
                "Node.js not found. Please install Node.js from https://nodejs.org/",
            MissingTool::Npm => "npm not found. It usually comes with Node.js installation.",
        }
    }
}

/// The first tool that an application of this kind needs and that is not
/// there.
pub open spec fn blocking(kind: AppKind, tools: Tools) -> Option<MissingTool> {
    match kind {
        AppKind::Rust => if !tools.cargo {
            Some(MissingTool::RustToolchain)
        } else if !tools.cargo_component {
            Some(MissingTool::CargoComponent)
        } else {
            None
        },
        AppKind::AssemblyScript => if !tools.node {
            Some(MissingTool::Node)
        } else if !tools.npm {
            Some(MissingTool::Npm)
        } else {
            None
        },
        AppKind::Unknown => None,
    }
}

/// What helps after a build of this kind failed with this error: a missing
/// tool comes first, then what the error's text tells.
pub open spec fn hint_of(kind: AppKind, tools: Tools, error: Seq<char>) -> Option<Hint> {
    match kind {
        AppKind::Rust => if !tools.cargo {
            Some(Hint::InstallRust)
        } else if !tools.cargo_component {
            Some(Hint::InstallCargoComponent)
        } else if occurs_in(error, "unknown target"@) {
            Some(Hint::AddWasmTarget)
        } else {
            None
        },
        AppKind::AssemblyScript => if !tools.node {
            Some(Hint::InstallNode)
        } else if occurs_in(error, "Cannot find module"@) {
            Some(Hint::InstallDependencies)
        } else {
            None
        },
        AppKind::Unknown => None,
    }
}

/// The first tool that an application of this kind needs and that is not
/// there.
pub fn blocking_tool(kind: AppKind, tools: Tools) -> (tool: Option<MissingTool>)
    ensures
        tool == blocking(kind, tools),
{
    match kind {
        AppKind::Rust => if !tools.cargo {
            Some(MissingTool::RustToolchain)
        } else if !tools.cargo_component {
            Some(MissingTool::CargoComponent)
        } else {
            None
        },
        AppKind::AssemblyScript => if !tools.node {
            Some(MissingTool::Node)
        } else if !tools.npm {
            Some(MissingTool::Npm)
        } else {
            None
        },
        AppKind::Unknown => None,
    }
}

/// What helps after a build of this kind failed with this error.
pub fn hint(kind: AppKind, tools: Tools, error: &str) -> (out: Option<Hint>)
    ensures
        out == hint_of(kind, tools, error@),
{
    match kind {
        AppKind::Rust => if !tools.cargo {
            Some(Hint::InstallRust)
        } else if !tools.cargo_component {
            Some(Hint::InstallCargoComponent)
        } else if contains(error, "unknown target") {
            Some(Hint::AddWasmTarget)
        } else {
            None
        },
        AppKind::AssemblyScript => if !tools.node {
            Some(Hint::InstallNode)
        } else if contains(error, "Cannot find module") {
            Some(Hint::InstallDependencies)
        } else {
            None
        },
        AppKind::Unknown => None,
    }
}

/// The state of a run, over texts.
pub struct SessionView {
    pub project: Project,
    /// The labels of the chosen applications, in the manifest's order.
    pub labels: Seq<Seq<char>>,
    pub tools: Tools,
    pub phase: Phase,
    /// The results so far, one for each application that is done.
    pub results: Seq<BuildResultView>,
}

/// The labels of `apps`.
pub open spec fn labels_of(apps: Seq<ApplicationView>) -> Seq<Seq<char>> {
    apps.map_values(|a: ApplicationView| a.label())
}

impl SessionView {
    /// The results are those of the first applications, in order, and the
    /// phase fits their number.
    pub open spec fn wf(self) -> bool {
        &&& self.results.len() <= self.labels.len()
        &&& forall|i: int|
            0 <= i < self.results.len() ==> (#[trigger] self.results[i]).app == self.labels[i]
        &&& (self.phase == Phase::Detecting || self.phase is Building) ==> self.results.len()
            < self.labels.len()
        &&& self.phase == Phase::Reporting ==> self.results.len() > 0
        &&& self.phase == Phase::Finished ==> self.results.len() == self.labels.len()
    }

    /// The package manager in use; none without a `package.json`.
    pub open spec fn manager(self) -> Option<PackageManager> {
        if self.project.has_package_json {
            Some(self.project.manager)
        } else {
            None
        }
    }

    /// The same state in another phase.
    pub open spec fn in_phase(self, phase: Phase) -> SessionView {
        SessionView { phase, ..self }
    }

    /// The dependencies are needed and not installed.
    pub open spec fn wants_install(self) -> bool {
        self.project.has_package_json && self.project.needs_assemblyscript
            && !self.project.dependencies_installed
    }

    /// Turns to the next application, or finishes where none is left.
    pub open spec fn next_application(self) -> (SessionView, ActionView) {
        if self.results.len() < self.labels.len() {
            (self.in_phase(Phase::Detecting), ActionView::Probe(self.results.len() as usize))
        } else {
            (
                self.in_phase(Phase::Finished),
                ActionView::Finish { exit_code: exit_code_of(self.results) },
            )
        }
    }

    /// Sees to the dependencies once the tools are settled.
    pub open spec fn dependencies(self) -> (SessionView, ActionView) {
        if self.wants_install() {
            if self.project.skip_checks {
                (
                    self.in_phase(Phase::Installing),
                    ActionView::Install(install_of(self.manager())),
                )
            } else {
                (
                    self.in_phase(Phase::InstallQuestion),
                    ActionView::Ask(QuestionView::InstallDependencies),
                )
            }
        } else {
            self.next_application()
        }
    }

    /// Records the result of the application in turn and has it shown.
    pub open spec fn recorded(self, success: bool, kind: AppKind, elapsed_ms: u64, outcome: Outcome)
        -> (SessionView, ActionView) {
        let index = self.results.len() as int;
        (
            SessionView {
                phase: Phase::Reporting,
                results: self.results.push(
                    BuildResultView { app: self.labels[index], success, kind, elapsed_ms },
                ),
                ..self
            },
            ActionView::Report { index: index as usize, outcome },
        )
    }

    /// What a look at the directory of the application in turn leads to.
    pub open spec fn detected(self, probe: Probe) -> (SessionView, ActionView) {
        let kind = probe.kind();
        let index = self.results.len() as int;
        if !probe.dir_exists {
            self.recorded(false, AppKind::Unknown, 0, Outcome::MissingDirectory)
        } else if kind == AppKind::Unknown {
            self.recorded(false, AppKind::Unknown, 0, Outcome::UnknownKind)
        } else {
            match blocking(kind, self.tools) {
                Some(tool) => self.recorded(
                    false,
                    kind,
                    0,
                    Outcome::Blocked { tool, hint: hint_of(kind, self.tools, tool.complaint()) },
                ),
                None => (
                    self.in_phase(Phase::Building(kind)),
                    ActionView::Run {
                        index: index as usize,
                        command: build_of(kind, self.manager(), self.labels[index])->Some_0,
                        dir: build_dir_of(kind),
                    },
                ),
            }
        }
    }

    /// What the end of the install command leads to.
    pub open spec fn installed(self, end: ProcessEndView) -> (SessionView, ActionView) {
        match end {
            ProcessEndView::Exited { success: true } => self.next_application(),
            ProcessEndView::Exited { success: false } => (
                self.in_phase(Phase::Aborted),
                ActionView::Abort(FailureView::SubprocessFailed(SubprocessView::InstallFailed)),
            ),
            ProcessEndView::NotStarted(_) => (
                self.in_phase(Phase::Aborted),
                ActionView::Abort(
                    FailureView::SubprocessFailed(
                        SubprocessView::InstallNotStarted(
                            match self.manager() {
                                Some(manager) => manager.program(),
                                None => Seq::empty(),
                            },
                        ),
                    ),
                ),
            ),
        }
    }

    /// The state and the action that follow on `event`. An event that does
    /// not answer the last action changes nothing.
    pub open spec fn next(self, event: EventView) -> (SessionView, ActionView) {
        match (self.phase, event) {
            (Phase::Tools, EventView::ToolsFound(tools)) => {
                let known = SessionView { tools, ..self };
                let lacking = missing(
                    self.project.needs_rust,
                    self.project.needs_assemblyscript,
                    tools,
                );
                if lacking.len() > 0 {
                    (
                        known.in_phase(Phase::ToolsQuestion),
                        ActionView::Ask(QuestionView::ContinueWithoutTools(lacking)),
                    )
                } else {
                    known.dependencies()
                }
            },
            (Phase::ToolsQuestion, EventView::Answer(yes)) => if yes {
                self.dependencies()
            } else {
                (self.in_phase(Phase::Aborted), ActionView::Abort(FailureView::ToolchainMissing))
            },
            (Phase::InstallQuestion, EventView::Answer(yes)) => if yes {
                (
                    self.in_phase(Phase::Installing),
                    ActionView::Install(install_of(self.manager())),
                )
            } else {
                (
                    self.in_phase(Phase::ProceedQuestion),
                    ActionView::Ask(QuestionView::ContinueWithoutDependencies),
                )
            },
            (Phase::ProceedQuestion, EventView::Answer(yes)) => if yes {
                self.next_application()
            } else {
                (
                    self.in_phase(Phase::Aborted),
                    ActionView::Abort(FailureView::DependenciesMissing),
                )
            },
            (Phase::Installing, EventView::Installed(end)) => self.installed(end),
            (Phase::Detecting, EventView::Probed(probe)) => self.detected(probe),
            (Phase::Building(kind), EventView::Built { end, elapsed_ms }) => if end.succeeded() {
                self.recorded(true, kind, elapsed_ms, Outcome::Built)
            } else {
                self.recorded(
                    false,
                    kind,
                    elapsed_ms,
                    Outcome::Failed { hint: hint_of(kind, self.tools, end.error_text()) },
                )
            },
            (Phase::Reporting, EventView::Continue) => self.next_application(),
            _ => (self, ActionView::Ignored),
        }
    }
}

/// The state and the first action of a run: the tools are looked up unless
/// the checks are skipped, in which case every tool counts as found.
pub open spec fn begin(project: Project, labels: Seq<Seq<char>>) -> (SessionView, ActionView) {
    let fresh = SessionView {
        project,
        labels,
        tools: Tools { node: true, npm: true, cargo: true, cargo_component: true },
        phase: Phase::Tools,
        results: Seq::empty(),
    };
    if project.skip_checks {
        fresh.dependencies()
    } else {
        (fresh, ActionView::LookUpTools)
    }
}

/// The state after a run of events, each answered by `next`.
pub open spec fn after(state: SessionView, events: Seq<EventView>) -> SessionView
    decreases events.len(),
{
    if events.len() == 0 {
        state
    } else {
        after(state, events.drop_last()).next(events.last()).0
    }
}

/// Where the tool check finds nothing missing, no build is blocked for want
/// of a tool.
pub proof fn lemma_passing_check_blocks_nothing(probes: Seq<Probe>, tools: Tools, at: int)
    requires
        0 <= at < probes.len(),
        missing(any_cargo_toml(probes), any_tsconfig(probes), tools).len() == 0,
    ensures
        blocking(probes[at].kind(), tools) is None,
{
    let kind = probes[at].kind();
    if kind == AppKind::Rust {
        assert(probes[at].has_cargo_toml);
        assert(any_cargo_toml(probes));
    }
    if kind == AppKind::AssemblyScript {
        assert(probes[at].has_tsconfig);
        assert(any_tsconfig(probes));
    }
}

/// A step leaves the list of applications and the project as they are.
pub proof fn lemma_next_keeps_applications(state: SessionView, event: EventView)
    ensures
        state.next(event).0.labels == state.labels,
        state.next(event).0.project == state.project,
{
}

/// A step keeps a well-formed state well-formed.
pub proof fn lemma_next_keeps_wf(state: SessionView, event: EventView)
    requires
        state.wf(),
    ensures
        state.next(event).0.wf(),
{
}

/// A run starts in a well-formed state.
pub proof fn lemma_begin_wf(project: Project, labels: Seq<Seq<char>>)
    ensures
        begin(project, labels).0.wf(),
        begin(project, labels).0.labels == labels,
        begin(project, labels).0.results.len() == 0,
{
}

/// A run over every application of a manifest with N of them, once it
/// finishes, has exactly N results.
pub proof fn lemma_unfiltered_run_has_n_results(
    apps: Seq<ApplicationView>,
    project: Project,
    events: Seq<EventView>,
)
    requires
        apps.len() > 0,
        after(
            begin(project, labels_of(crate::manifest::selection(apps, None)->Ok_0)).0,
            events,
        ).phase == Phase::Finished,
    ensures
        crate::manifest::selection(apps, None) is Ok,
        after(
            begin(project, labels_of(crate::manifest::selection(apps, None)->Ok_0)).0,
            events,
        ).results.len() == apps.len(),
{
    lemma_finished_run_has_every_result(project, labels_of(apps), events);
}

/// A run over the one application that answers to the filter, once it
/// finishes, has exactly one result, under that application's label.
pub proof fn lemma_filtered_run_has_one_result(
    apps: Seq<ApplicationView>,
    wanted: Seq<char>,
    at: int,
    project: Project,
    events: Seq<EventView>,
)
    requires
        0 <= at < apps.len(),
        apps[at].answers_to(wanted),
        forall|i: int| 0 <= i < apps.len() && i != at ==> !(#[trigger] apps[i]).answers_to(wanted),
        after(
            begin(project, labels_of(crate::manifest::selection(apps, Some(wanted))->Ok_0)).0,
            events,
        ).phase == Phase::Finished,
    ensures
        crate::manifest::selection(apps, Some(wanted)) is Ok,
        after(
            begin(project, labels_of(crate::manifest::selection(apps, Some(wanted))->Ok_0)).0,
            events,
        ).results.len() == 1,
        after(
            begin(project, labels_of(crate::manifest::selection(apps, Some(wanted))->Ok_0)).0,
            events,
        ).results[0].app == apps[at].label(),
{
    crate::manifest::lemma_filter_selects_the_one(apps, wanted, at);
    let chosen = seq![apps[at]];
    lemma_finished_run_has_every_result(project, labels_of(chosen), events);
    assert(labels_of(chosen)[0] == apps[at].label());
}

/// A run over N applications that finishes has exactly N results, the i-th
/// for the i-th application, whatever the events were.
pub proof fn lemma_finished_run_has_every_result(
    project: Project,
    labels: Seq<Seq<char>>,
    events: Seq<EventView>,
)
    requires
        after(begin(project, labels).0, events).phase == Phase::Finished,
    ensures
        after(begin(project, labels).0, events).results.len() == labels.len(),
        forall|i: int|
            0 <= i < labels.len() ==> (#[trigger] after(
                begin(project, labels).0,
                events,
            ).results[i]).app == labels[i],
{
    lemma_begin_wf(project, labels);
    lemma_after_keeps_wf(begin(project, labels).0, events);
}

/// A directory without either marker is of unknown kind: its application
/// gets a failed result, no build is run, and the run goes on.
pub proof fn lemma_unmarked_directory_is_skipped(state: SessionView, probe: Probe)
    requires
        state.wf(),
        state.phase == Phase::Detecting,
        !probe.has_cargo_toml,
        !probe.has_tsconfig,
    ensures
        probe.kind() == AppKind::Unknown,
        state.next(EventView::Probed(probe)).0.results == state.results.push(
            BuildResultView {
                app: state.labels[state.results.len() as int],
                success: false,
                kind: AppKind::Unknown,
                elapsed_ms: 0,
            },
        ),
        state.next(EventView::Probed(probe)).0.phase == Phase::Reporting,
        state.next(EventView::Probed(probe)).1 is Report,
        state.next(EventView::Probed(probe)).0.next(EventView::Continue).1 is Probe
            || state.next(EventView::Probed(probe)).0.next(EventView::Continue).1 is Finish,
{
}

/// The event tells that the build command that was running exited with
/// status 0.
pub open spec fn build_exited_with_zero(phase: Phase, event: EventView) -> bool {
    phase is Building && match event {
        EventView::Built { end, .. } => end.succeeded(),
        _ => false,
    }
}

/// A step adds at most one result, and a successful one only where the
/// build command of the application in turn exited with status 0.
pub proof fn lemma_success_needs_exit_zero(state: SessionView, event: EventView)
    requires
        state.wf(),
    ensures
        state.next(event).0.results == state.results || (state.next(event).0.results.len()
            == state.results.len() + 1 && state.next(event).0.results.drop_last()
            == state.results),
        state.next(event).0.results != state.results ==> (state.next(
            event,
        ).0.results.last().success <==> build_exited_with_zero(state.phase, event)),
{
    let next = state.next(event).0;
    if next.results != state.results {
        assert(next.results.drop_last() =~= state.results);
    }
}

/// The exit code handed out at the end is 0 exactly where every application
/// has a successful result, and 1 as soon as one has not.
pub proof fn lemma_finish_exit_code(state: SessionView, event: EventView)
    requires
        state.next(event).1 is Finish,
    ensures
        state.next(event).0.phase == Phase::Finished,
        state.next(event).1->Finish_exit_code == exit_code_of(state.next(event).0.results),
        state.next(event).1->Finish_exit_code == 0 <==> crate::report::all_succeeded(
            state.next(event).0.results,
        ),
        state.next(event).1->Finish_exit_code == 1 <==> exists|i: int|
            0 <= i < state.next(event).0.results.len() && !(#[trigger] state.next(
                event,
            ).0.results[i]).success,
{
}

/// Whatever events come in, a well-formed state stays well-formed and
/// keeps its list of applications.
pub proof fn lemma_after_keeps_wf(start: SessionView, events: Seq<EventView>)
    requires
        start.wf(),
    ensures
        after(start, events).wf(),
        after(start, events).labels == start.labels,
    decreases events.len(),
{
    if events.len() > 0 {
        lemma_after_keeps_wf(start, events.drop_last());
        let before = after(start, events.drop_last());
        lemma_next_keeps_wf(before, events.last());
        lemma_next_keeps_applications(before, events.last());
    }
}

/// The `k`-th event of a run tells that the build of the application at
/// `index` exited with status 0: when it arrives, that application is being
/// built.
pub open spec fn built_with_zero(
    start: SessionView,
    events: Seq<EventView>,
    k: int,
    index: int,
) -> bool {
    &&& 0 <= k < events.len()
    &&& after(start, events.take(k)).results.len() == index
    &&& build_exited_with_zero(after(start, events.take(k)).phase, events[k])
}

/// Some event of the run tells that the build of the application at `index`
/// exited with status 0.
pub open spec fn has_build_with_zero(start: SessionView, events: Seq<EventView>, index: int) -> bool {
    exists|k: int| #[trigger] built_with_zero(start, events, k, index)
}

/// The `k`-th event of a run tells that a build did not exit with status 0.
pub open spec fn built_with_failure(start: SessionView, events: Seq<EventView>, k: int) -> bool {
    &&& 0 <= k < events.len()
    &&& after(start, events.take(k)).phase is Building
    &&& match events[k] {
        EventView::Built { end, .. } => !end.succeeded(),
        _ => false,
    }
}

/// The state after the first `k + 1` events is the step on the `k`-th event
/// from the state after the first `k`.
pub proof fn lemma_after_take(start: SessionView, events: Seq<EventView>, k: int)
    requires
        0 <= k < events.len(),
    ensures
        after(start, events.take(k + 1)) == after(start, events.take(k)).next(events[k]).0,
{
    let upto = events.take(k + 1);
    assert(upto.drop_last() =~= events.take(k));
    assert(upto.last() == events[k]);
}

/// A result, once recorded, stays as it is for the rest of the run.
pub proof fn lemma_results_are_kept(start: SessionView, events: Seq<EventView>, k: int)
    requires
        start.wf(),
        0 <= k <= events.len(),
    ensures
        after(start, events.take(k)).results.len() <= after(start, events).results.len(),
        forall|i: int|
            0 <= i < after(start, events.take(k)).results.len() ==> (#[trigger] after(
                start,
                events,
            ).results[i]) == after(start, events.take(k)).results[i],
    decreases events.len(),
{
    if k == events.len() {
        assert(events.take(k) =~= events);
    } else {
        let shorter = events.drop_last();
        assert(shorter.take(k) =~= events.take(k));
        lemma_results_are_kept(start, shorter, k);
        lemma_after_keeps_wf(start, shorter);
        let before = after(start, shorter);
        lemma_success_needs_exit_zero(before, events.last());
        let end = after(start, events);
        assert forall|i: int| 0 <= i < after(start, events.take(k)).results.len() implies (
        #[trigger] end.results[i]) == after(start, events.take(k)).results[i] by {
            assert(before.results[i] == after(start, events.take(k)).results[i]);
            if end.results != before.results {
                assert(end.results.drop_last()[i] == end.results[i]);
            }
        }
    }
}

/// A successful result beyond those the run started with was recorded on an
/// event that tells that the application's build exited with status 0.
pub proof fn lemma_success_has_its_build(start: SessionView, events: Seq<EventView>, index: int)
    requires
        start.wf(),
        start.results.len() <= index < after(start, events).results.len(),
        after(start, events).results[index].success,
    ensures
        exists|k: int| #[trigger] built_with_zero(start, events, k, index),
    decreases events.len(),
{
    if events.len() > 0 {
        let shorter = events.drop_last();
        let before = after(start, shorter);
        lemma_after_keeps_wf(start, shorter);
        lemma_success_needs_exit_zero(before, events.last());
        let end = after(start, events);
        if index < before.results.len() {
            if end.results != before.results {
                assert(end.results.drop_last()[index] == end.results[index]);
            }
            lemma_success_has_its_build(start, shorter, index);
            let k = choose|k: int| #[trigger] built_with_zero(start, shorter, k, index);
            assert(shorter.take(k) =~= events.take(k));
            assert(shorter[k] == events[k]);
            assert(built_with_zero(start, events, k, index));
        } else {
            let k = events.len() - 1;
            assert(events.take(k) =~= shorter);
            assert(end.results.last() == end.results[index]);
            assert(built_with_zero(start, events, k, index));
        }
    }
}

/// The result recorded on an event that tells that a build exited with
/// status 0 is a success, and stays one.
pub proof fn lemma_build_has_its_success(
    start: SessionView,
    events: Seq<EventView>,
    k: int,
    index: int,
)
    requires
        start.wf(),
        built_with_zero(start, events, k, index),
    ensures
        index < after(start, events).results.len(),
        after(start, events).results[index].success,
{
    let mid = after(start, events.take(k));
    lemma_after_keeps_wf(start, events.take(k));
    lemma_after_take(start, events, k);
    lemma_success_needs_exit_zero(mid, events[k]);
    let then = mid.next(events[k]).0;
    assert(then.results.last() == then.results[index]);
    lemma_results_are_kept(start, events, k + 1);
}

/// One build that does not exit with status 0 makes the exit code 1,
/// whatever comes before and after it.
pub proof fn lemma_failed_build_forces_exit_one(
    start: SessionView,
    events: Seq<EventView>,
    k: int,
)
    requires
        start.wf(),
        built_with_failure(start, events, k),
    ensures
        exit_code_of(after(start, events).results) == 1,
{
    let mid = after(start, events.take(k));
    lemma_after_keeps_wf(start, events.take(k));
    lemma_after_take(start, events, k);
    lemma_success_needs_exit_zero(mid, events[k]);
    let then = mid.next(events[k]).0;
    let index = mid.results.len() as int;
    assert(then.results.last() == then.results[index]);
    lemma_results_are_kept(start, events, k + 1);
    assert(!after(start, events).results[index].success);
}

/// A run that finishes does so with exit code 0 exactly where, for every
/// application, some event told that its build exited with status 0.
pub proof fn lemma_exit_code_of_a_run(
    project: Project,
    labels: Seq<Seq<char>>,
    events: Seq<EventView>,
)
    requires
        after(begin(project, labels).0, events).phase == Phase::Finished,
    ensures
        exit_code_of(after(begin(project, labels).0, events).results) == 0 <==> forall|i: int|
            0 <= i < labels.len() ==> #[trigger] has_build_with_zero(
                begin(project, labels).0,
                events,
                i,
            ),
{
    let start = begin(project, labels).0;
    let end = after(start, events);
    lemma_begin_wf(project, labels);
    lemma_after_keeps_wf(start, events);
    if exit_code_of(end.results) == 0 {
        assert forall|i: int| 0 <= i < labels.len() implies #[trigger] has_build_with_zero(
            start,
            events,
            i,
        ) by {
            assert(end.results[i].success);
            lemma_success_has_its_build(start, events, i);
        }
    }
    if forall|i: int| 0 <= i < labels.len() ==> #[trigger] has_build_with_zero(start, events, i) {
        assert forall|i: int| 0 <= i < end.results.len() implies (#[trigger] end.results[i]).success by {
            assert(has_build_with_zero(start, events, i));
            let k = choose|k: int| #[trigger] built_with_zero(start, events, k, i);
            lemma_build_has_its_success(start, events, k, i);
        }
    }
}

/// A build run in progress.
#[derive(Debug)]
pub struct Session {
    project: Project,
    labels: Vec<String>,
    tools: Tools,
    phase: Phase,
    results: Vec<BuildResult>,
}

impl View for Session {
    type V = SessionView;

    closed spec fn view(&self) -> SessionView {
        SessionView {
            project: self.project,
            labels: views_of(self.labels@),
            tools: self.tools,
            phase: self.phase,
            results: result_views(self.results@),
        }
    }
}

impl Session {
    #[verifier::type_invariant]
    spec fn valid(self) -> bool {
        self@.wf()
    }

    /// Where the run stands.
    pub fn phase(&self) -> (phase: Phase)
        ensures
            phase == self@.phase,
            self@.wf(),
    {
        proof {
            use_type_invariant(self);
        }
        self.phase
    }

    /// The tools as they are taken to be.
    pub fn tools(&self) -> (tools: Tools)
        ensures
            tools == self@.tools,
    {
        self.tools
    }

    /// The results so far.
    pub fn results(&self) -> (results: &Vec<BuildResult>)
        ensures
            result_views(results@) == self@.results,
    {
        &self.results
    }

    /// The package manager in use; none without a `package.json`.
    pub fn manager(&self) -> (manager: Option<PackageManager>)
        ensures
            manager == self@.manager(),
    {
        if self.project.has_package_json {
            Some(self.project.manager)
        } else {
            None
        }
    }

    /// Turns to the next application, or finishes where none is left.
    fn next_application(self) -> (out: (Session, Action))
        ensures
            out.0@ == self@.next_application().0,
            out.1@ == self@.next_application().1,
    {
        proof {
            use_type_invariant(&self);
        }
        if self.results.len() < self.labels.len() {
            let index = self.results.len();
            (Session { phase: Phase::Detecting, ..self }, Action::Probe(index))
        } else {
            let code = exit_code(&self.results);
            (Session { phase: Phase::Finished, ..self }, Action::Finish { exit_code: code })
        }
    }

    /// Sees to the dependencies once the tools are settled.
    fn dependencies(self) -> (out: (Session, Action))
        ensures
            out.0@ == self@.dependencies().0,
            out.1@ == self@.dependencies().1,
    {
        proof {
            use_type_invariant(&self);
        }
        if self.project.has_package_json && self.project.needs_assemblyscript
            && !self.project.dependencies_installed {
            if self.project.skip_checks {
                let command = install_command(self.manager());
                (Session { phase: Phase::Installing, ..self }, Action::Install(command))
            } else {
                (
                    Session { phase: Phase::InstallQuestion, ..self },
                    Action::Ask(Question::InstallDependencies),
                )
            }
        } else {
            self.next_application()
        }
    }

    /// Gives the run up.
    fn aborted(self, failure: Failure) -> (out: (Session, Action))
        ensures
            out.0@ == self@.in_phase(Phase::Aborted),
            out.1@ == ActionView::Abort(failure@),
    {
        proof {
            use_type_invariant(&self);
        }
        (Session { phase: Phase::Aborted, ..self }, Action::Abort(failure))
    }

    /// Records the result of the application in turn and has it shown.
    fn recorded(self, success: bool, kind: AppKind, elapsed_ms: u64, outcome: Outcome) -> (out: (
        Session,
        Action,
    ))
        requires
            self@.results.len() < self@.labels.len(),
        ensures
            out.0@ == self@.recorded(success, kind, elapsed_ms, outcome).0,
            out.1@ == self@.recorded(success, kind, elapsed_ms, outcome).1,
    {
        proof {
            use_type_invariant(&self);
        }
        let index = self.results.len();
        let result = BuildResult { app: self.labels[index].clone(), success, kind, elapsed_ms };
        let ghost before = self.results@;
        let mut results = self.results;
        results.push(result);
        proof {
            assert(result_views(before).len() == before.len());
            assert(result_views(results@) =~= result_views(before).push(result@));
        }
        (
            Session {
                project: self.project,
                labels: self.labels,
                tools: self.tools,
                phase: Phase::Reporting,
                results,
            },
            Action::Report { index, outcome },
        )
    }

    /// Decides what a look at the directory of the application in turn
    /// leads to.
    fn detected(self, probe: Probe) -> (out: (Session, Action))
        requires
            self@.phase == Phase::Detecting,
        ensures
            out.0@ == self@.detected(probe).0,
            out.1@ == self@.detected(probe).1,
    {
        proof {
            use_type_invariant(&self);
        }
        let kind = probe.app_kind();
        if !probe.dir_exists {
            return self.recorded(false, AppKind::Unknown, 0, Outcome::MissingDirectory);
        }
        if kind == AppKind::Unknown {
            return self.recorded(false, AppKind::Unknown, 0, Outcome::UnknownKind);
        }
        match blocking_tool(kind, self.tools) {
            Some(tool) => {
                let hint = hint(kind, self.tools, tool.not_found());
                self.recorded(false, kind, 0, Outcome::Blocked { tool, hint })
            },
            None => {
                let index = self.results.len();
                let command = build_command(kind, self.manager(), self.labels[index].as_str());
                let dir = build_dir(kind);
                match command {
                    Some(command) => (
                        Session { phase: Phase::Building(kind), ..self },
                        Action::Run { index, command, dir },
                    ),
                    // A known kind always has a build command.
                    None => self.recorded(false, AppKind::Unknown, 0, Outcome::UnknownKind),
                }
            },
        }
    }

    /// Decides what the end of the install command leads to.
    fn installed(self, end: ProcessEnd) -> (out: (Session, Action))
        ensures
            out.0@ == self@.installed(end@).0,
            out.1@ == self@.installed(end@).1,
    {
        match end {
            ProcessEnd::Exited { success } => if success {
                self.next_application()
            } else {
                self.aborted(Failure::SubprocessFailed(Subprocess::InstallFailed))
            },
            ProcessEnd::NotStarted(_) => {
                let name = match self.manager() {
                    Some(manager) => manager.name().to_owned(),
                    None => String::new(),
                };
                self.aborted(Failure::SubprocessFailed(Subprocess::InstallNotStarted(name)))
            },
        }
    }

    /// Starts a run over the chosen applications and gives the first
    /// action.
    pub fn start(project: Project, apps: &Vec<Application>) -> (out: (Session, Action))
        ensures
            out.0@ == begin(project, labels_of(views(apps@))).0,
            out.1@ == begin(project, labels_of(views(apps@))).1,
            out.0@.wf(),
    {
        proof {
            lemma_begin_wf(project, labels_of(views(apps@)));
        }
        let mut labels: Vec<String> = Vec::new();
        let mut i: usize = 0;
        while i < apps.len()
            invariant
                i <= apps.len(),
                views_of(labels@) == labels_of(views(apps@)).take(i as int),
            decreases apps.len() - i,
        {
            let ghost before = labels@;
            labels.push(apps[i].label());
            i += 1;
            proof {
                assert(views_of(before).len() == before.len());
                assert(views_of(labels@).len() == i);
                assert forall|j: int| 0 <= j < i implies views_of(labels@)[j] == labels_of(
                    views(apps@),
                ).take(i as int)[j] by {
                    if j < i - 1 {
                        assert(views_of(before)[j] == labels_of(views(apps@)).take(i - 1)[j]);
                    }
                }
                assert(views_of(labels@) =~= labels_of(views(apps@)).take(i as int));
            }
        }
        proof {
            assert(labels_of(views(apps@)).take(apps.len() as int) =~= labels_of(views(apps@)));
        }
        let results: Vec<BuildResult> = Vec::new();
        proof {
            assert(result_views(results@) =~= Seq::<BuildResultView>::empty());
        }
        let fresh = Session {
            project,
            labels,
            tools: Tools::assumed(),
            phase: Phase::Tools,
            results,
        };
        if project.skip_checks {
            fresh.dependencies()
        } else {
            (fresh, Action::LookUpTools)
        }
    }

    /// Takes what came of the last action and gives the next one.
    pub fn step(self, event: Event) -> (out: (Session, Action))
        ensures
            out.0@ == self@.next(event@).0,
            out.1@ == self@.next(event@).1,
            out.0@.wf(),
    {
        proof {
            use_type_invariant(&self);
            lemma_next_keeps_wf(self@, event@);
        }
        match (self.phase, event) {
            (Phase::Tools, Event::ToolsFound(tools)) => {
                let lacking = missing_tools(
                    self.project.needs_rust,
                    self.project.needs_assemblyscript,
                    tools,
                );
                if lacking.len() > 0 {
                    (
                        Session { tools, phase: Phase::ToolsQuestion, ..self },
                        Action::Ask(Question::ContinueWithoutTools(lacking)),
                    )
                } else {
                    let known = Session { tools, ..self };
                    known.dependencies()
                }
            },
            (Phase::ToolsQuestion, Event::Answer(yes)) => if yes {
                self.dependencies()
            } else {
                self.aborted(Failure::ToolchainMissing)
            },
            (Phase::InstallQuestion, Event::Answer(yes)) => if yes {
                let command = install_command(self.manager());
                (Session { phase: Phase::Installing, ..self }, Action::Install(command))
            } else {
                (
                    Session { phase: Phase::ProceedQuestion, ..self },
                    Action::Ask(Question::ContinueWithoutDependencies),
                )
            },
            (Phase::ProceedQuestion, Event::Answer(yes)) => if yes {
                self.next_application()
            } else {
                self.aborted(Failure::DependenciesMissing)
            },
            (Phase::Installing, Event::Installed(end)) => self.installed(end),
            (Phase::Detecting, Event::Probed(probe)) => self.detected(probe),
            (Phase::Building(kind), Event::Built { end, elapsed_ms }) => match end {
                ProcessEnd::Exited { success: true } => self.recorded(
                    true,
                    kind,
                    elapsed_ms,
                    Outcome::Built,
                ),
                ProcessEnd::Exited { success: false } => {
                    let hint = hint(kind, self.tools, "");
                    proof {
                        reveal_strlit("");
                        assert(""@ =~= Seq::<char>::empty());
                    }
                    self.recorded(false, kind, elapsed_ms, Outcome::Failed { hint })
                },
                ProcessEnd::NotStarted(error) => {
                    let hint = hint(kind, self.tools, error.as_str());
                    self.recorded(false, kind, elapsed_ms, Outcome::Failed { hint })
                },
            },
            (Phase::Reporting, Event::Continue) => self.next_application(),
            _ => (self, Action::Ignored),
        }
    }
}

} // verus!

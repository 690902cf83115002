//! The environment manager: what has to happen, and in which order, before a
//! project root is ready to run code.
//!
//! The manager never touches the host itself. It is a state machine: told
//! where provisioning stands, it says what the host has to do next, and the
//! caller carries that out and comes back with the host's report.

use vstd::prelude::*;
use crate::launch::{
    Attempt, AttemptView, Launch, LaunchView, ProcessReport, ProcessReportView, Stream,
};

verus! {

/// The tool that manages the interpreter and its packages.
pub const TOOL: &'static str = "uv";

/// The name of the project manifest inside a project root.
pub const MANIFEST_NAME: &'static str = "pyproject.toml";

/// What is written where a project root has no manifest yet.
pub const DEFAULT_MANIFEST: &'static str = "[project]\n\
name = \"project\"\n\
version = \"0.1.0\"\n\
requires-python = \">=3.9\"\n\
dependencies = []\n";

/// What the user is told where the tool is not there.
pub const TOOL_MISSING_TEXT: &'static str =
    "`uv` not found. Please install uv (https://github.com/astral-sh/uv).";

/// What the user is told where the sync did not succeed.
pub const SYNC_FAILED_TEXT: &'static str = "`uv sync` failed";

/// Why a project root could not be made ready, or a command not be run in it.
#[derive(Clone, Debug, PartialEq, Eq)]
pub enum EnvError {
    /// The tool could not be started, or its version query did not succeed.
    ToolMissing,
    /// The default manifest could not be written; the text is the system's
    /// reason.
    ManifestWriteFailed(String),
    /// The sync ran and did not exit with code zero.
    SyncFailed,
    /// A process could not be created; the text is the system's reason.
    SpawnFailed(String),
}

/// The mathematical value of an [`EnvError`].
pub enum EnvErrorView {
    ToolMissing,
    ManifestWriteFailed(Seq<char>),
    SyncFailed,
    SpawnFailed(Seq<char>),
}

impl View for EnvError {
    type V = EnvErrorView;

    open spec fn view(&self) -> EnvErrorView {
        match self {
            EnvError::ToolMissing => EnvErrorView::ToolMissing,
            EnvError::ManifestWriteFailed(reason) => EnvErrorView::ManifestWriteFailed(reason@),
            EnvError::SyncFailed => EnvErrorView::SyncFailed,
            EnvError::SpawnFailed(reason) => EnvErrorView::SpawnFailed(reason@),
        }
    }
}

impl EnvErrorView {
    /// The text that describes the error to the user.
    pub open spec fn message(self) -> Seq<char> {
        match self {
            EnvErrorView::ToolMissing => TOOL_MISSING_TEXT@,
            EnvErrorView::ManifestWriteFailed(reason) => reason,
            EnvErrorView::SyncFailed => SYNC_FAILED_TEXT@,
            EnvErrorView::SpawnFailed(reason) => reason,
        }
    }
}

impl EnvError {
    /// The text that describes the error to the user.
    pub fn message(&self) -> (text: String)
        ensures
            text@ == self@.message(),
    {
        match self {
            EnvError::ToolMissing => TOOL_MISSING_TEXT.to_owned(),
            EnvError::ManifestWriteFailed(reason) => reason.clone(),
            EnvError::SyncFailed => SYNC_FAILED_TEXT.to_owned(),
            EnvError::SpawnFailed(reason) => reason.clone(),
        }
    }
}

/// Where provisioning stands: the step that was carried out last, with what
/// the host reported of it.
#[derive(Clone, Debug, PartialEq, Eq)]
pub enum EnvState {
    /// Nothing has been done yet.
    Start,
    /// The tool's version query was run.
    ToolChecked(ProcessReport),
    /// The manifest was looked for; `true` where it exists.
    ManifestProbed(bool),
    /// The default manifest was written, or the write failed.
    ManifestWritten(Attempt),
    /// The sync was run.
    Synced(ProcessReport),
}

/// The mathematical value of an [`EnvState`].
pub enum EnvStateView {
    Start,
    ToolChecked(ProcessReportView),
    ManifestProbed(bool),
    ManifestWritten(AttemptView),
    Synced(ProcessReportView),
}

impl View for EnvState {
    type V = EnvStateView;

    open spec fn view(&self) -> EnvStateView {
        match self {
            EnvState::Start => EnvStateView::Start,
            EnvState::ToolChecked(report) => EnvStateView::ToolChecked(report@),
            EnvState::ManifestProbed(exists) => EnvStateView::ManifestProbed(*exists),
            EnvState::ManifestWritten(attempt) => EnvStateView::ManifestWritten(attempt@),
            EnvState::Synced(report) => EnvStateView::Synced(report@),
        }
    }
}

/// What the host has to do next for a project root.
#[derive(Debug, PartialEq, Eq)]
pub enum EnvAction {
    /// Run the tool's version query to its end; answer with
    /// [`EnvState::ToolChecked`].
    CheckTool(Launch),
    /// Look whether the file `name` exists in `root`; answer with
    /// [`EnvState::ManifestProbed`].
    ProbeManifest { root: String, name: String },
    /// Write `content` to the file `name` in `root`; answer with
    /// [`EnvState::ManifestWritten`].
    WriteManifest { root: String, name: String, content: String },
    /// Run the sync to its end; answer with [`EnvState::Synced`].
    Sync(Launch),
    /// Nothing more: provisioning has ended with this result.
    Finish(Result<(), EnvError>),
}

/// The mathematical value of an [`EnvAction`].
pub enum EnvActionView {
    CheckTool(LaunchView),
    ProbeManifest { root: Seq<char>, name: Seq<char> },
    WriteManifest { root: Seq<char>, name: Seq<char>, content: Seq<char> },
    Sync(LaunchView),
    Finish(Result<(), EnvErrorView>),
}

impl View for EnvAction {
    type V = EnvActionView;

    open spec fn view(&self) -> EnvActionView {
        match self {
            EnvAction::CheckTool(launch) => EnvActionView::CheckTool(launch@),
            EnvAction::ProbeManifest { root, name } => EnvActionView::ProbeManifest {
                root: root@,
                name: name@,
            },
            EnvAction::WriteManifest { root, name, content } => EnvActionView::WriteManifest {
                root: root@,
                name: name@,
                content: content@,
            },
            EnvAction::Sync(launch) => EnvActionView::Sync(launch@),
            EnvAction::Finish(Ok(())) => EnvActionView::Finish(Ok(())),
            EnvAction::Finish(Err(e)) => EnvActionView::Finish(Err(e@)),
        }
    }
}

/// The version query: the tool is asked for its version and what it prints
/// is thrown away.
pub open spec fn version_query() -> LaunchView {
    LaunchView {
        program: TOOL@,
        args: seq!["--version"@],
        dir: None,
        stdout: Stream::Discard,
        stderr: Stream::Discard,
        kill_on_drop: false,
    }
}

/// The sync in `root`, development dependencies included; what it prints
/// goes to the host's own streams.
pub open spec fn sync_launch(root: Seq<char>) -> LaunchView {
    LaunchView {
        program: TOOL@,
        args: seq!["sync"@, "--dev"@],
        dir: Some(root),
        stdout: Stream::Inherit,
        stderr: Stream::Inherit,
        kill_on_drop: false,
    }
}

/// The tool's `run` in `root` with `args` behind it, on the host's own
/// streams.
pub open spec fn run_launch(root: Seq<char>, args: Seq<Seq<char>>) -> LaunchView {
    LaunchView {
        program: TOOL@,
        args: seq!["run"@] + args,
        dir: Some(root),
        stdout: Stream::Inherit,
        stderr: Stream::Inherit,
        kill_on_drop: false,
    }
}

/// What follows `state` when the root `root` is made ready.
///
/// The three checks come in a fixed order, and the first that fails ends
/// provisioning with its own error: the tool's version query, then the
/// manifest (written only where the probe found none), then the sync.
pub open spec fn ensure_step(root: Seq<char>, state: EnvStateView) -> EnvActionView {
    match state {
        EnvStateView::Start => EnvActionView::CheckTool(version_query()),
        EnvStateView::ToolChecked(report) => if report.succeeded() {
            EnvActionView::ProbeManifest { root, name: MANIFEST_NAME@ }
        } else {
            EnvActionView::Finish(Err(EnvErrorView::ToolMissing))
        },
        EnvStateView::ManifestProbed(exists) => if exists {
            EnvActionView::Sync(sync_launch(root))
        } else {
            EnvActionView::WriteManifest {
                root,
                name: MANIFEST_NAME@,
                content: DEFAULT_MANIFEST@,
            }
        },
        EnvStateView::ManifestWritten(attempt) => match attempt {
            AttemptView::Done => EnvActionView::Sync(sync_launch(root)),
            AttemptView::Failed(reason) => EnvActionView::Finish(
                Err(EnvErrorView::ManifestWriteFailed(reason)),
            ),
        },
        EnvStateView::Synced(report) => match report {
            ProcessReportView::LaunchFailed(reason) => EnvActionView::Finish(
                Err(EnvErrorView::SpawnFailed(reason)),
            ),
            ProcessReportView::Exited(Some(0)) => EnvActionView::Finish(Ok(())),
            ProcessReportView::Exited(_) => EnvActionView::Finish(Err(EnvErrorView::SyncFailed)),
        },
    }
}

/// Where a single command in a project root stands.
#[derive(Clone, Debug, PartialEq, Eq)]
pub enum RunState {
    /// Nothing has been done yet.
    Start,
    /// The command was run.
    Ran(ProcessReport),
}

/// The mathematical value of a [`RunState`].
pub enum RunStateView {
    Start,
    Ran(ProcessReportView),
}

impl View for RunState {
    type V = RunStateView;

    open spec fn view(&self) -> RunStateView {
        match self {
            RunState::Start => RunStateView::Start,
            RunState::Ran(report) => RunStateView::Ran(report@),
        }
    }
}

/// What the host has to do next for a single command.
#[derive(Debug, PartialEq, Eq)]
pub enum RunAction {
    /// Run this to its end, with no time limit; answer with
    /// [`RunState::Ran`].
    Run(Launch),
    /// Nothing more: the command's exit code, or why there is none.
    Finish(Result<i32, EnvError>),
}

/// The mathematical value of a [`RunAction`].
pub enum RunActionView {
    Run(LaunchView),
    Finish(Result<i32, EnvErrorView>),
}

impl View for RunAction {
    type V = RunActionView;

    open spec fn view(&self) -> RunActionView {
        match self {
            RunAction::Run(launch) => RunActionView::Run(launch@),
            RunAction::Finish(Ok(code)) => RunActionView::Finish(Ok(*code)),
            RunAction::Finish(Err(e)) => RunActionView::Finish(Err(e@)),
        }
    }
}

/// The exit code that is reported for a process that ended without one.
pub const EXIT_WITHOUT_CODE: i32 = 1;

/// The exit code to report for a process that ended with `code`.
pub open spec fn reported_exit(code: Option<i32>) -> i32 {
    match code {
        Some(c) => c,
        None => EXIT_WITHOUT_CODE,
    }
}

/// The exit code to report for a process that ended with `code`.
pub fn exit_of(code: Option<i32>) -> (exit: i32)
    ensures
        exit == reported_exit(code),
{
    match code {
        Some(c) => c,
        None => EXIT_WITHOUT_CODE,
    }
}

/// What follows `state` when `args` are run in the root `root`.
pub open spec fn run_step(
    root: Seq<char>,
    args: Seq<Seq<char>>,
    state: RunStateView,
) -> RunActionView {
    match state {
        RunStateView::Start => RunActionView::Run(run_launch(root, args)),
        RunStateView::Ran(report) => match report {
            ProcessReportView::LaunchFailed(reason) => RunActionView::Finish(
                Err(EnvErrorView::SpawnFailed(reason)),
            ),
            ProcessReportView::Exited(code) => RunActionView::Finish(Ok(reported_exit(code))),
        },
    }
}

/// The launch of the version query.
fn launch_version_query() -> (launch: Launch)
    ensures
        launch@ == version_query(),
{
    let mut args: Vec<String> = Vec::new();
    args.push("--version".to_owned());
    assert(args.deep_view() =~= seq!["--version"@]);
    Launch {
        program: TOOL.to_owned(),
        args,
        dir: None,
        stdout: Stream::Discard,
        stderr: Stream::Discard,
        kill_on_drop: false,
    }
}

/// The launch of the sync in `root`.
fn launch_sync(root: &String) -> (launch: Launch)
    ensures
        launch@ == sync_launch(root@),
{
    let mut args: Vec<String> = Vec::new();
    args.push("sync".to_owned());
    args.push("--dev".to_owned());
    assert(args.deep_view() =~= seq!["sync"@, "--dev"@]);
    Launch {
        program: TOOL.to_owned(),
        args,
        dir: Some(root.clone()),
        stdout: Stream::Inherit,
        stderr: Stream::Inherit,
        kill_on_drop: false,
    }
}

/// The launch of the tool's `run` in `root` with `args` behind it.
fn launch_run(root: &String, args: &[&str]) -> (launch: Launch)
    ensures
        launch@ == run_launch(root@, args.deep_view()),
{
    let mut all: Vec<String> = Vec::new();
    all.push("run".to_owned());
    let mut i: usize = 0;
    while i < args.len()
        invariant
            i <= args.len(),
            all.len() == 1 + i,
            all[0]@ == "run"@,
            forall|j: int| 0 <= j < i ==> all[1 + j]@ == args[j]@,
        decreases args.len() - i,
    {
        all.push(args[i].to_owned());
        i = i + 1;
    }
    assert(all.deep_view() =~= seq!["run"@] + args.deep_view());
    Launch {
        program: TOOL.to_owned(),
        args: all,
        dir: Some(root.clone()),
        stdout: Stream::Inherit,
        stderr: Stream::Inherit,
        kill_on_drop: false,
    }
}

/// A project root whose environment is managed.
#[derive(Clone, Debug, PartialEq, Eq)]
pub struct PyEnv {
    /// The root directory of the project.
    pub root: String,
}

impl PyEnv {
    /// The manager of the project root `root`.
    pub fn new(root: String) -> (env: PyEnv)
        ensures
            env.root == root,
    {
        PyEnv { root }
    }

    /// The next thing to do to make this root ready, `state` being where
    /// provisioning stands. A caller starts from [`EnvState::Start`], carries
    /// out each action and comes back with the state that the action names,
    /// until the action is [`EnvAction::Finish`].
    pub fn ensure(&self, state: EnvState) -> (action: EnvAction)
        ensures
            action@ == ensure_step(self.root@, state@),
    {
        match state {
            EnvState::Start => EnvAction::CheckTool(launch_version_query()),
            EnvState::ToolChecked(report) => {
                if report.succeeded() {
                    EnvAction::ProbeManifest {
                        root: self.root.clone(),
                        name: MANIFEST_NAME.to_owned(),
                    }
                } else {
                    EnvAction::Finish(Err(EnvError::ToolMissing))
                }
            },
            EnvState::ManifestProbed(exists) => {
                if exists {
                    EnvAction::Sync(launch_sync(&self.root))
                } else {
                    EnvAction::WriteManifest {
                        root: self.root.clone(),
                        name: MANIFEST_NAME.to_owned(),
                        content: DEFAULT_MANIFEST.to_owned(),
                    }
                }
            },
            EnvState::ManifestWritten(attempt) => match attempt {
                Attempt::Done => EnvAction::Sync(launch_sync(&self.root)),
                Attempt::Failed(reason) => EnvAction::Finish(
                    Err(EnvError::ManifestWriteFailed(reason)),
                ),
            },
            EnvState::Synced(report) => match report {
                ProcessReport::LaunchFailed(reason) => EnvAction::Finish(
                    Err(EnvError::SpawnFailed(reason)),
                ),
                ProcessReport::Exited(Some(0)) => EnvAction::Finish(Ok(())),
                ProcessReport::Exited(_) => EnvAction::Finish(Err(EnvError::SyncFailed)),
            },
        }
    }

    /// The next thing to do to run the tool's `run` with `args` in this root,
    /// `state` being where the command stands. A caller starts from
    /// [`RunState::Start`] and goes on as with [`PyEnv::ensure`].
    pub fn run(&self, args: &[&str], state: RunState) -> (action: RunAction)
        ensures
            action@ == run_step(self.root@, args.deep_view(), state@),
    {
        match state {
            RunState::Start => RunAction::Run(launch_run(&self.root, args)),
            RunState::Ran(report) => match report {
                ProcessReport::LaunchFailed(reason) => RunAction::Finish(
                    Err(EnvError::SpawnFailed(reason)),
                ),
                ProcessReport::Exited(code) => RunAction::Finish(Ok(exit_of(code))),
            },
        }
    }
}

} // verus!

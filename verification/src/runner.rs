//! The execution supervisor: one entry point run inside a managed project
//! root, under a time limit.
//!
//! Like the environment manager it is a state machine that never touches
//! the host: told where the request stands, it says what has to happen next.

use vstd::prelude::*;
use vstd::utf8::{decode_utf8, valid_utf8};
use crate::launch::{Attempt, AttemptView, Launch, LaunchView, Stream};
use crate::python_env::{
    ensure_step, exit_of, reported_exit, EnvAction, EnvActionView, EnvError, EnvErrorView,
    EnvState, EnvStateView, PyEnv, TOOL,
};

verus! {

/// The exit code that marks a run ended by its time limit.
pub const TIMEOUT_EXIT: i32 = 124;

/// What stands in place of the error output of a run ended by its time
/// limit.
pub const TIMEOUT_TEXT: &'static str = "Timeout";

/// What the host is told where the project root could not be made ready.
pub const ENV_FAILED_PREFIX: &'static str = "Environment setup failed: ";

/// What the host is told where the child process could not be created.
pub const SPAWN_FAILED_PREFIX: &'static str = "Failed to spawn process: ";

/// What the host is told where waiting for the child, or reading what it
/// wrote, failed.
pub const RUN_FAILED_PREFIX: &'static str = "Error running code: ";

/// What one request gives back: the full transcript of a run that came to
/// its end, or the mark of one that was ended by its time limit.
#[derive(Clone, Debug, PartialEq, Eq)]
pub struct ExecOutput {
    pub stdout: String,
    pub stderr: String,
    pub exit: i32,
    pub timed_out: bool,
}

/// The mathematical value of an [`ExecOutput`].
pub struct ExecOutputView {
    pub stdout: Seq<char>,
    pub stderr: Seq<char>,
    pub exit: i32,
    pub timed_out: bool,
}

impl View for ExecOutput {
    type V = ExecOutputView;

    open spec fn view(&self) -> ExecOutputView {
        ExecOutputView {
            stdout: self.stdout@,
            stderr: self.stderr@,
            exit: self.exit,
            timed_out: self.timed_out,
        }
    }
}

impl ExecOutputView {
    /// The result of a run that was ended by its time limit. Nothing that
    /// the child wrote is kept.
    pub open spec fn timeout() -> ExecOutputView {
        ExecOutputView {
            stdout: Seq::empty(),
            stderr: TIMEOUT_TEXT@,
            exit: TIMEOUT_EXIT,
            timed_out: true,
        }
    }

    /// The result of a run that came to its end by itself, having written
    /// `stdout` and `stderr` and ended with `code`.
    pub open spec fn completed(
        stdout: Seq<char>,
        stderr: Seq<char>,
        code: Option<i32>,
    ) -> ExecOutputView {
        ExecOutputView { stdout, stderr, exit: reported_exit(code), timed_out: false }
    }

    /// A result that is marked as timed out is the timeout result in every
    /// field: it never carries an exit code or output of the child.
    pub open spec fn well_formed(self) -> bool {
        self.timed_out ==> self == ExecOutputView::timeout()
    }
}

impl ExecOutput {
    /// The result of a run that was ended by its time limit.
    pub fn timeout() -> (out: ExecOutput)
        ensures
            out@ == ExecOutputView::timeout(),
            out@.well_formed(),
    {
        ExecOutput {
            stdout: String::new(),
            stderr: TIMEOUT_TEXT.to_owned(),
            exit: TIMEOUT_EXIT,
            timed_out: true,
        }
    }

    /// The result of a run that came to its end by itself, having written
    /// `stdout` and `stderr` and ended with `code`.
    pub fn completed(stdout: String, stderr: String, code: Option<i32>) -> (out: ExecOutput)
        ensures
            out@ == ExecOutputView::completed(stdout@, stderr@, code),
            out@.well_formed(),
    {
        ExecOutput { stdout, stderr, exit: exit_of(code), timed_out: false }
    }
}

/// Why a request came to no result.
#[derive(Clone, Debug, PartialEq, Eq)]
pub enum ExecError {
    /// The project root could not be made ready.
    EnvironmentNotReady(EnvError),
    /// The child process could not be created; the text is the system's
    /// reason.
    SpawnFailed(String),
    /// Waiting for the child, or reading what it wrote, failed; the text is
    /// the system's reason.
    Failed(String),
}

/// The mathematical value of an [`ExecError`].
pub enum ExecErrorView {
    EnvironmentNotReady(EnvErrorView),
    SpawnFailed(Seq<char>),
    Failed(Seq<char>),
}

impl View for ExecError {
    type V = ExecErrorView;

    open spec fn view(&self) -> ExecErrorView {
        match self {
            ExecError::EnvironmentNotReady(e) => ExecErrorView::EnvironmentNotReady(e@),
            ExecError::SpawnFailed(reason) => ExecErrorView::SpawnFailed(reason@),
            ExecError::Failed(reason) => ExecErrorView::Failed(reason@),
        }
    }
}

impl ExecErrorView {
    /// The one text that the host gets to show.
    pub open spec fn message(self) -> Seq<char> {
        match self {
            ExecErrorView::EnvironmentNotReady(e) => ENV_FAILED_PREFIX@ + e.message(),
            ExecErrorView::SpawnFailed(reason) => SPAWN_FAILED_PREFIX@ + reason,
            ExecErrorView::Failed(reason) => RUN_FAILED_PREFIX@ + reason,
        }
    }
}

impl ExecError {
    /// The one text that the host gets to show.
    pub fn message(&self) -> (text: String)
        ensures
            text@ == self@.message(),
    {
        match self {
            ExecError::EnvironmentNotReady(e) => {
                let reason = e.message();
                ENV_FAILED_PREFIX.to_owned().concat(reason.as_str())
            },
            ExecError::SpawnFailed(reason) => SPAWN_FAILED_PREFIX.to_owned().concat(
                reason.as_str(),
            ),
            ExecError::Failed(reason) => RUN_FAILED_PREFIX.to_owned().concat(reason.as_str()),
        }
    }
}

/// How the race between the child and the timer came out.
#[derive(Clone, Debug, PartialEq, Eq)]
pub enum RaceOutcome {
    /// The child came to its end first: all it wrote to either stream, and
    /// its exit code if it has one.
    Completed { stdout: Vec<u8>, stderr: Vec<u8>, code: Option<i32> },
    /// Waiting for the child, or reading what it wrote, failed; the text is
    /// the system's reason.
    WaitFailed(String),
    /// The time limit passed first.
    TimedOut,
}

/// The mathematical value of a [`RaceOutcome`].
pub enum RaceOutcomeView {
    Completed { stdout: Seq<u8>, stderr: Seq<u8>, code: Option<i32> },
    WaitFailed(Seq<char>),
    TimedOut,
}

impl View for RaceOutcome {
    type V = RaceOutcomeView;

    open spec fn view(&self) -> RaceOutcomeView {
        match self {
            RaceOutcome::Completed { stdout, stderr, code } => RaceOutcomeView::Completed {
                stdout: stdout@,
                stderr: stderr@,
                code: *code,
            },
            RaceOutcome::WaitFailed(reason) => RaceOutcomeView::WaitFailed(reason@),
            RaceOutcome::TimedOut => RaceOutcomeView::TimedOut,
        }
    }
}

/// Where a request stands: the step that was carried out last, with what the
/// host reported of it.
#[derive(Clone, Debug, PartialEq, Eq)]
pub enum EntryState {
    /// The project root is being made ready, and this is how far that is.
    Provisioning(EnvState),
    /// The child was spawned, or could not be.
    Spawned(Attempt),
    /// The child was raced against the timer.
    Raced(RaceOutcome),
    /// The child was told to stop and its end was waited for; whether that
    /// went through makes no difference.
    Killed(Attempt),
}

/// The mathematical value of an [`EntryState`].
pub enum EntryStateView {
    Provisioning(EnvStateView),
    Spawned(AttemptView),
    Raced(RaceOutcomeView),
    Killed(AttemptView),
}

impl View for EntryState {
    type V = EntryStateView;

    open spec fn view(&self) -> EntryStateView {
        match self {
            EntryState::Provisioning(state) => EntryStateView::Provisioning(state@),
            EntryState::Spawned(attempt) => EntryStateView::Spawned(attempt@),
            EntryState::Raced(outcome) => EntryStateView::Raced(outcome@),
            EntryState::Killed(attempt) => EntryStateView::Killed(attempt@),
        }
    }
}

/// What the host has to do next for a request.
#[derive(Debug, PartialEq, Eq)]
pub enum EntryAction {
    /// Carry out this step of provisioning; answer with
    /// [`EntryState::Provisioning`] around the state that the step names.
    Provision(EnvAction),
    /// Create the child process and keep its handle; answer with
    /// [`EntryState::Spawned`].
    Spawn(Launch),
    /// Wait for the child's end and for all it writes, and for a timer of
    /// `seconds` seconds, both at once; answer with [`EntryState::Raced`] as
    /// soon as either is there.
    Race { seconds: u64 },
    /// Tell the child to stop, by force, and wait for its end; answer with
    /// [`EntryState::Killed`].
    Kill,
    /// Nothing more: the request has ended with this result.
    Finish(Result<ExecOutput, String>),
}

/// The mathematical value of an [`EntryAction`].
pub enum EntryActionView {
    Provision(EnvActionView),
    Spawn(LaunchView),
    Race { seconds: u64 },
    Kill,
    Finish(Result<ExecOutputView, Seq<char>>),
}

impl View for EntryAction {
    type V = EntryActionView;

    open spec fn view(&self) -> EntryActionView {
        match self {
            EntryAction::Provision(action) => EntryActionView::Provision(action@),
            EntryAction::Spawn(launch) => EntryActionView::Spawn(launch@),
            EntryAction::Race { seconds } => EntryActionView::Race { seconds: *seconds },
            EntryAction::Kill => EntryActionView::Kill,
            EntryAction::Finish(Ok(out)) => EntryActionView::Finish(Ok(out@)),
            EntryAction::Finish(Err(text)) => EntryActionView::Finish(Err(text@)),
        }
    }
}

/// A request: the project root, the module to run as the entry point, the
/// arguments handed to it, and the time limit in seconds.
pub struct Request {
    pub root: Seq<char>,
    pub module: Seq<char>,
    pub args: Seq<Seq<char>>,
    pub seconds: u64,
}

/// The launch of the entry point: `module` is run by the interpreter of the
/// managed environment, in the project root `root`, with `args` behind it as
/// they are. Both streams are captured, and the child does not outlive its
/// handle.
pub open spec fn entry_launch(
    root: Seq<char>,
    module: Seq<char>,
    args: Seq<Seq<char>>,
) -> LaunchView {
    LaunchView {
        program: TOOL@,
        args: seq!["run"@, "python"@, "-m"@, module] + args,
        dir: Some(root),
        stdout: Stream::Capture,
        stderr: Stream::Capture,
        kill_on_drop: true,
    }
}

/// The text that `String::from_utf8_lossy` makes of `bytes`.
pub uninterp spec fn lossy_text(bytes: Seq<u8>) -> Seq<char>;

/// The text of what a child wrote. Bytes that are UTF-8 throughout give the
/// text that they encode, exactly; of any others the text is what
/// `String::from_utf8_lossy` makes of them.
pub open spec fn transcript(bytes: Seq<u8>) -> Seq<char> {
    if valid_utf8(bytes) {
        decode_utf8(bytes)
    } else {
        lossy_text(bytes)
    }
}

/// What follows `state` in the handling of `request`.
///
/// The project root is made ready first, and nothing is spawned where that
/// fails. Then the child is spawned and raced against the timer. A child
/// that ends first gives its transcript and exit code; a timer that ends
/// first has the child killed and gives the timeout result, whatever came
/// of the kill.
pub open spec fn entry_step(request: Request, state: EntryStateView) -> EntryActionView {
    match state {
        EntryStateView::Provisioning(env_state) => match ensure_step(request.root, env_state) {
            EnvActionView::Finish(Ok(_)) => EntryActionView::Spawn(
                entry_launch(request.root, request.module, request.args),
            ),
            EnvActionView::Finish(Err(e)) => EntryActionView::Finish(
                Err(ExecErrorView::EnvironmentNotReady(e).message()),
            ),
            action => EntryActionView::Provision(action),
        },
        EntryStateView::Spawned(attempt) => match attempt {
            AttemptView::Done => EntryActionView::Race { seconds: request.seconds },
            AttemptView::Failed(reason) => EntryActionView::Finish(
                Err(ExecErrorView::SpawnFailed(reason).message()),
            ),
        },
        EntryStateView::Raced(outcome) => match outcome {
            RaceOutcomeView::Completed { stdout, stderr, code } => EntryActionView::Finish(
                Ok(ExecOutputView::completed(transcript(stdout), transcript(stderr), code)),
            ),
            RaceOutcomeView::WaitFailed(reason) => EntryActionView::Finish(
                Err(ExecErrorView::Failed(reason).message()),
            ),
            RaceOutcomeView::TimedOut => EntryActionView::Kill,
        },
        EntryStateView::Killed(_) => EntryActionView::Finish(Ok(ExecOutputView::timeout())),
    }
}

/// `String::from_utf8_lossy`: the text of `bytes`, with each run of bytes
/// that is no UTF-8 replaced as that function replaces it. Bytes that are
/// UTF-8 throughout give the text that they encode.
#[verifier::external_body]
fn decode_lossy(bytes: &Vec<u8>) -> (text: String)
    ensures
        text@ == lossy_text(bytes@),
        valid_utf8(bytes@) ==> text@ == decode_utf8(bytes@),
{
    String::from_utf8_lossy(bytes).into_owned()
}

/// The launch of the entry point of a request.
fn launch_entry(project_root: &str, module: &str, args: &[String]) -> (launch: Launch)
    ensures
        launch@ == entry_launch(project_root@, module@, args.deep_view()),
{
    let mut all: Vec<String> = Vec::new();
    all.push("run".to_owned());
    all.push("python".to_owned());
    all.push("-m".to_owned());
    all.push(module.to_owned());
    let mut i: usize = 0;
    while i < args.len()
        invariant
            i <= args.len(),
            all.len() == 4 + i,
            all[0]@ == "run"@,
            all[1]@ == "python"@,
            all[2]@ == "-m"@,
            all[3]@ == module@,
            forall|j: int| 0 <= j < i ==> all[4 + j]@ == args[j]@,
        decreases args.len() - i,
    {
        all.push(args[i].clone());
        i = i + 1;
    }
    assert(all.deep_view() =~= seq!["run"@, "python"@, "-m"@, module@] + args.deep_view());
    Launch {
        program: TOOL.to_owned(),
        args: all,
        dir: Some(project_root.to_owned()),
        stdout: Stream::Capture,
        stderr: Stream::Capture,
        kill_on_drop: true,
    }
}

/// The next thing to do for the request to run `module` with `args` in
/// `project_root` for at most `seconds` seconds, `state` being where the
/// request stands. A caller starts from [`EntryState::Provisioning`] around
/// [`EnvState::Start`], carries out each action and comes back with the
/// state that the action names, until the action is [`EntryAction::Finish`].
pub fn run_python_entry(
    project_root: &str,
    module: &str,
    args: &[String],
    seconds: u64,
    state: EntryState,
) -> (action: EntryAction)
    ensures
        action@ == entry_step(
            Request { root: project_root@, module: module@, args: args.deep_view(), seconds },
            state@,
        ),
{
    match state {
        EntryState::Provisioning(env_state) => {
            let env = PyEnv::new(project_root.to_owned());
            match env.ensure(env_state) {
                EnvAction::Finish(Ok(_)) => EntryAction::Spawn(
                    launch_entry(project_root, module, args),
                ),
                EnvAction::Finish(Err(e)) => EntryAction::Finish(
                    Err(ExecError::EnvironmentNotReady(e).message()),
                ),
                action => EntryAction::Provision(action),
            }
        },
        EntryState::Spawned(attempt) => match attempt {
            Attempt::Done => EntryAction::Race { seconds },
            Attempt::Failed(reason) => EntryAction::Finish(
                Err(ExecError::SpawnFailed(reason).message()),
            ),
        },
        EntryState::Raced(outcome) => match outcome {
            RaceOutcome::Completed { stdout, stderr, code } => EntryAction::Finish(
                Ok(ExecOutput::completed(decode_lossy(&stdout), decode_lossy(&stderr), code)),
            ),
            RaceOutcome::WaitFailed(reason) => EntryAction::Finish(
                Err(ExecError::Failed(reason).message()),
            ),
            RaceOutcome::TimedOut => EntryAction::Kill,
        },
        EntryState::Killed(_) => EntryAction::Finish(Ok(ExecOutput::timeout())),
    }
}

} // verus!

//! Plain descriptions of what the host is asked to start, and of what it
//! reports back.

use vstd::prelude::*;

verus! {

/// Where an output stream of a child process goes.
#[derive(Clone, Copy, Debug, PartialEq, Eq, Structural)]
pub enum Stream {
    /// Thrown away.
    Discard,
    /// Shared with the host's own stream, so that the user sees it live.
    Inherit,
    /// Redirected into a pipe that the supervisor owns and reads in full.
    Capture,
}

/// How a child process is to be started.
#[derive(Clone, Debug, PartialEq, Eq)]
pub struct Launch {
    /// The program, looked up on the search path.
    pub program: String,
    /// Its arguments, in order.
    pub args: Vec<String>,
    /// Its working directory, where it gets one of its own.
    pub dir: Option<String>,
    pub stdout: Stream,
    pub stderr: Stream,
    /// Whether the child is killed when its handle is given up.
    pub kill_on_drop: bool,
}

/// The mathematical value of a [`Launch`].
pub struct LaunchView {
    pub program: Seq<char>,
    pub args: Seq<Seq<char>>,
    pub dir: Option<Seq<char>>,
    pub stdout: Stream,
    pub stderr: Stream,
    pub kill_on_drop: bool,
}

impl View for Launch {
    type V = LaunchView;

    open spec fn view(&self) -> LaunchView {
        LaunchView {
            program: self.program@,
            args: self.args.deep_view(),
            dir: self.dir.deep_view(),
            stdout: self.stdout,
            stderr: self.stderr,
            kill_on_drop: self.kill_on_drop,
        }
    }
}

/// How a child process that was run to its end came out.
#[derive(Clone, Debug, PartialEq, Eq)]
pub enum ProcessReport {
    /// The process could not be created; the text is the system's reason.
    LaunchFailed(String),
    /// The process ended, with this exit code if it has one (it has none
    /// where a signal ended it).
    Exited(Option<i32>),
}

/// The mathematical value of a [`ProcessReport`].
pub enum ProcessReportView {
    LaunchFailed(Seq<char>),
    Exited(Option<i32>),
}

impl View for ProcessReport {
    type V = ProcessReportView;

    open spec fn view(&self) -> ProcessReportView {
        match self {
            ProcessReport::LaunchFailed(reason) => ProcessReportView::LaunchFailed(reason@),
            ProcessReport::Exited(code) => ProcessReportView::Exited(*code),
        }
    }
}

impl ProcessReportView {
    /// The process was created, ran to its end and exited with code zero.
    pub open spec fn succeeded(self) -> bool {
        self == ProcessReportView::Exited(Some(0i32))
    }
}

impl ProcessReport {
    /// Whether the process was created, ran to its end and exited with code
    /// zero.
    pub fn succeeded(&self) -> (ok: bool)
        ensures
            ok == self@.succeeded(),
    {
        match self {
            ProcessReport::Exited(Some(0)) => true,
            _ => false,
        }
    }
}

/// How a single attempt of the host came out.
#[derive(Clone, Debug, PartialEq, Eq)]
pub enum Attempt {
    /// It went through.
    Done,
    /// It failed; the text is the system's reason.
    Failed(String),
}

/// The mathematical value of an [`Attempt`].
pub enum AttemptView {
    Done,
    Failed(Seq<char>),
}

impl View for Attempt {
    type V = AttemptView;

    open spec fn view(&self) -> AttemptView {
        match self {
            Attempt::Done => AttemptView::Done,
            Attempt::Failed(reason) => AttemptView::Failed(reason@),
        }
    }
}

} // verus!

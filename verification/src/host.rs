//! A model of the host, and of whole runs against it.
//!
//! The state machines decide one step at a time. What they amount to shows
//! only over a whole run: the machine says what to do, the host does it and
//! reports, and so on until the machine finishes. Here the host is a plain
//! value that fixes how each thing asked of it comes out, and a run is the
//! unfolding of a machine against such a host.

use vstd::prelude::*;
use crate::launch::{AttemptView, ProcessReportView};
use crate::python_env::{ensure_step, EnvActionView, EnvErrorView, EnvStateView, MANIFEST_NAME};
use crate::runner::{
    entry_step, EntryActionView, EntryStateView, ExecOutputView, RaceOutcomeView, Request,
};

verus! {

/// The host as provisioning meets it.
pub struct EnvHost {
    /// How the tool's version query comes out.
    pub tool: ProcessReportView,
    /// The text of each file that exists, by directory and name.
    pub files: Map<(Seq<char>, Seq<char>), Seq<char>>,
    /// How a write comes out.
    pub write: AttemptView,
    /// How the sync comes out.
    pub sync: ProcessReportView,
}

impl EnvHost {
    /// Whether the project root `root` holds a manifest.
    pub open spec fn has_manifest(self, root: Seq<char>) -> bool {
        self.files.dom().contains((root, MANIFEST_NAME@))
    }

    /// The root `root` is ready as it stands: the tool answers, the manifest
    /// is there and the sync succeeds.
    pub open spec fn ready(self, root: Seq<char>) -> bool {
        &&& self.tool.succeeded()
        &&& self.has_manifest(root)
        &&& self.sync.succeeded()
    }
}

/// The host after it has carried out `action`, and the state that reports
/// how that came out. A write that goes through puts the text in place; no
/// other action changes a file.
pub open spec fn answer(host: EnvHost, action: EnvActionView) -> (EnvHost, EnvStateView) {
    match action {
        EnvActionView::CheckTool(_) => (host, EnvStateView::ToolChecked(host.tool)),
        EnvActionView::ProbeManifest { root, name } => (
            host,
            EnvStateView::ManifestProbed(host.files.dom().contains((root, name))),
        ),
        EnvActionView::WriteManifest { root, name, content } => match host.write {
            AttemptView::Done => (
                EnvHost { files: host.files.insert((root, name), content), ..host },
                EnvStateView::ManifestWritten(AttemptView::Done),
            ),
            AttemptView::Failed(reason) => (
                host,
                EnvStateView::ManifestWritten(AttemptView::Failed(reason)),
            ),
        },
        EnvActionView::Sync(_) => (host, EnvStateView::Synced(host.sync)),
        EnvActionView::Finish(_) => (host, EnvStateView::Start),
    }
}

/// How many steps provisioning can still ask for after `state`.
pub open spec fn steps_left(state: EnvStateView) -> nat {
    match state {
        EnvStateView::Start => 4,
        EnvStateView::ToolChecked(_) => 3,
        EnvStateView::ManifestProbed(_) => 2,
        EnvStateView::ManifestWritten(_) => 1,
        EnvStateView::Synced(_) => 0,
    }
}

/// A whole run of provisioning: the host as it is left, what was asked of
/// it, in order, and the result.
pub struct Provisioned {
    pub host: EnvHost,
    pub actions: Seq<EnvActionView>,
    pub result: Result<(), EnvErrorView>,
}

/// The run of provisioning for `root` that goes on from `state` on `host`.
pub open spec fn provision_from(root: Seq<char>, host: EnvHost, state: EnvStateView) -> Provisioned
    decreases steps_left(state),
{
    match ensure_step(root, state) {
        EnvActionView::Finish(result) => Provisioned { host, actions: Seq::empty(), result },
        action => {
            let (next_host, next_state) = answer(host, action);
            let rest = provision_from(root, next_host, next_state);
            Provisioned {
                host: rest.host,
                actions: seq![action] + rest.actions,
                result: rest.result,
            }
        },
    }
}

/// The run of provisioning for `root` on `host`, from the start.
pub open spec fn provision(root: Seq<char>, host: EnvHost) -> Provisioned {
    provision_from(root, host, EnvStateView::Start)
}

/// The host as a request meets it.
pub struct ExecHost {
    /// What provisioning meets.
    pub env: EnvHost,
    /// How spawning the child comes out.
    pub spawn: AttemptView,
    /// How the race between the child and the timer comes out.
    pub race: RaceOutcomeView,
    /// How killing the child comes out.
    pub kill: AttemptView,
}

/// The host after it has carried out `action`, and the state that reports
/// how that came out.
pub open spec fn answer_entry(host: ExecHost, action: EntryActionView) -> (
    ExecHost,
    EntryStateView,
) {
    match action {
        EntryActionView::Provision(env_action) => {
            let (env, env_state) = answer(host.env, env_action);
            (ExecHost { env, ..host }, EntryStateView::Provisioning(env_state))
        },
        EntryActionView::Spawn(_) => (host, EntryStateView::Spawned(host.spawn)),
        EntryActionView::Race { seconds } => (host, EntryStateView::Raced(host.race)),
        EntryActionView::Kill => (host, EntryStateView::Killed(host.kill)),
        EntryActionView::Finish(_) => (host, EntryStateView::Provisioning(EnvStateView::Start)),
    }
}

/// How many steps a request can still ask for after `state`.
pub open spec fn entry_steps_left(state: EntryStateView) -> nat {
    match state {
        EntryStateView::Provisioning(env_state) => 3 + steps_left(env_state),
        EntryStateView::Spawned(_) => 2,
        EntryStateView::Raced(_) => 1,
        EntryStateView::Killed(_) => 0,
    }
}

/// A whole run of a request: the host as it is left, what was asked of it,
/// in order, and the result.
pub struct Executed {
    pub host: ExecHost,
    pub actions: Seq<EntryActionView>,
    pub result: Result<ExecOutputView, Seq<char>>,
}

/// The run of `request` that goes on from `state` on `host`.
pub open spec fn execute_from(request: Request, host: ExecHost, state: EntryStateView) -> Executed
    decreases entry_steps_left(state),
{
    match entry_step(request, state) {
        EntryActionView::Finish(result) => Executed { host, actions: Seq::empty(), result },
        action => {
            let (next_host, next_state) = answer_entry(host, action);
            let rest = execute_from(request, next_host, next_state);
            Executed {
                host: rest.host,
                actions: seq![action] + rest.actions,
                result: rest.result,
            }
        },
    }
}

/// The run of `request` on `host`, from the start.
pub open spec fn execute(request: Request, host: ExecHost) -> Executed {
    execute_from(request, host, EntryStateView::Provisioning(EnvStateView::Start))
}

} // verus!

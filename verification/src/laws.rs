//! What holds of whole runs, whatever the host does.

use vstd::prelude::*;
use vstd::utf8::{decode_utf8, valid_utf8};
use crate::host::{execute, execute_from, provision, provision_from, EnvHost, ExecHost};
use crate::launch::{AttemptView, ProcessReportView, Stream};
use crate::python_env::{
    sync_launch, version_query, EnvActionView, EnvErrorView, DEFAULT_MANIFEST, MANIFEST_NAME,
};
use crate::runner::{
    entry_launch, transcript, EntryActionView, ExecErrorView, ExecOutputView, RaceOutcomeView,
    Request, TIMEOUT_EXIT,
};

verus! {

/// Where the tool's version query does not succeed, provisioning fails with
/// `ToolMissing` after that one query: the manifest is neither looked for
/// nor written, no sync is run, and the host is left as it was.
pub proof fn missing_tool_stops_provisioning(root: Seq<char>, host: EnvHost)
    requires
        !host.tool.succeeded(),
    ensures
        provision(root, host).result == Err::<(), EnvErrorView>(EnvErrorView::ToolMissing),
        provision(root, host).actions == seq![EnvActionView::CheckTool(version_query())],
        provision(root, host).host == host,
{
    reveal_with_fuel(provision_from, 3);
    assert(provision(root, host).actions =~= seq![EnvActionView::CheckTool(version_query())]);
}

/// Where the tool answers and the root holds no manifest, provisioning
/// writes exactly one file, the manifest with the default text, before it
/// runs the sync; where that write goes through, the host is left with that
/// one file more and nothing else changed.
pub proof fn missing_manifest_is_written_once(root: Seq<char>, host: EnvHost)
    requires
        host.tool.succeeded(),
        !host.has_manifest(root),
        host.write is Done,
    ensures
        provision(root, host).actions == seq![
            EnvActionView::CheckTool(version_query()),
            EnvActionView::ProbeManifest { root, name: MANIFEST_NAME@ },
            EnvActionView::WriteManifest {
                root,
                name: MANIFEST_NAME@,
                content: DEFAULT_MANIFEST@,
            },
            EnvActionView::Sync(sync_launch(root)),
        ],
        provision(root, host).host == (EnvHost {
            files: host.files.insert((root, MANIFEST_NAME@), DEFAULT_MANIFEST@),
            ..host
        }),
        provision(root, host).result is Ok <==> host.sync.succeeded(),
{
    reveal_with_fuel(provision_from, 5);
    assert(provision(root, host).actions =~= seq![
        EnvActionView::CheckTool(version_query()),
        EnvActionView::ProbeManifest { root, name: MANIFEST_NAME@ },
        EnvActionView::WriteManifest { root, name: MANIFEST_NAME@, content: DEFAULT_MANIFEST@ },
        EnvActionView::Sync(sync_launch(root)),
    ]);
}

/// A manifest that is there is never written over: whatever else the host
/// does, provisioning asks for no write and leaves every file as it was.
pub proof fn existing_manifest_is_kept(root: Seq<char>, host: EnvHost)
    requires
        host.has_manifest(root),
    ensures
        provision(root, host).host == host,
        forall|i: int|
            0 <= i < provision(root, host).actions.len() ==> !(
            #[trigger] provision(root, host).actions[i] is WriteManifest),
{
    reveal_with_fuel(provision_from, 5);
}

/// Provisioning changes nothing but the manifest of its own root: every
/// other file is after the run what it was before, and so is the way the
/// host answers.
pub proof fn provisioning_touches_only_the_manifest(root: Seq<char>, host: EnvHost)
    ensures
        provision(root, host).host.tool == host.tool,
        provision(root, host).host.write == host.write,
        provision(root, host).host.sync == host.sync,
        provision(root, host).host.files == host.files || provision(root, host).host.files
            == host.files.insert((root, MANIFEST_NAME@), DEFAULT_MANIFEST@),
{
    reveal_with_fuel(provision_from, 5);
}

/// The result that provisioning owes on `host`: the first check that fails
/// gives its error, and there is success where none fails.
pub open spec fn provisioning_outcome(root: Seq<char>, host: EnvHost) -> Result<(), EnvErrorView> {
    if !host.tool.succeeded() {
        Err(EnvErrorView::ToolMissing)
    } else if !host.has_manifest(root) && host.write is Failed {
        Err(EnvErrorView::ManifestWriteFailed(host.write->Failed_0))
    } else {
        match host.sync {
            ProcessReportView::LaunchFailed(reason) => Err(EnvErrorView::SpawnFailed(reason)),
            ProcessReportView::Exited(Some(0)) => Ok(()),
            ProcessReportView::Exited(_) => Err(EnvErrorView::SyncFailed),
        }
    }
}

/// Provisioning gives the result that it owes. So it succeeds exactly where
/// the tool answers, the manifest is there or can be written, and the sync
/// succeeds; and each error comes exactly where its check is the first to
/// fail.
pub proof fn provisioning_gives_its_outcome(root: Seq<char>, host: EnvHost)
    ensures
        provision(root, host).result == provisioning_outcome(root, host),
        provision(root, host).result is Ok <==> {
            &&& host.tool.succeeded()
            &&& (host.has_manifest(root) || host.write is Done)
            &&& host.sync.succeeded()
        },
{
    reveal_with_fuel(provision_from, 5);
}

/// A root on which provisioning has succeeded is ready.
pub proof fn provisioned_root_is_ready(root: Seq<char>, host: EnvHost)
    requires
        provision(root, host).result is Ok,
    ensures
        provision(root, host).host.ready(root),
{
    reveal_with_fuel(provision_from, 5);
}

/// Provisioning a root that is ready succeeds and changes nothing. So it
/// can be done before every run: done twice in a row, both runs succeed, and
/// the second asks for no write and leaves every file as the first left it.
pub proof fn provisioning_is_idempotent(root: Seq<char>, host: EnvHost)
    requires
        host.ready(root),
    ensures
        provision(root, host).result is Ok,
        provision(root, host).host == host,
        provision(root, provision(root, host).host).result is Ok,
        provision(root, provision(root, host).host).host == provision(root, host).host,
        forall|i: int|
            0 <= i < provision(root, provision(root, host).host).actions.len() ==> !(
            #[trigger] provision(root, provision(root, host).host).actions[i] is WriteManifest),
{
    reveal_with_fuel(provision_from, 5);
}

/// Provisioning asks the host for at most four things, whatever the host
/// answers.
pub proof fn provisioning_is_short(root: Seq<char>, host: EnvHost)
    ensures
        provision(root, host).actions.len() <= 4,
{
    reveal_with_fuel(provision_from, 5);
}

/// A request asks the host for at most seven things, whatever the host
/// answers: it never waits on anything but the steps of provisioning, the
/// spawn, the race, which the timer ends, and the kill.
pub proof fn request_is_short(request: Request, host: ExecHost)
    ensures
        execute(request, host).actions.len() <= 7,
{
    reveal_with_fuel(provision_from, 5);
    reveal_with_fuel(execute_from, 8);
}

/// The result that a request owes on `host`: the failure of provisioning,
/// of the spawn or of the wait where one of them fails, in that order; else
/// the transcript of a child that ended in time, or the timeout result.
pub open spec fn request_outcome(request: Request, host: ExecHost) -> Result<
    ExecOutputView,
    Seq<char>,
> {
    match provisioning_outcome(request.root, host.env) {
        Err(e) => Err(ExecErrorView::EnvironmentNotReady(e).message()),
        Ok(_) => match host.spawn {
            AttemptView::Failed(reason) => Err(ExecErrorView::SpawnFailed(reason).message()),
            AttemptView::Done => match host.race {
                RaceOutcomeView::Completed { stdout, stderr, code } => Ok(
                    ExecOutputView::completed(transcript(stdout), transcript(stderr), code),
                ),
                RaceOutcomeView::WaitFailed(reason) => Err(
                    ExecErrorView::Failed(reason).message(),
                ),
                RaceOutcomeView::TimedOut => Ok(ExecOutputView::timeout()),
            },
        },
    }
}

/// A request gives the result that it owes, whatever comes of the kill.
pub proof fn request_gives_its_outcome(request: Request, host: ExecHost)
    ensures
        execute(request, host).result == request_outcome(request, host),
{
    reveal_with_fuel(provision_from, 5);
    reveal_with_fuel(execute_from, 8);
}

/// Where the time limit passes before the child ends, the child is killed
/// and the request gives the timeout result, with the timeout mark set and
/// the reserved exit code, whatever comes of the kill.
pub proof fn timed_out_run_gives_the_timeout_result(request: Request, host: ExecHost)
    requires
        provision(request.root, host.env).result is Ok,
        host.spawn is Done,
        host.race is TimedOut,
    ensures
        execute(request, host).result == Ok::<ExecOutputView, Seq<char>>(
            ExecOutputView::timeout(),
        ),
        execute(request, host).result->Ok_0.timed_out,
        execute(request, host).result->Ok_0.exit == TIMEOUT_EXIT,
        execute(request, host).actions.len() > 0,
        execute(request, host).actions.last() == EntryActionView::Kill,
{
    reveal_with_fuel(provision_from, 5);
    reveal_with_fuel(execute_from, 8);
}

/// Where the child ends before the time limit passes, the request gives the
/// text of what the child wrote to either stream and its exit code, without
/// the timeout mark, and the child is never killed. What the child wrote in
/// UTF-8 comes back as the very text that it encodes.
pub proof fn completed_run_gives_the_transcript(
    request: Request,
    host: ExecHost,
    stdout: Seq<u8>,
    stderr: Seq<u8>,
    code: i32,
)
    requires
        provision(request.root, host.env).result is Ok,
        host.spawn is Done,
        host.race == (RaceOutcomeView::Completed { stdout, stderr, code: Some(code) }),
    ensures
        execute(request, host).result == Ok::<ExecOutputView, Seq<char>>(
            ExecOutputView {
                stdout: transcript(stdout),
                stderr: transcript(stderr),
                exit: code,
                timed_out: false,
            },
        ),
        valid_utf8(stdout) ==> execute(request, host).result->Ok_0.stdout == decode_utf8(stdout),
        valid_utf8(stderr) ==> execute(request, host).result->Ok_0.stderr == decode_utf8(stderr),
        forall|i: int|
            0 <= i < execute(request, host).actions.len() ==> !(
            #[trigger] execute(request, host).actions[i] is Kill),
{
    reveal_with_fuel(provision_from, 5);
    reveal_with_fuel(execute_from, 8);
}

/// Where provisioning fails, the request fails with the text of that
/// failure, and no child is ever spawned.
pub proof fn failed_provisioning_spawns_nothing(request: Request, host: ExecHost)
    requires
        provision(request.root, host.env).result is Err,
    ensures
        execute(request, host).result == Err::<ExecOutputView, Seq<char>>(
            ExecErrorView::EnvironmentNotReady(
                provision(request.root, host.env).result->Err_0,
            ).message(),
        ),
        forall|i: int|
            0 <= i < execute(request, host).actions.len() ==> (
            #[trigger] execute(request, host).actions[i] is Provision),
{
    reveal_with_fuel(provision_from, 5);
    reveal_with_fuel(execute_from, 8);
}

/// No result carries both the timeout mark and anything of the child's: a
/// result that is marked as timed out is the timeout result, and it comes
/// only where the timer won the race.
pub proof fn results_are_well_formed(request: Request, host: ExecHost)
    requires
        execute(request, host).result is Ok,
    ensures
        execute(request, host).result->Ok_0.well_formed(),
        execute(request, host).result->Ok_0.timed_out <==> host.race is TimedOut,
{
    reveal_with_fuel(provision_from, 5);
    reveal_with_fuel(execute_from, 8);
}

/// A request spawns at most one child, the one that it is about: in the
/// project root, with both streams captured, and bound to its handle so that
/// it cannot outlive the request. The one timer that the child is raced
/// against runs for the seconds of the request.
pub proof fn child_is_bound_to_the_request(request: Request, host: ExecHost)
    ensures
        forall|i: int|
            0 <= i < execute(request, host).actions.len() ==> (
            #[trigger] execute(request, host).actions[i] matches EntryActionView::Spawn(launch)
                ==> {
                &&& launch == entry_launch(request.root, request.module, request.args)
                &&& launch.dir == Some(request.root)
                &&& launch.stdout == Stream::Capture
                &&& launch.stderr == Stream::Capture
                &&& launch.kill_on_drop
            }),
        forall|i: int|
            0 <= i < execute(request, host).actions.len() ==> (
            #[trigger] execute(request, host).actions[i] matches EntryActionView::Race { seconds }
                ==> seconds == request.seconds),
        forall|i: int, j: int|
            0 <= i < j < execute(request, host).actions.len() ==> !(
            #[trigger] execute(request, host).actions[i] is Spawn
                && #[trigger] execute(request, host).actions[j] is Spawn),
        forall|i: int, j: int|
            0 <= i < j < execute(request, host).actions.len() ==> !(
            #[trigger] execute(request, host).actions[i] is Race
                && #[trigger] execute(request, host).actions[j] is Race),
{
    reveal_with_fuel(provision_from, 5);
    reveal_with_fuel(execute_from, 8);
}

} // verus!

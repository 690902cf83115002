use std::collections::HashMap;

use py_runner::launch::{Attempt, Launch, ProcessReport, Stream};
use py_runner::python_env::{EnvAction, EnvError, EnvState, DEFAULT_MANIFEST};
use py_runner::runner::{
    run_python_entry, EntryAction, EntryState, ExecError, ExecOutput, RaceOutcome, TIMEOUT_EXIT,
    TIMEOUT_TEXT,
};

/// A host that answers as it is told to, keeps its files in memory and
/// writes down what it was asked to do.
struct Host {
    tool: ProcessReport,
    files: HashMap<(String, String), String>,
    sync: ProcessReport,
    spawn: Attempt,
    race: RaceOutcome,
    kill: Attempt,
    log: Vec<String>,
    spawned: Vec<Launch>,
    timers: Vec<u64>,
}

fn host(race: RaceOutcome) -> Host {
    Host {
        tool: ProcessReport::Exited(Some(0)),
        files: HashMap::new(),
        sync: ProcessReport::Exited(Some(0)),
        spawn: Attempt::Done,
        race,
        kill: Attempt::Done,
        log: Vec::new(),
        spawned: Vec::new(),
        timers: Vec::new(),
    }
}

fn completed(stdout: &[u8], stderr: &[u8], code: Option<i32>) -> RaceOutcome {
    RaceOutcome::Completed { stdout: stdout.to_vec(), stderr: stderr.to_vec(), code }
}

/// Carries out every action that `run_python_entry` asks for, until it
/// finishes.
fn execute(
    host: &mut Host,
    root: &str,
    module: &str,
    args: &[String],
    seconds: u64,
) -> Result<ExecOutput, String> {
    let mut state = EntryState::Provisioning(EnvState::Start);
    let mut steps = 0;
    loop {
        let action = run_python_entry(root, module, args, seconds, state);
        state = match action {
            EntryAction::Provision(EnvAction::CheckTool(_)) => {
                host.log.push("check".to_string());
                EntryState::Provisioning(EnvState::ToolChecked(host.tool.clone()))
            }
            EntryAction::Provision(EnvAction::ProbeManifest { root, name }) => {
                host.log.push("probe".to_string());
                let exists = host.files.contains_key(&(root, name));
                EntryState::Provisioning(EnvState::ManifestProbed(exists))
            }
            EntryAction::Provision(EnvAction::WriteManifest { root, name, content }) => {
                host.log.push("write".to_string());
                host.files.insert((root, name), content);
                EntryState::Provisioning(EnvState::ManifestWritten(Attempt::Done))
            }
            EntryAction::Provision(EnvAction::Sync(_)) => {
                host.log.push("sync".to_string());
                EntryState::Provisioning(EnvState::Synced(host.sync.clone()))
            }
            EntryAction::Provision(EnvAction::Finish(_)) => panic!("provisioning left open"),
            EntryAction::Spawn(launch) => {
                host.log.push("spawn".to_string());
                host.spawned.push(launch);
                EntryState::Spawned(host.spawn.clone())
            }
            EntryAction::Race { seconds } => {
                host.log.push("race".to_string());
                host.timers.push(seconds);
                EntryState::Raced(host.race.clone())
            }
            EntryAction::Kill => {
                host.log.push("kill".to_string());
                EntryState::Killed(host.kill.clone())
            }
            EntryAction::Finish(result) => return result,
        };
        steps += 1;
        assert!(steps <= 7);
    }
}

#[test]
fn sleep_forever_on_a_fresh_root_times_out() {
    let mut h = host(RaceOutcome::TimedOut);
    let result = execute(&mut h, "/tmp/proj", "app.sleep_forever", &[], 2);
    assert_eq!(
        result,
        Ok(ExecOutput {
            stdout: "".to_string(),
            stderr: "Timeout".to_string(),
            exit: 124,
            timed_out: true,
        })
    );
    assert_eq!(h.log, ["check", "probe", "write", "sync", "spawn", "race", "kill"]);
    assert_eq!(
        h.files.get(&("/tmp/proj".to_string(), "pyproject.toml".to_string())),
        Some(&DEFAULT_MANIFEST.to_string())
    );
    assert_eq!(h.timers, [2]);
    assert_eq!(
        h.spawned,
        [Launch {
            program: "uv".to_string(),
            args: vec![
                "run".to_string(),
                "python".to_string(),
                "-m".to_string(),
                "app.sleep_forever".to_string(),
            ],
            dir: Some("/tmp/proj".to_string()),
            stdout: Stream::Capture,
            stderr: Stream::Capture,
            kill_on_drop: true,
        }]
    );
}

#[test]
fn echo_args_gives_what_it_printed() {
    let mut h = host(completed(b"hi\n", b"", Some(0)));
    h.files.insert(
        ("/tmp/proj2".to_string(), "pyproject.toml".to_string()),
        DEFAULT_MANIFEST.to_string(),
    );
    let args = vec!["hi".to_string()];
    let result = execute(&mut h, "/tmp/proj2", "app.echo_args", &args, 30);
    assert_eq!(
        result,
        Ok(ExecOutput {
            stdout: "hi\n".to_string(),
            stderr: "".to_string(),
            exit: 0,
            timed_out: false,
        })
    );
    assert_eq!(h.log, ["check", "probe", "sync", "spawn", "race"]);
    assert_eq!(h.timers, [30]);
    assert_eq!(
        h.spawned[0].args,
        ["run", "python", "-m", "app.echo_args", "hi"].map(|s| s.to_string())
    );
}

#[test]
fn timeout_result_does_not_depend_on_the_kill() {
    for kill in [Attempt::Done, Attempt::Failed("No such process (os error 3)".to_string())] {
        let action = run_python_entry("/r", "m", &[], 5, EntryState::Killed(kill));
        assert_eq!(action, EntryAction::Finish(Ok(ExecOutput::timeout())));
    }
}

#[test]
fn timeout_result_is_the_reserved_one() {
    let out = ExecOutput::timeout();
    assert_eq!(out.stdout, "");
    assert_eq!(out.stderr, "Timeout");
    assert_eq!(out.exit, 124);
    assert!(out.timed_out);
    assert_eq!(TIMEOUT_EXIT, 124);
    assert_eq!(TIMEOUT_TEXT, "Timeout");
}

#[test]
fn timer_first_asks_for_the_kill() {
    let action = run_python_entry("/r", "m", &[], 5, EntryState::Raced(RaceOutcome::TimedOut));
    assert_eq!(action, EntryAction::Kill);
}

#[test]
fn immediate_exit_gives_its_code_and_output() {
    for code in [0, 1, 2, 17, 124, 255, -9] {
        let mut h = host(completed(b"out", b"err", Some(code)));
        let result = execute(&mut h, "/tmp/p", "m", &[], 1000);
        assert_eq!(
            result,
            Ok(ExecOutput {
                stdout: "out".to_string(),
                stderr: "err".to_string(),
                exit: code,
                timed_out: false,
            })
        );
        assert!(!h.log.contains(&"kill".to_string()));
    }
}

#[test]
fn child_ended_by_a_signal_gives_exit_one() {
    let action = run_python_entry(
        "/r",
        "m",
        &[],
        5,
        EntryState::Raced(completed(b"", b"Killed\n", None)),
    );
    assert_eq!(
        action,
        EntryAction::Finish(Ok(ExecOutput {
            stdout: "".to_string(),
            stderr: "Killed\n".to_string(),
            exit: 1,
            timed_out: false,
        }))
    );
}

#[test]
fn completed_builds_the_result() {
    let out = ExecOutput::completed("a".to_string(), "b".to_string(), Some(7));
    assert_eq!(
        out,
        ExecOutput { stdout: "a".to_string(), stderr: "b".to_string(), exit: 7, timed_out: false }
    );
    let out = ExecOutput::completed(String::new(), String::new(), None);
    assert_eq!(out.exit, 1);
    assert!(!out.timed_out);
}

#[test]
fn output_in_utf8_comes_back_as_its_text() {
    let text = "gr\u{fc}\u{df}e \u{2014} \u{4f60}\u{597d} \u{1f600}\n";
    let action = run_python_entry(
        "/r",
        "m",
        &[],
        5,
        EntryState::Raced(completed(text.as_bytes(), b"", Some(0))),
    );
    match action {
        EntryAction::Finish(Ok(out)) => assert_eq!(out.stdout, text),
        other => panic!("{:?}", other),
    }
}

#[test]
fn output_that_is_no_utf8_is_decoded_with_replacements() {
    let action = run_python_entry(
        "/r",
        "m",
        &[],
        5,
        EntryState::Raced(completed(b"a\xffb", b"\xc3", Some(0))),
    );
    match action {
        EntryAction::Finish(Ok(out)) => {
            assert_eq!(out.stdout, "a\u{fffd}b");
            assert_eq!(out.stderr, "\u{fffd}");
            assert_eq!(out.exit, 0);
            assert!(!out.timed_out);
        }
        other => panic!("{:?}", other),
    }
}

#[test]
fn failed_provisioning_spawns_nothing() {
    let mut h = host(RaceOutcome::TimedOut);
    h.tool = ProcessReport::LaunchFailed("No such file or directory (os error 2)".to_string());
    let result = execute(&mut h, "/tmp/proj", "app.main", &[], 2);
    assert_eq!(
        result,
        Err("Environment setup failed: `uv` not found. Please install uv \
             (https://github.com/astral-sh/uv)."
            .to_string())
    );
    assert_eq!(h.log, ["check"]);
    assert!(h.files.is_empty());
    assert!(h.spawned.is_empty());
}

#[test]
fn failed_sync_is_reported_to_the_host() {
    let mut h = host(RaceOutcome::TimedOut);
    h.sync = ProcessReport::Exited(Some(1));
    let result = execute(&mut h, "/tmp/proj", "app.main", &[], 2);
    assert_eq!(result, Err("Environment setup failed: `uv sync` failed".to_string()));
    assert_eq!(h.log, ["check", "probe", "write", "sync"]);
    assert!(h.spawned.is_empty());
}

#[test]
fn failed_spawn_is_reported_to_the_host() {
    let mut h = host(RaceOutcome::TimedOut);
    h.spawn = Attempt::Failed("Cannot allocate memory (os error 12)".to_string());
    let result = execute(&mut h, "/tmp/proj", "app.main", &[], 2);
    assert_eq!(
        result,
        Err("Failed to spawn process: Cannot allocate memory (os error 12)".to_string())
    );
    assert_eq!(h.log, ["check", "probe", "write", "sync", "spawn"]);
    assert!(h.timers.is_empty());
}

#[test]
fn failed_wait_is_reported_to_the_host() {
    let mut h = host(RaceOutcome::WaitFailed("Broken pipe (os error 32)".to_string()));
    let result = execute(&mut h, "/tmp/proj", "app.main", &[], 2);
    assert_eq!(result, Err("Error running code: Broken pipe (os error 32)".to_string()));
    assert!(!h.log.contains(&"kill".to_string()));
}

#[test]
fn exec_error_messages() {
    assert_eq!(
        ExecError::EnvironmentNotReady(EnvError::SyncFailed).message(),
        "Environment setup failed: `uv sync` failed"
    );
    assert_eq!(
        ExecError::EnvironmentNotReady(EnvError::ManifestWriteFailed("disk full".to_string()))
            .message(),
        "Environment setup failed: disk full"
    );
    assert_eq!(
        ExecError::SpawnFailed("too many processes".to_string()).message(),
        "Failed to spawn process: too many processes"
    );
    assert_eq!(ExecError::Failed("oops".to_string()).message(), "Error running code: oops");
    assert_eq!(ExecError::Failed(String::new()).message(), "Error running code: ");
}

#[test]
fn arguments_are_handed_on_as_they_are() {
    let args: Vec<String> =
        ["--flag", "", "two words", "-m", "\u{e9}"].iter().map(|s| s.to_string()).collect();
    let action = run_python_entry(
        "/srv/my project",
        "pkg.sub.main",
        &args,
        9,
        EntryState::Provisioning(EnvState::Synced(ProcessReport::Exited(Some(0)))),
    );
    match action {
        EntryAction::Spawn(launch) => {
            assert_eq!(launch.program, "uv");
            assert_eq!(
                launch.args,
                ["run", "python", "-m", "pkg.sub.main", "--flag", "", "two words", "-m", "\u{e9}"]
                    .map(|s| s.to_string())
            );
            assert_eq!(launch.dir, Some("/srv/my project".to_string()));
            assert_eq!(launch.stdout, Stream::Capture);
            assert_eq!(launch.stderr, Stream::Capture);
            assert!(launch.kill_on_drop);
        }
        other => panic!("{:?}", other),
    }
}

#[test]
fn race_runs_for_the_seconds_of_the_request() {
    for seconds in [0, 1, 2, 30, u64::MAX] {
        let action = run_python_entry("/r", "m", &[], seconds, EntryState::Spawned(Attempt::Done));
        assert_eq!(action, EntryAction::Race { seconds });
    }
}

#[test]
fn provisioning_steps_are_passed_through() {
    let action = run_python_entry("/r", "m", &[], 5, EntryState::Provisioning(EnvState::Start));
    match action {
        EntryAction::Provision(EnvAction::CheckTool(launch)) => {
            assert_eq!(launch.args, ["--version"]);
        }
        other => panic!("{:?}", other),
    }
    let action = run_python_entry(
        "/r",
        "m",
        &[],
        5,
        EntryState::Provisioning(EnvState::ManifestProbed(false)),
    );
    assert_eq!(
        action,
        EntryAction::Provision(EnvAction::WriteManifest {
            root: "/r".to_string(),
            name: "pyproject.toml".to_string(),
            content: DEFAULT_MANIFEST.to_string(),
        })
    );
}

use bb_runner::command::{CommandTemplate, EnvVar, Namespaces};
use bb_runner::config::Configuration;
use bb_runner::local_runner::{
    builddir_file, pending_action, spawn_child, staging_error, wait_child, RunRequest, Staging,
    WaitAction, WaitEvent, WaitPhase, WaitState, Wake, WAIT_INTERVAL_SECS,
};
use bb_runner::resource::{Duration, ExitResources, ExitStatus, ResourceUsage, WaitFailure};
use bb_runner::status::RunnerError;

fn s(text: &str) -> String {
    String::from(text)
}

fn config() -> Configuration {
    Configuration::new(s("/worker/build"), s("/run/runner.sock"), 4, 1 << 30, vec![s("/dev/shm")], None)
}

fn hello() -> RunRequest {
    RunRequest {
        arguments: vec![s("/bin/sh"), s("-c"), s("echo hi")],
        environment_variables: vec![EnvVar { name: s("PATH"), value: s("/usr/bin:/bin") }],
        working_directory: s(""),
        input_root_directory: s("ird"),
        temporary_directory: s("t"),
        stdout_path: s("out/stdout"),
        stderr_path: s("out/stderr"),
    }
}

fn exit(status: ExitStatus) -> ExitResources {
    ExitResources {
        status,
        rusage: ResourceUsage {
            utime: Duration::from_micros(10),
            stime: Duration::from_micros(20),
            maxrss: 4096,
        },
    }
}

#[test]
fn hello_request_is_planned_below_the_build_directory() {
    let plan = spawn_child(2, &config(), &hello()).unwrap();
    assert_eq!(plan.tmpdir, "/worker/build/t/tmp");
    assert_eq!(plan.homedir, "/worker/build/t/home");
    assert_eq!(plan.stdout_file, "/worker/build/out/stdout");
    assert_eq!(plan.stderr_file, "/worker/build/out/stderr");
    assert_eq!(
        plan.command.template(),
        &CommandTemplate {
            program: s("/bin/sh"),
            args: vec![s("-c"), s("echo hi")],
            current_dir: s("/worker/build/ird/"),
            envs: vec![
                EnvVar { name: s("PATH"), value: s("/usr/bin:/bin") },
                EnvVar { name: s("TMP"), value: s("/worker/build/t/tmp") },
                EnvVar { name: s("HOME"), value: s("/worker/build/t/home") },
            ],
        }
    );
    assert_eq!(plan.command.host_name(), Some(&s("localhost")));
    assert_eq!(plan.command.cgroup_name(), Some(&s("2")));
    assert_eq!(plan.command.memory_limit(), Some(1 << 30));
    assert_eq!(
        plan.command.namespaces(),
        Namespaces { uts: true, cgroup: true, ..Namespaces::base() }
    );
    assert_eq!(
        plan.command.writable_paths(),
        &vec![
            s("/dev/shm"),
            s("/worker/build/t/home"),
            s("/worker/build/ird"),
            s("/worker/build/t/tmp"),
        ]
    );
    assert_eq!(plan.command.stdout_fd(), None);
    assert_eq!(plan.command.stderr_fd(), None);
}

#[test]
fn relative_program_is_resolved_against_the_working_directory() {
    let mut request = hello();
    request.arguments = vec![s("tools/run.sh")];
    request.working_directory = s("src/pkg");
    let plan = spawn_child(0, &config(), &request).unwrap();
    assert_eq!(plan.command.template().program, "/worker/build/ird/src/pkg/tools/run.sh");
    assert_eq!(plan.command.template().current_dir, "/worker/build/ird/src/pkg");
    assert!(plan.command.template().args.is_empty());
    assert_eq!(plan.command.cgroup_name(), Some(&s("0")));
}

#[test]
fn request_without_arguments_is_refused() {
    let mut request = hello();
    request.arguments = vec![];
    assert_eq!(spawn_child(0, &config(), &request).err(), Some(RunnerError::NoProgram));
}

#[test]
fn request_files_live_below_the_build_directory() {
    assert_eq!(builddir_file("/worker/build", "a/stdout"), "/worker/build/a/stdout");
    assert_eq!(builddir_file("/worker/build/", "stderr"), "/worker/build/stderr");
}

#[test]
fn staging_failures_have_their_errors() {
    assert_eq!(staging_error(Staging::TmpDir), RunnerError::TmpDir);
    assert_eq!(staging_error(Staging::HomeDir), RunnerError::HomeDir);
    assert_eq!(staging_error(Staging::StdoutFile), RunnerError::CreateFile);
    assert_eq!(staging_error(Staging::StderrFile), RunnerError::CreateFile);
}

#[test]
fn waiter_polls_on_every_wake_until_the_sandbox_is_gone() {
    assert_eq!(WAIT_INTERVAL_SECS, 5);
    let mut state = WaitState::new();
    assert_eq!(pending_action(&state), WaitAction::Sleep { watch_cancellation: true });
    assert_eq!(wait_child(&mut state, WaitEvent::Woken(Wake::Tick)), WaitAction::Poll);
    assert_eq!(
        wait_child(&mut state, WaitEvent::Polled(Ok(None))),
        WaitAction::Sleep { watch_cancellation: true }
    );
    assert_eq!(wait_child(&mut state, WaitEvent::Woken(Wake::ChildSignal)), WaitAction::Poll);
    let gone = exit(ExitStatus::Exited(7));
    assert_eq!(
        wait_child(&mut state, WaitEvent::Polled(Ok(Some(gone)))),
        WaitAction::Finish(Ok(gone))
    );
    assert_eq!(state.phase, WaitPhase::Over(Ok(gone)));
    assert_eq!(wait_child(&mut state, WaitEvent::Woken(Wake::Tick)), WaitAction::Finish(Ok(gone)));
}

#[test]
fn cancelled_request_is_killed_once_and_reaped() {
    let mut state = WaitState::new();
    assert_eq!(wait_child(&mut state, WaitEvent::Woken(Wake::Tick)), WaitAction::Poll);
    assert_eq!(
        wait_child(&mut state, WaitEvent::Polled(Ok(None))),
        WaitAction::Sleep { watch_cancellation: true }
    );
    assert_eq!(wait_child(&mut state, WaitEvent::Woken(Wake::Cancelled)), WaitAction::Kill);
    assert_eq!(wait_child(&mut state, WaitEvent::Killed(true)), WaitAction::Poll);
    assert!(state.kill_sent);
    assert_eq!(
        wait_child(&mut state, WaitEvent::Polled(Ok(None))),
        WaitAction::Sleep { watch_cancellation: false }
    );
    assert_eq!(wait_child(&mut state, WaitEvent::Woken(Wake::Cancelled)), WaitAction::Poll);
    let killed = exit(ExitStatus::Signaled(9));
    assert_eq!(
        wait_child(&mut state, WaitEvent::Polled(Ok(Some(killed)))),
        WaitAction::Finish(Ok(killed))
    );
}

#[test]
fn kill_that_failed_is_tried_again() {
    let mut state = WaitState::new();
    assert_eq!(wait_child(&mut state, WaitEvent::Woken(Wake::Cancelled)), WaitAction::Kill);
    assert_eq!(wait_child(&mut state, WaitEvent::Killed(false)), WaitAction::Poll);
    assert!(!state.kill_sent);
    assert_eq!(
        wait_child(&mut state, WaitEvent::Polled(Ok(None))),
        WaitAction::Sleep { watch_cancellation: true }
    );
    assert_eq!(wait_child(&mut state, WaitEvent::Woken(Wake::Cancelled)), WaitAction::Kill);
}

#[test]
fn failed_wait_ends_with_an_error() {
    let mut state = WaitState::new();
    assert_eq!(wait_child(&mut state, WaitEvent::Woken(Wake::ChildSignal)), WaitAction::Poll);
    assert_eq!(
        wait_child(&mut state, WaitEvent::Polled(Err(WaitFailure))),
        WaitAction::Finish(Err(RunnerError::Wait))
    );
}

#[test]
fn events_that_answer_nothing_change_nothing() {
    let mut state = WaitState::new();
    assert_eq!(
        wait_child(&mut state, WaitEvent::Killed(true)),
        WaitAction::Sleep { watch_cancellation: true }
    );
    assert_eq!(state, WaitState::new());
    assert_eq!(
        wait_child(&mut state, WaitEvent::Polled(Ok(Some(exit(ExitStatus::Exited(0)))))),
        WaitAction::Sleep { watch_cancellation: true }
    );
    assert_eq!(wait_child(&mut state, WaitEvent::Woken(Wake::Tick)), WaitAction::Poll);
    assert_eq!(wait_child(&mut state, WaitEvent::Woken(Wake::Cancelled)), WaitAction::Poll);
    assert_eq!(wait_child(&mut state, WaitEvent::Killed(true)), WaitAction::Poll);
    assert!(!state.kill_sent);
}

#[test]
fn signalled_sandbox_is_reported_with_its_signal() {
    let mut state = WaitState::new();
    wait_child(&mut state, WaitEvent::Woken(Wake::ChildSignal));
    let segv = exit(ExitStatus::Signaled(11));
    match wait_child(&mut state, WaitEvent::Polled(Ok(Some(segv)))) {
        WaitAction::Finish(Ok(found)) => assert_eq!(found.status.signal(), Some(11)),
        other => panic!("unexpected action {:?}", other),
    }
}

#[test]
fn request_cannot_claim_the_directories_made_for_it() {
    let mut request = hello();
    request.environment_variables = vec![
        EnvVar { name: s("HOME"), value: s("/root") },
        EnvVar { name: s("LANG"), value: s("C") },
        EnvVar { name: s("TMP"), value: s("/tmp") },
    ];
    let plan = spawn_child(1, &config(), &request).unwrap();
    let envs = &plan.command.template().envs;
    let value = |name: &str| envs.iter().rev().find(|v| v.name == name).map(|v| v.value.as_str());
    assert_eq!(value("TMP"), Some("/worker/build/t/tmp"));
    assert_eq!(value("HOME"), Some("/worker/build/t/home"));
    assert_eq!(value("LANG"), Some("C"));
    assert_eq!(value("PATH"), None);
    assert_eq!(envs.len(), 5);
}

#[test]
fn environment_with_a_name_twice_is_no_mapping() {
    let mut request = hello();
    assert!(request.env_is_mapping());
    request.environment_variables = vec![];
    assert!(request.env_is_mapping());
    request.environment_variables = vec![
        EnvVar { name: s("A"), value: s("1") },
        EnvVar { name: s("B"), value: s("1") },
        EnvVar { name: s("C"), value: s("2") },
    ];
    assert!(request.env_is_mapping());
    request.environment_variables.push(EnvVar { name: s("B"), value: s("3") });
    assert!(!request.env_is_mapping());
}

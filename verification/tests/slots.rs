use std::collections::VecDeque;

use bb_runner::config::Configuration;
use bb_runner::resource::{
    Duration, ExitResources, ExitStatus, PosixResourceUsage, ProtoDuration, ResourceUsage,
};
use bb_runner::service::{
    assemble_response, exit_code_of_signal, readiness, ProcessorQueue, RunAction, RunEvent,
    RunResponse, RunnerService, EXIT_CODE_FAILURE, SIGNAL_EXIT_BASE, SIGNAL_EXIT_LIMIT,
};
use bb_runner::status::{RunnerError, StatusCode};

fn config(num_cpus: u32) -> Configuration {
    Configuration::new(
        String::from("/"),
        String::from("/run/bb/runner.sock"),
        num_cpus,
        1 << 30,
        vec![String::from("/dev/shm")],
        Some(4),
    )
}

fn usage() -> ResourceUsage {
    ResourceUsage {
        utime: Duration::from_micros(1_500_000),
        stime: Duration::from_micros(250),
        maxrss: 2048,
    }
}

fn exited(code: i32) -> ExitResources {
    ExitResources { status: ExitStatus::Exited(code), rusage: usage() }
}

#[test]
fn take_cpu_hands_out_the_head() {
    let mut queue = ProcessorQueue::new(VecDeque::from(vec![3, 1, 2]));
    assert_eq!(queue.take_cpu(), Ok(3));
    assert_eq!(queue.take_cpu(), Ok(1));
    assert_eq!(queue.len(), 1);
}

#[test]
fn take_cpu_fails_on_an_empty_queue() {
    let mut queue = ProcessorQueue::new(VecDeque::new());
    assert_eq!(queue.take_cpu(), Err(RunnerError::NoSlots));
    assert_eq!(queue.len(), 0);
}

#[test]
fn give_cpu_appends_to_the_tail() {
    let mut queue = ProcessorQueue::new(VecDeque::from(vec![0, 1]));
    assert_eq!(queue.take_cpu(), Ok(0));
    queue.give_cpu(0);
    assert_eq!(queue.take_cpu(), Ok(1));
    assert_eq!(queue.take_cpu(), Ok(0));
    assert_eq!(queue.take_cpu(), Err(RunnerError::NoSlots));
}

#[test]
fn new_service_has_every_processor_free_in_rising_order() {
    let mut service = RunnerService::new(config(3));
    assert_eq!(service.processors.len(), 3);
    assert_eq!(service.processors.take_cpu(), Ok(0));
    assert_eq!(service.processors.take_cpu(), Ok(1));
    assert_eq!(service.processors.take_cpu(), Ok(2));
    assert_eq!(service.processors.take_cpu(), Err(RunnerError::NoSlots));
}

#[test]
fn slots_are_conserved_over_a_run_of_requests() {
    let mut service = RunnerService::new(config(3));
    let mut in_use: Vec<u32> = Vec::new();
    let script = [true, true, false, true, true, false, false, true, false, false];
    for arrive in script {
        if arrive {
            match service.run(RunEvent::Arrived) {
                RunAction::Start { cpu } => {
                    assert!(cpu < 3);
                    assert!(!in_use.contains(&cpu));
                    in_use.push(cpu);
                }
                RunAction::Reply(reply) => {
                    assert_eq!(reply, Err(RunnerError::NoSlots));
                    assert_eq!(in_use.len(), 3);
                }
            }
        } else {
            let cpu = in_use.remove(0);
            let action = service.run(RunEvent::Completed { cpu, outcome: Ok(exited(0)) });
            assert!(matches!(action, RunAction::Reply(Ok(_))));
        }
        assert_eq!(service.processors.len() + in_use.len(), 3);
    }
    assert_eq!(service.processors.len(), 3);
}

#[test]
fn second_request_on_one_processor_is_refused_at_once() {
    let mut service = RunnerService::new(config(1));
    assert_eq!(service.run(RunEvent::Arrived), RunAction::Start { cpu: 0 });
    assert_eq!(service.run(RunEvent::Arrived), RunAction::Reply(Err(RunnerError::NoSlots)));
    assert_eq!(RunnerError::NoSlots.code(), StatusCode::ResourceExhausted);
    assert_eq!(RunnerError::NoSlots.message(), "No available concurrency slots");
    let done = service.run(RunEvent::Completed { cpu: 0, outcome: Ok(exited(0)) });
    assert!(matches!(done, RunAction::Reply(Ok(_))));
    assert_eq!(service.run(RunEvent::Arrived), RunAction::Start { cpu: 0 });
}

#[test]
fn completed_request_frees_its_processor_even_on_failure() {
    let mut service = RunnerService::new(config(2));
    assert_eq!(service.run(RunEvent::Arrived), RunAction::Start { cpu: 0 });
    let reply = service.run(RunEvent::Completed { cpu: 0, outcome: Err(RunnerError::Spawn) });
    assert_eq!(
        reply,
        RunAction::Reply(Ok(RunResponse { exit_code: 255, resource_usage: vec![] }))
    );
    assert_eq!(service.processors.len(), 2);
    assert_eq!(service.run(RunEvent::Arrived), RunAction::Start { cpu: 1 });
    assert_eq!(service.run(RunEvent::Arrived), RunAction::Start { cpu: 0 });
}

#[test]
fn hello_reply_carries_exit_code_zero_and_one_usage_record() {
    let reply = assemble_response(Ok(exited(0))).unwrap();
    assert_eq!(reply.exit_code, 0);
    assert_eq!(
        reply.resource_usage,
        vec![PosixResourceUsage {
            user_time: Some(ProtoDuration { seconds: 1, nanos: 500_000_000 }),
            system_time: Some(ProtoDuration { seconds: 0, nanos: 250_000 }),
            maximum_resident_set_size: 2048,
        }]
    );
}

#[test]
fn nonzero_exit_is_reported_as_it_is() {
    let reply = assemble_response(Ok(exited(7))).unwrap();
    assert_eq!(reply.exit_code, 7);
    assert_eq!(reply.resource_usage.len(), 1);
}

#[test]
fn signalled_command_is_reported_with_the_code_of_its_signal() {
    let outcome = Ok(ExitResources { status: ExitStatus::Signaled(11), rusage: usage() });
    let reply = assemble_response(outcome).unwrap();
    assert_eq!(reply.exit_code, 139);
    assert_eq!(reply.resource_usage.len(), 1);

    let mut service = RunnerService::new(config(1));
    assert_eq!(service.run(RunEvent::Arrived), RunAction::Start { cpu: 0 });
    match service.run(RunEvent::Completed { cpu: 0, outcome }) {
        RunAction::Reply(Ok(response)) => assert_eq!(response.exit_code, 139),
        other => panic!("unexpected action {:?}", other),
    }
    assert_eq!(service.processors.len(), 1);
}

#[test]
fn exit_code_of_a_signal_is_never_zero() {
    assert_eq!(SIGNAL_EXIT_BASE, 128);
    assert_eq!(SIGNAL_EXIT_LIMIT, 127);
    assert_eq!(exit_code_of_signal(1), 129);
    assert_eq!(exit_code_of_signal(9), 137);
    assert_eq!(exit_code_of_signal(11), 139);
    assert_eq!(exit_code_of_signal(127), 255);
    for odd in [0, -1, -128, 128, 1000, i32::MAX, i32::MIN] {
        assert_eq!(exit_code_of_signal(odd), 255);
    }
    for signal in -200..300 {
        assert!(exit_code_of_signal(signal) != 0);
    }
}

#[test]
fn status_without_code_or_signal_has_nothing_to_report() {
    let other = Ok(ExitResources { status: ExitStatus::Other, rusage: usage() });
    assert_eq!(assemble_response(other), Err(RunnerError::NoExitCode));
    assert_eq!(RunnerError::NoExitCode.code(), StatusCode::Internal);
    assert_eq!(RunnerError::NoExitCode.message(), "No Exit Code");
}

#[test]
fn failed_request_is_reported_with_the_failure_code() {
    assert_eq!(EXIT_CODE_FAILURE, 255);
    for error in [RunnerError::Wait, RunnerError::Spawn, RunnerError::TmpDir] {
        assert_eq!(
            assemble_response(Err(error)),
            Ok(RunResponse { exit_code: 255, resource_usage: vec![] })
        );
    }
}

#[test]
fn readiness_follows_the_existence_of_the_path() {
    assert_eq!(readiness(true), Ok(()));
    assert_eq!(readiness(false), Err(RunnerError::NotReady));
    assert_eq!(RunnerError::NotReady.message(), "not ready");
    assert_eq!(RunnerError::NotReady.code(), StatusCode::Internal);
}

#[test]
fn check_readiness_looks_below_the_build_directory() {
    let service = RunnerService::new(config(1));
    assert_eq!(service.readiness_path("proc"), "/proc");
    assert_eq!(service.check_readiness("."), Ok(()));
    assert_eq!(
        service.check_readiness("no/such/path/4f2a9c1e"),
        Err(RunnerError::NotReady)
    );
}

#[test]
fn every_error_has_its_code_and_message() {
    let all = [
        (RunnerError::NoSlots, StatusCode::ResourceExhausted, "No available concurrency slots"),
        (RunnerError::NotReady, StatusCode::Internal, "not ready"),
        (RunnerError::NoProgram, StatusCode::Internal, "No program to run"),
        (RunnerError::TmpDir, StatusCode::Internal, "Failed to create tmpdir"),
        (RunnerError::HomeDir, StatusCode::Internal, "Failed to create homedir"),
        (RunnerError::CreateFile, StatusCode::Internal, "Failed to create file"),
        (RunnerError::Spawn, StatusCode::Internal, "Failed to spawn child"),
        (RunnerError::Wait, StatusCode::Internal, "Wait failed"),
        (RunnerError::NoExitCode, StatusCode::Internal, "No Exit Code"),
    ];
    for (error, code, message) in all {
        assert_eq!(error.code(), code);
        assert_eq!(error.message(), message);
    }
}

#[test]
fn configuration_resolves_a_processor_count_of_zero() {
    assert_eq!(config(0).num_cpus, 4);
    assert_eq!(config(6).num_cpus, 6);
    let unknown = Configuration::new(String::new(), String::new(), 0, 0, vec![], None);
    assert_eq!(unknown.num_cpus, 1);
    let cut = Configuration::new(String::new(), String::new(), 0, 0, vec![], Some((1 << 32) + 5));
    assert_eq!(cut.num_cpus, 5);
    let none = Configuration::new(String::new(), String::new(), 0, 0, vec![], Some(0));
    assert_eq!(none.num_cpus, 1);
    let cut_to_none = Configuration::new(String::new(), String::new(), 0, 0, vec![], Some(1 << 32));
    assert_eq!(cut_to_none.num_cpus, 1);
    let kept = config(2);
    assert_eq!(kept.build_directory_path, "/");
    assert_eq!(kept.grpc_listen_path, "/run/bb/runner.sock");
    assert_eq!(kept.memory_max, 1 << 30);
    assert_eq!(kept.rw_paths, vec![String::from("/dev/shm")]);
}

//! Admission of requests to processors, and the reply to a request.
use std::collections::VecDeque;
use vstd::prelude::*;
use vstd::std_specs::convert::FromSpec;

use crate::child::path_exists;
use crate::config::Configuration;
use crate::paths::{join, joined};
use crate::resource::{ExitResources, ExitStatus, PosixResourceUsage};
use crate::status::RunnerError;

verus! {

/// Exit code reported where a request failed before its command produced
/// one.
pub const EXIT_CODE_FAILURE: i32 = 255;

/// The queue once its head has left.
pub open spec fn queue_after_take(queue: Seq<u32>) -> Seq<u32> {
    queue.subrange(1, queue.len() as int)
}

/// The queue once `cpu` has joined its tail.
pub open spec fn queue_after_give(queue: Seq<u32>, cpu: u32) -> Seq<u32> {
    queue.push(cpu)
}

/// The processors that are free, first in, first out.
#[derive(Debug, PartialEq, Eq)]
pub struct ProcessorQueue {
    queue: VecDeque<u32>,
}

impl View for ProcessorQueue {
    type V = Seq<u32>;

    /// The free processors, the next one to be handed out first.
    closed spec fn view(&self) -> Seq<u32> {
        self.queue@
    }
}

impl ProcessorQueue {
    /// A queue that hands out the processors of `deque` from its front.
    pub fn new(deque: VecDeque<u32>) -> (queue: ProcessorQueue)
        ensures
            queue@ == deque@,
    {
        ProcessorQueue { queue: deque }
    }

    /// Takes the processor at the head of the queue. With no processor free
    /// the call fails at once and the queue stays empty.
    pub fn take_cpu(&mut self) -> (taken: Result<u32, RunnerError>)
        ensures
            old(self)@.len() == 0 ==> taken == Err::<u32, RunnerError>(RunnerError::NoSlots)
                && final(self)@ == old(self)@,
            old(self)@.len() > 0 ==> taken == Ok::<u32, RunnerError>(old(self)@[0])
                && final(self)@ == queue_after_take(old(self)@),
    {
        match self.queue.pop_front() {
            Some(cpu) => Ok(cpu),
            None => Err(RunnerError::NoSlots),
        }
    }

    /// Puts a processor back, behind all that are free already.
    pub fn give_cpu(&mut self, cpu: u32)
        ensures
            final(self)@ == queue_after_give(old(self)@, cpu),
    {
        self.queue.push_back(cpu)
    }

    /// Number of free processors.
    pub fn len(&self) -> (n: usize)
        ensures
            n == self@.len(),
    {
        self.queue.len()
    }
}

/// The reply to a request that ran.
#[derive(Clone, Debug, PartialEq, Eq)]
pub struct RunResponse {
    /// Exit code of the command.
    pub exit_code: i32,
    /// Records of what the command used.
    pub resource_usage: Vec<PosixResourceUsage>,
}

/// What is added to the number of a signal to make the exit code that
/// stands for a death by that signal.
pub const SIGNAL_EXIT_BASE: i32 = 128;

/// The highest signal number whose exit code still fits an exit status.
pub const SIGNAL_EXIT_LIMIT: i32 = 127;

/// The exit code that stands for a death by a signal: the signal's number
/// above `SIGNAL_EXIT_BASE`, as a shell reports it, or the failure code
/// where the number is none that an exit status can carry. It is never zero.
pub open spec fn signal_exit_code(signal: i32) -> i32 {
    if 1 <= signal <= SIGNAL_EXIT_LIMIT {
        (SIGNAL_EXIT_BASE + signal) as i32
    } else {
        EXIT_CODE_FAILURE
    }
}

/// The exit code that stands for a death by a signal.
pub fn exit_code_of_signal(signal: i32) -> (code: i32)
    ensures
        code == signal_exit_code(signal),
        code != 0,
        SIGNAL_EXIT_BASE < code <= EXIT_CODE_FAILURE,
{
    if 1 <= signal && signal <= SIGNAL_EXIT_LIMIT {
        SIGNAL_EXIT_BASE + signal
    } else {
        EXIT_CODE_FAILURE
    }
}

/// The exit code that answers an outcome: the command's own; the code that
/// stands for its signal where a signal ended it; the failure code where
/// the request failed before there was a command to end. A status that is
/// neither an exit nor a death by a signal has no code to report.
pub open spec fn reply_exit_code(outcome: Result<ExitResources, RunnerError>) -> Option<i32> {
    match outcome {
        Ok(exit) => match exit.status {
            ExitStatus::Exited(code) => Some(code),
            ExitStatus::Signaled(signal) => Some(signal_exit_code(signal)),
            ExitStatus::Other => None,
        },
        Err(_) => Some(EXIT_CODE_FAILURE),
    }
}

/// The usage records that answer an outcome: one for a command that was
/// reaped, none otherwise.
pub open spec fn reply_usage(outcome: Result<ExitResources, RunnerError>) -> Seq<
    PosixResourceUsage,
> {
    match outcome {
        Ok(exit) => seq![PosixResourceUsage::from_spec(exit.rusage)],
        Err(_) => Seq::empty(),
    }
}

/// Whether `reply` is the reply owed for `outcome`.
pub open spec fn is_reply_to(
    reply: Result<RunResponse, RunnerError>,
    outcome: Result<ExitResources, RunnerError>,
) -> bool {
    match reply_exit_code(outcome) {
        Some(code) => reply matches Ok(response) && response.exit_code == code
            && response.resource_usage@ == reply_usage(outcome),
        None => reply matches Err(error) && error == RunnerError::NoExitCode,
    }
}

/// A command that a signal ended is answered with an exit code, and never
/// with zero; so is a request that failed.
pub proof fn lemma_death_is_never_success(outcome: Result<ExitResources, RunnerError>)
    requires
        outcome is Err || (outcome matches Ok(exit) && exit.status is Signaled),
    ensures
        reply_exit_code(outcome) matches Some(code) && code != 0,
{
}

/// Assembles the reply from the outcome of a request: the exit code, and the
/// usage record where the command was reaped. The exit code of a command
/// that a signal ended tells of the signal and is not zero.
pub fn assemble_response(outcome: Result<ExitResources, RunnerError>) -> (reply: Result<
    RunResponse,
    RunnerError,
>)
    ensures
        is_reply_to(reply, outcome),
        outcome matches Ok(exit) && exit.status is Signaled ==> (reply matches Ok(response)
            && response.exit_code != 0),
{
    let exit_code = match outcome {
        Ok(ref exit) => match exit.status {
            ExitStatus::Exited(code) => Some(code),
            ExitStatus::Signaled(signal) => Some(exit_code_of_signal(signal)),
            ExitStatus::Other => None,
        },
        Err(_) => Some(EXIT_CODE_FAILURE),
    };
    let code = match exit_code {
        Some(code) => code,
        None => {
            return Err(RunnerError::NoExitCode);
        },
    };
    let mut resource_usage: Vec<PosixResourceUsage> = Vec::new();
    if let Ok(exit) = outcome {
        resource_usage.push(PosixResourceUsage::from(exit.rusage));
    }
    assert(resource_usage@ =~= reply_usage(outcome));
    Ok(RunResponse { exit_code: code, resource_usage })
}

/// What the service learns of a request.
#[derive(Clone, Copy, Debug, PartialEq, Eq)]
pub enum RunEvent {
    /// The request has arrived.
    Arrived,
    /// The request that ran on `cpu` is over: its sandbox was reaped, or
    /// could not be started or waited for.
    Completed { cpu: u32, outcome: Result<ExitResources, RunnerError> },
}

/// What the service does about a request.
#[derive(Debug, PartialEq, Eq)]
pub enum RunAction {
    /// Run the request's command on this processor.
    Start { cpu: u32 },
    /// Answer the caller.
    Reply(Result<RunResponse, RunnerError>),
}

/// The service that runs commands, one per free processor.
#[derive(Debug, PartialEq, Eq)]
pub struct RunnerService {
    pub config: Configuration,
    pub processors: ProcessorQueue,
}

/// The processors `0` up to `num_cpus`, in rising order.
pub open spec fn all_processors(num_cpus: u32) -> Seq<u32> {
    Seq::new(num_cpus as nat, |i: int| i as u32)
}

/// The answer to a readiness probe, given whether the path probed exists.
pub open spec fn spec_readiness(exists: bool) -> Result<(), RunnerError> {
    if exists {
        Ok(())
    } else {
        Err(RunnerError::NotReady)
    }
}

/// The answer to a readiness probe, given whether the path probed exists:
/// the runner is ready if it does.
pub fn readiness(exists: bool) -> (ready: Result<(), RunnerError>)
    ensures
        ready == spec_readiness(exists),
{
    if exists {
        Ok(())
    } else {
        Err(RunnerError::NotReady)
    }
}

impl RunnerService {
    /// The path that a readiness probe for `path` looks at: `path` below
    /// the build directory.
    pub fn readiness_path(&self, path: &str) -> (probed: String)
        ensures
            probed@ == joined(self.config.build_directory_path@, path@),
    {
        join(self.config.build_directory_path.as_str(), path)
    }

    /// Answers a readiness probe: the runner is ready if `path` exists
    /// below the build directory, which the file system decides.
    pub fn check_readiness(&self, path: &str) -> (ready: Result<(), RunnerError>)
        ensures
            ready == spec_readiness(true) || ready == spec_readiness(false),
    {
        let probed = self.readiness_path(path);
        readiness(path_exists(probed.as_str()))
    }

    /// A service with every processor of the configuration free.
    pub fn new(config: Configuration) -> (service: RunnerService)
        ensures
            service.config == config,
            service.processors@ == all_processors(config.num_cpus),
    {
        let mut deque: VecDeque<u32> = VecDeque::new();
        let mut cpu: u32 = 0;
        while cpu < config.num_cpus
            invariant
                cpu <= config.num_cpus,
                deque@ == all_processors(cpu),
            decreases config.num_cpus - cpu,
        {
            deque.push_back(cpu);
            cpu = cpu + 1;
            assert(deque@ =~= all_processors(cpu));
        }
        RunnerService { config, processors: ProcessorQueue::new(deque) }
    }

    /// Handles one event of a request.
    ///
    /// An arriving request takes the processor at the head of the queue and
    /// is started on it; with none free it is refused at once. A completed
    /// request gives its processor back, and only then is its reply made, so
    /// that a processor is free again only when its sandbox is gone, and is
    /// freed whatever the outcome.
    pub fn run(&mut self, event: RunEvent) -> (action: RunAction)
        ensures
            final(self).config == old(self).config,
            event is Arrived && old(self).processors@.len() == 0 ==> {
                &&& action matches RunAction::Reply(Err(error)) && error == RunnerError::NoSlots
                &&& final(self).processors@ == old(self).processors@
            },
            event is Arrived && old(self).processors@.len() > 0 ==> {
                &&& action matches RunAction::Start { cpu } && cpu == old(self).processors@[0]
                &&& final(self).processors@ == queue_after_take(old(self).processors@)
            },
            event matches RunEvent::Completed { cpu, outcome } ==> {
                &&& action matches RunAction::Reply(reply) && is_reply_to(reply, outcome)
                &&& final(self).processors@ == queue_after_give(old(self).processors@, cpu)
            },
            event matches RunEvent::Completed { cpu, outcome: Ok(exit) } && exit.status is Signaled
                ==> (action matches RunAction::Reply(Ok(response)) && response.exit_code != 0),
    {
        match event {
            RunEvent::Arrived => match self.processors.take_cpu() {
                Ok(cpu) => RunAction::Start { cpu },
                Err(error) => RunAction::Reply(Err(error)),
            },
            RunEvent::Completed { cpu, outcome } => {
                self.processors.give_cpu(cpu);
                RunAction::Reply(assemble_response(outcome))
            },
        }
    }
}

/// The processors of a service: those that are free, in the order in which
/// they will be handed out, and those that requests hold.
pub ghost struct Slots {
    pub queue: Seq<u32>,
    pub in_use: Set<u32>,
}

/// What requests do to the processors.
pub ghost enum SlotEvent {
    /// A request asks for a processor.
    Take,
    /// A request gives this processor back.
    Give(u32),
}

impl Slots {
    /// Every processor free.
    pub open spec fn initial(num_cpus: u32) -> Slots {
        Slots { queue: all_processors(num_cpus), in_use: Set::empty() }
    }

    /// Each of the `num_cpus` processors is either free or in use, never
    /// both, and none is queued twice.
    pub open spec fn conserved(self, num_cpus: u32) -> bool {
        &&& self.queue.no_duplicates()
        &&& self.in_use.finite()
        &&& forall|cpu: u32| self.queue.contains(cpu) ==> !self.in_use.contains(cpu)
        &&& forall|cpu: u32| (self.queue.contains(cpu) || self.in_use.contains(cpu)) <==> cpu < num_cpus
        &&& self.queue.len() + self.in_use.len() == num_cpus
    }

    /// A request can only give back a processor that is in use.
    pub open spec fn admits(self, event: SlotEvent) -> bool {
        match event {
            SlotEvent::Take => true,
            SlotEvent::Give(cpu) => self.in_use.contains(cpu),
        }
    }

    /// The processors after one event: a request takes the head of the queue,
    /// unless the queue is empty, or gives a processor back to its tail.
    pub open spec fn step(self, event: SlotEvent) -> Slots {
        match event {
            SlotEvent::Take => if self.queue.len() == 0 {
                self
            } else {
                Slots {
                    queue: queue_after_take(self.queue),
                    in_use: self.in_use.insert(self.queue[0]),
                }
            },
            SlotEvent::Give(cpu) => Slots {
                queue: queue_after_give(self.queue, cpu),
                in_use: self.in_use.remove(cpu),
            },
        }
    }

    /// The processors after a sequence of events.
    pub open spec fn run(self, events: Seq<SlotEvent>) -> Slots
        decreases events.len(),
    {
        if events.len() == 0 {
            self
        } else {
            self.run(events.drop_last()).step(events.last())
        }
    }

    /// Every event of the sequence is admitted where it happens.
    pub open spec fn admits_all(self, events: Seq<SlotEvent>) -> bool
        decreases events.len(),
    {
        events.len() > 0 ==> self.admits_all(events.drop_last()) && self.run(
            events.drop_last(),
        ).admits(events.last())
    }
}

/// With every processor free at the start, each is free or in use.
pub proof fn lemma_initial_slots_conserved(num_cpus: u32)
    ensures
        Slots::initial(num_cpus).conserved(num_cpus),
{
    let slots = Slots::initial(num_cpus);
    assert forall|cpu: u32| cpu < num_cpus implies slots.queue.contains(cpu) by {
        assert(slots.queue[cpu as int] == cpu);
    }
}

/// One admitted event keeps the processors conserved.
pub proof fn lemma_step_conserves_slots(slots: Slots, event: SlotEvent, num_cpus: u32)
    requires
        slots.conserved(num_cpus),
        slots.admits(event),
    ensures
        slots.step(event).conserved(num_cpus),
{
    let next = slots.step(event);
    match event {
        SlotEvent::Take => {
            if slots.queue.len() > 0 {
                let head = slots.queue[0];
                assert(slots.queue.contains(head));
                assert forall|cpu: u32| next.queue.contains(cpu) implies slots.queue.contains(
                    cpu,
                ) && cpu != head by {
                    let i = choose|i: int| 0 <= i < next.queue.len() && next.queue[i] == cpu;
                    assert(slots.queue[i + 1] == cpu);
                }
                assert forall|cpu: u32| slots.queue.contains(cpu) && cpu != head implies next.queue.contains(
                    cpu,
                ) by {
                    let i = choose|i: int| 0 <= i < slots.queue.len() && slots.queue[i] == cpu;
                    assert(next.queue[i - 1] == cpu);
                }
                assert(next.queue.no_duplicates()) by {
                    assert forall|i: int, j: int|
                        0 <= i < next.queue.len() && 0 <= j < next.queue.len() && i != j implies next.queue[i]
                        != next.queue[j] by {
                        assert(slots.queue[i + 1] != slots.queue[j + 1]);
                    }
                }
            }
        },
        SlotEvent::Give(cpu) => {
            assert(!slots.queue.contains(cpu));
            assert forall|other: u32| next.queue.contains(other) implies slots.queue.contains(
                other,
            ) || other == cpu by {
                let i = choose|i: int| 0 <= i < next.queue.len() && next.queue[i] == other;
                if i < slots.queue.len() {
                    assert(slots.queue[i] == other);
                }
            }
            assert forall|other: u32| slots.queue.contains(other) || other == cpu implies next.queue.contains(
                other,
            ) by {
                if other == cpu {
                    assert(next.queue[slots.queue.len() as int] == cpu);
                } else {
                    let i = choose|i: int| 0 <= i < slots.queue.len() && slots.queue[i] == other;
                    assert(next.queue[i] == other);
                }
            }
            assert(next.queue.no_duplicates()) by {
                assert forall|i: int, j: int|
                    0 <= i < next.queue.len() && 0 <= j < next.queue.len() && i != j implies next.queue[i]
                    != next.queue[j] by {
                    if i < slots.queue.len() {
                        assert(slots.queue.contains(next.queue[i]));
                    }
                    if j < slots.queue.len() {
                        assert(slots.queue.contains(next.queue[j]));
                    }
                }
            }
        },
    }
}

/// Slot conservation: whatever requests arrive and complete, in whatever
/// order, after each of their events every processor is either in the queue
/// or in use, the two together are as many as the service has processors,
/// and the queue holds none twice.
pub proof fn lemma_slot_conservation(num_cpus: u32, events: Seq<SlotEvent>, moment: int)
    requires
        Slots::initial(num_cpus).admits_all(events),
        0 <= moment <= events.len(),
    ensures
        Slots::initial(num_cpus).run(events.take(moment)).conserved(num_cpus),
    decreases events.len(),
{
    let start = Slots::initial(num_cpus);
    if events.len() == 0 {
        assert(events.take(moment) =~= events);
        lemma_initial_slots_conserved(num_cpus);
    } else if moment < events.len() {
        assert(events.take(moment) =~= events.drop_last().take(moment));
        lemma_slot_conservation(num_cpus, events.drop_last(), moment);
    } else {
        assert(events.take(moment) =~= events);
        let before = events.drop_last();
        assert(before.take(before.len() as int) =~= before);
        lemma_slot_conservation(num_cpus, before, before.len() as int);
        lemma_step_conserves_slots(start.run(before), events.last(), num_cpus);
    }
}

} // verus!

//! The sandboxed command: how it is configured, how the process that leads
//! the sandbox sets itself up, and how the parent brings it to life.
use vstd::prelude::*;
use vstd::string::*;

use crate::command::{option_view, Command, Namespaces};
use crate::mounts::{MntEntWrapper, MountEntry, MountFlags};
use crate::paths::{is_under_any, join, joined, under_any};
use crate::resource::ExitStatus;
use crate::status::RunnerError;
use crate::text::{decimal, i64_to_decimal, signed_decimal, u64_to_decimal};

verus! {

/// Exit code of the sandbox's first process where it fails on its own
/// account.
pub const PID1_FAILURE: isize = -1;

/// What the first process of the sandbox needs to know of its command.
#[derive(Clone, Debug, PartialEq, Eq)]
pub struct ChildData {
    /// Descriptor that becomes the command's standard output.
    pub stdout: Option<i32>,
    /// Descriptor that becomes the command's standard error.
    pub stderr: Option<i32>,
    /// Host name to set inside the sandbox.
    pub hostname: Option<String>,
    /// Paths that stay writable inside the sandbox.
    pub rw_paths: Vec<String>,
}

/// One step of the sandbox's first process, in the order of their
/// declaration.
#[derive(Clone, Copy, Debug, PartialEq, Eq, Structural)]
pub enum Pid1Step {
    /// Become the leader of an own process group.
    JoinProcessGroup,
    /// Restore default signal dispositions, clear the signal mask and ask for
    /// a kill signal when the parent dies.
    ResetSignals,
    /// Block until the parent has written to the start pipe. The step fails
    /// where the read fails or brings nothing.
    AwaitStartGate,
    /// Change the current directory to the root.
    EnterRoot,
    /// Make the whole mount tree private, recursively.
    IsolateMounts,
    /// Set the configured host name.
    SetHostname,
    /// Mount a fresh process file system.
    MountProc,
    /// Remount read-only whatever is not to stay writable.
    RemountReadOnly,
    /// Bring the loopback interface up.
    LoopbackUp,
    /// Put the configured descriptor in place of standard output.
    RedirectStdout,
    /// Put the configured descriptor in place of standard error.
    RedirectStderr,
    /// Close every descriptor above standard error.
    CloseInherited,
    /// Start the command.
    SpawnCommand,
    /// Close every descriptor of the first process itself.
    CloseAll,
    /// Wait for the command to end.
    WaitCommand,
}

/// What happened to the first process since its last action.
#[derive(Clone, Copy, Debug, PartialEq, Eq, Structural)]
pub enum Pid1Event {
    /// The process has just been created.
    Start,
    /// The step succeeded.
    Done(Pid1Step),
    /// The step failed.
    Failed(Pid1Step),
    /// The wait returned the command's status.
    Reaped(ExitStatus),
    /// The signal was raised, or could not be, and the process still runs.
    Raised,
}

/// What the first process does next.
#[derive(Clone, Copy, Debug, PartialEq, Eq, Structural)]
pub enum Pid1Action {
    /// Perform the step.
    Run(Pid1Step),
    /// Send this signal to itself.
    Raise(i32),
    /// Leave with this exit code.
    Exit(isize),
}

impl Pid1Step {
    /// Position of the step in the sequence.
    pub open spec fn ordinal(self) -> nat {
        match self {
            Pid1Step::JoinProcessGroup => 0,
            Pid1Step::ResetSignals => 1,
            Pid1Step::AwaitStartGate => 2,
            Pid1Step::EnterRoot => 3,
            Pid1Step::IsolateMounts => 4,
            Pid1Step::SetHostname => 5,
            Pid1Step::MountProc => 6,
            Pid1Step::RemountReadOnly => 7,
            Pid1Step::LoopbackUp => 8,
            Pid1Step::RedirectStdout => 9,
            Pid1Step::RedirectStderr => 10,
            Pid1Step::CloseInherited => 11,
            Pid1Step::SpawnCommand => 12,
            Pid1Step::CloseAll => 13,
            Pid1Step::WaitCommand => 14,
        }
    }

    /// Whether the step is part of the sequence for this command: the three
    /// optional steps are, where the command configures what they install.
    pub open spec fn applies(self, child_data: &ChildData) -> bool {
        match self {
            Pid1Step::SetHostname => child_data.hostname is Some,
            Pid1Step::RedirectStdout => child_data.stdout is Some,
            Pid1Step::RedirectStderr => child_data.stderr is Some,
            _ => true,
        }
    }

    /// The step that stands right behind this one, the optional ones
    /// included.
    pub open spec fn successor(self) -> Option<Pid1Step> {
        match self {
            Pid1Step::JoinProcessGroup => Some(Pid1Step::ResetSignals),
            Pid1Step::ResetSignals => Some(Pid1Step::AwaitStartGate),
            Pid1Step::AwaitStartGate => Some(Pid1Step::EnterRoot),
            Pid1Step::EnterRoot => Some(Pid1Step::IsolateMounts),
            Pid1Step::IsolateMounts => Some(Pid1Step::SetHostname),
            Pid1Step::SetHostname => Some(Pid1Step::MountProc),
            Pid1Step::MountProc => Some(Pid1Step::RemountReadOnly),
            Pid1Step::RemountReadOnly => Some(Pid1Step::LoopbackUp),
            Pid1Step::LoopbackUp => Some(Pid1Step::RedirectStdout),
            Pid1Step::RedirectStdout => Some(Pid1Step::RedirectStderr),
            Pid1Step::RedirectStderr => Some(Pid1Step::CloseInherited),
            Pid1Step::CloseInherited => Some(Pid1Step::SpawnCommand),
            Pid1Step::SpawnCommand => Some(Pid1Step::CloseAll),
            Pid1Step::CloseAll => Some(Pid1Step::WaitCommand),
            Pid1Step::WaitCommand => None,
        }
    }
}

/// The first step at or behind `step` that applies to the command. The last
/// step always applies, so there is one.
pub open spec fn first_applicable(child_data: &ChildData, step: Pid1Step) -> Pid1Step
    decreases 14 - step.ordinal(),
{
    if step.applies(child_data) {
        step
    } else {
        match step.successor() {
            Some(next) => first_applicable(child_data, next),
            None => step,
        }
    }
}

/// What follows the wait for the command: its own exit code is passed on; a
/// terminating signal is raised again, by its number; anything else is a
/// failure of the first process.
pub open spec fn spec_after_wait(status: ExitStatus) -> Pid1Action {
    match status {
        ExitStatus::Exited(code) => Pid1Action::Exit(code as isize),
        ExitStatus::Signaled(signal) => Pid1Action::Raise(signal),
        ExitStatus::Other => Pid1Action::Exit(PID1_FAILURE),
    }
}

/// What follows a step that is over: the nearest applicable step behind it.
/// Nothing but the command's status leads on from the last step.
pub open spec fn spec_after_step(child_data: &ChildData, step: Pid1Step) -> Pid1Action {
    match step.successor() {
        Some(next) => Pid1Action::Run(first_applicable(child_data, next)),
        None => Pid1Action::Exit(PID1_FAILURE),
    }
}

/// The action that answers an event. Whatever step fails, the first process
/// leaves with `PID1_FAILURE`.
pub open spec fn spec_child_pid1(child_data: &ChildData, event: Pid1Event) -> Pid1Action {
    match event {
        Pid1Event::Start => Pid1Action::Run(
            first_applicable(child_data, Pid1Step::JoinProcessGroup),
        ),
        Pid1Event::Done(step) => spec_after_step(child_data, step),
        Pid1Event::Failed(_) => Pid1Action::Exit(PID1_FAILURE),
        Pid1Event::Reaped(status) => spec_after_wait(status),
        Pid1Event::Raised => Pid1Action::Exit(PID1_FAILURE),
    }
}

/// Whether a read of this many bytes from the start pipe lets the first
/// process go on: the parent opens the way by writing a byte, so a read
/// that brought nothing, the pipe being closed, does not.
pub fn start_released(bytes_read: usize) -> (released: bool)
    ensures
        released == (bytes_read >= 1),
{
    bytes_read >= 1
}

/// Decides what follows the wait for the command, given its status.
pub fn after_wait(status: ExitStatus) -> (action: Pid1Action)
    ensures
        action == spec_after_wait(status),
{
    match status {
        ExitStatus::Exited(code) => Pid1Action::Exit(code as isize),
        ExitStatus::Signaled(signal) => Pid1Action::Raise(signal),
        ExitStatus::Other => Pid1Action::Exit(PID1_FAILURE),
    }
}

fn successor(step: Pid1Step) -> (next: Option<Pid1Step>)
    ensures
        next == step.successor(),
{
    match step {
        Pid1Step::JoinProcessGroup => Some(Pid1Step::ResetSignals),
        Pid1Step::ResetSignals => Some(Pid1Step::AwaitStartGate),
        Pid1Step::AwaitStartGate => Some(Pid1Step::EnterRoot),
        Pid1Step::EnterRoot => Some(Pid1Step::IsolateMounts),
        Pid1Step::IsolateMounts => Some(Pid1Step::SetHostname),
        Pid1Step::SetHostname => Some(Pid1Step::MountProc),
        Pid1Step::MountProc => Some(Pid1Step::RemountReadOnly),
        Pid1Step::RemountReadOnly => Some(Pid1Step::LoopbackUp),
        Pid1Step::LoopbackUp => Some(Pid1Step::RedirectStdout),
        Pid1Step::RedirectStdout => Some(Pid1Step::RedirectStderr),
        Pid1Step::RedirectStderr => Some(Pid1Step::CloseInherited),
        Pid1Step::CloseInherited => Some(Pid1Step::SpawnCommand),
        Pid1Step::SpawnCommand => Some(Pid1Step::CloseAll),
        Pid1Step::CloseAll => Some(Pid1Step::WaitCommand),
        Pid1Step::WaitCommand => None,
    }
}

fn applies(step: Pid1Step, child_data: &ChildData) -> (b: bool)
    ensures
        b == step.applies(child_data),
{
    match step {
        Pid1Step::SetHostname => child_data.hostname.is_some(),
        Pid1Step::RedirectStdout => child_data.stdout.is_some(),
        Pid1Step::RedirectStderr => child_data.stderr.is_some(),
        _ => true,
    }
}

fn skip_to_applicable(child_data: &ChildData, step: Pid1Step) -> (found: Pid1Step)
    ensures
        found == first_applicable(child_data, step),
{
    let mut current = step;
    loop
        invariant
            first_applicable(child_data, current) == first_applicable(child_data, step),
        decreases 14 - current.ordinal(),
    {
        if applies(current, child_data) {
            return current;
        }
        match successor(current) {
            Some(next) => {
                current = next;
            },
            None => {
                return current;
            },
        }
    }
}

/// The sandbox's first process, as a sequence of decisions: given what
/// happened last, what it does next.
///
/// The steps run in the order of their declaration, the optional ones only
/// where the command configures them. A failed step, whichever it is, ends
/// the process with `PID1_FAILURE`, so that no later step runs and the
/// command is never started. When the command has ended, its exit code
/// becomes the exit code of the first process; when a signal ended it, the
/// first process raises that signal against itself, so that the parent sees
/// the same cause, and fails if it survives that.
pub fn child_pid1(child_data: &ChildData, event: Pid1Event) -> (action: Pid1Action)
    ensures
        action == spec_child_pid1(child_data, event),
        event is Start ==> action is Run,
        event is Failed ==> action == Pid1Action::Exit(PID1_FAILURE),
        event matches Pid1Event::Reaped(ExitStatus::Signaled(signal)) ==> action
            == Pid1Action::Raise(signal),
{
    match event {
        Pid1Event::Start => Pid1Action::Run(
            skip_to_applicable(child_data, Pid1Step::JoinProcessGroup),
        ),
        Pid1Event::Done(step) => match successor(step) {
            Some(next) => Pid1Action::Run(skip_to_applicable(child_data, next)),
            None => Pid1Action::Exit(PID1_FAILURE),
        },
        Pid1Event::Failed(_) => Pid1Action::Exit(PID1_FAILURE),
        Pid1Event::Reaped(status) => after_wait(status),
        Pid1Event::Raised => Pid1Action::Exit(PID1_FAILURE),
    }
}

/// Every step that the first process runs after a finished one is the
/// nearest later step that applies to the command: no applicable step is
/// passed over, and none runs twice or out of order.
pub proof fn lemma_steps_run_in_order(child_data: &ChildData, step: Pid1Step)
    requires
        step != Pid1Step::WaitCommand,
    ensures
        spec_child_pid1(child_data, Pid1Event::Done(step)) matches Pid1Action::Run(next) && {
            &&& step.ordinal() < next.ordinal()
            &&& next.applies(child_data)
            &&& forall|between: Pid1Step|
                step.ordinal() < between.ordinal() < next.ordinal() ==> !#[trigger] between.applies(
                    child_data,
                )
        },
{
    let first = step.successor().unwrap();
    lemma_first_applicable(child_data, first);
}

/// Whatever becomes of a step, the first process either goes on to a later
/// step, and only if the step succeeded, or leaves with an exit code that is
/// not zero: the steps complete in order, or the process fails.
pub proof fn lemma_step_leads_on_or_fails(child_data: &ChildData, step: Pid1Step, done: bool)
    ensures
        match spec_child_pid1(
            child_data,
            if done {
                Pid1Event::Done(step)
            } else {
                Pid1Event::Failed(step)
            },
        ) {
            Pid1Action::Run(next) => step.ordinal() < next.ordinal() && next.applies(child_data)
                && done,
            Pid1Action::Exit(code) => code != 0 && (!done || step == Pid1Step::WaitCommand),
            Pid1Action::Raise(_) => false,
        },
{
    match step.successor() {
        Some(next) => {
            lemma_first_applicable(child_data, next);
        },
        None => {},
    }
}

/// A command that a signal ended has the first process raise that very
/// signal against itself, whatever its number, and never leave in its place
/// with a code of its own.
pub proof fn lemma_signal_is_raised_again(child_data: &ChildData, signal: i32)
    ensures
        spec_child_pid1(child_data, Pid1Event::Reaped(ExitStatus::Signaled(signal)))
            == Pid1Action::Raise(signal),
{
}

/// The first applicable step at or behind `step` is the nearest one.
pub proof fn lemma_first_applicable(child_data: &ChildData, step: Pid1Step)
    ensures
        ({
            let found = first_applicable(child_data, step);
            &&& step.ordinal() <= found.ordinal()
            &&& found.applies(child_data)
            &&& forall|between: Pid1Step|
                step.ordinal() <= between.ordinal() < found.ordinal() ==> !#[trigger] between.applies(
                    child_data,
                )
        }),
    decreases 14 - step.ordinal(),
{
    if !step.applies(child_data) {
        match step.successor() {
            Some(next) => {
                lemma_first_applicable(child_data, next);
            },
            None => {},
        }
    }
}

/// A mount that the first process makes for itself.
#[derive(Clone, Copy, Debug, PartialEq, Eq)]
pub struct MountRequest {
    /// What is mounted, where the mount has a source.
    pub source: Option<&'static str>,
    /// Where it is mounted.
    pub target: &'static str,
    /// The type of the file system, where the mount names one.
    pub fstype: Option<&'static str>,
    pub flags: MountFlags,
}

/// The flags that cut the sandbox's mounts off from the host: the change
/// goes through the whole tree, and makes every mount private.
pub open spec fn isolation_flags() -> MountFlags {
    MountFlags { rec: true, private: true, ..MountFlags::spec_empty() }
}

/// The flags of the sandbox's process file system: no set-user-id, no
/// execution, no devices.
pub open spec fn proc_flags() -> MountFlags {
    MountFlags { nosuid: true, noexec: true, nodev: true, ..MountFlags::spec_empty() }
}

/// The mount that makes the whole mount tree private, from the root down,
/// so that no later mount of the sandbox shows on the host.
pub fn isolate_mounts() -> (request: MountRequest)
    ensures
        request.source is None,
        request.target@ == "/"@,
        request.fstype is None,
        request.flags == isolation_flags(),
{
    let mut flags = MountFlags::empty();
    flags.rec = true;
    flags.private = true;
    MountRequest { source: None, target: "/", fstype: None, flags }
}

/// The mount of a fresh process file system at its usual place.
pub fn mount_proc() -> (request: MountRequest)
    ensures
        request.source matches Some(source) && source@ == "proc"@,
        request.target@ == "/proc"@,
        request.fstype matches Some(fstype) && fstype@ == "proc"@,
        request.flags == proc_flags(),
{
    let mut flags = MountFlags::empty();
    flags.nosuid = true;
    flags.noexec = true;
    flags.nodev = true;
    MountRequest { source: Some("proc"), target: "/proc", fstype: Some("proc"), flags }
}

/// The lowest descriptor that a step closes, all above it going with it:
/// before the command starts, everything above standard error; once it
/// runs, everything. No other step closes descriptors.
pub open spec fn spec_first_descriptor_to_close(step: Pid1Step) -> Option<u32> {
    match step {
        Pid1Step::CloseInherited => Some(3u32),
        Pid1Step::CloseAll => Some(0u32),
        _ => None,
    }
}

/// The lowest descriptor that a step closes.
pub fn first_descriptor_to_close(step: Pid1Step) -> (first: Option<u32>)
    ensures
        first == spec_first_descriptor_to_close(step),
{
    match step {
        Pid1Step::CloseInherited => Some(3),
        Pid1Step::CloseAll => Some(0),
        _ => None,
    }
}

/// One remount of the read-only pass.
#[derive(Clone, Debug, PartialEq, Eq)]
pub struct Remount {
    /// The mount point.
    pub target: String,
    /// The flags of the remount.
    pub flags: MountFlags,
}

impl View for Remount {
    type V = (Seq<char>, MountFlags);

    open spec fn view(&self) -> (Seq<char>, MountFlags) {
        (self.target@, self.flags)
    }
}

impl DeepView for Remount {
    type V = (Seq<char>, MountFlags);

    open spec fn deep_view(&self) -> (Seq<char>, MountFlags) {
        self@
    }
}

/// The flags with which a mount is made read-only in place: those that the
/// mount has, which a remount would otherwise drop, and the three that ask
/// for a read-only remount of this mount alone.
pub open spec fn remount_flags(preserved: MountFlags) -> MountFlags {
    MountFlags { remount: true, bind: true, rdonly: true, ..preserved }
}

/// The remounts of the read-only pass, in the order of the mount table:
/// one for every entry whose mount point does not lie under a path that is
/// to stay writable.
pub open spec fn remount_plan(entries: Seq<MountEntry>, rw_paths: Seq<Seq<char>>) -> Seq<
    (Seq<char>, MountFlags),
>
    decreases entries.len(),
{
    if entries.len() == 0 {
        Seq::empty()
    } else {
        let earlier = remount_plan(entries.drop_last(), rw_paths);
        let entry = entries.last();
        if under_any(entry.dir, rw_paths) {
            earlier
        } else {
            earlier.push((entry.dir, remount_flags(entry.flags)))
        }
    }
}

/// Plans the read-only pass over the mount table.
pub fn remount_all_readonly(entries: &Vec<MntEntWrapper>, rw_paths: &Vec<String>) -> (plan: Vec<
    Remount,
>)
    ensures
        plan.deep_view() == remount_plan(entries.deep_view(), rw_paths.deep_view()),
{
    let mut plan: Vec<Remount> = Vec::new();
    let mut i: usize = 0;
    assert(entries.deep_view().take(0) =~= Seq::empty());
    while i < entries.len()
        invariant
            i <= entries.len(),
            plan.deep_view() == remount_plan(
                entries.deep_view().take(i as int),
                rw_paths.deep_view(),
            ),
        decreases entries.len() - i,
    {
        let entry = &entries[i];
        let ghost before = plan.deep_view();
        assert(entries.deep_view().take(i + 1).drop_last() =~= entries.deep_view().take(i as int));
        assert(entries.deep_view().take(i + 1).last() == entry@);
        if !is_under_any(entry.mnt_dir.as_str(), rw_paths) {
            let mut flags = entry.mnt_flags;
            flags.remount = true;
            flags.bind = true;
            flags.rdonly = true;
            plan.push(Remount { target: entry.mnt_dir.clone(), flags });
            assert(plan.deep_view() =~= before.push((entry@.dir, remount_flags(entry@.flags))));
        }
        i = i + 1;
    }
    assert(entries.deep_view().take(entries.len() as int) =~= entries.deep_view());
    plan
}

/// The read-only pass leaves out exactly the mounts under a writable path:
/// every other entry of the mount table is remounted read-only with its own
/// flags kept, and nothing else is remounted.
pub proof fn lemma_remount_plan_exact(entries: Seq<MountEntry>, rw_paths: Seq<Seq<char>>)
    ensures
        forall|i: int|
            0 <= i < entries.len() && !under_any((#[trigger] entries[i]).dir, rw_paths)
                ==> remount_plan(entries, rw_paths).contains(
                (entries[i].dir, remount_flags(entries[i].flags)),
            ),
        forall|j: int|
            0 <= j < remount_plan(entries, rw_paths).len() ==> {
                let remount = #[trigger] remount_plan(entries, rw_paths)[j];
                &&& remount.1.rdonly && remount.1.bind && remount.1.remount
                &&& !under_any(remount.0, rw_paths)
                &&& exists|i: int|
                    0 <= i < entries.len() && remount == (
                        (#[trigger] entries[i]).dir,
                        remount_flags(entries[i].flags),
                    )
            },
    decreases entries.len(),
{
    if entries.len() > 0 {
        let earlier_entries = entries.drop_last();
        let earlier = remount_plan(earlier_entries, rw_paths);
        let plan = remount_plan(entries, rw_paths);
        let entry = entries.last();
        lemma_remount_plan_exact(earlier_entries, rw_paths);
        assert forall|i: int|
            0 <= i < entries.len() && !under_any((#[trigger] entries[i]).dir, rw_paths) implies plan.contains(
            (entries[i].dir, remount_flags(entries[i].flags)),
        ) by {
            let wanted = (entries[i].dir, remount_flags(entries[i].flags));
            if i < entries.len() - 1 {
                assert(earlier_entries[i] == entries[i]);
                assert(earlier.contains(wanted));
                let j = choose|j: int| 0 <= j < earlier.len() && earlier[j] == wanted;
                assert(plan[j] == wanted);
            } else {
                assert(plan[plan.len() - 1] == wanted);
            }
        }
        assert forall|j: int| 0 <= j < plan.len() implies {
            let remount = #[trigger] plan[j];
            &&& remount.1.rdonly && remount.1.bind && remount.1.remount
            &&& !under_any(remount.0, rw_paths)
            &&& exists|i: int|
                0 <= i < entries.len() && remount == (
                    (#[trigger] entries[i]).dir,
                    remount_flags(entries[i].flags),
                )
        } by {
            if j < earlier.len() {
                assert(plan[j] == earlier[j]);
                let i = choose|i: int|
                    0 <= i < earlier_entries.len() && earlier[j] == (
                        (#[trigger] earlier_entries[i]).dir,
                        remount_flags(earlier_entries[i].flags),
                    );
                assert(entries[i] == earlier_entries[i]);
            } else {
                assert(plan[j] == (entry.dir, remount_flags(entry.flags)));
                assert(entries[entries.len() - 1] == entry);
            }
        }
    }
}

pub const EPERM: i32 = 1;

pub const ENOENT: i32 = 2;

pub const EACCES: i32 = 13;

pub const ENODEV: i32 = 19;

pub const EINVAL: i32 = 22;

pub const ESTALE: i32 = 116;

/// The errors of a remount that are passed over: the kernel refuses to
/// remount some file systems, and a mount may have gone in the meantime.
pub open spec fn remount_error_ignored(errno: i32) -> bool {
    errno == EACCES || errno == EPERM || errno == EINVAL || errno == ENOENT || errno == ESTALE
        || errno == ENODEV
}

/// Whether a remount that failed with this error ends the read-only pass.
/// Any error ends it but those passed over.
pub fn remount_error_is_fatal(errno: i32) -> (fatal: bool)
    ensures
        fatal == !remount_error_ignored(errno),
{
    !(errno == EACCES || errno == EPERM || errno == EINVAL || errno == ENOENT || errno == ESTALE
        || errno == ENODEV)
}

/// A file to overwrite with some text.
#[derive(Clone, Debug, PartialEq, Eq)]
pub struct FileWrite {
    pub path: String,
    pub contents: String,
}

impl View for FileWrite {
    type V = (Seq<char>, Seq<char>);

    open spec fn view(&self) -> (Seq<char>, Seq<char>) {
        (self.path@, self.contents@)
    }
}

impl DeepView for FileWrite {
    type V = (Seq<char>, Seq<char>);

    open spec fn deep_view(&self) -> (Seq<char>, Seq<char>) {
        self@
    }
}

/// Path of a file of process `pid` in the process file system.
pub open spec fn proc_file(pid: i32, name: Seq<char>) -> Seq<char> {
    "/proc/"@ + signed_decimal(pid as int) + "/"@ + name
}

/// An identity map of one entry: identity zero inside the sandbox is
/// `outer` outside of it.
pub open spec fn id_map(outer: u32) -> Seq<char> {
    "0 "@ + decimal(outer as nat) + " 1"@
}

/// The write that maps the user inside the sandbox to `outer_uid`.
pub open spec fn uid_map_write(pid: i32, outer_uid: u32) -> (Seq<char>, Seq<char>) {
    (proc_file(pid, "uid_map"@), id_map(outer_uid))
}

/// The writes that map the group inside the sandbox to `outer_gid`: the
/// sandbox first loses the right to change its groups, without which the
/// kernel takes no group map from an unprivileged user.
pub open spec fn gid_map_writes(pid: i32, outer_gid: u32) -> Seq<(Seq<char>, Seq<char>)> {
    seq![
        (proc_file(pid, "setgroups"@), "deny"@),
        (proc_file(pid, "gid_map"@), id_map(outer_gid)),
    ]
}

fn proc_path(pid: i32, name: &str) -> (path: String)
    ensures
        path@ == proc_file(pid, name@),
{
    let mut path = String::from_str("/proc/");
    let digits = i64_to_decimal(pid as i64);
    path.append(digits.as_str());
    path.append("/");
    path.append(name);
    path
}

fn id_map_text(outer: u32) -> (text: String)
    ensures
        text@ == id_map(outer),
{
    let mut text = String::from_str("0 ");
    let digits = u64_to_decimal(outer as u64);
    text.append(digits.as_str());
    text.append(" 1");
    text
}

/// What to write so that the user inside the sandbox of process `pid` is
/// `outer_uid` outside of it.
pub fn write_uid_map(pid: i32, outer_uid: u32) -> (write: FileWrite)
    ensures
        write@ == uid_map_write(pid, outer_uid),
{
    FileWrite { path: proc_path(pid, "uid_map"), contents: id_map_text(outer_uid) }
}

/// What to write, in this order, so that the group inside the sandbox of
/// process `pid` is `outer_gid` outside of it.
pub fn write_gid_map(pid: i32, outer_gid: u32) -> (writes: Vec<FileWrite>)
    ensures
        writes.deep_view() == gid_map_writes(pid, outer_gid),
{
    let mut writes: Vec<FileWrite> = Vec::new();
    writes.push(
        FileWrite { path: proc_path(pid, "setgroups"), contents: String::from_str("deny") },
    );
    writes.push(FileWrite { path: proc_path(pid, "gid_map"), contents: id_map_text(outer_gid) });
    assert(writes.deep_view() =~= gid_map_writes(pid, outer_gid));
    writes
}

/// Layout of the control group hierarchy on the host.
#[derive(Clone, Copy, Debug, PartialEq, Eq, Structural)]
pub enum CgroupVersion {
    /// One hierarchy for each kind of resource.
    V1,
    /// One hierarchy for all resources.
    V2,
}

/// The hierarchy in use, given whether the list of the unified hierarchy's
/// controllers exists.
pub open spec fn spec_cgroup_version(unified: bool) -> CgroupVersion {
    if unified {
        CgroupVersion::V2
    } else {
        CgroupVersion::V1
    }
}

/// The hierarchy in use, given whether the list of the unified hierarchy's
/// controllers exists.
pub fn cgroup_version_from(unified: bool) -> (version: CgroupVersion)
    ensures
        version == spec_cgroup_version(unified),
{
    if unified {
        CgroupVersion::V2
    } else {
        CgroupVersion::V1
    }
}

/// A directory that has to exist.
#[derive(Clone, Debug, PartialEq, Eq)]
pub struct EnsureDir {
    pub path: String,
    /// Whether missing parents are created too.
    pub parents: bool,
}

impl View for EnsureDir {
    type V = (Seq<char>, bool);

    open spec fn view(&self) -> (Seq<char>, bool) {
        (self.path@, self.parents)
    }
}

impl DeepView for EnsureDir {
    type V = (Seq<char>, bool);

    open spec fn deep_view(&self) -> (Seq<char>, bool) {
        self@
    }
}

/// What places a process in its control group: the directories to create
/// where they are missing, then the files to write, each list in its order.
#[derive(Clone, Debug, PartialEq, Eq)]
pub struct CgroupPlan {
    pub dirs: Vec<EnsureDir>,
    pub writes: Vec<FileWrite>,
}

/// A control group plan as plain values.
pub ghost struct CgroupSetup {
    pub dirs: Seq<(Seq<char>, bool)>,
    pub writes: Seq<(Seq<char>, Seq<char>)>,
}

impl View for CgroupPlan {
    type V = CgroupSetup;

    open spec fn view(&self) -> CgroupSetup {
        CgroupSetup { dirs: self.dirs.deep_view(), writes: self.writes.deep_view() }
    }
}

/// Name of the control group of the job on processor `jobcpu`.
pub open spec fn job_name(jobcpu: Seq<char>) -> Seq<char> {
    "job"@ + jobcpu
}

/// The write of the memory limit, where there is one.
pub open spec fn limit_write(dir: Seq<char>, file: Seq<char>, mem_max: Option<u32>) -> Seq<
    (Seq<char>, Seq<char>),
> {
    match mem_max {
        Some(limit) => seq![(joined(dir, file), decimal(limit as nat))],
        None => Seq::empty(),
    }
}

/// The plan on the unified hierarchy: one directory for the job, the
/// process moved into it, the job pinned to its processor, swap forbidden,
/// the whole group killed together when memory runs out, and the memory
/// limit where one is set.
pub open spec fn cgroup_v2_setup(pid: i32, jobcpu: Seq<char>, mem_max: Option<u32>) -> CgroupSetup {
    let dir = joined("/sys/fs/cgroup/bb_runner"@, job_name(jobcpu));
    CgroupSetup {
        dirs: seq![(dir, false)],
        writes: seq![
            (joined(dir, "cgroup.procs"@), signed_decimal(pid as int)),
            (joined(dir, "cpuset.cpus"@), jobcpu),
            (joined(dir, "memory.swap.max"@), "0"@),
            (joined(dir, "memory.oom.group"@), "1"@),
        ] + limit_write(dir, "memory.max"@, mem_max),
    }
}

/// The memory limits on the split hierarchies: of memory alone, and of
/// memory and swap together.
pub open spec fn v1_limit_writes(dir: Seq<char>, mem_max: Option<u32>) -> Seq<
    (Seq<char>, Seq<char>),
> {
    limit_write(dir, "memory.limit_in_bytes"@, mem_max) + limit_write(
        dir,
        "memory.memsw.limit_in_bytes"@,
        mem_max,
    )
}

/// The plan on the split hierarchies: a directory for the job under the
/// memory, the processor time and the processor set hierarchy, the process
/// moved into each, the job pinned to its processor, swapping discouraged,
/// and the memory limits where a limit is set.
pub open spec fn cgroup_v1_setup(pid: i32, jobcpu: Seq<char>, mem_max: Option<u32>) -> CgroupSetup {
    let memory = joined("/sys/fs/cgroup/memory/bb_runner"@, job_name(jobcpu));
    let cpu = joined("/sys/fs/cgroup/cpu,cpuacct/bb_runner"@, job_name(jobcpu));
    let cpuset = joined("/sys/fs/cgroup/cpuset/bb_runner"@, job_name(jobcpu));
    CgroupSetup {
        dirs: seq![(memory, true), (cpu, true), (cpuset, true)],
        writes: seq![
            (joined(memory, "cgroup.procs"@), signed_decimal(pid as int)),
            (joined(cpu, "cgroup.procs"@), signed_decimal(pid as int)),
            (joined(cpuset, "cgroup.procs"@), signed_decimal(pid as int)),
            (joined(cpuset, "cpuset.cpus"@), jobcpu),
            (joined(memory, "memory.swappiness"@), "0"@),
        ] + v1_limit_writes(memory, mem_max),
    }
}

/// The plan for the hierarchy that the host has.
pub open spec fn cgroup_setup(
    version: CgroupVersion,
    pid: i32,
    jobcpu: Seq<char>,
    mem_max: Option<u32>,
) -> CgroupSetup {
    match version {
        CgroupVersion::V2 => cgroup_v2_setup(pid, jobcpu, mem_max),
        CgroupVersion::V1 => cgroup_v1_setup(pid, jobcpu, mem_max),
    }
}

/// A memory limit is the last thing written to the job's control group, in
/// bytes, to the file that caps the group's memory.
pub proof fn lemma_memory_limit_written(pid: i32, jobcpu: Seq<char>, limit: u32)
    ensures
        cgroup_v2_setup(pid, jobcpu, Some(limit)).writes.last() == (
            joined(joined("/sys/fs/cgroup/bb_runner"@, job_name(jobcpu)), "memory.max"@),
            decimal(limit as nat),
        ),
        cgroup_v2_setup(pid, jobcpu, Some(limit)).writes.len() == 5,
        cgroup_v2_setup(pid, jobcpu, None).writes.len() == 4,
{
}

fn job_dir(root: &str, jobcpu: &str) -> (dir: String)
    ensures
        dir@ == joined(root@, job_name(jobcpu@)),
{
    let mut name = String::from_str("job");
    name.append(jobcpu);
    join(root, name.as_str())
}

fn file_write(dir: &String, file: &str, contents: String) -> (write: FileWrite)
    ensures
        write@ == (joined(dir@, file@), contents@),
{
    FileWrite { path: join(dir.as_str(), file), contents }
}

fn push_limit(writes: &mut Vec<FileWrite>, dir: &String, file: &str, mem_max: Option<u32>)
    ensures
        final(writes).deep_view() == old(writes).deep_view() + limit_write(dir@, file@, mem_max),
{
    match mem_max {
        Some(limit) => {
            let ghost before = writes.deep_view();
            writes.push(file_write(dir, file, u64_to_decimal(limit as u64)));
            assert(writes.deep_view() =~= before + limit_write(dir@, file@, mem_max));
        },
        None => {
            assert(writes.deep_view() =~= writes.deep_view() + limit_write(dir@, file@, mem_max));
        },
    }
}

/// Plans the move of process `pid` into the control group of the job on
/// processor `jobcpu`, on the unified hierarchy.
pub fn move_child_cgroup_v2(pid: i32, jobcpu: &str, mem_max: Option<u32>) -> (plan: CgroupPlan)
    ensures
        plan@ == cgroup_v2_setup(pid, jobcpu@, mem_max),
{
    let dir = job_dir("/sys/fs/cgroup/bb_runner", jobcpu);
    let mut dirs: Vec<EnsureDir> = Vec::new();
    dirs.push(EnsureDir { path: dir.clone(), parents: false });
    assert(dirs.deep_view() =~= seq![(dir@, false)]);
    let mut writes: Vec<FileWrite> = Vec::new();
    writes.push(file_write(&dir, "cgroup.procs", i64_to_decimal(pid as i64)));
    writes.push(file_write(&dir, "cpuset.cpus", String::from_str(jobcpu)));
    writes.push(file_write(&dir, "memory.swap.max", String::from_str("0")));
    writes.push(file_write(&dir, "memory.oom.group", String::from_str("1")));
    assert(writes.deep_view() =~= seq![
        (joined(dir@, "cgroup.procs"@), signed_decimal(pid as int)),
        (joined(dir@, "cpuset.cpus"@), jobcpu@),
        (joined(dir@, "memory.swap.max"@), "0"@),
        (joined(dir@, "memory.oom.group"@), "1"@),
    ]);
    push_limit(&mut writes, &dir, "memory.max", mem_max);
    CgroupPlan { dirs, writes }
}

/// Plans the move of process `pid` into the control groups of the job on
/// processor `jobcpu`, on the split hierarchies.
pub fn move_child_cgroup_v1(pid: i32, jobcpu: &str, mem_max: Option<u32>) -> (plan: CgroupPlan)
    ensures
        plan@ == cgroup_v1_setup(pid, jobcpu@, mem_max),
{
    let memory = job_dir("/sys/fs/cgroup/memory/bb_runner", jobcpu);
    let cpu = job_dir("/sys/fs/cgroup/cpu,cpuacct/bb_runner", jobcpu);
    let cpuset = job_dir("/sys/fs/cgroup/cpuset/bb_runner", jobcpu);
    let mut dirs: Vec<EnsureDir> = Vec::new();
    dirs.push(EnsureDir { path: memory.clone(), parents: true });
    dirs.push(EnsureDir { path: cpu.clone(), parents: true });
    dirs.push(EnsureDir { path: cpuset.clone(), parents: true });
    assert(dirs.deep_view() =~= seq![(memory@, true), (cpu@, true), (cpuset@, true)]);
    let mut writes: Vec<FileWrite> = Vec::new();
    writes.push(file_write(&memory, "cgroup.procs", i64_to_decimal(pid as i64)));
    writes.push(file_write(&cpu, "cgroup.procs", i64_to_decimal(pid as i64)));
    writes.push(file_write(&cpuset, "cgroup.procs", i64_to_decimal(pid as i64)));
    writes.push(file_write(&cpuset, "cpuset.cpus", String::from_str(jobcpu)));
    writes.push(file_write(&memory, "memory.swappiness", String::from_str("0")));
    assert(writes.deep_view() =~= seq![
        (joined(memory@, "cgroup.procs"@), signed_decimal(pid as int)),
        (joined(cpu@, "cgroup.procs"@), signed_decimal(pid as int)),
        (joined(cpuset@, "cgroup.procs"@), signed_decimal(pid as int)),
        (joined(cpuset@, "cpuset.cpus"@), jobcpu@),
        (joined(memory@, "memory.swappiness"@), "0"@),
    ]);
    let ghost fixed = writes.deep_view();
    push_limit(&mut writes, &memory, "memory.limit_in_bytes", mem_max);
    push_limit(&mut writes, &memory, "memory.memsw.limit_in_bytes", mem_max);
    assert(writes.deep_view() =~= fixed + v1_limit_writes(memory@, mem_max));
    CgroupPlan { dirs, writes }
}

/// Plans the move of process `pid` into the control group of its job, for
/// the hierarchy `version`.
pub fn plan_cgroup(version: CgroupVersion, pid: i32, jobcpu: &str, mem_max: Option<u32>) -> (plan:
    CgroupPlan)
    ensures
        plan@ == cgroup_setup(version, pid, jobcpu@, mem_max),
{
    match version {
        CgroupVersion::V2 => move_child_cgroup_v2(pid, jobcpu, mem_max),
        CgroupVersion::V1 => move_child_cgroup_v1(pid, jobcpu, mem_max),
    }
}

/// Calls `std::path::Path::exists` on the path. The answer is whatever the
/// file system holds at that moment, so nothing is stated of it.
#[verifier::external_body]
pub(crate) fn path_exists(path: &str) -> (exists: bool) {
    std::path::Path::new(path).exists()
}

/// Finds out which control group hierarchy the host has: the unified one
/// where its list of controllers exists, the split ones otherwise.
pub fn detect_cgroup_version() -> (detected: Result<CgroupVersion, RunnerError>)
    ensures
        detected == Ok::<CgroupVersion, RunnerError>(spec_cgroup_version(true)) || detected
            == Ok::<CgroupVersion, RunnerError>(spec_cgroup_version(false)),
{
    let unified = path_exists("/sys/fs/cgroup/cgroup.controllers");
    Ok(cgroup_version_from(unified))
}

/// Plans the move of process `pid` into the control group of its job, for
/// the hierarchy that the host has.
pub fn move_child_cgroup(pid: i32, jobcpu: &str, mem_max: Option<u32>) -> (planned: Result<
    CgroupPlan,
    RunnerError,
>)
    ensures
        planned matches Ok(plan) && (plan@ == cgroup_setup(
            CgroupVersion::V1,
            pid,
            jobcpu@,
            mem_max,
        ) || plan@ == cgroup_setup(CgroupVersion::V2, pid, jobcpu@, mem_max)),
{
    match detect_cgroup_version() {
        Ok(version) => Ok(plan_cgroup(version, pid, jobcpu, mem_max)),
        Err(error) => Err(error),
    }
}

/// One step of the parent that brings a sandbox to life, in the order of
/// their declaration.
#[derive(Clone, Copy, Debug, PartialEq, Eq, Structural)]
pub enum SpawnStep {
    /// Open the pipe that serves as start gate, closed on exec.
    OpenGate,
    /// Create the sandbox's first process in its namespaces.
    ClonePid1,
    /// Close the parent's copy of the start pipe's reading end.
    CloseGateReader,
    /// Write the user map of the new process.
    MapUser,
    /// Deny the new process its groups and write its group map.
    MapGroup,
    /// Move the new process into its control group.
    EnterCgroup,
    /// Write one byte to the start pipe.
    ReleaseGate,
}

/// What happened to the parent's last step.
#[derive(Clone, Copy, Debug, PartialEq, Eq, Structural)]
pub enum SpawnEvent {
    /// Nothing yet.
    Start,
    /// The step succeeded.
    Done(SpawnStep),
    /// The step failed.
    Failed(SpawnStep),
}

/// What the parent does next.
#[derive(Clone, Copy, Debug, PartialEq, Eq, Structural)]
pub enum SpawnAction {
    /// Perform the step.
    Run(SpawnStep),
    /// Give up: there is no process to clean up.
    Fail,
    /// Kill the sandbox's first process, reap it, and give up.
    Abort,
    /// Hand out the handle of the running sandbox.
    Finish,
}

impl SpawnStep {
    /// Position of the step in the sequence.
    pub open spec fn ordinal(self) -> nat {
        match self {
            SpawnStep::OpenGate => 0,
            SpawnStep::ClonePid1 => 1,
            SpawnStep::CloseGateReader => 2,
            SpawnStep::MapUser => 3,
            SpawnStep::MapGroup => 4,
            SpawnStep::EnterCgroup => 5,
            SpawnStep::ReleaseGate => 6,
        }
    }

    /// Whether the sandbox's first process exists once the step has been
    /// tried: from the step behind its creation on.
    pub open spec fn child_exists(self) -> bool {
        self.ordinal() > SpawnStep::ClonePid1.ordinal()
    }
}

/// What follows a step that succeeded. The move into a control group is
/// left out where the sandbox has none.
pub open spec fn spec_after_spawn_step(has_cgroup: bool, step: SpawnStep) -> SpawnAction {
    match step {
        SpawnStep::OpenGate => SpawnAction::Run(SpawnStep::ClonePid1),
        SpawnStep::ClonePid1 => SpawnAction::Run(SpawnStep::CloseGateReader),
        SpawnStep::CloseGateReader => SpawnAction::Run(SpawnStep::MapUser),
        SpawnStep::MapUser => SpawnAction::Run(SpawnStep::MapGroup),
        SpawnStep::MapGroup => if has_cgroup {
            SpawnAction::Run(SpawnStep::EnterCgroup)
        } else {
            SpawnAction::Run(SpawnStep::ReleaseGate)
        },
        SpawnStep::EnterCgroup => SpawnAction::Run(SpawnStep::ReleaseGate),
        SpawnStep::ReleaseGate => SpawnAction::Finish,
    }
}

/// The parent's next action. Any failure ends the spawn; where the
/// sandbox's first process exists by then, it is killed and reaped first.
pub open spec fn spec_spawn(has_cgroup: bool, event: SpawnEvent) -> SpawnAction {
    match event {
        SpawnEvent::Start => SpawnAction::Run(SpawnStep::OpenGate),
        SpawnEvent::Done(step) => spec_after_spawn_step(has_cgroup, step),
        SpawnEvent::Failed(step) => if step.child_exists() {
            SpawnAction::Abort
        } else {
            SpawnAction::Fail
        },
    }
}

/// What the parent passes to the kernel to create the sandbox's first
/// process.
#[derive(Clone, Copy, Debug, PartialEq, Eq, Structural)]
pub struct CloneRequest {
    /// Size of the stack of the new process, in bytes.
    pub stack_size: usize,
    /// The namespaces of the new process.
    pub namespaces: Namespaces,
    /// Signal that tells the parent of the end of the new process.
    pub exit_signal: i32,
}

/// Stack size of the sandbox's first process.
pub const PID1_STACK_SIZE: usize = 0x10_0000;

pub const SIGKILL: i32 = 9;

pub const SIGCHLD: i32 = 17;

pub const SIGSTOP: i32 = 19;

pub const SIGTTIN: i32 = 21;

pub const SIGTTOU: i32 = 22;

/// The request that creates the first process of a sandbox with these
/// namespaces: a stack of one mebibyte, and the child signal at its end.
pub fn clone_pid1(clone_flags: Namespaces) -> (request: CloneRequest)
    ensures
        request == (CloneRequest {
            stack_size: PID1_STACK_SIZE,
            namespaces: clone_flags,
            exit_signal: SIGCHLD,
        }),
{
    CloneRequest { stack_size: PID1_STACK_SIZE, namespaces: clone_flags, exit_signal: SIGCHLD }
}

impl Command {
    /// Brings the sandbox to life, one decision at a time: takes what
    /// happened to the last step, and says what the parent does next.
    ///
    /// The start pipe is opened before the first process is created, and written
    /// only when the identity maps are written and the process sits in its
    /// control group, so that the process sets nothing up before then.
    pub fn spawn(&self, event: SpawnEvent) -> (action: SpawnAction)
        ensures
            action == spec_spawn(self@.cgroup is Some, event),
    {
        match event {
            SpawnEvent::Start => SpawnAction::Run(SpawnStep::OpenGate),
            SpawnEvent::Done(step) => match step {
                SpawnStep::OpenGate => SpawnAction::Run(SpawnStep::ClonePid1),
                SpawnStep::ClonePid1 => SpawnAction::Run(SpawnStep::CloseGateReader),
                SpawnStep::CloseGateReader => SpawnAction::Run(SpawnStep::MapUser),
                SpawnStep::MapUser => SpawnAction::Run(SpawnStep::MapGroup),
                SpawnStep::MapGroup => if self.cgroup_name().is_some() {
                    SpawnAction::Run(SpawnStep::EnterCgroup)
                } else {
                    SpawnAction::Run(SpawnStep::ReleaseGate)
                },
                SpawnStep::EnterCgroup => SpawnAction::Run(SpawnStep::ReleaseGate),
                SpawnStep::ReleaseGate => SpawnAction::Finish,
            },
            SpawnEvent::Failed(step) => match step {
                SpawnStep::OpenGate => SpawnAction::Fail,
                SpawnStep::ClonePid1 => SpawnAction::Fail,
                _ => SpawnAction::Abort,
            },
        }
    }

    /// The request that creates the sandbox's first process.
    pub fn clone_request(&self) -> (request: CloneRequest)
        ensures
            request == (CloneRequest {
                stack_size: PID1_STACK_SIZE,
                namespaces: self@.namespaces,
                exit_signal: SIGCHLD,
            }),
    {
        clone_pid1(self.namespaces())
    }

    /// What the sandbox's first process needs to know of the command.
    pub fn child_data(&self) -> (child_data: ChildData)
        ensures
            child_data.stdout == self@.stdout,
            child_data.stderr == self@.stderr,
            option_view(child_data.hostname) == self@.hostname,
            child_data.rw_paths.deep_view() == self@.rw_paths,
    {
        let hostname = match self.host_name() {
            Some(name) => Some(name.clone()),
            None => None,
        };
        let paths = self.writable_paths();
        let mut rw_paths: Vec<String> = Vec::new();
        let mut i: usize = 0;
        while i < paths.len()
            invariant
                i <= paths.len(),
                rw_paths.deep_view() == paths.deep_view().take(i as int),
            decreases paths.len() - i,
        {
            let ghost before = rw_paths.deep_view();
            rw_paths.push(paths[i].clone());
            assert(rw_paths.deep_view() =~= before.push(paths[i as int]@));
            assert(paths.deep_view().take(i + 1) =~= paths.deep_view().take(i as int).push(
                paths[i as int]@,
            ));
            i = i + 1;
        }
        assert(paths.deep_view().take(paths.len() as int) =~= paths.deep_view());
        ChildData { stdout: self.stdout_fd(), stderr: self.stderr_fd(), hostname, rw_paths }
    }

    /// Plans the move of the sandbox's first process into the control group
    /// of the command, if it has one, for the hierarchy `version`.
    pub fn enter_cgroup(&self, version: CgroupVersion, pid: i32) -> (plan: Option<CgroupPlan>)
        ensures
            self@.cgroup is None ==> plan is None,
            self@.cgroup matches Some(name) ==> (plan matches Some(p) && p@ == cgroup_setup(
                version,
                pid,
                name,
                self@.mem_max,
            )),
    {
        match self.cgroup_name() {
            Some(name) => Some(plan_cgroup(version, pid, name.as_str(), self.memory_limit())),
            None => None,
        }
    }
}

/// A failure before the first process exists leaves nothing behind, and any
/// later failure has the process killed and reaped: no failed spawn leaves a
/// sandbox running.
pub proof fn lemma_failed_spawn_leaves_no_child(has_cgroup: bool, step: SpawnStep)
    ensures
        spec_spawn(has_cgroup, SpawnEvent::Failed(step)) == (if step.child_exists() {
            SpawnAction::Abort
        } else {
            SpawnAction::Fail
        }),
        !(spec_spawn(has_cgroup, SpawnEvent::Failed(step)) is Run),
        !(spec_spawn(has_cgroup, SpawnEvent::Failed(step)) is Finish),
{
}

/// The start pipe is written only behind every step that prepares the sandbox
/// from outside, and the handle is handed out only behind the release.
pub proof fn lemma_gate_released_last(has_cgroup: bool, event: SpawnEvent)
    ensures
        spec_spawn(has_cgroup, event) == SpawnAction::Run(SpawnStep::ReleaseGate) ==> event
            == SpawnEvent::Done(SpawnStep::EnterCgroup) || (!has_cgroup && event
            == SpawnEvent::Done(SpawnStep::MapGroup)),
        spec_spawn(has_cgroup, event) == SpawnAction::Finish ==> event == SpawnEvent::Done(
            SpawnStep::ReleaseGate,
        ),
        event matches SpawnEvent::Done(step) ==> (spec_spawn(has_cgroup, event) matches SpawnAction::Run(
            next,
        ) ==> step.ordinal() < next.ordinal()),
{
}

/// The running sandbox, known by its first process.
#[derive(Clone, Copy, Debug, PartialEq, Eq, Structural)]
pub struct Child {
    pid: i32,
}

/// A signal to send to a process.
#[derive(Clone, Copy, Debug, PartialEq, Eq, Structural)]
pub struct SignalRequest {
    pub pid: i32,
    pub signal: i32,
}

impl Child {
    /// The process id as the kernel gave it.
    pub closed spec fn pid(&self) -> i32 {
        self.pid
    }

    /// The handle of the sandbox whose first process is `pid`.
    pub fn new(pid: i32) -> (child: Child)
        ensures
            child.pid() == pid,
    {
        Child { pid }
    }

    /// The process id of the sandbox's first process.
    pub fn id(&self) -> (id: u32)
        ensures
            id == self.pid() as u32,
    {
        self.pid as u32
    }

    /// The process id as the kernel's calls take it.
    pub fn raw_pid(&self) -> (pid: i32)
        ensures
            pid == self.pid(),
    {
        self.pid
    }

    /// The signal that ends the sandbox: the kill signal, to its first
    /// process, with which every process of the sandbox ends.
    pub fn kill(&self) -> (request: SignalRequest)
        ensures
            request == (SignalRequest { pid: self.pid(), signal: SIGKILL }),
    {
        SignalRequest { pid: self.pid, signal: SIGKILL }
    }
}

/// What becomes of a signal's disposition when the sandbox's first process
/// resets its signals.
#[derive(Clone, Copy, Debug, PartialEq, Eq, Structural)]
pub enum Disposition {
    /// The disposition cannot be changed and is left alone.
    Untouched,
    /// The signal is ignored.
    Ignore,
    /// The signal does what it does by default.
    Default,
}

/// The disposition that the reset gives a signal: the kill and the stop
/// signal cannot be handled; the two signals for terminal access from the
/// background stay ignored; every other signal gets its default.
pub open spec fn spec_disposition(signal: i32) -> Disposition {
    if signal == SIGKILL || signal == SIGSTOP {
        Disposition::Untouched
    } else if signal == SIGTTIN || signal == SIGTTOU {
        Disposition::Ignore
    } else {
        Disposition::Default
    }
}

/// The disposition that the reset gives a signal.
pub fn disposition(signal: i32) -> (d: Disposition)
    ensures
        d == spec_disposition(signal),
{
    if signal == SIGKILL || signal == SIGSTOP {
        Disposition::Untouched
    } else if signal == SIGTTIN || signal == SIGTTOU {
        Disposition::Ignore
    } else {
        Disposition::Default
    }
}

/// A signal and the disposition to install for it.
#[derive(Clone, Copy, Debug, PartialEq, Eq, Structural)]
pub struct SignalChange {
    pub signal: i32,
    pub disposition: Disposition,
}

/// How the sandbox's first process resets its signals: the signal it asks
/// for when its parent dies, the signals that its new signal mask blocks,
/// and the dispositions to install.
#[derive(Clone, Debug, PartialEq, Eq)]
pub struct SignalReset {
    pub parent_death_signal: i32,
    pub blocked: Vec<i32>,
    pub changes: Vec<SignalChange>,
}

/// The changes of disposition for the signals of a list, in its order, the
/// signals that cannot be handled left out.
pub open spec fn disposition_changes(signals: Seq<i32>) -> Seq<SignalChange>
    decreases signals.len(),
{
    if signals.len() == 0 {
        Seq::empty()
    } else {
        let earlier = disposition_changes(signals.drop_last());
        let signal = signals.last();
        if spec_disposition(signal) == Disposition::Untouched {
            earlier
        } else {
            earlier.push(SignalChange { signal, disposition: spec_disposition(signal) })
        }
    }
}

/// Plans the reset of the signals that the platform has, so that the
/// sandbox inherits nothing from the runner: the kill signal on the
/// parent's death, a signal mask that blocks nothing, and a disposition for
/// every signal that can have one.
pub fn reset_signals(signals: &Vec<i32>) -> (reset: SignalReset)
    ensures
        reset.parent_death_signal == SIGKILL,
        reset.blocked@ == Seq::<i32>::empty(),
        reset.changes@ == disposition_changes(signals@),
{
    let mut changes: Vec<SignalChange> = Vec::new();
    let mut i: usize = 0;
    assert(signals@.take(0) =~= Seq::empty());
    while i < signals.len()
        invariant
            i <= signals.len(),
            changes@ == disposition_changes(signals@.take(i as int)),
        decreases signals.len() - i,
    {
        assert(signals@.take(i + 1).drop_last() =~= signals@.take(i as int));
        let signal = signals[i];
        match disposition(signal) {
            Disposition::Untouched => {},
            d => {
                changes.push(SignalChange { signal, disposition: d });
            },
        }
        i = i + 1;
    }
    assert(signals@.take(signals.len() as int) =~= signals@);
    SignalReset { parent_death_signal: SIGKILL, blocked: Vec::new(), changes }
}

/// How a call that closes a range of descriptors ended.
#[derive(Clone, Copy, Debug, PartialEq, Eq, Structural)]
pub enum CloseRange {
    /// The descriptors are closed.
    Closed,
    /// The call failed; the error number says why.
    Failed,
    /// The call returned a value it should never return.
    Unexpected,
}

/// Reads the return value of the call that closes a range of descriptors:
/// zero is success, minus one a failure with an error number, and anything
/// else is not a value the call has.
pub fn close_range_fds(returned: i32) -> (outcome: CloseRange)
    ensures
        outcome == (if returned == 0 {
            CloseRange::Closed
        } else if returned == -1 {
            CloseRange::Failed
        } else {
            CloseRange::Unexpected
        }),
{
    if returned == 0 {
        CloseRange::Closed
    } else if returned == -1 {
        CloseRange::Failed
    } else {
        CloseRange::Unexpected
    }
}

} // verus!

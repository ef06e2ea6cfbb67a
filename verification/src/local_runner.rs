//! One request on the local host: where its files go, what its sandbox looks
//! like, and how the runner waits for it.
use vstd::prelude::*;
use vstd::string::*;

use crate::command::{
    env_value, lemma_env_value_push, lemma_env_value_unique, names_unique, Command,
    CommandTemplate, EnvVar, Namespaces, Sandbox, Template,
};
use crate::config::Configuration;
use crate::paths::{join, joined};
use crate::resource::{ExitResources, WaitFailure};
use crate::status::RunnerError;
use crate::text::{decimal, u64_to_decimal};

verus! {

/// Seconds after which the runner looks at a sandbox again although no
/// signal announced a change.
pub const WAIT_INTERVAL_SECS: u64 = 5;

/// A command to execute.
#[derive(Clone, Debug, PartialEq, Eq)]
pub struct RunRequest {
    /// The program, then its arguments.
    pub arguments: Vec<String>,
    /// The environment of the program.
    pub environment_variables: Vec<EnvVar>,
    /// Where the program starts, below the input root.
    pub working_directory: String,
    /// The staged tree of input files, below the build directory.
    pub input_root_directory: String,
    /// A directory for the request's scratch files, below the build
    /// directory.
    pub temporary_directory: String,
    /// The file that receives standard output, below the build directory.
    pub stdout_path: String,
    /// The file that receives standard error, below the build directory.
    pub stderr_path: String,
}

/// A request as plain values.
pub ghost struct Request {
    pub arguments: Seq<Seq<char>>,
    pub environment_variables: Seq<(Seq<char>, Seq<char>)>,
    pub working_directory: Seq<char>,
    pub input_root_directory: Seq<char>,
    pub temporary_directory: Seq<char>,
    pub stdout_path: Seq<char>,
    pub stderr_path: Seq<char>,
}

impl View for RunRequest {
    type V = Request;

    open spec fn view(&self) -> Request {
        Request {
            arguments: self.arguments.deep_view(),
            environment_variables: self.environment_variables.deep_view(),
            working_directory: self.working_directory@,
            input_root_directory: self.input_root_directory@,
            temporary_directory: self.temporary_directory@,
            stdout_path: self.stdout_path@,
            stderr_path: self.stderr_path@,
        }
    }
}

impl RunRequest {
    /// Whether the environment of the request is a mapping: whether no name
    /// occurs twice in it.
    pub fn env_is_mapping(&self) -> (unique: bool)
        ensures
            unique == self@.wf(),
    {
        let envs = &self.environment_variables;
        let ghost names = envs.deep_view();
        let mut j: usize = 0;
        while j < envs.len()
            invariant
                j <= envs.len(),
                names == envs.deep_view(),
                names == self@.environment_variables,
                forall|a: int, b: int| 0 <= a < b < j ==> names[a].0 != names[b].0,
            decreases envs.len() - j,
        {
            let mut i: usize = 0;
            while i < j
                invariant
                    i <= j < envs.len(),
                    names == envs.deep_view(),
                    names == self@.environment_variables,
                    forall|a: int| 0 <= a < i ==> names[a].0 != names[j as int].0,
                decreases j - i,
            {
                assert(names[i as int] == envs[i as int]@);
                assert(names[j as int] == envs[j as int]@);
                if envs[i].name == envs[j].name {
                    assert(!names_unique(names)) by {
                        if names_unique(names) {
                            assert(0 <= i < j < names.len());
                            assert(names[i as int].0 != names[j as int].0);
                        }
                    }
                    return false;
                }
                i = i + 1;
            }
            j = j + 1;
        }
        true
    }
}

impl Request {
    /// The environment is a mapping: no name occurs twice in it.
    pub open spec fn wf(self) -> bool {
        names_unique(self.environment_variables)
    }

    /// The staged input tree.
    pub open spec fn input_root(self, builddir: Seq<char>) -> Seq<char> {
        joined(builddir, self.input_root_directory)
    }

    /// The directory in which the program starts.
    pub open spec fn cwd(self, builddir: Seq<char>) -> Seq<char> {
        joined(self.input_root(builddir), self.working_directory)
    }

    /// The directory for the program's temporary files.
    pub open spec fn tmpdir(self, builddir: Seq<char>) -> Seq<char> {
        joined(joined(builddir, self.temporary_directory), "tmp"@)
    }

    /// The program's home directory.
    pub open spec fn homedir(self, builddir: Seq<char>) -> Seq<char> {
        joined(joined(builddir, self.temporary_directory), "home"@)
    }

    /// The program as the sandbox runs it: the first argument resolved
    /// against the starting directory, the other arguments as they are, and
    /// the request's environment followed by the two directories made for
    /// it.
    pub open spec fn template(self, builddir: Seq<char>) -> Template
        recommends
            self.arguments.len() > 0,
    {
        Template {
            program: joined(self.cwd(builddir), self.arguments[0]),
            args: self.arguments.subrange(1, self.arguments.len() as int),
            current_dir: self.cwd(builddir),
            envs: self.environment_variables + seq![
                ("TMP"@, self.tmpdir(builddir)),
                ("HOME"@, self.homedir(builddir)),
            ],
        }
    }

    /// The sandbox of the request on processor `processor`: the host is
    /// called `localhost`, the control group is named by the processor, the
    /// memory limit is the configured one, and the configured paths stay
    /// writable, as do the home directory, the input tree and the temporary
    /// directory.
    pub open spec fn sandbox(
        self,
        processor: u32,
        builddir: Seq<char>,
        memory_max: u32,
        rw_paths: Seq<Seq<char>>,
    ) -> Sandbox
        recommends
            self.arguments.len() > 0,
    {
        Sandbox {
            inner: self.template(builddir),
            stdout: None,
            stderr: None,
            hostname: Some("localhost"@),
            cgroup: Some(decimal(processor as nat)),
            mem_max: Some(memory_max),
            namespaces: Namespaces { uts: true, cgroup: true, ..Namespaces::spec_base() },
            rw_paths: rw_paths + seq![
                self.homedir(builddir),
                self.input_root(builddir),
                self.tmpdir(builddir),
            ],
        }
    }
}

/// The environment of the program: `TMP` and `HOME` name the two
/// directories made for the request, whatever the request says of them, and
/// every other variable of a request whose environment is a mapping has the
/// value that the request gives it.
pub proof fn lemma_sandbox_environment(request: Request, builddir: Seq<char>)
    ensures
        env_value(request.template(builddir).envs, "TMP"@) == Some(request.tmpdir(builddir)),
        env_value(request.template(builddir).envs, "HOME"@) == Some(request.homedir(builddir)),
        request.wf() ==> forall|i: int|
            0 <= i < request.environment_variables.len() && (
            #[trigger] request.environment_variables[i]).0 != "TMP"@
                && request.environment_variables[i].0 != "HOME"@ ==> env_value(
                request.template(builddir).envs,
                request.environment_variables[i].0,
            ) == Some(request.environment_variables[i].1),
{
    reveal_strlit("TMP");
    reveal_strlit("HOME");
    let given = request.environment_variables;
    let tmp = ("TMP"@, request.tmpdir(builddir));
    let home = ("HOME"@, request.homedir(builddir));
    let envs = request.template(builddir).envs;
    assert(envs =~= given.push(tmp).push(home));
    assert("TMP"@.len() != "HOME"@.len());
    lemma_env_value_push(given.push(tmp), home, "HOME"@);
    lemma_env_value_push(given.push(tmp), home, "TMP"@);
    lemma_env_value_push(given, tmp, "TMP"@);
    if request.wf() {
        assert forall|i: int|
            0 <= i < given.len() && (#[trigger] given[i]).0 != "TMP"@ && given[i].0
                != "HOME"@ implies env_value(envs, given[i].0) == Some(given[i].1) by {
            lemma_env_value_push(given.push(tmp), home, given[i].0);
            lemma_env_value_push(given, tmp, given[i].0);
            lemma_env_value_unique(given, i);
        }
    }
}

/// Path of a file of the request below the build directory.
pub fn builddir_file(builddir: &str, fname: &str) -> (path: String)
    ensures
        path@ == joined(builddir@, fname@),
{
    join(builddir, fname)
}

/// What has to be on disk before a request's sandbox starts, and the
/// sandbox itself.
#[derive(Debug, PartialEq, Eq)]
pub struct SandboxPlan {
    /// Directory to create for temporary files.
    pub tmpdir: String,
    /// Directory to create as the home directory.
    pub homedir: String,
    /// File to create for standard output.
    pub stdout_file: String,
    /// File to create for standard error.
    pub stderr_file: String,
    /// The command, its output descriptors not yet set.
    pub command: Command,
}

/// Something that is put on disk for a request.
#[derive(Clone, Copy, Debug, PartialEq, Eq, Structural)]
pub enum Staging {
    TmpDir,
    HomeDir,
    StdoutFile,
    StderrFile,
}

/// The failure reported when something could not be put on disk.
pub open spec fn spec_staging_error(what: Staging) -> RunnerError {
    match what {
        Staging::TmpDir => RunnerError::TmpDir,
        Staging::HomeDir => RunnerError::HomeDir,
        Staging::StdoutFile => RunnerError::CreateFile,
        Staging::StderrFile => RunnerError::CreateFile,
    }
}

/// The failure to report when something could not be put on disk.
pub fn staging_error(what: Staging) -> (error: RunnerError)
    ensures
        error == spec_staging_error(what),
{
    match what {
        Staging::TmpDir => RunnerError::TmpDir,
        Staging::HomeDir => RunnerError::HomeDir,
        Staging::StdoutFile => RunnerError::CreateFile,
        Staging::StderrFile => RunnerError::CreateFile,
    }
}

fn clone_strings(source: &Vec<String>, from: usize) -> (copy: Vec<String>)
    requires
        from <= source.len(),
    ensures
        copy.deep_view() == source.deep_view().subrange(from as int, source.len() as int),
{
    let mut copy: Vec<String> = Vec::new();
    let mut i: usize = from;
    while i < source.len()
        invariant
            from <= i <= source.len(),
            copy.deep_view() == source.deep_view().subrange(from as int, i as int),
        decreases source.len() - i,
    {
        let ghost before = copy.deep_view();
        copy.push(source[i].clone());
        assert(copy.deep_view() =~= before.push(source[i as int]@));
        assert(source.deep_view().subrange(from as int, i + 1) =~= source.deep_view().subrange(
            from as int,
            i as int,
        ).push(source[i as int]@));
        i = i + 1;
    }
    copy
}

fn clone_envs(source: &Vec<EnvVar>) -> (copy: Vec<EnvVar>)
    ensures
        copy.deep_view() == source.deep_view(),
{
    let mut copy: Vec<EnvVar> = Vec::new();
    let mut i: usize = 0;
    while i < source.len()
        invariant
            i <= source.len(),
            copy.deep_view() == source.deep_view().take(i as int),
        decreases source.len() - i,
    {
        let ghost before = copy.deep_view();
        copy.push(EnvVar { name: source[i].name.clone(), value: source[i].value.clone() });
        assert(copy.deep_view() =~= before.push(source[i as int]@));
        assert(source.deep_view().take(i + 1) =~= source.deep_view().take(i as int).push(
            source[i as int]@,
        ));
        i = i + 1;
    }
    assert(source.deep_view().take(source.len() as int) =~= source.deep_view());
    copy
}

/// Plans the sandbox of a request that was given processor `processor`.
///
/// Every path of the request is resolved against the build directory. A
/// request without arguments names no program and is refused. The program's
/// environment is that of the request with `TMP` and `HOME` set to the two
/// directories made for it: where the request's environment is a mapping,
/// each of its other variables keeps its value.
pub fn spawn_child(processor: u32, child_cfg: &Configuration, run: &RunRequest) -> (planned:
    Result<SandboxPlan, RunnerError>)
    ensures
        run@.arguments.len() == 0 ==> (planned matches Err(error) && error
            == RunnerError::NoProgram),
        run@.arguments.len() > 0 ==> (planned matches Ok(plan) && {
            let builddir = child_cfg.build_directory_path@;
            &&& plan.tmpdir@ == run@.tmpdir(builddir)
            &&& plan.homedir@ == run@.homedir(builddir)
            &&& plan.stdout_file@ == joined(builddir, run@.stdout_path)
            &&& plan.stderr_file@ == joined(builddir, run@.stderr_path)
            &&& plan.command@ == run@.sandbox(
                processor,
                builddir,
                child_cfg.memory_max,
                child_cfg.rw_paths.deep_view(),
            )
            &&& plan.command@.wf()
            &&& env_value(plan.command@.inner.envs, "TMP"@) == Some(plan.tmpdir@)
            &&& env_value(plan.command@.inner.envs, "HOME"@) == Some(plan.homedir@)
            &&& run@.wf() ==> forall|i: int|
                0 <= i < run@.environment_variables.len() && (
                #[trigger] run@.environment_variables[i]).0 != "TMP"@
                    && run@.environment_variables[i].0 != "HOME"@ ==> env_value(
                    plan.command@.inner.envs,
                    run@.environment_variables[i].0,
                ) == Some(run@.environment_variables[i].1)
        }),
{
    if run.arguments.len() == 0 {
        return Err(RunnerError::NoProgram);
    }
    proof {
        lemma_sandbox_environment(run@, child_cfg.build_directory_path@);
    }
    let builddir = child_cfg.build_directory_path.as_str();
    let ird = join(builddir, run.input_root_directory.as_str());
    let cwd = join(ird.as_str(), run.working_directory.as_str());
    let arg0 = join(cwd.as_str(), run.arguments[0].as_str());
    assert(run@.arguments[0] == run.arguments[0]@);
    let scratch = join(builddir, run.temporary_directory.as_str());
    let tmpdir = join(scratch.as_str(), "tmp");
    let homedir = join(scratch.as_str(), "home");
    let stdout_file = builddir_file(builddir, run.stdout_path.as_str());
    let stderr_file = builddir_file(builddir, run.stderr_path.as_str());

    let mut envs = clone_envs(&run.environment_variables);
    let ghost request_envs = envs.deep_view();
    envs.push(EnvVar { name: String::from_str("TMP"), value: tmpdir.clone() });
    envs.push(EnvVar { name: String::from_str("HOME"), value: homedir.clone() });
    assert(envs.deep_view() =~= request_envs + seq![("TMP"@, tmpdir@), ("HOME"@, homedir@)]);

    let template = CommandTemplate {
        program: arg0,
        args: clone_strings(&run.arguments, 1),
        current_dir: cwd,
        envs,
    };
    let mut c = Command::from(template);
    c.hostname("localhost");
    let slot = u64_to_decimal(processor as u64);
    c.cgroup(slot.as_str());
    c.memory_max(child_cfg.memory_max);
    c.rw_paths(child_cfg.rw_paths.as_slice());
    c.rw_path(homedir.as_str());
    c.rw_path(ird.as_str());
    c.rw_path(tmpdir.as_str());
    assert(c@.rw_paths =~= child_cfg.rw_paths.deep_view() + seq![homedir@, ird@, tmpdir@]);
    Ok(SandboxPlan { tmpdir, homedir, stdout_file, stderr_file, command: c })
}

/// What the waiter is waiting for.
#[derive(Clone, Copy, Debug, PartialEq, Eq)]
pub enum WaitPhase {
    /// For something to wake it.
    Sleeping,
    /// For the kill signal to be sent.
    Killing,
    /// For the look at the sandbox.
    Polling,
    /// For nothing: the wait is over, with this result.
    Over(Result<ExitResources, RunnerError>),
}

/// Why the waiter woke up.
#[derive(Clone, Copy, Debug, PartialEq, Eq, Structural)]
pub enum Wake {
    /// A child of the runner changed state.
    ChildSignal,
    /// The interval has passed.
    Tick,
    /// The request was cancelled.
    Cancelled,
}

/// What the waiter is told.
#[derive(Clone, Copy, Debug, PartialEq, Eq)]
pub enum WaitEvent {
    /// Something woke it.
    Woken(Wake),
    /// The kill signal was sent, or could not be.
    Killed(bool),
    /// The look at the sandbox found it gone, still running, or failed.
    Polled(Result<Option<ExitResources>, WaitFailure>),
}

/// What the waiter does.
#[derive(Clone, Copy, Debug, PartialEq, Eq)]
pub enum WaitAction {
    /// Sleep until a child changes state or the interval passes, and, if
    /// `watch_cancellation` is set, until the request is cancelled.
    Sleep { watch_cancellation: bool },
    /// Send the kill signal to the sandbox's first process.
    Kill,
    /// Look at the sandbox without blocking.
    Poll,
    /// Return this result.
    Finish(Result<ExitResources, RunnerError>),
}

/// The waiter of one sandbox.
#[derive(Clone, Copy, Debug, PartialEq, Eq)]
pub struct WaitState {
    /// The kill signal has been delivered.
    pub kill_sent: bool,
    pub phase: WaitPhase,
}

impl WaitState {
    /// The waiter before its first sleep.
    pub open spec fn spec_new() -> WaitState {
        WaitState { kill_sent: false, phase: WaitPhase::Sleeping }
    }

    /// What the waiter is waiting for: the action it asked for last.
    pub open spec fn pending(self) -> WaitAction {
        match self.phase {
            WaitPhase::Sleeping => WaitAction::Sleep { watch_cancellation: !self.kill_sent },
            WaitPhase::Killing => WaitAction::Kill,
            WaitPhase::Polling => WaitAction::Poll,
            WaitPhase::Over(result) => WaitAction::Finish(result),
        }
    }

    /// The waiter after an event. An event that does not answer what the
    /// waiter is waiting for changes nothing.
    ///
    /// Woken, the waiter looks at the sandbox, but first sends the kill
    /// signal if the request was cancelled and no kill signal has been
    /// delivered yet. It notes a delivered kill signal and looks at the
    /// sandbox. A sandbox that still runs sends it back to sleep; one that
    /// is gone ends the wait with its exit status and usage; a failed look
    /// ends it with a failure.
    pub open spec fn step(self, event: WaitEvent) -> WaitState {
        match (self.phase, event) {
            (WaitPhase::Sleeping, WaitEvent::Woken(wake)) => if wake == Wake::Cancelled
                && !self.kill_sent {
                WaitState { phase: WaitPhase::Killing, ..self }
            } else {
                WaitState { phase: WaitPhase::Polling, ..self }
            },
            (WaitPhase::Killing, WaitEvent::Killed(delivered)) => WaitState {
                kill_sent: self.kill_sent || delivered,
                phase: WaitPhase::Polling,
            },
            (WaitPhase::Polling, WaitEvent::Polled(Ok(None))) => WaitState {
                phase: WaitPhase::Sleeping,
                ..self
            },
            (WaitPhase::Polling, WaitEvent::Polled(Ok(Some(exit)))) => WaitState {
                phase: WaitPhase::Over(Ok(exit)),
                ..self
            },
            (WaitPhase::Polling, WaitEvent::Polled(Err(_))) => WaitState {
                phase: WaitPhase::Over(Err(RunnerError::Wait)),
                ..self
            },
            _ => self,
        }
    }

    /// The waiter after a sequence of events.
    pub open spec fn run(self, events: Seq<WaitEvent>) -> WaitState
        decreases events.len(),
    {
        if events.len() == 0 {
            self
        } else {
            self.run(events.drop_last()).step(events.last())
        }
    }

    /// Number of kill signals that were delivered in the course of the
    /// events: the successful answers to a request for one.
    pub open spec fn kills_delivered(self, events: Seq<WaitEvent>) -> nat
        decreases events.len(),
    {
        if events.len() == 0 {
            0
        } else {
            let before = self.run(events.drop_last());
            let earlier = self.kills_delivered(events.drop_last());
            if before.phase == WaitPhase::Killing && events.last() == WaitEvent::Killed(true) {
                earlier + 1
            } else {
                earlier
            }
        }
    }

    /// A waiter that has not slept yet.
    pub fn new() -> (state: WaitState)
        ensures
            state == Self::spec_new(),
    {
        WaitState { kill_sent: false, phase: WaitPhase::Sleeping }
    }
}

/// Waits for a sandbox, one decision at a time: takes what happened, and
/// says what to do next.
///
/// The first action of a new waiter is `WaitState::new().pending()`.
pub fn wait_child(state: &mut WaitState, event: WaitEvent) -> (action: WaitAction)
    ensures
        *final(state) == old(state).step(event),
        action == final(state).pending(),
{
    match (state.phase, event) {
        (WaitPhase::Sleeping, WaitEvent::Woken(wake)) => {
            let cancelled = match wake {
                Wake::Cancelled => true,
                _ => false,
            };
            if cancelled && !state.kill_sent {
                state.phase = WaitPhase::Killing;
            } else {
                state.phase = WaitPhase::Polling;
            }
        },
        (WaitPhase::Killing, WaitEvent::Killed(delivered)) => {
            state.kill_sent = state.kill_sent || delivered;
            state.phase = WaitPhase::Polling;
        },
        (WaitPhase::Polling, WaitEvent::Polled(Ok(None))) => {
            state.phase = WaitPhase::Sleeping;
        },
        (WaitPhase::Polling, WaitEvent::Polled(Ok(Some(exit)))) => {
            state.phase = WaitPhase::Over(Ok(exit));
        },
        (WaitPhase::Polling, WaitEvent::Polled(Err(_))) => {
            state.phase = WaitPhase::Over(Err(RunnerError::Wait));
        },
        _ => {},
    }
    pending_action(state)
}

/// The action that the waiter is waiting for.
pub fn pending_action(state: &WaitState) -> (action: WaitAction)
    ensures
        action == state.pending(),
{
    match state.phase {
        WaitPhase::Sleeping => WaitAction::Sleep { watch_cancellation: !state.kill_sent },
        WaitPhase::Killing => WaitAction::Kill,
        WaitPhase::Polling => WaitAction::Poll,
        WaitPhase::Over(result) => WaitAction::Finish(result),
    }
}

/// A new waiter asks for the kill signal only while none was delivered, and
/// a delivered kill signal stays noted.
pub proof fn lemma_kill_noted(events: Seq<WaitEvent>)
    ensures
        ({
            let state = WaitState::spec_new().run(events);
            &&& state.phase == WaitPhase::Killing ==> !state.kill_sent
            &&& state.kill_sent <==> WaitState::spec_new().kills_delivered(events) == 1
            &&& !state.kill_sent <==> WaitState::spec_new().kills_delivered(events) == 0
        }),
    decreases events.len(),
{
    if events.len() > 0 {
        lemma_kill_noted(events.drop_last());
    }
}

/// Whatever happens to a request, in whatever order, its sandbox gets the
/// kill signal delivered at most once.
pub proof fn lemma_kill_at_most_once(events: Seq<WaitEvent>)
    ensures
        WaitState::spec_new().kills_delivered(events) <= 1,
{
    lemma_kill_noted(events);
}

/// The wait ends only with a look at the sandbox that found it gone or that
/// failed: while the sandbox is known to run, the waiter goes on.
pub proof fn lemma_wait_ends_with_look(state: WaitState, event: WaitEvent)
    requires
        !(state.phase is Over),
        state.step(event).phase is Over,
    ensures
        state.phase == WaitPhase::Polling,
        event matches WaitEvent::Polled(found) && !(found matches Ok(None)),
{
}

/// The waiter hands on what the wait found: when the wait ends with the
/// status of a sandbox, that status is the one the look at the sandbox
/// returned, a terminating signal included.
pub proof fn lemma_wait_reports_status(state: WaitState, exit: ExitResources)
    requires
        state.phase == WaitPhase::Polling,
    ensures
        state.step(WaitEvent::Polled(Ok(Some(exit)))).pending() == WaitAction::Finish(Ok(exit)),
{
}

} // verus!

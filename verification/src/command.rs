//! The configuration of one sandboxed command.
use vstd::prelude::*;
use vstd::string::*;

verus! {

/// The kernel namespaces that a sandbox gets for itself.
#[derive(Clone, Copy, Debug, PartialEq, Eq, Structural)]
pub struct Namespaces {
    pub pid: bool,
    pub ipc: bool,
    pub net: bool,
    pub mnt: bool,
    pub user: bool,
    pub uts: bool,
    pub cgroup: bool,
}

pub const CLONE_NEWNS: i32 = 0x0002_0000;

pub const CLONE_NEWCGROUP: i32 = 0x0200_0000;

pub const CLONE_NEWUTS: i32 = 0x0400_0000;

pub const CLONE_NEWIPC: i32 = 0x0800_0000;

pub const CLONE_NEWUSER: i32 = 0x1000_0000;

pub const CLONE_NEWPID: i32 = 0x2000_0000;

pub const CLONE_NEWNET: i32 = 0x4000_0000;

/// The bit if the namespace is asked for, nothing otherwise.
#[verifier::opaque]
pub open spec fn flag_if(wanted: bool, bit: i32) -> int {
    if wanted {
        bit as int
    } else {
        0
    }
}

fn flag_of(wanted: bool, bit: i32) -> (value: i32)
    requires
        bit >= 0,
    ensures
        value == flag_if(wanted, bit),
        0 <= flag_if(wanted, bit) <= bit,
{
    reveal(flag_if);
    if wanted {
        bit
    } else {
        0
    }
}

impl Namespaces {
    /// The namespaces that every sandbox has: processes, inter-process
    /// communication, network, mounts and users.
    pub open spec fn spec_base() -> Namespaces {
        Namespaces {
            pid: true,
            ipc: true,
            net: true,
            mnt: true,
            user: true,
            uts: false,
            cgroup: false,
        }
    }

    /// Every namespace of `other` is one of `self`.
    pub open spec fn includes(self, other: Namespaces) -> bool {
        &&& other.pid ==> self.pid
        &&& other.ipc ==> self.ipc
        &&& other.net ==> self.net
        &&& other.mnt ==> self.mnt
        &&& other.user ==> self.user
        &&& other.uts ==> self.uts
        &&& other.cgroup ==> self.cgroup
    }

    /// The namespaces as the kernel's clone call takes them: the sum of the
    /// flags of those asked for.
    pub open spec fn spec_bits(self) -> int {
        flag_if(self.mnt, CLONE_NEWNS) + flag_if(self.cgroup, CLONE_NEWCGROUP) + flag_if(
            self.uts,
            CLONE_NEWUTS,
        ) + flag_if(self.ipc, CLONE_NEWIPC) + flag_if(self.user, CLONE_NEWUSER) + flag_if(
            self.pid,
            CLONE_NEWPID,
        ) + flag_if(self.net, CLONE_NEWNET)
    }

    /// The namespaces that every sandbox has.
    pub fn base() -> (namespaces: Namespaces)
        ensures
            namespaces == Self::spec_base(),
    {
        Namespaces {
            pid: true,
            ipc: true,
            net: true,
            mnt: true,
            user: true,
            uts: false,
            cgroup: false,
        }
    }

    /// The namespaces as the kernel's clone call takes them.
    pub fn bits(self) -> (bits: i32)
        ensures
            bits == self.spec_bits(),
    {
        let mut bits: i32 = flag_of(self.mnt, CLONE_NEWNS);
        bits = bits + flag_of(self.cgroup, CLONE_NEWCGROUP);
        bits = bits + flag_of(self.uts, CLONE_NEWUTS);
        bits = bits + flag_of(self.ipc, CLONE_NEWIPC);
        bits = bits + flag_of(self.user, CLONE_NEWUSER);
        bits = bits + flag_of(self.pid, CLONE_NEWPID);
        bits = bits + flag_of(self.net, CLONE_NEWNET);
        bits
    }
}

/// One variable of a command's environment.
#[derive(Clone, Debug, PartialEq, Eq)]
pub struct EnvVar {
    pub name: String,
    pub value: String,
}

impl View for EnvVar {
    type V = (Seq<char>, Seq<char>);

    open spec fn view(&self) -> (Seq<char>, Seq<char>) {
        (self.name@, self.value@)
    }
}

impl DeepView for EnvVar {
    type V = (Seq<char>, Seq<char>);

    open spec fn deep_view(&self) -> (Seq<char>, Seq<char>) {
        self@
    }
}

/// Whether no name occurs twice among the variables.
pub open spec fn names_unique(envs: Seq<(Seq<char>, Seq<char>)>) -> bool {
    forall|i: int, j: int| 0 <= i < j < envs.len() ==> envs[i].0 != envs[j].0
}

/// The value that a list of variables gives a name: that of the last
/// variable of that name, if there is one.
pub open spec fn env_value(envs: Seq<(Seq<char>, Seq<char>)>, name: Seq<char>) -> Option<
    Seq<char>,
>
    decreases envs.len(),
{
    if envs.len() == 0 {
        None
    } else if envs.last().0 == name {
        Some(envs.last().1)
    } else {
        env_value(envs.drop_last(), name)
    }
}

/// A variable put behind a list gives its name its value and leaves every
/// other name what the list gave it.
pub proof fn lemma_env_value_push(
    envs: Seq<(Seq<char>, Seq<char>)>,
    var: (Seq<char>, Seq<char>),
    name: Seq<char>,
)
    ensures
        env_value(envs.push(var), name) == (if var.0 == name {
            Some(var.1)
        } else {
            env_value(envs, name)
        }),
{
    assert(envs.push(var).drop_last() =~= envs);
}

/// Where no name occurs twice, every variable of the list is the one that
/// gives its name a value.
pub proof fn lemma_env_value_unique(envs: Seq<(Seq<char>, Seq<char>)>, i: int)
    requires
        names_unique(envs),
        0 <= i < envs.len(),
    ensures
        env_value(envs, envs[i].0) == Some(envs[i].1),
    decreases envs.len(),
{
    if i < envs.len() - 1 {
        let earlier = envs.drop_last();
        assert(envs.last() == envs[envs.len() - 1]);
        assert(earlier[i] == envs[i]);
        assert(names_unique(earlier)) by {
            assert forall|a: int, b: int| 0 <= a < b < earlier.len() implies earlier[a].0
                != earlier[b].0 by {
                assert(earlier[a] == envs[a]);
                assert(earlier[b] == envs[b]);
            }
        }
        lemma_env_value_unique(earlier, i);
    }
}

/// The program to run in the sandbox: it gets no standard input, an
/// environment that holds `envs` and nothing else, a later variable
/// replacing an earlier one of the same name, and the standard output and
/// error of the process that starts it.
#[derive(Clone, Debug, PartialEq, Eq)]
pub struct CommandTemplate {
    /// Path of the executable.
    pub program: String,
    /// Its arguments, the program's own name not among them.
    pub args: Vec<String>,
    /// The directory it starts in.
    pub current_dir: String,
    /// Its environment.
    pub envs: Vec<EnvVar>,
}

/// A command template as plain values.
pub ghost struct Template {
    pub program: Seq<char>,
    pub args: Seq<Seq<char>>,
    pub current_dir: Seq<char>,
    pub envs: Seq<(Seq<char>, Seq<char>)>,
}

impl View for CommandTemplate {
    type V = Template;

    open spec fn view(&self) -> Template {
        Template {
            program: self.program@,
            args: self.args.deep_view(),
            current_dir: self.current_dir@,
            envs: self.envs.deep_view(),
        }
    }
}

/// The view of an optional string.
pub open spec fn option_view(text: Option<String>) -> Option<Seq<char>> {
    match text {
        Some(text) => Some(text@),
        None => None,
    }
}

/// A sandboxed command as plain values.
pub ghost struct Sandbox {
    pub inner: Template,
    pub stdout: Option<i32>,
    pub stderr: Option<i32>,
    pub hostname: Option<Seq<char>>,
    pub cgroup: Option<Seq<char>>,
    pub mem_max: Option<u32>,
    pub namespaces: Namespaces,
    pub rw_paths: Seq<Seq<char>>,
}

impl Sandbox {
    /// The sandbox of a fresh command: the base namespaces and nothing else.
    pub open spec fn of(inner: Template) -> Sandbox {
        Sandbox {
            inner,
            stdout: None,
            stderr: None,
            hostname: None,
            cgroup: None,
            mem_max: None,
            namespaces: Namespaces::spec_base(),
            rw_paths: Seq::empty(),
        }
    }

    /// The base namespaces are always there; a host name comes with a host
    /// name namespace, a control group with a control group namespace.
    pub open spec fn wf(self) -> bool {
        &&& self.namespaces.includes(Namespaces::spec_base())
        &&& self.hostname is Some ==> self.namespaces.uts
        &&& self.cgroup is Some ==> self.namespaces.cgroup
    }
}

/// A command and the sandbox it is to run in.
#[derive(Clone, Debug, PartialEq, Eq)]
pub struct Command {
    inner: CommandTemplate,
    stdout: Option<i32>,
    stderr: Option<i32>,
    hostname: Option<String>,
    cgroup: Option<String>,
    mem_max: Option<u32>,
    namespaces: Namespaces,
    rw_paths: Vec<String>,
}

impl View for Command {
    type V = Sandbox;

    closed spec fn view(&self) -> Sandbox {
        Sandbox {
            inner: self.inner@,
            stdout: self.stdout,
            stderr: self.stderr,
            hostname: option_view(self.hostname),
            cgroup: option_view(self.cgroup),
            mem_max: self.mem_max,
            namespaces: self.namespaces,
            rw_paths: self.rw_paths.deep_view(),
        }
    }
}

impl Command {
    /// A command from its template, in a sandbox with the base namespaces, no
    /// host name, no control group, no memory limit and nothing writable.
    pub fn from(source: CommandTemplate) -> (command: Command)
        ensures
            command@ == Sandbox::of(source@),
            command@.wf(),
    {
        let command = Command {
            inner: source,
            stdout: None,
            stderr: None,
            hostname: None,
            cgroup: None,
            mem_max: None,
            namespaces: Namespaces::base(),
            rw_paths: Vec::new(),
        };
        assert(command@.rw_paths =~= Seq::empty());
        command
    }

    /// Sends the command's standard output to this open descriptor.
    pub fn stdout(&mut self, fd: i32) -> (this: &mut Command)
        ensures
            this@ == (Sandbox { stdout: Some(fd), ..old(self)@ }),
            old(self)@.wf() ==> this@.wf(),
            *final(self) == *final(this),
    {
        self.stdout = Some(fd);
        self
    }

    /// Sends the command's standard error to this open descriptor.
    pub fn stderr(&mut self, fd: i32) -> (this: &mut Command)
        ensures
            this@ == (Sandbox { stderr: Some(fd), ..old(self)@ }),
            old(self)@.wf() ==> this@.wf(),
            *final(self) == *final(this),
    {
        self.stderr = Some(fd);
        self
    }

    /// Places the sandbox in the control group of this name, inside a
    /// control group namespace of its own.
    pub fn cgroup(&mut self, cg: &str) -> (this: &mut Command)
        ensures
            this@ == (Sandbox {
                cgroup: Some(cg@),
                namespaces: Namespaces { cgroup: true, ..old(self)@.namespaces },
                ..old(self)@
            }),
            old(self)@.wf() ==> this@.wf(),
            *final(self) == *final(this),
    {
        self.cgroup = Some(String::from_str(cg));
        self.namespaces.cgroup = true;
        self
    }

    /// Limits the memory of the sandbox to this many bytes.
    pub fn memory_max(&mut self, m: u32) -> (this: &mut Command)
        ensures
            this@ == (Sandbox { mem_max: Some(m), ..old(self)@ }),
            old(self)@.wf() ==> this@.wf(),
            *final(self) == *final(this),
    {
        self.mem_max = Some(m);
        self
    }

    /// Gives the sandbox this host name, inside a host name namespace of its
    /// own.
    pub fn hostname(&mut self, hostname: &str) -> (this: &mut Command)
        ensures
            this@ == (Sandbox {
                hostname: Some(hostname@),
                namespaces: Namespaces { uts: true, ..old(self)@.namespaces },
                ..old(self)@
            }),
            old(self)@.wf() ==> this@.wf(),
            *final(self) == *final(this),
    {
        self.hostname = Some(String::from_str(hostname));
        self.namespaces.uts = true;
        self
    }

    /// Keeps one more path writable inside the sandbox.
    pub fn rw_path(&mut self, path: &str) -> (this: &mut Command)
        ensures
            this@ == (Sandbox { rw_paths: old(self)@.rw_paths.push(path@), ..old(self)@ }),
            old(self)@.wf() ==> this@.wf(),
            *final(self) == *final(this),
    {
        self.rw_paths.push(String::from_str(path));
        assert(self.rw_paths.deep_view() =~= old(self).rw_paths.deep_view().push(path@));
        self
    }

    /// Keeps these paths writable too, in their order.
    pub fn rw_paths(&mut self, paths: &[String]) -> (this: &mut Command)
        ensures
            this@ == (Sandbox {
                rw_paths: old(self)@.rw_paths + paths.deep_view(),
                ..old(self)@
            }),
            old(self)@.wf() ==> this@.wf(),
            *final(self) == *final(this),
    {
        let mut i: usize = 0;
        while i < paths.len()
            invariant
                i <= paths.len(),
                self@ == (Sandbox {
                    rw_paths: old(self)@.rw_paths + paths.deep_view().take(i as int),
                    ..old(self)@
                }),
            decreases paths.len() - i,
        {
            let ghost before = self.rw_paths.deep_view();
            self.rw_paths.push(paths[i].clone());
            assert(self.rw_paths.deep_view() =~= before.push(paths[i as int]@));
            assert(paths.deep_view().take(i + 1) =~= paths.deep_view().take(i as int).push(
                paths[i as int]@,
            ));
            assert(self.rw_paths.deep_view() =~= old(self)@.rw_paths + paths.deep_view().take(
                i + 1,
            ));
            i = i + 1;
        }
        assert(paths.deep_view().take(paths.len() as int) =~= paths.deep_view());
        self
    }

    /// The program to run.
    pub fn template(&self) -> (template: &CommandTemplate)
        ensures
            template@ == self@.inner,
    {
        &self.inner
    }

    /// The namespaces of the sandbox.
    pub fn namespaces(&self) -> (namespaces: Namespaces)
        ensures
            namespaces == self@.namespaces,
    {
        self.namespaces
    }

    /// Descriptor for the command's standard output, if one was set.
    pub fn stdout_fd(&self) -> (fd: Option<i32>)
        ensures
            fd == self@.stdout,
    {
        self.stdout
    }

    /// Descriptor for the command's standard error, if one was set.
    pub fn stderr_fd(&self) -> (fd: Option<i32>)
        ensures
            fd == self@.stderr,
    {
        self.stderr
    }

    /// Name of the sandbox's control group, if it has one.
    pub fn cgroup_name(&self) -> (name: Option<&String>)
        ensures
            name is Some == self@.cgroup is Some,
            name is Some ==> Some(name.unwrap()@) == self@.cgroup,
    {
        self.cgroup.as_ref()
    }

    /// Host name of the sandbox, if it has one.
    pub fn host_name(&self) -> (name: Option<&String>)
        ensures
            name is Some == self@.hostname is Some,
            name is Some ==> Some(name.unwrap()@) == self@.hostname,
    {
        self.hostname.as_ref()
    }

    /// Memory limit of the sandbox, if it has one.
    pub fn memory_limit(&self) -> (limit: Option<u32>)
        ensures
            limit == self@.mem_max,
    {
        self.mem_max
    }

    /// The paths that stay writable in the sandbox.
    pub fn writable_paths(&self) -> (paths: &Vec<String>)
        ensures
            paths.deep_view() == self@.rw_paths,
    {
        &self.rw_paths
    }
}

} // verus!

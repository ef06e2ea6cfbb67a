use bb_runner::command::{
    Command, CommandTemplate, EnvVar, Namespaces, CLONE_NEWCGROUP, CLONE_NEWIPC, CLONE_NEWNET,
    CLONE_NEWNS, CLONE_NEWPID, CLONE_NEWUSER, CLONE_NEWUTS,
};
use nix::sched::CloneFlags;

fn template() -> CommandTemplate {
    CommandTemplate {
        program: String::from("/bin/sh"),
        args: vec![String::from("-c"), String::from("echo hi")],
        current_dir: String::from("/build/ird"),
        envs: vec![EnvVar { name: String::from("PATH"), value: String::from("/bin") }],
    }
}

#[test]
fn namespace_bits_are_those_of_the_kernel() {
    assert_eq!(CLONE_NEWNS, CloneFlags::CLONE_NEWNS.bits());
    assert_eq!(CLONE_NEWCGROUP, CloneFlags::CLONE_NEWCGROUP.bits());
    assert_eq!(CLONE_NEWUTS, CloneFlags::CLONE_NEWUTS.bits());
    assert_eq!(CLONE_NEWIPC, CloneFlags::CLONE_NEWIPC.bits());
    assert_eq!(CLONE_NEWUSER, CloneFlags::CLONE_NEWUSER.bits());
    assert_eq!(CLONE_NEWPID, CloneFlags::CLONE_NEWPID.bits());
    assert_eq!(CLONE_NEWNET, CloneFlags::CLONE_NEWNET.bits());
}

#[test]
fn base_namespaces_are_the_five_of_every_sandbox() {
    let base = Namespaces::base();
    assert_eq!(
        base,
        Namespaces {
            pid: true,
            ipc: true,
            net: true,
            mnt: true,
            user: true,
            uts: false,
            cgroup: false,
        }
    );
    let expected = CloneFlags::CLONE_NEWPID
        | CloneFlags::CLONE_NEWIPC
        | CloneFlags::CLONE_NEWNET
        | CloneFlags::CLONE_NEWNS
        | CloneFlags::CLONE_NEWUSER;
    assert_eq!(base.bits(), expected.bits());
    assert_eq!(base.bits(), 0x7802_0000);
    let all = Namespaces { uts: true, cgroup: true, ..base };
    assert_eq!(
        all.bits(),
        (expected | CloneFlags::CLONE_NEWUTS | CloneFlags::CLONE_NEWCGROUP).bits()
    );
    let none = Namespaces {
        pid: false,
        ipc: false,
        net: false,
        mnt: false,
        user: false,
        uts: false,
        cgroup: false,
    };
    assert_eq!(none.bits(), 0);
}

#[test]
fn fresh_command_has_the_defaults() {
    let command = Command::from(template());
    assert_eq!(command.template(), &template());
    assert_eq!(command.namespaces(), Namespaces::base());
    assert_eq!(command.stdout_fd(), None);
    assert_eq!(command.stderr_fd(), None);
    assert_eq!(command.host_name(), None);
    assert_eq!(command.cgroup_name(), None);
    assert_eq!(command.memory_limit(), None);
    assert!(command.writable_paths().is_empty());
}

#[test]
fn hostname_brings_its_namespace() {
    let mut command = Command::from(template());
    command.hostname("localhost");
    assert_eq!(command.host_name(), Some(&String::from("localhost")));
    assert_eq!(command.namespaces(), Namespaces { uts: true, ..Namespaces::base() });
    assert_eq!(command.cgroup_name(), None);
}

#[test]
fn cgroup_brings_its_namespace() {
    let mut command = Command::from(template());
    command.cgroup("3");
    assert_eq!(command.cgroup_name(), Some(&String::from("3")));
    assert_eq!(command.namespaces(), Namespaces { cgroup: true, ..Namespaces::base() });
    assert_eq!(command.host_name(), None);
    assert_eq!(command.memory_limit(), None);
}

#[test]
fn output_and_memory_settings_are_kept() {
    let mut command = Command::from(template());
    command.stdout(10);
    command.stderr(11);
    command.memory_max(1 << 20);
    assert_eq!(command.stdout_fd(), Some(10));
    assert_eq!(command.stderr_fd(), Some(11));
    assert_eq!(command.memory_limit(), Some(1 << 20));
    assert_eq!(command.namespaces(), Namespaces::base());
    command.stdout(12);
    assert_eq!(command.stdout_fd(), Some(12));
}

#[test]
fn writable_paths_are_collected_in_order() {
    let mut command = Command::from(template());
    command.rw_paths(&[String::from("/a"), String::from("/b")]);
    command.rw_path("/c");
    command.rw_paths(&[]);
    command.rw_paths(&[String::from("/a")]);
    assert_eq!(
        command.writable_paths(),
        &vec![String::from("/a"), String::from("/b"), String::from("/c"), String::from("/a")]
    );
}

#[test]
fn settings_can_be_chained() {
    let mut command = Command::from(template());
    command.hostname("box").cgroup("1").memory_max(4096).rw_path("/x").stdout(3).stderr(4);
    assert_eq!(command.host_name(), Some(&String::from("box")));
    assert_eq!(command.cgroup_name(), Some(&String::from("1")));
    assert_eq!(command.memory_limit(), Some(4096));
    assert_eq!(command.writable_paths(), &vec![String::from("/x")]);
    assert_eq!(command.stdout_fd(), Some(3));
    assert_eq!(command.stderr_fd(), Some(4));
    assert_eq!(
        command.namespaces(),
        Namespaces { uts: true, cgroup: true, ..Namespaces::base() }
    );
}

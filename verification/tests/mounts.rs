use bb_runner::mounts::{
    hasmntopt, MntEntOpener, MntEntWrapper, MountFlags, MountLine, MS_BIND, MS_NOATIME,
    MS_NODEV, MS_NODIRATIME, MS_NOEXEC, MS_NOSUID, MS_PRIVATE, MS_RDONLY, MS_REC, MS_RELATIME,
    MS_REMOUNT,
};
use nix::mount::MsFlags;

fn line(opts: &str) -> MountLine {
    MountLine {
        fsname: String::from("tmpfs"),
        dir: String::from("/run"),
        fstype: String::from("tmpfs"),
        opts: String::from(opts),
    }
}

#[test]
fn flag_bits_are_those_of_the_kernel() {
    assert_eq!(MS_RDONLY, MsFlags::MS_RDONLY.bits() as u64);
    assert_eq!(MS_NOSUID, MsFlags::MS_NOSUID.bits() as u64);
    assert_eq!(MS_NODEV, MsFlags::MS_NODEV.bits() as u64);
    assert_eq!(MS_NOEXEC, MsFlags::MS_NOEXEC.bits() as u64);
    assert_eq!(MS_REMOUNT, MsFlags::MS_REMOUNT.bits() as u64);
    assert_eq!(MS_NOATIME, MsFlags::MS_NOATIME.bits() as u64);
    assert_eq!(MS_NODIRATIME, MsFlags::MS_NODIRATIME.bits() as u64);
    assert_eq!(MS_BIND, MsFlags::MS_BIND.bits() as u64);
    assert_eq!(MS_REC, MsFlags::MS_REC.bits() as u64);
    assert_eq!(MS_PRIVATE, MsFlags::MS_PRIVATE.bits() as u64);
    assert_eq!(MS_RELATIME, MsFlags::MS_RELATIME.bits() as u64);
}

#[test]
fn bits_sum_the_flags_that_are_set() {
    assert_eq!(MountFlags::empty().bits(), 0);
    let remount = MountFlags { remount: true, bind: true, rdonly: true, ..MountFlags::empty() };
    assert_eq!(
        remount.bits(),
        (MsFlags::MS_REMOUNT | MsFlags::MS_BIND | MsFlags::MS_RDONLY).bits() as u64
    );
    let proc = MountFlags { nosuid: true, noexec: true, nodev: true, ..MountFlags::empty() };
    assert_eq!(proc.bits(), 14);
    let private = MountFlags { rec: true, private: true, ..MountFlags::empty() };
    assert_eq!(private.bits(), (MsFlags::MS_REC | MsFlags::MS_PRIVATE).bits() as u64);
    let all = MountFlags {
        rdonly: true,
        nosuid: true,
        nodev: true,
        noexec: true,
        remount: true,
        noatime: true,
        nodiratime: true,
        bind: true,
        rec: true,
        private: true,
        relatime: true,
    };
    assert_eq!(all.bits(), 0x1 + 0x2 + 0x4 + 0x8 + 0x20 + 0x400 + 0x800 + 0x1000 + 0x4000
        + 0x40000 + 0x200000);
}

#[test]
fn union_sets_what_either_sets() {
    let a = MountFlags { nosuid: true, relatime: true, ..MountFlags::empty() };
    let b = MountFlags { nosuid: true, rdonly: true, ..MountFlags::empty() };
    assert_eq!(
        a.union(b),
        MountFlags { nosuid: true, relatime: true, rdonly: true, ..MountFlags::empty() }
    );
    assert_eq!(a.union(MountFlags::empty()), a);
}

#[test]
fn an_option_is_found_as_a_whole_word() {
    assert!(hasmntopt("rw,nosuid,nodev", "nosuid"));
    assert!(hasmntopt("nosuid", "nosuid"));
    assert!(hasmntopt("rw,nodev", "nodev"));
    assert!(hasmntopt("size=1k,mode=755", "size"));
    assert!(hasmntopt("rw,size=1k", "size"));
    assert!(!hasmntopt("rw,nosuidx", "nosuid"));
    assert!(!hasmntopt("rw,xnosuid", "nosuid"));
    assert!(!hasmntopt("rw,nodiratime", "noatime"));
    assert!(!hasmntopt("rw,nodiratime", "atime"));
    assert!(!hasmntopt("", "nosuid"));
    assert!(!hasmntopt("no", "nosuid"));
    assert!(hasmntopt("xnosuid,nosuid", "nosuid"));
}

#[test]
fn an_entry_gets_the_flags_of_its_options() {
    let entry = MntEntWrapper::from(line("rw,nosuid,nodev,noexec,relatime,size=1024k"));
    assert_eq!(entry.mnt_fsname, "tmpfs");
    assert_eq!(entry.mnt_dir, "/run");
    assert_eq!(entry.mnt_type, "tmpfs");
    assert_eq!(entry.mnt_opts, "rw,nosuid,nodev,noexec,relatime,size=1024k");
    assert_eq!(
        entry.mnt_flags,
        MountFlags {
            nosuid: true,
            nodev: true,
            noexec: true,
            relatime: true,
            ..MountFlags::empty()
        }
    );
    let times = MntEntWrapper::from(line("ro,noatime,nodiratime"));
    assert_eq!(
        times.mnt_flags,
        MountFlags { noatime: true, nodiratime: true, ..MountFlags::empty() }
    );
}

#[test]
fn unknown_options_give_no_flag() {
    assert_eq!(MntEntWrapper::from(line("rw,seclabel,discard")).mnt_flags, MountFlags::empty());
    assert_eq!(MntEntWrapper::from(line("ro")).mnt_flags, MountFlags::empty());
    assert_eq!(MntEntWrapper::from(line("")).mnt_flags, MountFlags::empty());
}

#[test]
fn the_table_is_listed_in_its_order() {
    let table = "sysfs /sys sysfs rw,nosuid,nodev,noexec,relatime 0 0\n\
                 proc /proc proc rw,nosuid,nodev,noexec,relatime 0 0\n\
                 /dev/sda1 / ext4 rw,relatime,errors=remount-ro 0 0\n\
                 tmpfs /tmp tmpfs rw,nosuid,nodev,noatime 0 0\n";
    let entries = MntEntOpener::new(table).list_all();
    let dirs: Vec<&str> = entries.iter().map(|e| e.mnt_dir.as_str()).collect();
    assert_eq!(dirs, vec!["/sys", "/proc", "/", "/tmp"]);
    assert_eq!(entries[2].mnt_fsname, "/dev/sda1");
    assert_eq!(entries[2].mnt_type, "ext4");
    assert_eq!(entries[2].mnt_opts, "rw,relatime,errors=remount-ro");
    assert_eq!(entries[2].mnt_flags, MountFlags { relatime: true, ..MountFlags::empty() });
    assert_eq!(
        entries[3].mnt_flags,
        MountFlags { nosuid: true, nodev: true, noatime: true, ..MountFlags::empty() }
    );
}

#[test]
fn escapes_in_fields_are_resolved() {
    let table = "/dev/sdb1 /mnt/my\\040disk vfat rw 0 0\n\
                 none /a\\011b\\012c\\134d\\\\e tmpfs rw 0 0";
    let entries = MntEntOpener::new(table).list_all();
    assert_eq!(entries.len(), 2);
    assert_eq!(entries[0].mnt_dir, "/mnt/my disk");
    assert_eq!(entries[1].mnt_dir, "/a\tb\nc\\d\\e");
}

#[test]
fn an_unfinished_escape_is_kept_as_it_is() {
    let entries = MntEntOpener::new("none /a\\04 tmpfs rw\nnone /b\\ tmpfs rw").list_all();
    assert_eq!(entries[0].mnt_dir, "/a\\04");
    assert_eq!(entries[1].mnt_dir, "/b\\");
}

#[test]
fn comments_and_empty_lines_describe_no_mount() {
    let table = "# a comment\n\n   \t\n  # another\nproc /proc proc rw 0 0\n\n";
    let entries = MntEntOpener::new(table).list_all();
    assert_eq!(entries.len(), 1);
    assert_eq!(entries[0].mnt_dir, "/proc");
    assert!(MntEntOpener::new("").list_all().is_empty());
    assert!(MntEntOpener::new("\n\n").list_all().is_empty());
}

#[test]
fn blanks_between_fields_and_missing_fields_are_allowed() {
    let entries = MntEntOpener::new("  tmpfs \t /run\ttmpfs   rw,nodev\nshort /mnt").list_all();
    assert_eq!(
        entries[0],
        MntEntWrapper {
            mnt_fsname: String::from("tmpfs"),
            mnt_dir: String::from("/run"),
            mnt_type: String::from("tmpfs"),
            mnt_opts: String::from("rw,nodev"),
            mnt_flags: MountFlags { nodev: true, ..MountFlags::empty() },
        }
    );
    assert_eq!(
        entries[1],
        MntEntWrapper {
            mnt_fsname: String::from("short"),
            mnt_dir: String::from("/mnt"),
            mnt_type: String::new(),
            mnt_opts: String::new(),
            mnt_flags: MountFlags::empty(),
        }
    );
}

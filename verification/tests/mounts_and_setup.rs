use aybara::cstring::NulError;
use aybara::mount::{
    AtPath, BindMountBuilder, FilesystemBuilder, FilesystemConfigBuilder, FsMountArgs, MountAttr,
    MountAttrBuilder, MountFd, MountPropagation, UmountBuilder,
};
use aybara::netlink::{link_name_arg, NetlinkError, NetlinkRouteLink};
use aybara::identity::{id_map_contents, remap_to_root_user, ProcFile};
use aybara::rootfs::{
    bind_device, create_bind_mount_root, place_root, create_cgroupfs, create_devpts, create_procfs,
    create_sysfs, create_tmpfs, root_container_chroot, root_fs_mounts, FsKind, RootFsStep,
};
use aybara::container::{
    root_container_fn, root_shell, set_lo_interface_up, SetupStage, ROOT_IMAGE_PATH,
};
use aybara::syscalls::{GroupId, UserId};

#[test]
fn at_path_current_dir_names_itself() {
    let a = AtPath::CurrentDir.as_syscall_args().unwrap();
    assert_eq!(a.fd_arg, -100);
    assert_eq!(a.path_arg.as_bytes_with_nul(), b"\0");
    assert_eq!(a.flags_arg, 0x1000);
}

#[test]
fn at_path_exact_fd_names_itself() {
    let a = AtPath::ExactFd(7).as_syscall_args().unwrap();
    assert_eq!(a.fd_arg, 7);
    assert_eq!(a.path_arg.as_bytes_with_nul(), b"\0");
    assert_eq!(a.flags_arg, 0x1000);
}

#[test]
fn at_path_with_paths() {
    let a = AtPath::RelativeToFd(9, "dev/pts").as_syscall_args().unwrap();
    assert_eq!((a.fd_arg, a.flags_arg), (9, 0));
    assert_eq!(a.path_arg.as_bytes_with_nul(), b"dev/pts\0");
    let b = AtPath::RelativeToCurrentDir("x").as_syscall_args().unwrap();
    assert_eq!((b.fd_arg, b.flags_arg), (-100, 0));
    let c = AtPath::Absolute("/tmp").as_syscall_args().unwrap();
    assert_eq!((c.fd_arg, c.flags_arg), (-1, 0));
    assert_eq!(c.path_arg.as_bytes_with_nul(), b"/tmp\0");
    assert_eq!(AtPath::Absolute("/t\0").as_syscall_args().err().map(|e| e.position), Some(2));
}

#[test]
fn mount_attr_propagation() {
    let a = MountAttrBuilder::new().propagation(MountPropagation::Slave).build();
    assert_eq!(a, MountAttr { attr_set: 0, attr_clr: 0, propagation: 0x80000, userns_fd: 0 });
    assert_eq!(MountPropagation::NoBind.value(), 0x20000);
    assert_eq!(MountPropagation::Private.value(), 0x40000);
    assert_eq!(MountPropagation::Shared.value(), 0x100000);
}

#[test]
fn bind_mount_open_adds_path_flags() {
    let o = BindMountBuilder::new().open(&AtPath::ExactFd(4)).unwrap();
    assert_eq!(o.flags, 1 | 0x1000);
    assert_eq!(o.dirfd, 4);
    assert!(o.attr.is_none());
    let r = BindMountBuilder::new().recursive().cloexec().open(&AtPath::Absolute("/img")).unwrap();
    assert_eq!(r.flags, 1 | 0x8000 | 0o2000000);
}

#[test]
fn bind_mount_root_of_image() {
    let r = create_bind_mount_root(ROOT_IMAGE_PATH).unwrap();
    assert_eq!(r.dirfd, -1);
    assert_eq!(r.path.as_bytes_with_nul(), b"/var/tmp/container-image\0");
    assert_eq!(r.flags, 0x8000 | 0x8000 | 0o2000000 | 1);
    assert_eq!(r.attr, Some(MountAttr { attr_set: 0, attr_clr: 0, propagation: 0x80000, userns_fd: 0 }));
    assert_eq!(create_bind_mount_root("a\0").err(), Some(NulError { position: 1 }));
}

#[test]
fn bind_device_clones_one_mount() {
    let d = bind_device("/dev/null").unwrap();
    assert_eq!(d.flags, 1 | 0o2000000);
    assert_eq!(d.path.as_bytes_with_nul(), b"/dev/null\0");
    assert!(d.attr.is_none());
}

#[test]
fn filesystem_builders() {
    let f = FilesystemBuilder::new().cloexec().build_config("proc").unwrap();
    assert_eq!(f.flags, 1);
    assert_eq!(f.fstype.as_bytes_with_nul(), b"proc\0");
    assert_eq!(FilesystemBuilder::new().build_config("pr\0c").err(), Some(NulError { position: 2 }));
    let c = FilesystemConfigBuilder::new().cloexec().nodev().nosuid().noexec();
    assert_eq!(c.build(), FsMountArgs { flags: 1, attr_flags: 2 | 4 | 8 });
    let o = c.set_string("mode", "755").unwrap();
    assert_eq!(o.key.as_bytes_with_nul(), b"mode\0");
    assert_eq!(o.value.as_bytes_with_nul(), b"755\0");
    assert_eq!(c.set_string("k\0", "\0").err(), Some(NulError { position: 1 }));
    assert_eq!(c.set_string("k", "v\0").err(), Some(NulError { position: 1 }));
}

#[test]
fn mount_at_target_flags() {
    let m = MountFd(5);
    let a = m.mount_at(&m.relpath("proc")).unwrap();
    assert_eq!((a.from_dirfd, a.to_dirfd, a.flags), (5, 5, 4));
    assert_eq!(a.from_path.as_bytes_with_nul(), b"\0");
    assert_eq!(a.to_path.as_bytes_with_nul(), b"proc\0");
    let b = m.mount_at(&MountFd(8).as_atpath()).unwrap();
    assert_eq!((b.to_dirfd, b.flags), (8, 4 | 0x40));
    let c = m.mount_at(&AtPath::CurrentDir).unwrap();
    assert_eq!((c.to_dirfd, c.flags), (-100, 4 | 0x40));
}

#[test]
fn umount_detach() {
    let u = UmountBuilder::new().detach().exec("/").unwrap();
    assert_eq!(u.flags, 2);
    assert_eq!(u.target.as_bytes_with_nul(), b"/\0");
    assert_eq!(UmountBuilder::new().exec("/").unwrap().flags, 0);
}

#[test]
fn netlink_results() {
    assert_eq!(NetlinkError::check_result(0), Ok(()));
    assert_eq!(NetlinkError::check_result(12), Ok(()));
    assert_eq!(NetlinkError::check_result(-7), Err(NetlinkError(7)));
    assert_eq!(link_name_arg("lo").unwrap().as_bytes_with_nul(), b"lo\0");
    assert_eq!(link_name_arg("l\0").err(), Some(NetlinkError(7)));
}

#[test]
fn netlink_link_flags() {
    let mut l = NetlinkRouteLink::new();
    assert_eq!(l.flags(), 0);
    l.set_flags(0x40);
    l.set_iff_up();
    assert_eq!(l.flags(), 0x41);
    let r = set_lo_interface_up();
    assert_eq!((r.protocol, r.addr_family, r.change_flags), (0, 0, 0));
    assert_eq!(r.if_name, "lo");
    assert_eq!(r.change.flags(), 1);
}

#[test]
fn id_maps() {
    assert_eq!(id_map_contents(1000), b"0 1000 1".to_vec());
    assert_eq!(id_map_contents(0), b"0 0 1".to_vec());
    assert_eq!(id_map_contents(u32::MAX), b"0 4294967295 1".to_vec());
    let w = remap_to_root_user(UserId(1234), GroupId(56));
    assert_eq!(w.len(), 3);
    assert_eq!(w[0].file.path(), "/proc/self/uid_map");
    assert_eq!(w[0].contents, b"0 1234 1".to_vec());
    assert_eq!(w[1].file, ProcFile::SetGroups);
    assert_eq!(w[1].file.path(), "/proc/self/setgroups");
    assert_eq!(w[1].contents, b"deny".to_vec());
    assert_eq!(w[2].file.path(), "/proc/self/gid_map");
    assert_eq!(w[2].contents, b"0 56 1".to_vec());
}

#[test]
fn fresh_filesystems_are_hardened() {
    let p = create_procfs();
    assert_eq!(p.kind.fstype(), "proc");
    assert_eq!(p.config.build(), FsMountArgs { flags: 1, attr_flags: 2 | 4 | 8 });
    assert_eq!(p.open.build_config("proc").unwrap().flags, 1);
    assert!(p.option.is_none());
    assert_eq!(create_sysfs().kind.fstype(), "sysfs");
    assert_eq!(create_cgroupfs().kind.fstype(), "cgroup2");
    let d = create_devpts();
    assert_eq!(d.kind, FsKind::Devpts);
    assert_eq!(d.config.build(), FsMountArgs { flags: 1, attr_flags: 2 | 8 });
    assert_eq!(d.option, Some(("ptmxmode", "0666")));
    let t = create_tmpfs(Some("755"));
    assert_eq!(t.kind.fstype(), "tmpfs");
    assert_eq!(t.config.build(), FsMountArgs { flags: 1, attr_flags: 2 | 4 });
    assert_eq!(t.option, Some(("mode", "755")));
    assert!(create_tmpfs(None).option.is_none());
}

#[test]
fn root_filesystem_plan() {
    let plan = root_fs_mounts();
    let described: Vec<String> = plan
        .iter()
        .map(|s| match s {
            RootFsStep::Mount(fs, t) => format!("{} {}", fs.kind.fstype(), t),
            RootFsStep::BindDevice(s, t) => format!("bind {} {}", s, t),
        })
        .collect();
    assert_eq!(described, vec![
        "proc proc", "sysfs sys", "devpts dev/pts", "cgroup2 sys/fs/cgroup",
        "bind /dev/full dev/full", "bind /dev/null dev/null", "bind /dev/random dev/random",
        "bind /dev/tty dev/tty", "bind /dev/urandom dev/urandom", "bind /dev/zero dev/zero",
        "tmpfs dev/shm", "tmpfs run", "tmpfs tmp",
    ]);
}

#[test]
fn chroot_into_image() {
    let c = root_container_chroot(ROOT_IMAGE_PATH).unwrap();
    assert_eq!(c.new_root.as_bytes_with_nul(), b"/var/tmp/container-image\0");
    assert_eq!(c.put_old.as_bytes_with_nul(), b"/var/tmp/container-image\0");
    assert_eq!(c.workdir.as_bytes_with_nul(), b"/\0");
    assert_eq!(c.umount.target.as_bytes_with_nul(), b"/\0");
    assert_eq!(c.umount.flags, 2);
    assert!(root_container_chroot("/x\0").is_err());
}

#[test]
fn root_shell_and_stages() {
    let s = root_shell();
    assert_eq!(s.path.as_bytes_with_nul(), b"/bin/bash\0");
    assert_eq!(s.argv.len(), 1);
    assert_eq!(s.argv[0].as_bytes_with_nul(), b"-bash\0");
    assert_eq!(s.envp.len(), 2);
    assert_eq!(s.envp[0].as_bytes_with_nul(), b"PATH=/usr/local/bin:/usr/bin\0");
    assert_eq!(s.envp[1].as_bytes_with_nul(), b"USER=root\0");
    assert_eq!(root_container_fn(), vec![
        SetupStage::RemapToRoot, SetupStage::LoopbackUp, SetupStage::RootFs,
        SetupStage::ChangeRoot, SetupStage::ExecShell,
    ]);
}

#[test]
fn id_map_reads_back() {
    for n in [0u32, 7, 10, 99, 100, 65534, 1_000_000, u32::MAX] {
        let line = String::from_utf8(id_map_contents(n)).unwrap();
        let fields: Vec<&str> = line.split(' ').collect();
        assert_eq!(fields.len(), 3);
        assert_eq!(fields[0], "0");
        assert_eq!(fields[1].parse::<u32>().unwrap(), n);
        assert_eq!(fields[1], n.to_string());
        assert_eq!(fields[2], "1");
    }
}

#[test]
fn mount_flag_requests_commute() {
    let a = FilesystemConfigBuilder::new().nodev().noexec().cloexec().build();
    let b = FilesystemConfigBuilder::new().noexec().cloexec().nodev().nodev().build();
    assert_eq!(a, b);
    let c = BindMountBuilder::new().cloexec().recursive().open(&AtPath::CurrentDir).unwrap();
    let d = BindMountBuilder::new().recursive().cloexec().cloexec().open(&AtPath::CurrentDir).unwrap();
    assert_eq!(c.flags, d.flags);
    assert_eq!(c.flags & 1, 1);
}

#[test]
fn root_plan_targets_are_relative() {
    for step in root_fs_mounts() {
        let t = match step {
            RootFsStep::Mount(_, t) => t,
            RootFsStep::BindDevice(_, t) => t,
        };
        assert!(!t.is_empty() && !t.starts_with('/'));
    }
}

#[test]
fn root_clone_goes_over_image() {
    let a = place_root(MountFd(6), ROOT_IMAGE_PATH).unwrap();
    assert_eq!((a.from_dirfd, a.to_dirfd, a.flags), (6, -1, 4));
    assert_eq!(a.from_path.as_bytes_with_nul(), b"\0");
    assert_eq!(a.to_path.as_bytes_with_nul(), b"/var/tmp/container-image\0");
    assert_eq!(place_root(MountFd(6), "/i\0").err(), Some(NulError { position: 2 }));
}

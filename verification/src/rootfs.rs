//! The root filesystem of the container: the clone of its image, the
//! filesystems and devices mounted below it, and the change of root.
use vstd::prelude::*;
use vstd::string::StringSliceAdditionalSpecFns;
use crate::cstring::{CBytes, NulError, nul_free, is_first_nul, lemma_printable_ascii_bytes};
use crate::mount::{
    AtPath, BindMountBuilder, FilesystemBuilder, FilesystemConfigBuilder, FsMountArgs,
    MountAttrBuilder, MountFd, MountPropagation, MoveMountArgs, OpenTreeArgs, UmountArgs,
    UmountBuilder,
};
use crate::consts::{
    AT_RECURSIVE, OPEN_TREE_CLONE, OPEN_TREE_CLOEXEC, FSOPEN_CLOEXEC, FSMOUNT_CLOEXEC,
    MOUNT_ATTR_NODEV, MOUNT_ATTR_NOSUID, MOUNT_ATTR_NOEXEC, MNT_DETACH, MS_SLAVE,
    MOVE_MOUNT_F_EMPTY_PATH,
};

verus! {
/// A kind of filesystem that the container's root gets a fresh instance of.
#[derive(Debug, Clone, Copy, PartialEq, Eq, Structural)]
pub enum FsKind {
    Proc,
    Sysfs,
    Devpts,
    Cgroup2,
    Tmpfs,
}

impl FsKind {
    /// The kernel's name of the filesystem type.
    pub open spec fn spec_fstype(self) -> &'static str {
        match self {
            FsKind::Proc => "proc",
            FsKind::Sysfs => "sysfs",
            FsKind::Devpts => "devpts",
            FsKind::Cgroup2 => "cgroup2",
            FsKind::Tmpfs => "tmpfs",
        }
    }

    /// The kernel's name of the filesystem type.
    pub fn fstype(self) -> (res: &'static str)
        ensures
            res@ == self.spec_fstype()@,
    {
        match self {
            FsKind::Proc => "proc",
            FsKind::Sysfs => "sysfs",
            FsKind::Devpts => "devpts",
            FsKind::Cgroup2 => "cgroup2",
            FsKind::Tmpfs => "tmpfs",
        }
    }

    /// The flags of the `fsmount` call for this kind: always close-on-exec and
    /// `nosuid`; `nodev` for all but `devpts`, which exists to hold devices;
    /// `noexec` for all but `tmpfs`, which holds programs built in the container.
    pub open spec fn spec_mount_args(self) -> FsMountArgs {
        match self {
            FsKind::Devpts => FsMountArgs {
                flags: 0 | FSMOUNT_CLOEXEC,
                attr_flags: (0 | MOUNT_ATTR_NOSUID) | MOUNT_ATTR_NOEXEC,
            },
            FsKind::Tmpfs => FsMountArgs {
                flags: 0 | FSMOUNT_CLOEXEC,
                attr_flags: (0 | MOUNT_ATTR_NODEV) | MOUNT_ATTR_NOSUID,
            },
            _ => FsMountArgs {
                flags: 0 | FSMOUNT_CLOEXEC,
                attr_flags: ((0 | MOUNT_ATTR_NODEV) | MOUNT_ATTR_NOSUID) | MOUNT_ATTR_NOEXEC,
            },
        }
    }
}

/// Each kind of filesystem is opened under the kernel's name for it.
pub proof fn lemma_fstype_names()
    ensures
        FsKind::Proc.spec_fstype()@ == "proc"@,
        FsKind::Sysfs.spec_fstype()@ == "sysfs"@,
        FsKind::Devpts.spec_fstype()@ == "devpts"@,
        FsKind::Cgroup2.spec_fstype()@ == "cgroup2"@,
        FsKind::Tmpfs.spec_fstype()@ == "tmpfs"@,
{
}

/// A fresh filesystem: how to open its configuration, the string option to
/// set on it (if any), and how to mount it.
pub struct NewFilesystem<'a> {
    pub kind: FsKind,
    pub open: FilesystemBuilder,
    pub option: Option<(&'a str, &'a str)>,
    pub config: FilesystemConfigBuilder,
}

/// `fs` is a fresh filesystem of kind `kind`, opened close-on-exec and
/// mounted with the flags of its kind.
pub open spec fn is_fresh_fs(fs: NewFilesystem, kind: FsKind) -> bool {
    &&& fs.kind == kind
    &&& fs.open@ == 0 | FSOPEN_CLOEXEC
    &&& fs.config@ == kind.spec_mount_args()
}

/// The string option `o` sets `key` to `val`.
pub open spec fn option_is(o: Option<(&str, &str)>, key: &str, val: &str) -> bool {
    o matches Some((k, v)) && k@ == key@ && v@ == val@
}

/// The configuration builders of a fresh filesystem of kind `kind`.
fn fresh_fs<'a>(kind: FsKind, option: Option<(&'a str, &'a str)>) -> (res: NewFilesystem<'a>)
    ensures
        is_fresh_fs(res, kind),
        res.option == option,
{
    let open = FilesystemBuilder::new().cloexec();
    let config = match kind {
        FsKind::Devpts => FilesystemConfigBuilder::new().cloexec().nosuid().noexec(),
        FsKind::Tmpfs => FilesystemConfigBuilder::new().cloexec().nodev().nosuid(),
        _ => FilesystemConfigBuilder::new().cloexec().nodev().nosuid().noexec(),
    };
    NewFilesystem { kind, open, option, config }
}

/// A fresh `proc` filesystem.
pub fn create_procfs() -> (res: NewFilesystem<'static>)
    ensures
        is_fresh_fs(res, FsKind::Proc),
        res.option is None,
{
    fresh_fs(FsKind::Proc, None)
}

/// A fresh `sysfs` filesystem.
pub fn create_sysfs() -> (res: NewFilesystem<'static>)
    ensures
        is_fresh_fs(res, FsKind::Sysfs),
        res.option is None,
{
    fresh_fs(FsKind::Sysfs, None)
}

/// A fresh `devpts` filesystem whose `ptmx` anyone may open.
pub fn create_devpts() -> (res: NewFilesystem<'static>)
    ensures
        is_fresh_fs(res, FsKind::Devpts),
        option_is(res.option, "ptmxmode", "0666"),
{
    fresh_fs(FsKind::Devpts, Some(("ptmxmode", "0666")))
}

/// A fresh `cgroup2` filesystem.
pub fn create_cgroupfs() -> (res: NewFilesystem<'static>)
    ensures
        is_fresh_fs(res, FsKind::Cgroup2),
        res.option is None,
{
    fresh_fs(FsKind::Cgroup2, None)
}

/// A fresh `tmpfs`, with root directory mode `mode` when one is given.
pub fn create_tmpfs<'a>(mode: Option<&'a str>) -> (res: NewFilesystem<'a>)
    ensures
        is_fresh_fs(res, FsKind::Tmpfs),
        match mode {
            None => res.option is None,
            Some(m) => option_is(res.option, "mode", m),
        },
{
    match mode {
        None => fresh_fs(FsKind::Tmpfs, None),
        Some(m) => fresh_fs(FsKind::Tmpfs, Some(("mode", m))),
    }
}

/// Every filesystem the container's root gets is mounted close-on-exec and
/// `nosuid`; only `devpts` may hold usable devices, and only `tmpfs` may
/// hold programs that run.
pub proof fn lemma_fresh_fs_hardened(kind: FsKind)
    ensures
        kind.spec_mount_args().flags & FSMOUNT_CLOEXEC == FSMOUNT_CLOEXEC,
        kind.spec_mount_args().attr_flags & MOUNT_ATTR_NOSUID == MOUNT_ATTR_NOSUID,
        (kind.spec_mount_args().attr_flags & MOUNT_ATTR_NODEV == MOUNT_ATTR_NODEV)
            <==> kind != FsKind::Devpts,
        (kind.spec_mount_args().attr_flags & MOUNT_ATTR_NOEXEC == MOUNT_ATTR_NOEXEC)
            <==> kind != FsKind::Tmpfs,
{
    assert((0u32 | 1u32) & 1u32 == 1u32) by (bit_vector);
    assert(((0u32 | 2u32) | 8u32) & 2u32 == 2u32 && ((0u32 | 2u32) | 8u32) & 4u32 != 4u32
        && ((0u32 | 2u32) | 8u32) & 8u32 == 8u32) by (bit_vector);
    assert(((0u32 | 4u32) | 2u32) & 2u32 == 2u32 && ((0u32 | 4u32) | 2u32) & 4u32 == 4u32
        && ((0u32 | 4u32) | 2u32) & 8u32 != 8u32) by (bit_vector);
    assert((((0u32 | 4u32) | 2u32) | 8u32) & 2u32 == 2u32
        && (((0u32 | 4u32) | 2u32) | 8u32) & 4u32 == 4u32
        && (((0u32 | 4u32) | 2u32) | 8u32) & 8u32 == 8u32) by (bit_vector);
}

/// The `open_tree_attr` call that clones the whole mount tree at
/// `image_path`, close-on-exec, as a slave of its origin (mounts made on the
/// host still show inside, none made inside leak out).
pub fn create_bind_mount_root(image_path: &str) -> (res: Result<OpenTreeArgs, NulError>)
    ensures
        res is Ok <==> nul_free(image_path.spec_bytes()),
        res matches Ok(a) ==> {
            &&& a.dirfd == -1i32
            &&& a.path@ == image_path.spec_bytes()
            &&& a.flags == ((OPEN_TREE_CLONE | AT_RECURSIVE) | OPEN_TREE_CLOEXEC) | (0i32 as u32)
            &&& a.attr == Some(crate::mount::MountAttr {
                attr_set: 0,
                attr_clr: 0,
                propagation: MS_SLAVE,
                userns_fd: 0,
            })
        },
        res matches Err(e) ==> is_first_nul(image_path.spec_bytes(), e.position as int),
{
    BindMountBuilder::new()
        .recursive()
        .cloexec()
        .attr(MountAttrBuilder::new().propagation(MountPropagation::Slave).build())
        .open(&AtPath::Absolute(image_path))
}

/// The `open_tree_attr` call that clones the single mount of the host file
/// `source`, close-on-exec, for a bind mount.
pub fn bind_device(source: &str) -> (res: Result<OpenTreeArgs, NulError>)
    ensures
        res is Ok <==> nul_free(source.spec_bytes()),
        res matches Ok(a) ==> {
            &&& a.dirfd == -1i32
            &&& a.path@ == source.spec_bytes()
            &&& a.flags == (OPEN_TREE_CLONE | OPEN_TREE_CLOEXEC) | (0i32 as u32)
            &&& a.attr is None
        },
        res matches Err(e) ==> is_first_nul(source.spec_bytes(), e.position as int),
{
    BindMountBuilder::new().cloexec().open(&AtPath::Absolute(source))
}

/// One mount made below the container's new root.
pub enum RootFsStep<'a> {
    /// A fresh filesystem, mounted at this path below the new root.
    Mount(NewFilesystem<'a>, &'a str),
    /// The host file at the first path, bound (close-on-exec) at the second
    /// path below the new root.
    BindDevice(&'a str, &'a str),
}

/// The option `o` is `expected`.
pub open spec fn option_matches(o: Option<(&str, &str)>, expected: Option<(&str, &str)>) -> bool {
    match expected {
        None => o is None,
        Some((k, v)) => option_is(o, k, v),
    }
}

/// `step` mounts a fresh filesystem of kind `kind`, with option `option`, at `target`.
pub open spec fn mounts_fresh(
    step: RootFsStep,
    kind: FsKind,
    option: Option<(&str, &str)>,
    target: &str,
) -> bool {
    step matches RootFsStep::Mount(fs, t) && is_fresh_fs(fs, kind) && option_matches(fs.option, option)
        && t@ == target@
}

/// The path below the new root that `step` mounts on.
pub open spec fn step_target<'a>(step: RootFsStep<'a>) -> &'a str {
    match step {
        RootFsStep::Mount(_, t) => t,
        RootFsStep::BindDevice(_, t) => t,
    }
}

/// `path` is a relative path: resolved from a directory descriptor, it stays
/// below that directory's root rather than ignoring the descriptor.
pub open spec fn is_relative(path: &str) -> bool {
    path@.len() > 0 && path@[0] != '/'
}

/// `step` binds the host file `source` at `target`.
pub open spec fn binds(step: RootFsStep, source: &str, target: &str) -> bool {
    step matches RootFsStep::BindDevice(s, t) && s@ == source@ && t@ == target@
}

/// The mounts, in order, made below the container's new root once the image
/// is cloned: the kernel filesystems, the device files a build needs, and
/// scratch space.
pub fn root_fs_mounts() -> (res: Vec<RootFsStep<'static>>)
    ensures
        res@.len() == 13,
        mounts_fresh(res@[0], FsKind::Proc, None, "proc"),
        mounts_fresh(res@[1], FsKind::Sysfs, None, "sys"),
        mounts_fresh(res@[2], FsKind::Devpts, Some(("ptmxmode", "0666")), "dev/pts"),
        mounts_fresh(res@[3], FsKind::Cgroup2, None, "sys/fs/cgroup"),
        binds(res@[4], "/dev/full", "dev/full"),
        binds(res@[5], "/dev/null", "dev/null"),
        binds(res@[6], "/dev/random", "dev/random"),
        binds(res@[7], "/dev/tty", "dev/tty"),
        binds(res@[8], "/dev/urandom", "dev/urandom"),
        binds(res@[9], "/dev/zero", "dev/zero"),
        mounts_fresh(res@[10], FsKind::Tmpfs, None, "dev/shm"),
        mounts_fresh(res@[11], FsKind::Tmpfs, Some(("mode", "755")), "run"),
        mounts_fresh(res@[12], FsKind::Tmpfs, None, "tmp"),
        forall|i: int| 0 <= i < res@.len() ==> is_relative(#[trigger] step_target(res@[i])),
{
    proof {
        reveal_strlit("proc");
        reveal_strlit("sys");
        reveal_strlit("dev/pts");
        reveal_strlit("sys/fs/cgroup");
        reveal_strlit("dev/full");
        reveal_strlit("dev/null");
        reveal_strlit("dev/random");
        reveal_strlit("dev/tty");
        reveal_strlit("dev/urandom");
        reveal_strlit("dev/zero");
        reveal_strlit("dev/shm");
        reveal_strlit("run");
        reveal_strlit("tmp");
    }
    let mut steps: Vec<RootFsStep<'static>> = Vec::new();
    steps.push(RootFsStep::Mount(create_procfs(), "proc"));
    steps.push(RootFsStep::Mount(create_sysfs(), "sys"));
    steps.push(RootFsStep::Mount(create_devpts(), "dev/pts"));
    steps.push(RootFsStep::Mount(create_cgroupfs(), "sys/fs/cgroup"));
    steps.push(RootFsStep::BindDevice("/dev/full", "dev/full"));
    steps.push(RootFsStep::BindDevice("/dev/null", "dev/null"));
    steps.push(RootFsStep::BindDevice("/dev/random", "dev/random"));
    steps.push(RootFsStep::BindDevice("/dev/tty", "dev/tty"));
    steps.push(RootFsStep::BindDevice("/dev/urandom", "dev/urandom"));
    steps.push(RootFsStep::BindDevice("/dev/zero", "dev/zero"));
    steps.push(RootFsStep::Mount(create_tmpfs(None), "dev/shm"));
    steps.push(RootFsStep::Mount(create_tmpfs(Some("755")), "run"));
    steps.push(RootFsStep::Mount(create_tmpfs(None), "tmp"));
    steps
}

/// The last step of the root filesystem, once everything is mounted below
/// the clone `root` of the image: the `move_mount` call that puts the clone
/// over the image at `image_path`; fails when the path holds a NUL byte.
pub fn place_root(root: MountFd, image_path: &str) -> (res: Result<MoveMountArgs, NulError>)
    ensures
        res is Ok <==> nul_free(image_path.spec_bytes()),
        res matches Ok(a) ==> {
            &&& a.from_dirfd == root.0
            &&& a.from_path@ == Seq::<u8>::empty()
            &&& a.to_dirfd == -1i32
            &&& a.to_path@ == image_path.spec_bytes()
            &&& a.flags == MOVE_MOUNT_F_EMPTY_PATH
        },
        res matches Err(e) ==> is_first_nul(image_path.spec_bytes(), e.position as int),
{
    root.mount_at(&AtPath::Absolute(image_path))
}

/// The calls that make the image the root: `pivot_root` with the image as
/// both the new root and the place of the old one, a change to the new `/`,
/// and a lazy unmount of the old root stacked on it.
pub struct ChrootArgs {
    pub new_root: CBytes,
    pub put_old: CBytes,
    pub workdir: CBytes,
    pub umount: UmountArgs,
}

/// The calls that make `image_path` the root; fails when the path holds a NUL byte.
pub fn root_container_chroot(image_path: &str) -> (res: Result<ChrootArgs, NulError>)
    ensures
        res is Ok <==> nul_free(image_path.spec_bytes()),
        res matches Ok(a) ==> {
            &&& a.new_root@ == image_path.spec_bytes()
            &&& a.put_old@ == image_path.spec_bytes()
            &&& a.workdir@ == seq![47u8]
            &&& a.umount.target@ == seq![47u8]
            &&& a.umount.flags == 0 | MNT_DETACH
        },
        res matches Err(e) ==> is_first_nul(image_path.spec_bytes(), e.position as int),
{
    proof {
        reveal_strlit("/");
        lemma_printable_ascii_bytes("/");
        assert("/".spec_bytes() =~= seq![47u8]);
    }
    let new_root = CBytes::from_str(image_path)?;
    let put_old = CBytes::from_str(image_path)?;
    let workdir = match CBytes::from_str("/") {
        Ok(c) => c,
        Err(e) => {
            return Err(e);
        },
    };
    let umount = match UmountBuilder::new().detach().exec("/") {
        Ok(u) => u,
        Err(e) => {
            return Err(e);
        },
    };
    Ok(ChrootArgs { new_root, put_old, workdir, umount })
}

} // verus!

//! Paths relative to descriptors, and the arguments of the new mount API:
//! `open_tree`, `fsopen`, `fsconfig`, `fsmount`, `move_mount` and `umount2`.
use vstd::prelude::*;
use vstd::string::StringSliceAdditionalSpecFns;
use crate::cstring::{CBytes, NulError, nul_free, is_first_nul};
use crate::consts::{
    AT_EMPTY_PATH, AT_FDCWD, AT_RECURSIVE, OPEN_TREE_CLONE, OPEN_TREE_CLOEXEC, FSOPEN_CLOEXEC,
    FSMOUNT_CLOEXEC, MOUNT_ATTR_NODEV, MOUNT_ATTR_NOSUID, MOUNT_ATTR_NOEXEC,
    MOVE_MOUNT_F_EMPTY_PATH, MOVE_MOUNT_T_EMPTY_PATH, MNT_DETACH, MS_UNBINDABLE, MS_PRIVATE,
    MS_SLAVE, MS_SHARED,
};

verus! {

/// A file named the way the `*at` system calls name it.
#[derive(Debug, Clone, Copy)]
pub enum AtPath<'a> {
    /// The current working directory itself.
    CurrentDir,
    /// A path resolved from the current working directory (an absolute path works too).
    RelativeToCurrentDir(&'a str),
    /// The file open on this descriptor.
    ExactFd(i32),
    /// A path resolved from the directory open on this descriptor; an absolute
    /// path ignores the descriptor.
    RelativeToFd(i32, &'a str),
    /// An absolute path; a relative one makes the call fail.
    Absolute(&'a str),
}

/// The directory descriptor, path and flags that name a file in an `*at` call.
pub struct AtPathSyscallArgs {
    pub fd_arg: i32,
    pub path_arg: CBytes,
    pub flags_arg: i32,
}

impl<'a> AtPath<'a> {
    /// The descriptor argument that names this file.
    pub open spec fn spec_fd_arg(self) -> i32 {
        match self {
            AtPath::CurrentDir => AT_FDCWD,
            AtPath::RelativeToCurrentDir(_) => AT_FDCWD,
            AtPath::ExactFd(fd) => fd,
            AtPath::RelativeToFd(fd, _) => fd,
            AtPath::Absolute(_) => -1i32,
        }
    }

    /// The bytes of the path argument that names this file.
    pub open spec fn spec_path_bytes(self) -> Seq<u8> {
        match self {
            AtPath::CurrentDir => Seq::empty(),
            AtPath::RelativeToCurrentDir(p) => p.spec_bytes(),
            AtPath::ExactFd(_) => Seq::empty(),
            AtPath::RelativeToFd(_, p) => p.spec_bytes(),
            AtPath::Absolute(p) => p.spec_bytes(),
        }
    }

    /// The file is the descriptor (or directory) itself, named by an empty path.
    pub open spec fn names_descriptor(self) -> bool {
        self is CurrentDir || self is ExactFd
    }

    /// The flags argument that names this file.
    pub open spec fn spec_flags_arg(self) -> i32 {
        if self.names_descriptor() { AT_EMPTY_PATH } else { 0 }
    }

    /// The arguments that name this file; fails when the path holds a NUL byte.
    pub fn as_syscall_args(&self) -> (res: Result<AtPathSyscallArgs, NulError>)
        ensures
            res is Ok <==> nul_free(self.spec_path_bytes()),
            res matches Ok(a) ==> {
                &&& a.fd_arg == self.spec_fd_arg()
                &&& a.path_arg@ == self.spec_path_bytes()
                &&& a.flags_arg == self.spec_flags_arg()
            },
            res matches Err(e) ==> is_first_nul(self.spec_path_bytes(), e.position as int),
            *self matches AtPath::CurrentDir ==> (res matches Ok(a) && a.fd_arg == AT_FDCWD
                && a.path_arg@ == Seq::<u8>::empty() && a.flags_arg == AT_EMPTY_PATH),
            *self matches AtPath::ExactFd(fd) ==> (res matches Ok(a) && a.fd_arg == fd
                && a.path_arg@ == Seq::<u8>::empty() && a.flags_arg == AT_EMPTY_PATH),
            *self matches AtPath::RelativeToCurrentDir(p) ==> {
                &&& res is Ok <==> nul_free(p.spec_bytes())
                &&& res matches Ok(a) ==> a.fd_arg == AT_FDCWD && a.path_arg@ == p.spec_bytes()
                    && a.flags_arg == 0
            },
            *self matches AtPath::RelativeToFd(fd, p) ==> {
                &&& res is Ok <==> nul_free(p.spec_bytes())
                &&& res matches Ok(a) ==> a.fd_arg == fd && a.path_arg@ == p.spec_bytes()
                    && a.flags_arg == 0
            },
            *self matches AtPath::Absolute(p) ==> {
                &&& res is Ok <==> nul_free(p.spec_bytes())
                &&& res matches Ok(a) ==> a.fd_arg == -1i32 && a.path_arg@ == p.spec_bytes()
                    && a.flags_arg == 0
            },
    {
        match self {
            AtPath::CurrentDir => Ok(
                AtPathSyscallArgs { fd_arg: AT_FDCWD, path_arg: CBytes::empty(), flags_arg: AT_EMPTY_PATH },
            ),
            AtPath::ExactFd(fd) => Ok(
                AtPathSyscallArgs { fd_arg: *fd, path_arg: CBytes::empty(), flags_arg: AT_EMPTY_PATH },
            ),
            AtPath::RelativeToFd(fd, path) => Ok(
                AtPathSyscallArgs { fd_arg: *fd, path_arg: CBytes::from_str(path)?, flags_arg: 0 },
            ),
            AtPath::RelativeToCurrentDir(path) => Ok(
                AtPathSyscallArgs { fd_arg: AT_FDCWD, path_arg: CBytes::from_str(path)?, flags_arg: 0 },
            ),
            AtPath::Absolute(path) => Ok(
                AtPathSyscallArgs { fd_arg: -1, path_arg: CBytes::from_str(path)?, flags_arg: 0 },
            ),
        }
    }
}

/// Each way of naming a file becomes the arguments that the `*at` calls take
/// for it: a path is passed byte for byte (an absolute one included, which the
/// kernel resolves ignoring the descriptor), from `AT_FDCWD` when it is
/// relative to the working directory, from the given descriptor otherwise,
/// and from no descriptor (-1) when it must be absolute; the directory or the
/// descriptor itself is named by an empty path with `AT_EMPTY_PATH`.
pub proof fn lemma_at_path_args(fd: i32, p: &str)
    ensures
        AtPath::CurrentDir.spec_fd_arg() == AT_FDCWD,
        AtPath::CurrentDir.spec_path_bytes() == Seq::<u8>::empty(),
        AtPath::CurrentDir.spec_flags_arg() == AT_EMPTY_PATH,
        AtPath::RelativeToCurrentDir(p).spec_fd_arg() == AT_FDCWD,
        AtPath::RelativeToCurrentDir(p).spec_path_bytes() == p.spec_bytes(),
        AtPath::RelativeToCurrentDir(p).spec_flags_arg() == 0,
        AtPath::ExactFd(fd).spec_fd_arg() == fd,
        AtPath::ExactFd(fd).spec_path_bytes() == Seq::<u8>::empty(),
        AtPath::ExactFd(fd).spec_flags_arg() == AT_EMPTY_PATH,
        AtPath::RelativeToFd(fd, p).spec_fd_arg() == fd,
        AtPath::RelativeToFd(fd, p).spec_path_bytes() == p.spec_bytes(),
        AtPath::RelativeToFd(fd, p).spec_flags_arg() == 0,
        AtPath::Absolute(p).spec_fd_arg() == -1i32,
        AtPath::Absolute(p).spec_path_bytes() == p.spec_bytes(),
        AtPath::Absolute(p).spec_flags_arg() == 0,
{
}

/// How mount and unmount events propagate between a mount and its peers.
#[derive(Debug, Clone, Copy, PartialEq, Eq, Structural)]
pub enum MountPropagation {
    NoBind,
    Private,
    Slave,
    Shared,
}

impl MountPropagation {
    /// The kernel's value for this propagation type.
    pub open spec fn spec_value(self) -> u64 {
        match self {
            MountPropagation::NoBind => MS_UNBINDABLE,
            MountPropagation::Private => MS_PRIVATE,
            MountPropagation::Slave => MS_SLAVE,
            MountPropagation::Shared => MS_SHARED,
        }
    }

    /// The kernel's value for this propagation type.
    #[verifier::when_used_as_spec(spec_value)]
    pub fn value(self) -> (res: u64)
        ensures
            res == self.spec_value(),
    {
        match self {
            MountPropagation::NoBind => MS_UNBINDABLE,
            MountPropagation::Private => MS_PRIVATE,
            MountPropagation::Slave => MS_SLAVE,
            MountPropagation::Shared => MS_SHARED,
        }
    }
}

/// Each propagation type is passed as the kernel's flag of that name, and no
/// two types share a value.
pub proof fn lemma_propagation_values(a: MountPropagation, b: MountPropagation)
    ensures
        MountPropagation::NoBind.spec_value() == MS_UNBINDABLE,
        MountPropagation::Private.spec_value() == MS_PRIVATE,
        MountPropagation::Slave.spec_value() == MS_SLAVE,
        MountPropagation::Shared.spec_value() == MS_SHARED,
        a.spec_value() == b.spec_value() ==> a == b,
{
}

/// The mount attribute block of `open_tree_attr` and `mount_setattr`, field for field.
#[derive(Debug, Clone, Copy, PartialEq, Eq, Structural)]
pub struct MountAttr {
    pub attr_set: u64,
    pub attr_clr: u64,
    pub propagation: u64,
    pub userns_fd: u64,
}

impl MountAttr {
    /// The all-zero attribute block: change nothing.
    pub open spec fn zeroed() -> MountAttr {
        MountAttr { attr_set: 0, attr_clr: 0, propagation: 0, userns_fd: 0 }
    }
}

/// Builds a mount attribute block.
pub struct MountAttrBuilder {
    attr: MountAttr,
}

impl View for MountAttrBuilder {
    type V = MountAttr;

    closed spec fn view(&self) -> MountAttr {
        self.attr
    }
}

impl MountAttrBuilder {
    /// A builder whose block changes nothing.
    pub fn new() -> (res: Self)
        ensures
            res@ == MountAttr::zeroed(),
    {
        MountAttrBuilder { attr: MountAttr { attr_set: 0, attr_clr: 0, propagation: 0, userns_fd: 0 } }
    }

    /// Sets the propagation type.
    pub fn propagation(self, propval: MountPropagation) -> (res: Self)
        ensures
            res@ == (MountAttr { propagation: propval.spec_value(), ..self@ }),
    {
        let mut s = self;
        s.attr.propagation = propval.value();
        s
    }

    /// The block built.
    pub fn build(self) -> (res: MountAttr)
        ensures
            res == self@,
    {
        self.attr
    }
}

/// The arguments of `open_tree_attr`.
pub struct OpenTreeArgs {
    pub dirfd: i32,
    pub path: CBytes,
    pub flags: u32,
    pub attr: Option<MountAttr>,
}

/// Builds an `open_tree_attr` call that clones a mount tree for a bind mount.
pub struct BindMountBuilder {
    flags: u32,
    attr: Option<MountAttr>,
}

impl View for BindMountBuilder {
    type V = (u32, Option<MountAttr>);

    closed spec fn view(&self) -> (u32, Option<MountAttr>) {
        (self.flags, self.attr)
    }
}

impl BindMountBuilder {
    /// The flags always ask for a clone: a bind mount never opens the
    /// source tree in place.
    #[verifier::type_invariant]
    closed spec fn inv(self) -> bool {
        self.flags & OPEN_TREE_CLONE == OPEN_TREE_CLONE
    }

    /// A builder that clones one mount, with no attributes.
    pub fn new() -> (res: Self)
        ensures
            res@ == (OPEN_TREE_CLONE, None::<MountAttr>),
    {
        assert(1u32 & 1u32 == 1u32) by (bit_vector);
        BindMountBuilder { flags: OPEN_TREE_CLONE, attr: None }
    }

    /// Clones the whole subtree below the mount too.
    pub fn recursive(self) -> (res: Self)
        ensures
            res@ == (self@.0 | AT_RECURSIVE, self@.1),
    {
        proof {
            use_type_invariant(&self);
        }
        let f = self.flags;
        assert((f | 0x8000u32) & 1u32 == 1u32) by (bit_vector)
            requires
                f & 1u32 == 1u32,
        ;
        BindMountBuilder { flags: self.flags | AT_RECURSIVE, attr: self.attr }
    }

    /// The new descriptor is closed on exec.
    pub fn cloexec(self) -> (res: Self)
        ensures
            res@ == (self@.0 | OPEN_TREE_CLOEXEC, self@.1),
    {
        proof {
            use_type_invariant(&self);
        }
        let f = self.flags;
        assert((f | 0o2000000u32) & 1u32 == 1u32) by (bit_vector)
            requires
                f & 1u32 == 1u32,
        ;
        BindMountBuilder { flags: self.flags | OPEN_TREE_CLOEXEC, attr: self.attr }
    }

    /// Applies `attrval` to the new mount.
    pub fn attr(self, attrval: MountAttr) -> (res: Self)
        ensures
            res@ == (self@.0, Some(attrval)),
    {
        proof {
            use_type_invariant(&self);
        }
        BindMountBuilder { flags: self.flags, attr: Some(attrval) }
    }

    /// The `open_tree_attr` call that clones the mount at `path`: the flags
    /// built, with those that name `path` added; fails when the path holds a
    /// NUL byte.
    pub fn open(self, path: &AtPath) -> (res: Result<OpenTreeArgs, NulError>)
        ensures
            res is Ok <==> nul_free(path.spec_path_bytes()),
            res matches Ok(a) ==> {
                &&& a.dirfd == path.spec_fd_arg()
                &&& a.path@ == path.spec_path_bytes()
                &&& a.flags == self@.0 | (path.spec_flags_arg() as u32)
                &&& a.flags & OPEN_TREE_CLONE == OPEN_TREE_CLONE
                &&& a.attr == self@.1
            },
            res matches Err(e) ==> is_first_nul(path.spec_path_bytes(), e.position as int),
    {
        proof {
            use_type_invariant(&self);
        }
        let path_args = path.as_syscall_args()?;
        let extra: u32 = path_args.flags_arg as u32;
        let f = self.flags;
        assert((f | extra) & 1u32 == 1u32) by (bit_vector)
            requires
                f & 1u32 == 1u32,
        ;
        Ok(OpenTreeArgs {
            dirfd: path_args.fd_arg,
            path: path_args.path_arg,
            flags: self.flags | extra,
            attr: self.attr,
        })
    }
}

/// The arguments of `fsopen`.
pub struct FsOpenArgs {
    pub fstype: CBytes,
    pub flags: u32,
}

/// Builds an `fsopen` call that starts configuring a new filesystem.
pub struct FilesystemBuilder {
    flags: u32,
}

impl View for FilesystemBuilder {
    type V = u32;

    closed spec fn view(&self) -> u32 {
        self.flags
    }
}

impl FilesystemBuilder {
    /// A builder with no flags.
    pub fn new() -> (res: Self)
        ensures
            res@ == 0,
    {
        FilesystemBuilder { flags: 0 }
    }

    /// The configuration descriptor is closed on exec.
    pub fn cloexec(self) -> (res: Self)
        ensures
            res@ == self@ | FSOPEN_CLOEXEC,
    {
        FilesystemBuilder { flags: self.flags | FSOPEN_CLOEXEC }
    }

    /// The `fsopen` call for a filesystem of type `fstype`; fails when the
    /// type holds a NUL byte.
    pub fn build_config(self, fstype: &str) -> (res: Result<FsOpenArgs, NulError>)
        ensures
            res is Ok <==> nul_free(fstype.spec_bytes()),
            res matches Ok(a) ==> a.fstype@ == fstype.spec_bytes() && a.flags == self@,
            res matches Err(e) ==> is_first_nul(fstype.spec_bytes(), e.position as int),
    {
        let fstype_c = CBytes::from_str(fstype)?;
        Ok(FsOpenArgs { fstype: fstype_c, flags: self.flags })
    }
}

/// The key and value of an `fsconfig` string option.
pub struct FsConfigString {
    pub key: CBytes,
    pub value: CBytes,
}

/// The arguments of `fsmount`.
#[derive(Debug, Clone, Copy, PartialEq, Eq, Structural)]
pub struct FsMountArgs {
    pub flags: u32,
    pub attr_flags: u32,
}

/// Collects the options of a filesystem being configured, and the flags of
/// the `fsmount` call that mounts it.
pub struct FilesystemConfigBuilder {
    fsmount_flags: u32,
    fsmount_attr_flags: u32,
}

impl View for FilesystemConfigBuilder {
    type V = FsMountArgs;

    closed spec fn view(&self) -> FsMountArgs {
        FsMountArgs { flags: self.fsmount_flags, attr_flags: self.fsmount_attr_flags }
    }
}

impl FilesystemConfigBuilder {
    /// A configuration with no mount flags and no mount attributes.
    pub fn new() -> (res: Self)
        ensures
            res@ == (FsMountArgs { flags: 0, attr_flags: 0 }),
    {
        FilesystemConfigBuilder { fsmount_flags: 0, fsmount_attr_flags: 0 }
    }

    /// The mount descriptor is closed on exec.
    pub fn cloexec(self) -> (res: Self)
        ensures
            res@ == (FsMountArgs { flags: self@.flags | FSMOUNT_CLOEXEC, ..self@ }),
    {
        FilesystemConfigBuilder {
            fsmount_flags: self.fsmount_flags | FSMOUNT_CLOEXEC,
            fsmount_attr_flags: self.fsmount_attr_flags,
        }
    }

    /// Device files on the mount cannot be opened.
    pub fn nodev(self) -> (res: Self)
        ensures
            res@ == (FsMountArgs { attr_flags: self@.attr_flags | MOUNT_ATTR_NODEV, ..self@ }),
    {
        FilesystemConfigBuilder {
            fsmount_flags: self.fsmount_flags,
            fsmount_attr_flags: self.fsmount_attr_flags | MOUNT_ATTR_NODEV,
        }
    }

    /// Set-user-ID and set-group-ID bits on the mount are ignored.
    pub fn nosuid(self) -> (res: Self)
        ensures
            res@ == (FsMountArgs { attr_flags: self@.attr_flags | MOUNT_ATTR_NOSUID, ..self@ }),
    {
        FilesystemConfigBuilder {
            fsmount_flags: self.fsmount_flags,
            fsmount_attr_flags: self.fsmount_attr_flags | MOUNT_ATTR_NOSUID,
        }
    }

    /// Programs on the mount cannot be executed.
    pub fn noexec(self) -> (res: Self)
        ensures
            res@ == (FsMountArgs { attr_flags: self@.attr_flags | MOUNT_ATTR_NOEXEC, ..self@ }),
    {
        FilesystemConfigBuilder {
            fsmount_flags: self.fsmount_flags,
            fsmount_attr_flags: self.fsmount_attr_flags | MOUNT_ATTR_NOEXEC,
        }
    }

    /// The string option `key` = `val`; fails when the key, or else the
    /// value, holds a NUL byte.
    pub fn set_string(&self, key: &str, val: &str) -> (res: Result<FsConfigString, NulError>)
        ensures
            res is Ok <==> nul_free(key.spec_bytes()) && nul_free(val.spec_bytes()),
            res matches Ok(o) ==> o.key@ == key.spec_bytes() && o.value@ == val.spec_bytes(),
            res matches Err(e) ==> {
                ||| is_first_nul(key.spec_bytes(), e.position as int)
                ||| nul_free(key.spec_bytes()) && is_first_nul(val.spec_bytes(), e.position as int)
            },
    {
        let key_c = CBytes::from_str(key)?;
        let val_c = CBytes::from_str(val)?;
        Ok(FsConfigString { key: key_c, value: val_c })
    }

    /// The `fsmount` call that mounts the configured filesystem.
    pub fn build(&self) -> (res: FsMountArgs)
        ensures
            res == self@,
    {
        FsMountArgs { flags: self.fsmount_flags, attr_flags: self.fsmount_attr_flags }
    }
}

/// The arguments of `move_mount`.
pub struct MoveMountArgs {
    pub from_dirfd: i32,
    pub from_path: CBytes,
    pub to_dirfd: i32,
    pub to_path: CBytes,
    pub flags: u32,
}

/// The flags of a `move_mount` from a mount descriptor to `to`.
pub open spec fn move_mount_flags(to: AtPath) -> u32 {
    if to.names_descriptor() {
        MOVE_MOUNT_F_EMPTY_PATH | MOVE_MOUNT_T_EMPTY_PATH
    } else {
        MOVE_MOUNT_F_EMPTY_PATH
    }
}

/// A mount is always moved from the descriptor itself, and onto the target
/// descriptor itself exactly when the target path names a descriptor.
pub proof fn lemma_move_mount_flags(to: AtPath)
    ensures
        move_mount_flags(to) & MOVE_MOUNT_F_EMPTY_PATH == MOVE_MOUNT_F_EMPTY_PATH,
        (move_mount_flags(to) & MOVE_MOUNT_T_EMPTY_PATH == MOVE_MOUNT_T_EMPTY_PATH)
            <==> to.names_descriptor(),
{
    assert((4u32 | 0x40u32) & 4u32 == 4u32 && (4u32 | 0x40u32) & 0x40u32 == 0x40u32
        && 4u32 & 4u32 == 4u32 && 4u32 & 0x40u32 != 0x40u32) by (bit_vector);
}

/// Flag requests made of a builder can come in any order, and making one
/// twice is the same as making it once.
pub proof fn lemma_flag_requests_commute(flags: u32, a: u32, b: u32)
    ensures
        (flags | a) | b == (flags | b) | a,
        (flags | a) | a == flags | a,
        ((flags | a) & a) == a,
        ((flags | a) & flags) == flags,
{
    assert((flags | a) | b == (flags | b) | a && (flags | a) | a == flags | a
        && ((flags | a) & a) == a && ((flags | a) & flags) == flags) by (bit_vector);
}

/// A descriptor that refers to a mount, by its number.
#[derive(Debug, Clone, Copy, PartialEq, Eq, Structural)]
pub struct MountFd(pub i32);

impl MountFd {
    /// The mount itself.
    pub fn as_atpath(&self) -> (res: AtPath<'static>)
        ensures
            res == AtPath::ExactFd(self.0),
    {
        AtPath::ExactFd(self.0)
    }

    /// `path` resolved from the mount's root.
    pub fn relpath<'a>(&self, path: &'a str) -> (res: AtPath<'a>)
        ensures
            res == AtPath::RelativeToFd(self.0, path),
    {
        AtPath::RelativeToFd(self.0, path)
    }

    /// The `move_mount` call that attaches this mount at `to_path`; fails
    /// when the target path holds a NUL byte.
    pub fn mount_at(&self, to_path: &AtPath) -> (res: Result<MoveMountArgs, NulError>)
        ensures
            res is Ok <==> nul_free(to_path.spec_path_bytes()),
            res matches Ok(a) ==> {
                &&& a.from_dirfd == self.0
                &&& a.from_path@ == Seq::<u8>::empty()
                &&& a.to_dirfd == to_path.spec_fd_arg()
                &&& a.to_path@ == to_path.spec_path_bytes()
                &&& a.flags == move_mount_flags(*to_path)
            },
            res matches Err(e) ==> is_first_nul(to_path.spec_path_bytes(), e.position as int),
    {
        let mut move_mount_flags: u32 = MOVE_MOUNT_F_EMPTY_PATH;
        let empty_str = CBytes::empty();
        let to_path_args = to_path.as_syscall_args()?;
        assert(0x1000i32 & 0x1000i32 != 0i32 && 0i32 & 0x1000i32 == 0i32) by (bit_vector);
        if (to_path_args.flags_arg & AT_EMPTY_PATH) != 0 {
            move_mount_flags = move_mount_flags | MOVE_MOUNT_T_EMPTY_PATH;
        }
        Ok(MoveMountArgs {
            from_dirfd: self.0,
            from_path: empty_str,
            to_dirfd: to_path_args.fd_arg,
            to_path: to_path_args.path_arg,
            flags: move_mount_flags,
        })
    }
}

/// The arguments of `umount2`.
pub struct UmountArgs {
    pub target: CBytes,
    pub flags: i32,
}

/// Builds an `umount2` call.
pub struct UmountBuilder {
    umount2_flags: i32,
}

impl View for UmountBuilder {
    type V = i32;

    closed spec fn view(&self) -> i32 {
        self.umount2_flags
    }
}

impl UmountBuilder {
    /// A builder with no flags.
    pub fn new() -> (res: Self)
        ensures
            res@ == 0,
    {
        UmountBuilder { umount2_flags: 0 }
    }

    /// Detaches the mount at once and cleans up when it is no longer busy.
    pub fn detach(self) -> (res: Self)
        ensures
            res@ == self@ | MNT_DETACH,
    {
        UmountBuilder { umount2_flags: self.umount2_flags | MNT_DETACH }
    }

    /// The `umount2` call for the mount at `target`; fails when the path
    /// holds a NUL byte.
    pub fn exec(&self, target: &str) -> (res: Result<UmountArgs, NulError>)
        ensures
            res is Ok <==> nul_free(target.spec_bytes()),
            res matches Ok(a) ==> a.target@ == target.spec_bytes() && a.flags == self@,
            res matches Err(e) ==> is_first_nul(target.spec_bytes(), e.position as int),
    {
        let target_c = CBytes::from_str(target)?;
        Ok(UmountArgs { target: target_c, flags: self.umount2_flags })
    }
}

} // verus!

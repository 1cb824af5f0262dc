use vstd::prelude::*;

verus! {

/// Signal delivered to the parent when a cloned child exits.
pub const SIGCHLD: u64 = 17;

/// `clone3` flag: new user namespace.
pub const CLONE_NEWUSER: u64 = 0x1000_0000;
/// `clone3` flag: new PID namespace.
pub const CLONE_NEWPID: u64 = 0x2000_0000;
/// `clone3` flag: new mount namespace.
pub const CLONE_NEWNS: u64 = 0x0002_0000;
/// `clone3` flag: new cgroup namespace.
pub const CLONE_NEWCGROUP: u64 = 0x0200_0000;
/// `clone3` flag: new UTS namespace.
pub const CLONE_NEWUTS: u64 = 0x0400_0000;
/// `clone3` flag: new time namespace.
pub const CLONE_NEWTIME: u64 = 0x0000_0080;
/// `clone3` flag: new network namespace.
pub const CLONE_NEWNET: u64 = 0x4000_0000;

/// Mount propagation type: unbindable.
pub const MS_UNBINDABLE: u64 = 0x0002_0000;
/// Mount propagation type: private.
pub const MS_PRIVATE: u64 = 0x0004_0000;
/// Mount propagation type: slave.
pub const MS_SLAVE: u64 = 0x0008_0000;
/// Mount propagation type: shared.
pub const MS_SHARED: u64 = 0x0010_0000;

/// `open_tree` flag: clone the mount tree instead of opening it.
pub const OPEN_TREE_CLONE: u32 = 1;
/// `open_tree` flag: close the new descriptor on exec.
pub const OPEN_TREE_CLOEXEC: u32 = 0o2000000;
/// `*at` flag: apply recursively to the whole subtree.
pub const AT_RECURSIVE: u32 = 0x8000;
/// `*at` flag: operate on the descriptor itself when the path is empty.
pub const AT_EMPTY_PATH: i32 = 0x1000;
/// Special directory descriptor meaning the current working directory.
pub const AT_FDCWD: i32 = -100;

/// `fsopen` flag: close the configuration descriptor on exec.
pub const FSOPEN_CLOEXEC: u32 = 1;
/// `fsmount` flag: close the mount descriptor on exec.
pub const FSMOUNT_CLOEXEC: u32 = 1;
/// Mount attribute: ignore set-user-ID and set-group-ID bits.
pub const MOUNT_ATTR_NOSUID: u32 = 0x0000_0002;
/// Mount attribute: disallow access to device special files.
pub const MOUNT_ATTR_NODEV: u32 = 0x0000_0004;
/// Mount attribute: disallow program execution.
pub const MOUNT_ATTR_NOEXEC: u32 = 0x0000_0008;

/// `move_mount` flag: the source is the descriptor itself.
pub const MOVE_MOUNT_F_EMPTY_PATH: u32 = 0x0000_0004;
/// `move_mount` flag: the target is the descriptor itself.
pub const MOVE_MOUNT_T_EMPTY_PATH: u32 = 0x0000_0040;

/// `umount2` flag: lazy unmount.
pub const MNT_DETACH: i32 = 2;

/// `close_range` flag: mark the descriptors close-on-exec instead of closing them.
pub const CLOSE_RANGE_CLOEXEC: i32 = 4;

/// Interface flag: the interface is up.
pub const IFF_UP: u32 = 1;
/// libnl error code: invalid input data or parameter.
pub const NLE_INVAL: i32 = 7;
/// Netlink protocol: routing.
pub const NETLINK_ROUTE: i32 = 0;
/// Address family: unspecified.
pub const AF_UNSPEC: i32 = 0;

} // verus!

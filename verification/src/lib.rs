//! Rootless build containers: the flag, argument and plan logic behind the
//! Linux namespace, mount and netlink calls that set a container up.
pub mod consts;
pub mod cstring;
pub mod syscalls;
pub mod clone;
pub mod mount;
pub mod netlink;
pub mod identity;
pub mod rootfs;
pub mod container;

//! The root container: the order of its setup, its loopback interface and
//! the shell it runs.
use vstd::prelude::*;
use vstd::string::StringSliceAdditionalSpecFns;
use crate::syscalls::{ExecArgs, exec_args, bytes_of, holds_strings};
use crate::netlink::NetlinkRouteLink;
use crate::cstring::{CBytes, lemma_printable_ascii_bytes};
use crate::consts::{IFF_UP, NETLINK_ROUTE, AF_UNSPEC};

verus! {

/// The directory that holds the container's root filesystem image.
pub const ROOT_IMAGE_PATH: &'static str = "/var/tmp/container-image";

/// The shell that the root container runs once set up: a login `bash` with
/// a plain `PATH`, as `root`.
pub fn root_shell() -> (res: ExecArgs)
    ensures
        res.path@ == "/bin/bash".spec_bytes(),
        holds_strings(res.argv@, bytes_of(seq!["-bash"])),
        holds_strings(res.envp@, bytes_of(seq!["PATH=/usr/local/bin:/usr/bin", "USER=root"])),
{
    let path = "/bin/bash";
    let argv = ["-bash"];
    let envp = ["PATH=/usr/local/bin:/usr/bin", "USER=root"];
    proof {
        reveal_strlit("/bin/bash");
        reveal_strlit("-bash");
        reveal_strlit("PATH=/usr/local/bin:/usr/bin");
        reveal_strlit("USER=root");
        lemma_printable_ascii_bytes("/bin/bash");
        lemma_printable_ascii_bytes("-bash");
        lemma_printable_ascii_bytes("PATH=/usr/local/bin:/usr/bin");
        lemma_printable_ascii_bytes("USER=root");
        assert(argv@ == seq!["-bash"]);
        assert(envp@ == seq!["PATH=/usr/local/bin:/usr/bin", "USER=root"]);
    }
    match exec_args(path, argv.as_slice(), envp.as_slice()) {
        Ok(a) => a,
        Err(_) => {
            proof {
                assert(false);
            }
            ExecArgs { path: CBytes::empty(), argv: Vec::new(), envp: Vec::new() }
        },
    }
}

/// The netlink request that brings the loopback interface up: over a
/// routing socket, look up `lo` in any address family and change it with
/// the `IFF_UP` flag set and no change flags.
pub struct LinkUpRequest {
    pub protocol: i32,
    pub addr_family: i32,
    pub if_name: &'static str,
    pub change: NetlinkRouteLink,
    pub change_flags: i32,
}

/// The request that brings the loopback interface `lo` up.
pub fn set_lo_interface_up() -> (res: LinkUpRequest)
    ensures
        res.protocol == NETLINK_ROUTE,
        res.addr_family == AF_UNSPEC,
        res.if_name@ == "lo"@,
        res.change@ == 0 | IFF_UP,
        res.change_flags == 0,
{
    let mut change = NetlinkRouteLink::new();
    change.set_iff_up();
    LinkUpRequest { protocol: NETLINK_ROUTE, addr_family: AF_UNSPEC, if_name: "lo", change, change_flags: 0 }
}

/// A stage of setting up the root container.
#[derive(Debug, Clone, Copy, PartialEq, Eq, Structural)]
pub enum SetupStage {
    /// Make the invoking user and group root in the new user namespace.
    RemapToRoot,
    /// Bring the loopback interface of the new network namespace up.
    LoopbackUp,
    /// Mount the container's root filesystem and what goes below it.
    RootFs,
    /// Make the image the root.
    ChangeRoot,
    /// Run the shell; this stage does not return when it succeeds.
    ExecShell,
}

/// The stages of setting up the root container, in the order they run; the
/// first that fails ends the setup. The identity comes first (nothing else
/// is permitted before it), the root changes only once everything is
/// mounted below it, and the shell comes last.
pub fn root_container_fn() -> (res: Vec<SetupStage>)
    ensures
        res@ == seq![
            SetupStage::RemapToRoot,
            SetupStage::LoopbackUp,
            SetupStage::RootFs,
            SetupStage::ChangeRoot,
            SetupStage::ExecShell,
        ],
{
    let mut stages: Vec<SetupStage> = Vec::new();
    stages.push(SetupStage::RemapToRoot);
    stages.push(SetupStage::LoopbackUp);
    stages.push(SetupStage::RootFs);
    stages.push(SetupStage::ChangeRoot);
    stages.push(SetupStage::ExecShell);
    assert(stages@ =~= seq![
        SetupStage::RemapToRoot,
        SetupStage::LoopbackUp,
        SetupStage::RootFs,
        SetupStage::ChangeRoot,
        SetupStage::ExecShell,
    ]);
    stages
}

} // verus!

//! Arguments of `clone3`: which namespaces a new child gets, and how the
//! outcome of the call is read.
use vstd::prelude::*;
use crate::consts::{
    SIGCHLD, CLONE_NEWUSER, CLONE_NEWPID, CLONE_NEWNS, CLONE_NEWCGROUP, CLONE_NEWUTS,
    CLONE_NEWTIME, CLONE_NEWNET,
};
use crate::syscalls::ProcessId;

verus! {

/// The argument block of `clone3`, field for field.
#[derive(Debug, Clone, Copy, PartialEq, Eq, Structural)]
pub struct CloneArgs {
    pub flags: u64,
    pub pidfd: u64,
    pub child_tid: u64,
    pub parent_tid: u64,
    pub exit_signal: u64,
    pub stack: u64,
    pub stack_size: u64,
    pub tls: u64,
    pub set_tid: u64,
    pub set_tid_size: u64,
    pub cgroup: u64,
}

impl CloneArgs {
    /// The all-zero argument block.
    pub open spec fn zeroed() -> CloneArgs {
        CloneArgs {
            flags: 0,
            pidfd: 0,
            child_tid: 0,
            parent_tid: 0,
            exit_signal: 0,
            stack: 0,
            stack_size: 0,
            tls: 0,
            set_tid: 0,
            set_tid_size: 0,
            cgroup: 0,
        }
    }
}

/// A namespace that a cloned child can be given a fresh instance of.
#[derive(Debug, Clone, Copy, PartialEq, Eq, Structural)]
pub enum Namespace {
    User,
    Pid,
    Mount,
    Cgroup,
    Uts,
    Time,
    Net,
}

impl Namespace {
    /// The `clone3` flag that requests a fresh instance of this namespace.
    pub open spec fn spec_flag(self) -> u64 {
        match self {
            Namespace::User => CLONE_NEWUSER,
            Namespace::Pid => CLONE_NEWPID,
            Namespace::Mount => CLONE_NEWNS,
            Namespace::Cgroup => CLONE_NEWCGROUP,
            Namespace::Uts => CLONE_NEWUTS,
            Namespace::Time => CLONE_NEWTIME,
            Namespace::Net => CLONE_NEWNET,
        }
    }

    /// The `clone3` flag that requests a fresh instance of this namespace.
    #[verifier::when_used_as_spec(spec_flag)]
    pub fn flag(self) -> (res: u64)
        ensures
            res == self.spec_flag(),
    {
        match self {
            Namespace::User => CLONE_NEWUSER,
            Namespace::Pid => CLONE_NEWPID,
            Namespace::Mount => CLONE_NEWNS,
            Namespace::Cgroup => CLONE_NEWCGROUP,
            Namespace::Uts => CLONE_NEWUTS,
            Namespace::Time => CLONE_NEWTIME,
            Namespace::Net => CLONE_NEWNET,
        }
    }
}

/// The namespaces that `flags` asks fresh instances of.
pub open spec fn namespaces_of(flags: u64) -> Set<Namespace> {
    Set::new(|ns: Namespace| flags & ns.spec_flag() != 0)
}

/// Each namespace is requested by the `clone3` flag of that name, and no two
/// namespaces share a flag.
pub proof fn lemma_namespace_flags(a: Namespace, b: Namespace)
    ensures
        Namespace::User.spec_flag() == CLONE_NEWUSER,
        Namespace::Pid.spec_flag() == CLONE_NEWPID,
        Namespace::Mount.spec_flag() == CLONE_NEWNS,
        Namespace::Cgroup.spec_flag() == CLONE_NEWCGROUP,
        Namespace::Uts.spec_flag() == CLONE_NEWUTS,
        Namespace::Time.spec_flag() == CLONE_NEWTIME,
        Namespace::Net.spec_flag() == CLONE_NEWNET,
        a.spec_flag() == b.spec_flag() ==> a == b,
{
}

/// The bit that a namespace's `clone3` flag sets.
pub open spec fn namespace_bit(ns: Namespace) -> u64 {
    match ns {
        Namespace::User => 28,
        Namespace::Pid => 29,
        Namespace::Mount => 17,
        Namespace::Cgroup => 25,
        Namespace::Uts => 26,
        Namespace::Time => 7,
        Namespace::Net => 30,
    }
}

/// Each namespace flag is the single bit `namespace_bit(ns)`, and no two
/// namespaces share a bit.
pub proof fn lemma_namespace_flag_is_bit(ns: Namespace)
    ensures
        ns.spec_flag() == 1u64 << namespace_bit(ns),
        namespace_bit(ns) < 64,
        forall|other: Namespace| namespace_bit(other) == namespace_bit(ns) ==> other == ns,
{
    assert(1u64 << 28u64 == 0x1000_0000u64 && 1u64 << 29u64 == 0x2000_0000u64
        && 1u64 << 17u64 == 0x0002_0000u64 && 1u64 << 25u64 == 0x0200_0000u64
        && 1u64 << 26u64 == 0x0400_0000u64 && 1u64 << 7u64 == 0x80u64
        && 1u64 << 30u64 == 0x4000_0000u64) by (bit_vector);
}

/// Asking for a fresh instance of `ns` adds exactly `ns` to the namespaces that
/// the flags request, and leaves the requests for all others as they were.
pub proof fn lemma_new_namespace_adds(flags: u64, ns: Namespace)
    ensures
        namespaces_of(flags | ns.spec_flag()) == namespaces_of(flags).insert(ns),
{
    assert(forall|f: u64, i: u64, j: u64| i < 64 && j < 64 ==>
        (#[trigger] ((f | (1u64 << i)) & (1u64 << j)) != 0 <==> (f & (1u64 << j) != 0 || i == j)))
        by (bit_vector);
    lemma_namespace_flag_is_bit(ns);
    assert forall|other: Namespace|
        #[trigger] namespaces_of(flags | ns.spec_flag()).contains(other)
            == namespaces_of(flags).insert(ns).contains(other) by {
        lemma_namespace_flag_is_bit(other);
        let i = namespace_bit(ns);
        let j = namespace_bit(other);
        assert(((flags | (1u64 << i)) & (1u64 << j)) != 0 <==> (flags & (1u64 << j) != 0 || i == j));
    }
    assert(namespaces_of(flags | ns.spec_flag()) =~= namespaces_of(flags).insert(ns));
}

/// Namespace requests can be made in any order, and asking twice is the same
/// as asking once.
pub proof fn lemma_namespace_requests_commute(args: CloneArgs, a: Namespace, b: Namespace)
    ensures
        (args.flags | a.spec_flag()) | b.spec_flag() == (args.flags | b.spec_flag()) | a.spec_flag(),
        (args.flags | a.spec_flag()) | a.spec_flag() == args.flags | a.spec_flag(),
{
    let f = args.flags;
    let x = a.spec_flag();
    let y = b.spec_flag();
    assert((f | x) | y == (f | y) | x && (f | x) | x == f | x) by (bit_vector);
}

/// Builds the argument block of a `clone3` call.
pub struct CloneBuilder {
    args: CloneArgs,
}

impl View for CloneBuilder {
    type V = CloneArgs;

    closed spec fn view(&self) -> CloneArgs {
        self.args
    }
}

impl CloneBuilder {
    /// A builder whose argument block is all zeros.
    pub fn new() -> (res: Self)
        ensures
            res@ == CloneArgs::zeroed(),
    {
        CloneBuilder {
            args: CloneArgs {
                flags: 0,
                pidfd: 0,
                child_tid: 0,
                parent_tid: 0,
                exit_signal: 0,
                stack: 0,
                stack_size: 0,
                tls: 0,
                set_tid: 0,
                set_tid_size: 0,
                cgroup: 0,
            },
        }
    }

    /// The argument block built so far.
    pub fn args(&self) -> (res: CloneArgs)
        ensures
            res == self@,
    {
        self.args
    }

    /// The parent gets `SIGCHLD` when the child exits.
    pub fn generate_signal(self) -> (res: Self)
        ensures
            res@ == (CloneArgs { exit_signal: SIGCHLD, ..self@ }),
    {
        let mut s = self;
        s.args.exit_signal = SIGCHLD;
        s
    }

    /// The child gets a fresh instance of `ns`.
    pub fn new_namespace(self, ns: Namespace) -> (res: Self)
        ensures
            res@ == (CloneArgs { flags: self@.flags | ns.spec_flag(), ..self@ }),
    {
        let mut s = self;
        s.args.flags = s.args.flags | ns.flag();
        s
    }

    /// The child gets a fresh user namespace.
    pub fn new_user_namespace(self) -> (res: Self)
        ensures
            res@ == (CloneArgs { flags: self@.flags | CLONE_NEWUSER, ..self@ }),
    {
        self.new_namespace(Namespace::User)
    }

    /// The child gets a fresh PID namespace.
    pub fn new_pid_namespace(self) -> (res: Self)
        ensures
            res@ == (CloneArgs { flags: self@.flags | CLONE_NEWPID, ..self@ }),
    {
        self.new_namespace(Namespace::Pid)
    }

    /// The child gets a fresh mount namespace.
    pub fn new_mount_namespace(self) -> (res: Self)
        ensures
            res@ == (CloneArgs { flags: self@.flags | CLONE_NEWNS, ..self@ }),
    {
        self.new_namespace(Namespace::Mount)
    }

    /// The child gets a fresh cgroup namespace.
    pub fn new_cgroup_namespace(self) -> (res: Self)
        ensures
            res@ == (CloneArgs { flags: self@.flags | CLONE_NEWCGROUP, ..self@ }),
    {
        self.new_namespace(Namespace::Cgroup)
    }

    /// The child gets a fresh UTS namespace.
    pub fn new_uts_namespace(self) -> (res: Self)
        ensures
            res@ == (CloneArgs { flags: self@.flags | CLONE_NEWUTS, ..self@ }),
    {
        self.new_namespace(Namespace::Uts)
    }

    /// The child gets a fresh time namespace.
    pub fn new_time_namespace(self) -> (res: Self)
        ensures
            res@ == (CloneArgs { flags: self@.flags | CLONE_NEWTIME, ..self@ }),
    {
        self.new_namespace(Namespace::Time)
    }

    /// The child gets a fresh network namespace.
    pub fn new_net_namespace(self) -> (res: Self)
        ensures
            res@ == (CloneArgs { flags: self@.flags | CLONE_NEWNET, ..self@ }),
    {
        self.new_namespace(Namespace::Net)
    }
}

/// What a `clone3` call came to, as seen by the process that reads its result.
#[derive(Debug, Clone, Copy, PartialEq, Eq, Structural)]
pub enum CloneOutcome {
    /// The call failed; `errno` says why.
    Failed,
    /// This is the new child.
    Child,
    /// This is the parent; the child has this process ID.
    Parent(ProcessId),
}

/// Reads the result of a `clone3` call: negative is a failure, zero is the
/// child, anything else is the child's process ID seen from the parent.
pub fn clone_outcome(res: i64) -> (out: CloneOutcome)
    ensures
        (out == CloneOutcome::Failed) <==> res < 0,
        (out == CloneOutcome::Child) <==> res == 0,
        res > 0 ==> out == CloneOutcome::Parent(ProcessId(res as i32)),
{
    if res < 0 {
        CloneOutcome::Failed
    } else if res == 0 {
        CloneOutcome::Child
    } else {
        CloneOutcome::Parent(ProcessId(#[verifier::truncate] (res as i32)))
    }
}

} // verus!

//! Identities of users, groups and processes, and the arguments of the
//! plain system calls a container needs.
use vstd::prelude::*;
use vstd::string::StringSliceAdditionalSpecFns;
use crate::cstring::{CBytes, NulError, nul_free, is_first_nul};

verus! {

/// A user ID.
#[derive(Debug, Clone, Copy, PartialEq, Eq, Structural)]
pub struct UserId(pub u32);

/// A group ID.
#[derive(Debug, Clone, Copy, PartialEq, Eq, Structural)]
pub struct GroupId(pub u32);

/// A process ID.
#[derive(Debug, Clone, Copy, PartialEq, Eq, Structural)]
pub struct ProcessId(pub i32);

} // verus!

verus! {

/// One end of a range of file descriptors.
#[derive(Debug, Clone, Copy, PartialEq, Eq, Structural)]
pub enum FdBound {
    Included(i32),
    Excluded(i32),
    Unbounded,
}

/// The lowest descriptor a range starting at `b` holds; descriptors 0 to 2
/// (standard input, output and error) are left out when no start is given.
pub open spec fn range_start(b: FdBound) -> int {
    match b {
        FdBound::Included(a) => a as int,
        FdBound::Excluded(a) => a + 1,
        FdBound::Unbounded => 3,
    }
}

/// The highest descriptor a range ending at `b` holds.
pub open spec fn range_end(b: FdBound) -> int {
    match b {
        FdBound::Included(a) => a as int,
        FdBound::Excluded(a) => a - 1,
        FdBound::Unbounded => i32::MAX as int,
    }
}

/// The unsigned value with the same 32 bits as the signed `x`.
pub open spec fn as_c_uint(x: int) -> int {
    if x >= 0 { x } else { x + 0x1_0000_0000 }
}

/// A range includes an included bound, stops just short of an excluded one,
/// starts above the standard streams (at descriptor 3) when no start is given
/// and reaches the highest descriptor when no end is given; a descriptor is
/// passed as the unsigned number with the same 32 bits, so a non-negative one
/// unchanged.
pub proof fn lemma_range_bounds(a: i32)
    ensures
        range_start(FdBound::Included(a)) == a,
        range_start(FdBound::Excluded(a)) == a + 1,
        range_start(FdBound::Unbounded) == 3,
        range_end(FdBound::Included(a)) == a,
        range_end(FdBound::Excluded(a)) == a - 1,
        range_end(FdBound::Unbounded) == i32::MAX,
        0 <= as_c_uint(a as int) < 0x1_0000_0000,
        as_c_uint(a as int) % 0x1_0000_0000 == (a as int) % 0x1_0000_0000,
        a >= 0 ==> as_c_uint(a as int) == a,
{
}

/// The arguments of `close_range`.
#[derive(Debug, Clone, Copy, PartialEq, Eq, Structural)]
pub struct CloseRangeArgs {
    pub first: u32,
    pub last: u32,
    pub flags: i32,
}

/// A request that the kernel was never asked to carry out, because its input was invalid.
#[derive(Debug, Clone, Copy, PartialEq, Eq, Structural)]
pub struct InvalidInput;

/// The bits of `x` read as unsigned.
fn to_c_uint(x: i32) -> (res: u32)
    ensures
        res as int == as_c_uint(x as int),
{
    if x >= 0 {
        x as u32
    } else {
        let y: i32 = -(x + 1);
        u32::MAX - (y as u32)
    }
}

/// The `close_range` call that marks every descriptor from `start` to `end`
/// close-on-exec. A range that reaches below descriptor 3 is refused, so the
/// standard streams are never touched.
pub fn cloexec_range(start: FdBound, end: FdBound) -> (res: Result<CloseRangeArgs, InvalidInput>)
    requires
        start != FdBound::Excluded(i32::MAX),
        end != FdBound::Excluded(i32::MIN),
    ensures
        res is Err <==> range_start(start) < 3,
        res matches Ok(args) ==> {
            &&& args.first as int == range_start(start)
            &&& args.first >= 3
            &&& args.last as int == as_c_uint(range_end(end))
            &&& args.flags == crate::consts::CLOSE_RANGE_CLOEXEC
        },
        start matches FdBound::Included(a) ==> (res is Err <==> a < 3)
            && (res matches Ok(args) ==> args.first as int == a),
        start matches FdBound::Excluded(a) ==> (res is Err <==> a + 1 < 3)
            && (res matches Ok(args) ==> args.first as int == a + 1),
        start is Unbounded ==> (res matches Ok(args) && args.first == 3),
        end matches FdBound::Included(b) ==> (res matches Ok(args) ==> args.last as int
            == as_c_uint(b as int)),
        end matches FdBound::Excluded(b) ==> (res matches Ok(args) ==> args.last as int
            == as_c_uint(b - 1)),
        end is Unbounded ==> (res matches Ok(args) ==> args.last as int == i32::MAX),
        res matches Ok(args) ==> args.last as int % 0x1_0000_0000 == range_end(end) % 0x1_0000_0000,
{
    let min_fd: i32 = match start {
        FdBound::Included(a) => a,
        FdBound::Excluded(a) => a + 1,
        FdBound::Unbounded => 3,
    };
    let max_fd: i32 = match end {
        FdBound::Included(b) => b,
        FdBound::Excluded(b) => b - 1,
        FdBound::Unbounded => i32::MAX,
    };
    if min_fd < 3 {
        Err(InvalidInput)
    } else {
        Ok(CloseRangeArgs {
            first: to_c_uint(min_fd),
            last: to_c_uint(max_fd),
            flags: crate::consts::CLOSE_RANGE_CLOEXEC,
        })
    }
}

/// The bytes of each string.
pub open spec fn bytes_of(ss: Seq<&str>) -> Seq<Seq<u8>> {
    ss.map_values(|s: &str| s.spec_bytes())
}

/// Every string is free of NUL bytes.
pub open spec fn all_nul_free(ss: Seq<Seq<u8>>) -> bool {
    forall|i: int| 0 <= i < ss.len() ==> nul_free(#[trigger] ss[i])
}

/// `k` is the first of the strings that holds a NUL byte.
pub open spec fn is_first_bad(ss: Seq<Seq<u8>>, k: int) -> bool {
    &&& 0 <= k < ss.len()
    &&& !nul_free(ss[k])
    &&& forall|j: int| 0 <= j < k ==> nul_free(#[trigger] ss[j])
}

/// `e` is the error for the first string of `ss` that holds a NUL byte.
pub open spec fn fails_at_first_bad(ss: Seq<Seq<u8>>, e: NulError) -> bool {
    exists|k: int| is_first_bad(ss, k) && is_first_nul(#[trigger] ss[k], e.position as int)
}

/// `v` holds the strings of `ss`, in order.
pub open spec fn holds_strings(v: Seq<CBytes>, ss: Seq<Seq<u8>>) -> bool {
    &&& v.len() == ss.len()
    &&& forall|i: int| 0 <= i < ss.len() ==> (#[trigger] v[i])@ == ss[i]
}

/// Converts each string in turn; stops at the first one that holds a NUL byte.
pub fn c_strings(ss: &[&str]) -> (res: Result<Vec<CBytes>, NulError>)
    ensures
        res is Ok <==> all_nul_free(bytes_of(ss@)),
        res matches Ok(v) ==> holds_strings(v@, bytes_of(ss@)),
        res matches Err(e) ==> fails_at_first_bad(bytes_of(ss@), e),
{
    let ghost b = bytes_of(ss@);
    let mut out: Vec<CBytes> = Vec::new();
    let n = ss.len();
    for i in 0..n
        invariant
            n == ss@.len(),
            b == bytes_of(ss@),
            out@.len() == i,
            forall|j: int| 0 <= j < i ==> (#[trigger] out@[j])@ == b[j],
            forall|j: int| 0 <= j < i ==> nul_free(#[trigger] b[j]),
    {
        match CBytes::from_str(ss[i]) {
            Ok(c) => {
                out.push(c);
            },
            Err(e) => {
                assert(is_first_bad(b, i as int));
                return Err(e);
            },
        }
    }
    Ok(out)
}

/// The arguments of `execve`: the program's path, its argument vector and
/// its environment, each string NUL-terminated.
pub struct ExecArgs {
    pub path: CBytes,
    pub argv: Vec<CBytes>,
    pub envp: Vec<CBytes>,
}

/// Prepares the arguments of `execve`; fails at the first string (path, then
/// arguments, then environment) that holds a NUL byte.
pub fn exec_args(path: &str, argv: &[&str], envp: &[&str]) -> (res: Result<ExecArgs, NulError>)
    ensures
        res is Ok <==> nul_free(path.spec_bytes()) && all_nul_free(bytes_of(argv@))
            && all_nul_free(bytes_of(envp@)),
        res matches Ok(a) ==> {
            &&& a.path@ == path.spec_bytes()
            &&& holds_strings(a.argv@, bytes_of(argv@))
            &&& holds_strings(a.envp@, bytes_of(envp@))
        },
        res matches Err(e) ==> {
            ||| !nul_free(path.spec_bytes()) && is_first_nul(path.spec_bytes(), e.position as int)
            ||| nul_free(path.spec_bytes()) && fails_at_first_bad(bytes_of(argv@), e)
            ||| nul_free(path.spec_bytes()) && all_nul_free(bytes_of(argv@))
                && fails_at_first_bad(bytes_of(envp@), e)
        },
{
    let path_c = CBytes::from_str(path)?;
    let argv_c = c_strings(argv)?;
    let envp_c = c_strings(envp)?;
    Ok(ExecArgs { path: path_c, argv: argv_c, envp: envp_c })
}

} // verus!

//! The identity mapping that makes the invoking user and group root inside a
//! fresh user namespace.
use vstd::prelude::*;
use crate::syscalls::{UserId, GroupId};

verus! {


/// The decimal digits of `n`, most significant first, without leading zeros.
pub open spec fn decimal(n: nat) -> Seq<u8>
    decreases n,
{
    if n < 10 {
        seq![(48 + n) as u8]
    } else {
        decimal(n / 10).push((48 + n % 10) as u8)
    }
}

/// Every byte of `s` is an ASCII digit.
pub open spec fn is_digits(s: Seq<u8>) -> bool {
    forall|i: int| 0 <= i < s.len() ==> 48 <= #[trigger] s[i] <= 57
}

/// The number that the ASCII digits `s` write in decimal.
pub open spec fn decimal_value(s: Seq<u8>) -> nat
    decreases s.len(),
{
    if s.len() == 0 {
        0
    } else {
        decimal_value(s.drop_last()) * 10 + (s.last() - 48) as nat
    }
}

/// Writing a number in decimal and reading it back gives the number: the
/// digits are digits, there is at least one, and the first is `0` only for zero.
pub proof fn lemma_decimal_round_trip(n: nat)
    ensures
        is_digits(decimal(n)),
        decimal(n).len() >= 1,
        decimal_value(decimal(n)) == n,
        decimal(n)[0] == 48u8 <==> n == 0,
    decreases n,
{
    if n >= 10 {
        lemma_decimal_round_trip(n / 10);
        let d = decimal(n / 10);
        let last: u8 = (48 + n % 10) as u8;
        assert(last as int == 48 + n % 10);
        assert(decimal(n).drop_last() == d);
        assert(decimal(n).last() == last);
        assert(decimal(n)[0] == d[0]);
        assert(n == (n / 10) * 10 + n % 10);
    } else {
        let s = decimal(n);
        assert(s.drop_last() =~= Seq::<u8>::empty());
        assert(decimal_value(s.drop_last()) == 0);
    }
}

/// Appends the decimal digits of `n` to `out`.
fn push_decimal(out: &mut Vec<u8>, n: u32)
    ensures
        final(out)@ == old(out)@ + decimal(n as nat),
    decreases n,
{
    if n >= 10 {
        push_decimal(out, n / 10);
    }
    let digit: u8 = (n % 10) as u8;
    out.push(48u8 + digit);
    proof {
        if n < 10 {
            assert(decimal(n as nat) == seq![(48 + n) as u8]);
        } else {
            assert(decimal(n as nat) == decimal((n / 10) as nat).push((48 + n % 10) as u8));
        }
    }
}

/// The line of a `uid_map` or `gid_map` file that maps ID 0 inside the
/// namespace to `outer` outside it, for one ID: `0 <outer> 1`.
pub open spec fn id_map_line(outer: nat) -> Seq<u8> {
    seq![48u8, 32u8] + decimal(outer) + seq![32u8, 49u8]
}

/// The contents of the `setgroups` file that forbids `setgroups`: `deny`.
pub open spec fn setgroups_deny() -> Seq<u8> {
    seq![100u8, 101u8, 110u8, 121u8]
}

/// The contents of an ID map that makes `outer` root inside the namespace.
pub fn id_map_contents(outer: u32) -> (res: Vec<u8>)
    ensures
        res@ == id_map_line(outer as nat),
{
    let mut out: Vec<u8> = Vec::new();
    out.push(48u8);
    out.push(32u8);
    push_decimal(&mut out, outer);
    out.push(32u8);
    out.push(49u8);
    assert(out@ =~= id_map_line(outer as nat));
    out
}

/// A file of `/proc/self` that sets up the identity of a new user namespace.
#[derive(Debug, Clone, Copy, PartialEq, Eq, Structural)]
pub enum ProcFile {
    UidMap,
    SetGroups,
    GidMap,
}

impl ProcFile {
    /// The path of the file.
    pub open spec fn spec_path(self) -> &'static str {
        match self {
            ProcFile::UidMap => "/proc/self/uid_map",
            ProcFile::SetGroups => "/proc/self/setgroups",
            ProcFile::GidMap => "/proc/self/gid_map",
        }
    }

    /// The path of the file.
    pub fn path(self) -> (res: &'static str)
        ensures
            res@ == self.spec_path()@,
    {
        match self {
            ProcFile::UidMap => "/proc/self/uid_map",
            ProcFile::SetGroups => "/proc/self/setgroups",
            ProcFile::GidMap => "/proc/self/gid_map",
        }
    }
}

/// Each identity file is the one of that name under `/proc/self`.
pub proof fn lemma_proc_file_paths()
    ensures
        ProcFile::UidMap.spec_path()@ == "/proc/self/uid_map"@,
        ProcFile::SetGroups.spec_path()@ == "/proc/self/setgroups"@,
        ProcFile::GidMap.spec_path()@ == "/proc/self/gid_map"@,
{
}

/// Contents to write to a file of `/proc/self`.
pub struct ProcWrite {
    pub file: ProcFile,
    pub contents: Vec<u8>,
}

/// The writes, in order, that make the user `uid` and group `gid` root in a
/// fresh user namespace: the user map, then `setgroups` denied (the kernel
/// refuses a group map before that), then the group map.
pub fn remap_to_root_user(uid: UserId, gid: GroupId) -> (res: Vec<ProcWrite>)
    ensures
        res@.len() == 3,
        res@[0].file == ProcFile::UidMap,
        res@[0].contents@ == id_map_line(uid.0 as nat),
        res@[1].file == ProcFile::SetGroups,
        res@[1].contents@ == setgroups_deny(),
        res@[2].file == ProcFile::GidMap,
        res@[2].contents@ == id_map_line(gid.0 as nat),
{
    let mut deny: Vec<u8> = Vec::new();
    deny.push(100u8);
    deny.push(101u8);
    deny.push(110u8);
    deny.push(121u8);
    assert(deny@ =~= setgroups_deny());
    let mut writes: Vec<ProcWrite> = Vec::new();
    writes.push(ProcWrite { file: ProcFile::UidMap, contents: id_map_contents(uid.0) });
    writes.push(ProcWrite { file: ProcFile::SetGroups, contents: deny });
    writes.push(ProcWrite { file: ProcFile::GidMap, contents: id_map_contents(gid.0) });
    writes
}

/// An ID map line written for `outer` reads back as the three fields `0`,
/// `outer` and `1`, separated by single spaces, the middle one in plain
/// decimal.
pub proof fn lemma_id_map_line_fields(outer: nat)
    ensures
        ({
            let line = id_map_line(outer);
            let d = decimal(outer);
            &&& line.len() == d.len() + 4
            &&& line[0] == 48u8 && line[1] == 32u8
            &&& line.subrange(2, line.len() - 2) == d
            &&& line[line.len() - 2] == 32u8 && line[line.len() - 1] == 49u8
            &&& is_digits(d)
            &&& decimal_value(d) == outer
            &&& (d[0] == 48u8 ==> d.len() == 1)
        }),
{
    lemma_decimal_round_trip(outer);
    let line = id_map_line(outer);
    let d = decimal(outer);
    assert(line.subrange(2, line.len() - 2) =~= d);
    if d[0] == 48u8 {
        assert(outer == 0);
        assert(decimal(0) == seq![48u8]);
    }
}

} // verus!

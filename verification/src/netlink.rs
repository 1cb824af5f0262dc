//! Results of libnl calls, and the flag changes asked of a route link.
use vstd::prelude::*;
use vstd::string::StringSliceAdditionalSpecFns;
use crate::cstring::{CBytes, nul_free};
use crate::consts::{IFF_UP, NLE_INVAL};

verus! {

/// A libnl error code (positive).
#[derive(Debug, Clone, Copy, PartialEq, Eq, Structural)]
pub struct NetlinkError(pub i32);

impl NetlinkError {
    /// Reads the return value of a libnl call: negative values are negated
    /// error codes, anything else is success.
    pub fn check_result(res: i32) -> (out: Result<(), NetlinkError>)
        requires
            res != i32::MIN,
        ensures
            out is Ok <==> res >= 0,
            out matches Err(e) ==> e.0 == -res && e.0 > 0,
    {
        if res < 0 {
            Err(NetlinkError(-res))
        } else {
            Ok(())
        }
    }
}

/// The name of a network interface as libnl takes it; a name that holds a
/// NUL byte is refused with `NLE_INVAL`.
pub fn link_name_arg(if_name: &str) -> (res: Result<CBytes, NetlinkError>)
    ensures
        res is Ok <==> nul_free(if_name.spec_bytes()),
        res matches Ok(c) ==> c@ == if_name.spec_bytes(),
        res matches Err(e) ==> e == NetlinkError(NLE_INVAL),
{
    match CBytes::from_str(if_name) {
        Ok(c) => Ok(c),
        Err(_nulerr) => Err(NetlinkError(NLE_INVAL)),
    }
}

/// The interface flags that a route link change sets.
pub struct NetlinkRouteLink {
    flags: u32,
}

impl View for NetlinkRouteLink {
    type V = u32;

    closed spec fn view(&self) -> u32 {
        self.flags
    }
}

impl NetlinkRouteLink {
    /// A change that sets no flags.
    pub fn new() -> (res: Self)
        ensures
            res@ == 0,
    {
        NetlinkRouteLink { flags: 0 }
    }

    /// The flags that the change sets.
    pub fn flags(&self) -> (res: u32)
        ensures
            res == self@,
    {
        self.flags
    }

    /// The change sets `flags` too.
    pub fn set_flags(&mut self, flags: u32)
        ensures
            final(self)@ == old(self)@ | flags,
    {
        self.flags = self.flags | flags;
    }

    /// The change brings the interface up.
    pub fn set_iff_up(&mut self)
        ensures
            final(self)@ == old(self)@ | IFF_UP,
    {
        self.set_flags(IFF_UP);
    }
}

} // verus!

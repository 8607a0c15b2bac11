//! Addresses: the host's own IPv4 address and the gateway candidate derived
//! from it.

use vstd::prelude::*;
use crate::text::{append_decimal, dec_rep};

verus! {

/// The local machine's outbound IPv4 address, as four octets.
#[derive(Clone, Copy, PartialEq, Eq, Structural, Debug)]
pub struct HostAddress {
    pub o0: u8,
    pub o1: u8,
    pub o2: u8,
    pub o3: u8,
}

/// A candidate gateway address, only ever derived from a `HostAddress`.
#[derive(Clone, Copy, PartialEq, Eq, Structural, Debug)]
pub struct TargetAddress {
    pub o0: u8,
    pub o1: u8,
    pub o2: u8,
    pub o3: u8,
}

/// The gateway candidate for a host: the host's first three octets, with the
/// final octet set to 1.
pub open spec fn target_of(host: HostAddress) -> TargetAddress {
    TargetAddress { o0: host.o0, o1: host.o1, o2: host.o2, o3: 1 }
}

/// Derives the candidate gateway address from the host's own address: the
/// first three octets are preserved and the fourth is always exactly 1.
pub fn derive_target_address(host: HostAddress) -> (target: TargetAddress)
    ensures
        target == target_of(host),
        target.o0 == host.o0,
        target.o1 == host.o1,
        target.o2 == host.o2,
        target.o3 == 1u8,
{
    TargetAddress { o0: host.o0, o1: host.o1, o2: host.o2, o3: 1 }
}

/// The dotted-decimal rendering of a target address.
pub open spec fn address_rep(t: TargetAddress) -> Seq<char> {
    dec_rep(t.o0 as nat) + "."@ + dec_rep(t.o1 as nat) + "."@ + dec_rep(t.o2 as nat) + "."@
        + dec_rep(t.o3 as nat)
}

/// Renders a target address in dotted-decimal form.
pub fn address_string(t: &TargetAddress) -> (s: String)
    ensures
        s@ == address_rep(*t),
{
    let mut s = String::new();
    append_decimal(&mut s, t.o0 as u16);
    s.append(".");
    append_decimal(&mut s, t.o1 as u16);
    s.append(".");
    append_decimal(&mut s, t.o2 as u16);
    s.append(".");
    append_decimal(&mut s, t.o3 as u16);
    proof {
        assert(s@ =~= address_rep(*t));
    }
    s
}

/// Gates a run on address inference: with no host address there is no target,
/// so no port is ever probed; otherwise the target is derived from the host.
pub fn begin_run(host: Option<HostAddress>) -> (target: Option<TargetAddress>)
    ensures
        target == (match host {
            None => None::<TargetAddress>,
            Some(h) => Some(target_of(h)),
        }),
{
    match host {
        None => None,
        Some(h) => Some(derive_target_address(h)),
    }
}

} // verus!

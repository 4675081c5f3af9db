//! Turns the configured networks into interface addresses and routes, one
//! list for each address family, in configuration order.

use crate::config::{AddressFamily, IpAddress, IpNetwork};
use vstd::prelude::*;

verus! {

/// A route: a network address and its prefix length.
#[derive(PartialEq, Eq, Structural, Clone, Copy, Debug)]
pub struct Route {
    pub address: IpAddress,
    pub prefix: u8,
}

/// The route that covers network `n`.
pub open spec fn route_of(n: IpNetwork) -> Route {
    Route { address: n.spec_network(), prefix: n.prefix }
}

/// The addresses of the networks of `s` that belong to `family`, in order.
pub open spec fn addresses_of(s: Seq<IpNetwork>, family: AddressFamily) -> Seq<IpAddress>
    decreases s.len(),
{
    if s.len() == 0 {
        Seq::empty()
    } else {
        let rest = addresses_of(s.drop_last(), family);
        if s.last().address.family == family {
            rest.push(s.last().address)
        } else {
            rest
        }
    }
}

/// The routes of the networks of `s` that belong to `family`, in order.
pub open spec fn routes_of(s: Seq<IpNetwork>, family: AddressFamily) -> Seq<Route>
    decreases s.len(),
{
    if s.len() == 0 {
        Seq::empty()
    } else {
        let rest = routes_of(s.drop_last(), family);
        if s.last().address.family == family {
            rest.push(route_of(s.last()))
        } else {
            rest
        }
    }
}

/// Every network of `s` is well formed.
pub open spec fn all_valid(s: Seq<IpNetwork>) -> bool {
    forall|i: int| 0 <= i < s.len() ==> #[trigger] s[i].wf()
}

/// Whether every network of `nets` is well formed.
pub fn networks_valid(nets: &Vec<IpNetwork>) -> (r: bool)
    ensures
        r == all_valid(nets@),
{
    let mut i: usize = 0;
    while i < nets.len()
        invariant
            i <= nets@.len(),
            forall|j: int| 0 <= j < i ==> #[trigger] nets@[j].wf(),
        decreases nets@.len() - i,
    {
        if !nets[i].is_valid() {
            return false;
        }
        i = i + 1;
    }
    true
}

/// The addresses of `nets`, IPv4 ones first and IPv6 ones second.
pub fn partition_addresses(nets: &Vec<IpNetwork>) -> (r: (Vec<IpAddress>, Vec<IpAddress>))
    ensures
        r.0@ == addresses_of(nets@, AddressFamily::V4),
        r.1@ == addresses_of(nets@, AddressFamily::V6),
{
    let mut v4: Vec<IpAddress> = Vec::new();
    let mut v6: Vec<IpAddress> = Vec::new();
    let mut i: usize = 0;
    while i < nets.len()
        invariant
            i <= nets@.len(),
            v4@ == addresses_of(nets@.take(i as int), AddressFamily::V4),
            v6@ == addresses_of(nets@.take(i as int), AddressFamily::V6),
        decreases nets@.len() - i,
    {
        let n = nets[i];
        proof {
            assert(nets@.take(i + 1).drop_last() =~= nets@.take(i as int));
        }
        if n.is_ipv4() {
            v4.push(n.address);
        } else {
            v6.push(n.address);
        }
        i = i + 1;
    }
    assert(nets@.take(nets@.len() as int) =~= nets@);
    (v4, v6)
}

/// The routes of `nets`, IPv4 ones first and IPv6 ones second.
pub fn partition_routes(nets: &Vec<IpNetwork>) -> (r: (Vec<Route>, Vec<Route>))
    requires
        all_valid(nets@),
    ensures
        r.0@ == routes_of(nets@, AddressFamily::V4),
        r.1@ == routes_of(nets@, AddressFamily::V6),
{
    let mut v4: Vec<Route> = Vec::new();
    let mut v6: Vec<Route> = Vec::new();
    let mut i: usize = 0;
    while i < nets.len()
        invariant
            i <= nets@.len(),
            all_valid(nets@),
            v4@ == routes_of(nets@.take(i as int), AddressFamily::V4),
            v6@ == routes_of(nets@.take(i as int), AddressFamily::V6),
        decreases nets@.len() - i,
    {
        let n = nets[i];
        proof {
            assert(nets@.take(i + 1).drop_last() =~= nets@.take(i as int));
            assert(nets@[i as int].wf());
        }
        let route = Route { address: n.network(), prefix: n.prefix };
        if n.is_ipv4() {
            v4.push(route);
        } else {
            v6.push(route);
        }
        i = i + 1;
    }
    assert(nets@.take(nets@.len() as int) =~= nets@);
    (v4, v6)
}

/// The routes to install, by family: what goes into the tunnel, and what is
/// kept out of it.
pub struct RouteSet {
    pub ipv4_inclusion: Vec<Route>,
    pub ipv6_inclusion: Vec<Route>,
    pub ipv4_exclusion: Vec<Route>,
    pub ipv6_exclusion: Vec<Route>,
}

/// Routes from the allowed networks and the excluded ones.
pub fn build_route_set(allowed: &Vec<IpNetwork>, excluded: &Vec<IpNetwork>) -> (r: RouteSet)
    requires
        all_valid(allowed@),
        all_valid(excluded@),
    ensures
        r.ipv4_inclusion@ == routes_of(allowed@, AddressFamily::V4),
        r.ipv6_inclusion@ == routes_of(allowed@, AddressFamily::V6),
        r.ipv4_exclusion@ == routes_of(excluded@, AddressFamily::V4),
        r.ipv6_exclusion@ == routes_of(excluded@, AddressFamily::V6),
{
    let (ipv4_inclusion, ipv6_inclusion) = partition_routes(allowed);
    let (ipv4_exclusion, ipv6_exclusion) = partition_routes(excluded);
    RouteSet { ipv4_inclusion, ipv6_inclusion, ipv4_exclusion, ipv6_exclusion }
}

} // verus!

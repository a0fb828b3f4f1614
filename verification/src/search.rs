//! The search predicate interface and the lookups a connection query makes:
//! address resolution, favorite flags and blacklist membership.

use vstd::prelude::*;

use crate::data_info::DataInfoHost;
use crate::info_address_port_pair::InfoAddressPortPair;
use crate::types::{Address, AddressPortPair, Host, TrafficDirection};

verus! {

/// The endpoint address of a connection that should be resolved to a host:
/// the remote end, so the destination of outgoing traffic and the source of
/// incoming traffic.
pub open spec fn spec_address_to_lookup(key: AddressPortPair, direction: TrafficDirection) -> Address {
    match direction {
        TrafficDirection::Outgoing => key.address2,
        TrafficDirection::Incoming => key.address1,
    }
}

/// Executable counterpart of [`spec_address_to_lookup`].
pub fn get_address_to_lookup(key: &AddressPortPair, direction: TrafficDirection) -> (a: Address)
    ensures
        a == spec_address_to_lookup(*key, direction),
{
    match direction {
        TrafficDirection::Outgoing => key.address2,
        TrafficDirection::Incoming => key.address1,
    }
}

/// First host associated with `addr` in the resolution index, if any.
pub open spec fn spec_lookup_host(resolutions: Seq<(Address, Host)>, addr: Address) -> Option<Host>
    decreases resolutions.len(),
{
    if resolutions.len() == 0 {
        None
    } else if resolutions[0].0 == addr {
        Some(resolutions[0].1)
    } else {
        spec_lookup_host(resolutions.drop_first(), addr)
    }
}

/// Looks an address up in the resolution index handed over by the resolution
/// collaborator.
pub fn lookup_host(resolutions: &Vec<(Address, Host)>, addr: &Address) -> (r: Option<Host>)
    ensures
        r == spec_lookup_host(resolutions@, *addr),
{
    let mut i: usize = 0;
    proof {
        assert(resolutions@.skip(0) =~= resolutions@);
    }
    while i < resolutions.len()
        invariant
            i <= resolutions@.len(),
            spec_lookup_host(resolutions@, *addr) == spec_lookup_host(
                resolutions@.skip(i as int),
                *addr,
            ),
        decreases resolutions@.len() - i,
    {
        proof {
            assert(resolutions@.skip(i as int)[0] == resolutions@[i as int]);
            assert(resolutions@.skip(i as int).drop_first() =~= resolutions@.skip(i + 1));
        }
        if resolutions[i].0 == *addr {
            return Some(resolutions[i].1);
        }
        i = i + 1;
    }
    None
}

/// First aggregate associated with `host` in the host table, if any.
pub open spec fn spec_lookup_host_info(hosts: Seq<(Host, DataInfoHost)>, host: Host) -> Option<
    DataInfoHost,
>
    decreases hosts.len(),
{
    if hosts.len() == 0 {
        None
    } else if hosts[0].0 == host {
        Some(hosts[0].1)
    } else {
        spec_lookup_host_info(hosts.drop_first(), host)
    }
}

/// Whether a resolved host is marked as a favorite: true only when
/// resolution succeeded and the host table holds the host with its favorite
/// flag set; false otherwise, including when resolution failed or the host
/// is missing from the table.
pub open spec fn spec_is_favorite(hosts: Seq<(Host, DataInfoHost)>, resolved: Option<Host>) -> bool {
    match resolved {
        Option::None => false,
        Option::Some(h) => match spec_lookup_host_info(hosts, h) {
            Option::None => false,
            Option::Some(d) => d.is_favorite,
        },
    }
}

/// Executable counterpart of [`spec_is_favorite`].
pub fn is_favorite_host(hosts: &Vec<(Host, DataInfoHost)>, resolved: Option<Host>) -> (r: bool)
    ensures
        r == spec_is_favorite(hosts@, resolved),
{
    match resolved {
        None => false,
        Some(h) => {
            let mut i: usize = 0;
            proof {
                assert(hosts@.skip(0) =~= hosts@);
            }
            while i < hosts.len()
                invariant
                    i <= hosts@.len(),
                    resolved == Some(h),
                    spec_lookup_host_info(hosts@, h) == spec_lookup_host_info(
                        hosts@.skip(i as int),
                        h,
                    ),
                decreases hosts@.len() - i,
            {
                proof {
                    assert(hosts@.skip(i as int)[0] == hosts@[i as int]);
                    assert(hosts@.skip(i as int).drop_first() =~= hosts@.skip(i + 1));
                }
                if hosts[i].0 == h {
                    return hosts[i].1.is_favorite;
                }
                i = i + 1;
            }
            false
        },
    }
}

/// Whether `addr` is a member of the blacklist.
pub open spec fn spec_in_blacklist(blacklist: Seq<Address>, addr: Address) -> bool {
    exists|i: int| 0 <= i < blacklist.len() && blacklist[i] == addr
}

/// Executable membership test against the blacklist set.
pub fn in_blacklist(blacklist: &Vec<Address>, addr: &Address) -> (r: bool)
    ensures
        r == spec_in_blacklist(blacklist@, *addr),
{
    let mut i: usize = 0;
    while i < blacklist.len()
        invariant
            i <= blacklist@.len(),
            forall|k: int| 0 <= k < i ==> blacklist@[k] != *addr,
        decreases blacklist@.len() - i,
    {
        if blacklist[i] == *addr {
            return true;
        }
        i = i + 1;
    }
    false
}

/// The search predicate a connection query filters with. The evaluator is a
/// collaborator capability: the query engine only relies on the exec
/// matcher agreeing with its own specification, which every implementation
/// proves through the `ensures` of [`SearchMatcher::match_entry`].
pub trait SearchMatcher: Sized {
    /// Whether an entry satisfies the search constraints.
    spec fn matches_spec(
        &self,
        key: AddressPortPair,
        record: InfoAddressPortPair,
        resolved: Option<Host>,
        is_favorite: bool,
    ) -> bool;

    /// Executable evaluation, agreeing exactly with
    /// [`Self::matches_spec`].
    fn match_entry(
        &self,
        key: &AddressPortPair,
        record: &InfoAddressPortPair,
        resolved: Option<Host>,
        is_favorite: bool,
    ) -> (r: bool)
        ensures
            r == self.matches_spec(*key, *record, resolved, is_favorite),
    ;
}

/// The empty search: every entry matches.
#[derive(Clone, Copy, Debug, Default)]
pub struct MatchAll;

impl SearchMatcher for MatchAll {
    open spec fn matches_spec(
        &self,
        key: AddressPortPair,
        record: InfoAddressPortPair,
        resolved: Option<Host>,
        is_favorite: bool,
    ) -> bool {
        true
    }

    fn match_entry(
        &self,
        key: &AddressPortPair,
        record: &InfoAddressPortPair,
        resolved: Option<Host>,
        is_favorite: bool,
    ) -> (r: bool) {
        true
    }
}

/// Restricts the report to connections whose resolved host is a favorite.
#[derive(Clone, Copy, Debug, Default)]
pub struct MatchFavorites;

impl SearchMatcher for MatchFavorites {
    open spec fn matches_spec(
        &self,
        key: AddressPortPair,
        record: InfoAddressPortPair,
        resolved: Option<Host>,
        is_favorite: bool,
    ) -> bool {
        is_favorite
    }

    fn match_entry(
        &self,
        key: &AddressPortPair,
        record: &InfoAddressPortPair,
        resolved: Option<Host>,
        is_favorite: bool,
    ) -> (r: bool) {
        is_favorite
    }
}

/// Restricts the report to connections flowing in one direction.
#[derive(Clone, Copy, Debug)]
pub struct MatchDirection {
    pub direction: TrafficDirection,
}

impl SearchMatcher for MatchDirection {
    open spec fn matches_spec(
        &self,
        key: AddressPortPair,
        record: InfoAddressPortPair,
        resolved: Option<Host>,
        is_favorite: bool,
    ) -> bool {
        record.traffic_direction == self.direction
    }

    fn match_entry(
        &self,
        key: &AddressPortPair,
        record: &InfoAddressPortPair,
        resolved: Option<Host>,
        is_favorite: bool,
    ) -> (r: bool) {
        record.traffic_direction == self.direction
    }
}

} // verus!

//! Plain value types shared by the record and query modules.
//!
//! Addresses, resolved host identities and service classifications are
//! produced by the capture and resolution collaborators; this crate only
//! carries them as values, so each is modelled by the data the engine
//! actually reads: an address as its numeric value, a resolved host as an
//! opaque identity, a service as its classification.

use vstd::prelude::*;

verus! {

/// A raw network address, held as its numeric value (an IPv4 address is
/// zero-extended into the same space an IPv6 address occupies).
#[derive(Clone, Copy, Debug, PartialEq, Eq, Structural, Hash)]
pub struct Address {
    pub value: u128,
}

/// The identifying address:port pair of both endpoints of a traffic flow.
///
/// Ports are absent for link-layer traffic that carries none.
#[derive(Clone, Copy, Debug, PartialEq, Eq, Structural, Hash)]
pub struct AddressPortPair {
    /// Source address.
    pub address1: Address,
    /// Source port, if the protocol has one.
    pub port1: Option<u16>,
    /// Destination address.
    pub address2: Address,
    /// Destination port, if the protocol has one.
    pub port2: Option<u16>,
}

/// A resolved network endpoint identity, handed out by the resolution
/// collaborator; distinct from a raw [`Address`].
#[derive(Clone, Copy, Debug, PartialEq, Eq, Structural, Hash)]
pub struct Host {
    pub id: u64,
}

/// Upper-layer service classification attached to a flow.
#[derive(Clone, Copy, Debug, PartialEq, Eq, Structural, Hash, Default)]
pub enum Service {
    /// The flow could carry a service but none was recognised.
    #[default]
    Unknown,
    /// The flow cannot carry an upper-layer service (e.g. ARP).
    NotApplicable,
    /// A recognised service, by its entry in the collaborator's name table.
    Known(u16),
}

/// Classification of a flow as incoming or outgoing relative to the
/// monitored host.
#[derive(Clone, Copy, Debug, PartialEq, Eq, Structural, Hash, Default)]
pub enum TrafficDirection {
    #[default]
    Outgoing,
    Incoming,
}

/// Unit used when reporting traffic volume.
#[derive(Clone, Copy, Debug, PartialEq, Eq, Structural, Hash, Default)]
pub enum DataRepr {
    #[default]
    Packets,
    Bytes,
    Bits,
}

} // verus!

//! The configuration of one session, once parsed: keys, addresses, routes.

use vstd::prelude::*;

verus! {

#[verifier::external_type_specification]
#[verifier::external_body]
pub struct ExDecodeError(base64::DecodeError);

/// The address family of an address or network.
#[derive(PartialEq, Eq, Structural, Clone, Copy, Debug)]
pub enum AddressFamily {
    V4,
    V6,
}

/// The number of bits in an address of `family`.
pub open spec fn width(family: AddressFamily) -> u32 {
    match family {
        AddressFamily::V4 => 32,
        AddressFamily::V6 => 128,
    }
}

/// An IP address, its bits read as one big-endian number.
#[derive(PartialEq, Eq, Structural, Clone, Copy, Debug)]
pub struct IpAddress {
    pub family: AddressFamily,
    pub bits: u128,
}

impl IpAddress {
    /// The bits fit the family's width.
    pub open spec fn wf(self) -> bool {
        self.family == AddressFamily::V4 ==> self.bits <= u32::MAX
    }
}

/// An address together with a prefix length, as `10.0.0.2/24`.
#[derive(PartialEq, Eq, Structural, Clone, Copy, Debug)]
pub struct IpNetwork {
    pub address: IpAddress,
    pub prefix: u8,
}

/// The mask of the first `prefix` bits of an address of `family`.
pub open spec fn prefix_mask(family: AddressFamily, prefix: u8) -> u128 {
    if prefix == 0 {
        0
    } else {
        match family {
            AddressFamily::V4 => (0xffff_ffffu128 << (32 - prefix) as u128) & 0xffff_ffffu128,
            AddressFamily::V6 => u128::MAX << (128 - prefix) as u128,
        }
    }
}

impl IpNetwork {
    /// The prefix fits the address, and the address its family.
    pub open spec fn wf(self) -> bool {
        &&& self.address.wf()
        &&& self.prefix as u32 <= width(self.address.family)
    }

    /// The network address: the address with every bit past the prefix
    /// cleared.
    pub open spec fn spec_network(self) -> IpAddress {
        IpAddress {
            family: self.address.family,
            bits: self.address.bits & prefix_mask(self.address.family, self.prefix),
        }
    }

    /// Whether the prefix fits the address, and the address its family.
    pub fn is_valid(&self) -> (r: bool)
        ensures
            r == self.wf(),
    {
        match self.address.family {
            AddressFamily::V4 => self.address.bits <= u32::MAX as u128 && self.prefix <= 32,
            AddressFamily::V6 => self.prefix <= 128,
        }
    }

    pub fn is_ipv4(&self) -> (r: bool)
        ensures
            r == (self.address.family == AddressFamily::V4),
    {
        self.address.family == AddressFamily::V4
    }

    /// The network address.
    pub fn network(&self) -> (r: IpAddress)
        requires
            self.wf(),
        ensures
            r == self.spec_network(),
    {
        let mask: u128 = if self.prefix == 0 {
            0
        } else {
            match self.address.family {
                AddressFamily::V4 => (0xffff_ffffu128 << (32 - self.prefix) as u128) & 0xffff_ffffu128,
                AddressFamily::V6 => u128::MAX << (128 - self.prefix) as u128,
            }
        };
        IpAddress { family: self.address.family, bits: self.address.bits & mask }
    }
}

/// The settings of the local end of the tunnel.
pub struct InterfaceConfig {
    /// Our private key, as its 32 raw bytes.
    pub private_key: [u8; 32],
    /// Addresses of the tunnel interface.
    pub address: Vec<IpNetwork>,
    /// DNS servers.
    pub dns_servers: Vec<IpAddress>,
    /// DNS search domains.
    pub search_domains: Vec<String>,
}

/// The settings of the remote peer.
pub struct PeerConfig {
    /// The peer's public key, as its 32 raw bytes.
    pub public_key: [u8; 32],
    /// The port the peer listens on.
    pub port: u16,
    /// Networks routed into the tunnel.
    pub allowed_ips: Vec<IpNetwork>,
    /// Networks kept out of the tunnel.
    pub excluded_ips: Vec<IpNetwork>,
    /// Seconds between keepalive packets, if any are wanted.
    pub persistent_keepalive: Option<u16>,
    /// A pre-shared key for an extra layer of symmetric encryption.
    pub preshared_key: Option<[u8; 32]>,
}

/// A whole configuration.
pub struct WireGuardConfig {
    pub interface: InterfaceConfig,
    pub peer: PeerConfig,
}

/// What standard base64 decoding makes of a text, if it is valid base64.
pub uninterp spec fn base64_decoded(s: Seq<char>) -> Option<Seq<u8>>;

/// Relies on base64's `decode` (standard alphabet, with padding): the bytes
/// that the text encodes, or why it is not valid base64.
#[verifier::external_body]
fn base64_decode(s: &str) -> (r: Result<Vec<u8>, base64::DecodeError>)
    ensures
        match r {
            Ok(v) => base64_decoded(s@) == Some(v@),
            Err(_) => base64_decoded(s@) is None,
        },
{
    base64::decode(s)
}

/// Why a pre-shared key was refused.
#[derive(Debug)]
pub enum PresharedKeyError {
    /// The text is not valid base64.
    Decode(base64::DecodeError),
    /// The text does not encode exactly 32 bytes.
    InvalidLength,
}

/// The 32-byte key that `decoded` holds, if it holds exactly 32 bytes.
pub fn preshared_key_from_bytes(decoded: &Vec<u8>) -> (r: Option<[u8; 32]>)
    ensures
        match r {
            Some(k) => decoded@.len() == 32 && k@ == decoded@,
            None => decoded@.len() != 32,
        },
{
    if decoded.len() != 32 {
        return None;
    }
    let mut k: [u8; 32] = [0u8; 32];
    let mut i: usize = 0;
    while i < 32
        invariant
            decoded@.len() == 32,
            i <= 32,
            forall|j: int| 0 <= j < i ==> k@[j] == decoded@[j],
        decreases 32 - i,
    {
        k[i] = decoded[i];
        i = i + 1;
    }
    assert(k@ =~= decoded@);
    Some(k)
}

/// Reads a pre-shared key written in base64: it must encode exactly 32
/// bytes.
pub fn from_base64(s: &str) -> (r: Result<[u8; 32], PresharedKeyError>)
    ensures
        match r {
            Ok(k) => base64_decoded(s@) == Some(k@),
            Err(PresharedKeyError::Decode(_)) => base64_decoded(s@) is None,
            Err(PresharedKeyError::InvalidLength) => {
                &&& base64_decoded(s@) is Some
                &&& base64_decoded(s@).unwrap().len() != 32
            },
        },
{
    match base64_decode(s) {
        Ok(bytes) => match preshared_key_from_bytes(&bytes) {
            Some(k) => Ok(k),
            None => Err(PresharedKeyError::InvalidLength),
        },
        Err(e) => Err(PresharedKeyError::Decode(e)),
    }
}

} // verus!

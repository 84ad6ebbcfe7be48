//! PXE base code protocol data.

use vstd::prelude::*;

use crate::data_types::{Char8, IpAddress, MacAddress};

verus! {

/// A DHCPv4 packet as carried by the PXE base code protocol.
#[derive(Clone, Copy, Debug)]
pub struct PxeBaseCodeDhcpV4Packet {
    pub bootp_opcode: u8,
    pub bootp_hw_type: u8,
    pub bootp_hw_addr_len: u8,
    pub bootp_gate_hops: u8,
    pub bootp_ident: u32,
    pub bootp_seconds: u16,
    pub bootp_flags: u16,
    pub bootp_ci_addr: [u8; 4],
    pub bootp_yi_addr: [u8; 4],
    pub bootp_si_addr: [u8; 4],
    pub bootp_gi_addr: [u8; 4],
    pub bootp_hw_addr: [u8; 16],
    pub bootp_srv_name: [u8; 64],
    pub bootp_boot_file: [u8; 128],
    pub dhcp_magik: u32,
    pub dhcp_options: [u8; 56],
}

/// A DHCPv6 packet as carried by the PXE base code protocol.
#[derive(Clone, Copy, Debug)]
pub struct PxeBaseCodeDhcpV6Packet {
    pub message_type: u8,
    pub transaction_id: [u8; 3],
    pub dhcp_options: [u8; 1024],
}

/// Receive filter settings of the PXE base code protocol.
#[derive(Clone, Copy, Debug)]
pub struct PxeBaseCodeIpFilter {
    /// Receive filter flags.
    pub filters: PxeBaseCodeIpFilterFlags,
    /// How many entries of `ip_list` are in use.
    pub ip_cnt: u8,
    pub reserved: u16,
    /// The addresses to filter on.
    pub ip_list: [IpAddress; 8],
}

/// Receive filter flags: which classes of traffic the base code accepts.
#[derive(Clone, Copy, Debug, Default, PartialEq, Eq, PartialOrd, Ord, Hash)]
pub struct PxeBaseCodeIpFilterFlags {
    bits: u8,
}

impl PxeBaseCodeIpFilterFlags {
    /// Accept frames addressed to the station's own IP address.
    pub const STATION_IP: u8 = 0x01;

    /// Accept broadcast frames.
    pub const BROADCAST: u8 = 0x02;

    /// Accept all frames.
    pub const PROMISCUOUS: u8 = 0x04;

    /// Accept all multicast frames.
    pub const PROMISCUOUS_MULTICAST: u8 = 0x08;

    /// The raw bits this flag set carries.
    pub closed spec fn spec_bits(&self) -> u8 {
        self.bits
    }

    /// A flag set with no flag raised.
    pub fn empty() -> (r: Self)
        ensures
            r.spec_bits() == 0,
    {
        PxeBaseCodeIpFilterFlags { bits: 0 }
    }

    /// A flag set from raw bits, with bits outside the four known flags
    /// cleared.
    pub fn from_bits_truncate(bits: u8) -> (r: Self)
        ensures
            r.spec_bits() == bits & 0x0f,
    {
        PxeBaseCodeIpFilterFlags { bits: bits & 0x0f }
    }

    /// The raw bits.
    pub fn bits(&self) -> (r: u8)
        ensures
            r == self.spec_bits(),
    {
        self.bits
    }

    /// Whether every flag raised in `other` is raised in `self` too.
    pub fn contains(&self, other: Self) -> (r: bool)
        ensures
            r == (self.spec_bits() & other.spec_bits() == other.spec_bits()),
    {
        self.bits & other.bits == other.bits
    }

    /// The flags raised in either operand.
    pub fn union(&self, other: Self) -> (r: Self)
        ensures
            r.spec_bits() == self.spec_bits() | other.spec_bits(),
    {
        PxeBaseCodeIpFilterFlags { bits: self.bits | other.bits }
    }
}

/// An entry of the PXE base code protocol's ARP cache.
#[derive(Clone, Copy, Debug)]
pub struct PxeBaseCodeArpEntry {
    pub ip_addr: IpAddress,
    pub mac_addr: MacAddress,
}

/// An entry of the PXE base code protocol's route table.
#[derive(Clone, Copy, Debug)]
pub struct PxeBaseCodeRouteEntry {
    pub ip_addr: IpAddress,
    pub subnet_mask: IpAddress,
    pub gw_addr: IpAddress,
}

/// An ICMP error packet as reported by the PXE base code protocol.
#[derive(Clone, Debug)]
pub struct PxeBaseCodeIcmpError {
    pub ty: u8,
    pub code: u8,
    pub checksum: u16,
    pub u: PxeBaseCodeIcmpErrorUnion,
    pub data: [u8; 494],
}

/// In the C API, this is an anonymous union inside the definition of the
/// ICMP error: four bytes read as a reserved word, a next-hop MTU, a
/// pointer offset, or an echo pair, depending on the error's type.
/// Carried here as the raw little-endian word, with one accessor per
/// reading.
#[derive(Clone, Copy, Debug)]
pub struct PxeBaseCodeIcmpErrorUnion {
    /// The raw four bytes, as a little-endian word.
    pub raw: u32,
}

impl PxeBaseCodeIcmpErrorUnion {
    /// The word read as a next-hop MTU.
    pub fn mtu(&self) -> (r: u32)
        ensures
            r == self.raw,
    {
        self.raw
    }

    /// The word read as a pointer offset.
    pub fn pointer(&self) -> (r: u32)
        ensures
            r == self.raw,
    {
        self.raw
    }

    /// The word read as an echo identifier and sequence number: the low
    /// half is the identifier, the high half the sequence number.
    pub fn echo(&self) -> (r: PxeBaseCodeIcmpErrorEcho)
        ensures
            r.identifier as u32 == self.raw & 0xffff,
            r.sequence as u32 == self.raw >> 16,
    {
        proof {
            let w: u32 = self.raw;
            assert(w & 0xffff <= 0xffff) by (bit_vector);
            assert(w >> 16 <= 0xffff) by (bit_vector);
        }
        PxeBaseCodeIcmpErrorEcho {
            identifier: (self.raw & 0xffff) as u16,
            sequence: (self.raw >> 16) as u16,
        }
    }
}

/// In the C API, this is an anonymous struct inside the definition of
/// the ICMP error.
#[derive(Clone, Copy, Debug, PartialEq, Eq, Structural)]
pub struct PxeBaseCodeIcmpErrorEcho {
    pub identifier: u16,
    pub sequence: u16,
}

/// A TFTP error as reported by the PXE base code protocol.
#[derive(Clone, Debug)]
pub struct PxeBaseCodeTftpError {
    pub error_code: u8,
    pub error_string: [Char8; 127],
}

} // verus!

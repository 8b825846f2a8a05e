//! Parsing of Ethernet II frames and of the ARP, IPv4 and IPv6 packets they
//! carry, with every accessor proved against a model of the frame's bytes.
//!
//! The model lives in [`ethernet`] as spec functions over `Seq<u8>`
//! (`spec_header_len`, `spec_ethertype`, `spec_vlan_tags`, ...); each type's
//! view is the buffer it was built from.

pub mod error;
#[allow(non_snake_case)]
pub mod EtherType;
pub mod ethernet;
pub mod payload;

pub use error::Error;
pub use ethernet::{Ethernet, EthernetPdu, VlanTag, VlanTagIterator};
pub use payload::{ArpPdu, Ipv4Pdu, Ipv6Pdu};

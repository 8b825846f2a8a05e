//! Values of the EtherType field that this crate recognises.

use vstd::prelude::*;

verus! {

/// Address Resolution Protocol.
pub const ARP: u16 = 0x0806;
/// Internet Protocol version 4.
pub const IPV4: u16 = 0x0800;
/// Internet Protocol version 6.
pub const IPV6: u16 = 0x86DD;
/// IEEE 802.1Q VLAN tag.
pub const DOT1Q: u16 = 0x8100;
/// IEEE 802.1ad (QinQ) service VLAN tag.
pub const QINQ: u16 = 0x88A8;
/// Transparent Ethernet Bridging.
pub const TEB: u16 = 0x6558;

} // verus!

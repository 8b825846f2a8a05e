//! The network-layer payloads that an Ethernet frame can carry.
//!
//! Each type is a checked view of a byte buffer: constructing one succeeds exactly
//! when the buffer starts with a header of that protocol whose fixed fields are
//! acceptable, and the value then keeps the whole buffer.

use vstd::prelude::*;

use crate::error::Error;

verus! {

/// Length of the fixed part of an ARP header (hardware type, protocol type,
/// the two address lengths and the operation).
pub const ARP_FIXED_LEN: usize = 8;

/// Length of an IPv4 header without options.
pub const IPV4_MIN_HEADER_LEN: usize = 20;

/// Length of the fixed IPv6 header.
pub const IPV6_HEADER_LEN: usize = 40;

/// What parsing `s` as an ARP packet gives: the fixed part must be there, and so
/// must the four addresses whose lengths it announces.
pub open spec fn spec_arp_check(s: Seq<u8>) -> Result<(), Error> {
    if s.len() < ARP_FIXED_LEN {
        Err(Error::Truncated)
    } else if s.len() < ARP_FIXED_LEN + 2 * (s[4] as int + s[5] as int) {
        Err(Error::Truncated)
    } else {
        Ok(())
    }
}

/// What parsing `s` as an IPv4 packet gives: a minimal header, version 4, a
/// header length field of at least five words, and that many words present.
pub open spec fn spec_ipv4_check(s: Seq<u8>) -> Result<(), Error> {
    if s.len() < IPV4_MIN_HEADER_LEN {
        Err(Error::Truncated)
    } else if s[0] / 16 != 4 {
        Err(Error::Malformed)
    } else if (s[0] % 16) * 4 < IPV4_MIN_HEADER_LEN {
        Err(Error::Malformed)
    } else if s.len() < (s[0] % 16) * 4 {
        Err(Error::Truncated)
    } else {
        Ok(())
    }
}

/// What parsing `s` as an IPv6 packet gives: the fixed header, with version 6.
pub open spec fn spec_ipv6_check(s: Seq<u8>) -> Result<(), Error> {
    if s.len() < IPV6_HEADER_LEN {
        Err(Error::Truncated)
    } else if s[0] / 16 != 6 {
        Err(Error::Malformed)
    } else {
        Ok(())
    }
}

/// An ARP packet.
#[derive(Debug, Copy, Clone)]
pub struct ArpPdu<'a> {
    buffer: &'a [u8],
}

/// An IPv4 packet.
#[derive(Debug, Copy, Clone)]
pub struct Ipv4Pdu<'a> {
    buffer: &'a [u8],
}

/// An IPv6 packet.
#[derive(Debug, Copy, Clone)]
pub struct Ipv6Pdu<'a> {
    buffer: &'a [u8],
}

impl<'a> View for ArpPdu<'a> {
    type V = Seq<u8>;

    closed spec fn view(&self) -> Seq<u8> {
        self.buffer@
    }
}

impl<'a> View for Ipv4Pdu<'a> {
    type V = Seq<u8>;

    closed spec fn view(&self) -> Seq<u8> {
        self.buffer@
    }
}

impl<'a> View for Ipv6Pdu<'a> {
    type V = Seq<u8>;

    closed spec fn view(&self) -> Seq<u8> {
        self.buffer@
    }
}

impl<'a> ArpPdu<'a> {
    #[verifier::type_invariant]
    spec fn well_formed(self) -> bool {
        spec_arp_check(self.buffer@) is Ok
    }

    /// Constructs an [`ArpPdu`] backed by the provided `buffer`.
    pub fn new(buffer: &'a [u8]) -> (r: Result<Self, Error>)
        ensures
            r is Ok <==> spec_arp_check(buffer@) is Ok,
            r matches Ok(p) ==> p@ == buffer@,
            r matches Err(e) ==> spec_arp_check(buffer@) == Err::<(), Error>(e),
    {
        if buffer.len() < ARP_FIXED_LEN {
            return Err(Error::Truncated);
        }
        let addresses: usize = 2 * (buffer[4] as usize + buffer[5] as usize);
        if buffer.len() < ARP_FIXED_LEN + addresses {
            return Err(Error::Truncated);
        }
        Ok(ArpPdu { buffer })
    }

    /// Returns the entire underlying buffer.
    pub fn buffer(&'a self) -> (r: &'a [u8])
        ensures
            r@ == self@,
    {
        self.buffer
    }
}

impl<'a> Ipv4Pdu<'a> {
    #[verifier::type_invariant]
    spec fn well_formed(self) -> bool {
        spec_ipv4_check(self.buffer@) is Ok
    }

    /// Constructs an [`Ipv4Pdu`] backed by the provided `buffer`.
    pub fn new(buffer: &'a [u8]) -> (r: Result<Self, Error>)
        ensures
            r is Ok <==> spec_ipv4_check(buffer@) is Ok,
            r matches Ok(p) ==> p@ == buffer@,
            r matches Err(e) ==> spec_ipv4_check(buffer@) == Err::<(), Error>(e),
    {
        if buffer.len() < IPV4_MIN_HEADER_LEN {
            return Err(Error::Truncated);
        }
        if buffer[0] / 16 != 4 {
            return Err(Error::Malformed);
        }
        let header_len: usize = (buffer[0] % 16) as usize * 4;
        if header_len < IPV4_MIN_HEADER_LEN {
            return Err(Error::Malformed);
        }
        if buffer.len() < header_len {
            return Err(Error::Truncated);
        }
        Ok(Ipv4Pdu { buffer })
    }

    /// Returns the entire underlying buffer.
    pub fn buffer(&'a self) -> (r: &'a [u8])
        ensures
            r@ == self@,
    {
        self.buffer
    }
}

impl<'a> Ipv6Pdu<'a> {
    #[verifier::type_invariant]
    spec fn well_formed(self) -> bool {
        spec_ipv6_check(self.buffer@) is Ok
    }

    /// Constructs an [`Ipv6Pdu`] backed by the provided `buffer`.
    pub fn new(buffer: &'a [u8]) -> (r: Result<Self, Error>)
        ensures
            r is Ok <==> spec_ipv6_check(buffer@) is Ok,
            r matches Ok(p) ==> p@ == buffer@,
            r matches Err(e) ==> spec_ipv6_check(buffer@) == Err::<(), Error>(e),
    {
        if buffer.len() < IPV6_HEADER_LEN {
            return Err(Error::Truncated);
        }
        if buffer[0] / 16 != 6 {
            return Err(Error::Malformed);
        }
        Ok(Ipv6Pdu { buffer })
    }

    /// Returns the entire underlying buffer.
    pub fn buffer(&'a self) -> (r: &'a [u8])
        ensures
            r@ == self@,
    {
        self.buffer
    }
}

/// Bytes appended to an acceptable ARP, IPv4 or IPv6 packet do not make it
/// unacceptable: the checks read only the start of the packet.
pub proof fn lemma_payload_checks_stable_under_extension(s: Seq<u8>, t: Seq<u8>)
    ensures
        spec_arp_check(s) is Ok ==> spec_arp_check(s + t) is Ok,
        spec_ipv4_check(s) is Ok ==> spec_ipv4_check(s + t) is Ok,
        spec_ipv6_check(s) is Ok ==> spec_ipv6_check(s + t) is Ok,
{
    if s.len() > 5 {
        assert((s + t)[0] == s[0] && (s + t)[4] == s[4] && (s + t)[5] == s[5]);
    } else if s.len() > 0 {
        assert((s + t)[0] == s[0]);
    }
}

/// What the payload checks look at: ARP its length and the two address
/// lengths at bytes 4 and 5, IPv4 and IPv6 their length and first byte. Two
/// buffers of the same length that agree there are checked alike.
pub proof fn lemma_payload_checks_read_header_fields(s: Seq<u8>, t: Seq<u8>)
    requires
        s.len() == t.len(),
    ensures
        (s.len() < 6 || (s[4] == t[4] && s[5] == t[5])) ==> spec_arp_check(s) == spec_arp_check(t),
        (s.len() == 0 || s[0] == t[0]) ==> spec_ipv4_check(s) == spec_ipv4_check(t)
            && spec_ipv6_check(s) == spec_ipv6_check(t),
{
}

/// A packet shorter than its protocol's fixed header is refused as truncated:
/// 8 bytes for ARP, 20 for IPv4, 40 for IPv6. An IPv4 packet of the right
/// version with a header length of `k` words, `5 <= k`, is accepted exactly
/// when its `4 * k` header bytes are there.
pub proof fn lemma_payload_minimum_lengths(s: Seq<u8>)
    ensures
        s.len() < 8 ==> spec_arp_check(s) == Err::<(), Error>(Error::Truncated),
        s.len() < 20 ==> spec_ipv4_check(s) == Err::<(), Error>(Error::Truncated),
        s.len() < 40 ==> spec_ipv6_check(s) == Err::<(), Error>(Error::Truncated),
        s.len() >= 20 && s[0] >= 0x45 && s[0] <= 0x4F ==> (spec_ipv4_check(s) is Ok <==> s.len()
            >= 4 * (s[0] - 0x40)),
        s.len() >= 40 ==> (spec_ipv6_check(s) is Ok <==> 0x60 <= s[0] <= 0x6F),
        s.len() >= 8 ==> (spec_arp_check(s) is Ok <==> s.len() >= 8 + 2 * (s[4] as int
            + s[5] as int)),
{
}

} // verus!

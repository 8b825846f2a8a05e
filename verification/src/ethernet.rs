//! Ethernet II frames, untagged, with one IEEE 802.1Q tag, or with an
//! IEEE 802.1ad (QinQ) service tag followed by an 802.1Q tag.

use vstd::prelude::*;

use crate::error::Error;
use crate::payload::{
    spec_arp_check, spec_ipv4_check, spec_ipv6_check, ArpPdu, Ipv4Pdu, Ipv6Pdu,
};
use crate::EtherType;

verus! {

// ---------------------------------------------------------------------------
// The model: what the bytes of a frame mean
// ---------------------------------------------------------------------------

/// The big-endian 16-bit number held by `s[i]` and `s[i + 1]`.
pub open spec fn be16_at(s: Seq<u8>, i: int) -> int {
    s[i] as int * 256 + s[i + 1] as int
}

/// The smallest value of the type/length field that is an EtherType; smaller
/// values give the length of an IEEE 802.3 (LLC) frame.
pub const MIN_ETHERTYPE: u16 = 0x0600;

/// Parsing the header of the frame `s`: the length of the header (addresses,
/// tags and EtherType), or why the frame is refused.
pub open spec fn spec_header_len(s: Seq<u8>) -> Result<nat, Error> {
    if s.len() < 14 {
        Err(Error::Truncated)
    } else if be16_at(s, 12) < MIN_ETHERTYPE {
        Err(Error::Malformed)
    } else if be16_at(s, 12) == EtherType::DOT1Q {
        if s.len() < 18 {
            Err(Error::Truncated)
        } else {
            Ok(18)
        }
    } else if be16_at(s, 12) == EtherType::QINQ {
        if s.len() < 18 {
            Err(Error::Truncated)
        } else if be16_at(s, 16) != EtherType::DOT1Q {
            Err(Error::Malformed)
        } else if s.len() < 22 {
            Err(Error::Truncated)
        } else {
            Ok(22)
        }
    } else {
        Ok(14)
    }
}

/// `s` is a frame that [`EthernetPdu::new`] accepts.
pub open spec fn frame_ok(s: Seq<u8>) -> bool {
    spec_header_len(s) is Ok
}

/// The header length of an accepted frame (0 for a refused one).
pub open spec fn spec_ihl(s: Seq<u8>) -> int {
    match spec_header_len(s) {
        Ok(n) => n as int,
        Err(_) => 0,
    }
}

/// The tag protocol identifier: the field that follows the two addresses.
pub open spec fn spec_tpid(s: Seq<u8>) -> int {
    be16_at(s, 12)
}

/// The EtherType as [`EthernetPdu::ethertype`] reads it: behind an 802.1Q tag
/// when there is one, else the field after the addresses.
pub open spec fn spec_ethertype(s: Seq<u8>) -> int {
    if spec_tpid(s) == EtherType::DOT1Q {
        be16_at(s, 16)
    } else {
        spec_tpid(s)
    }
}

/// Priority code point held by the tag control byte `b`: its top three bits.
pub open spec fn spec_pcp(b: u8) -> u8 {
    (b / 32) as u8
}

/// Drop eligible indicator held by the tag control byte `b`: its fourth bit.
pub open spec fn spec_dei(b: u8) -> bool {
    (b / 16) % 2 == 1
}

/// VLAN identifier held by the tag control bytes `hi`, `lo`: their low 12 bits.
pub open spec fn spec_vid(hi: u8, lo: u8) -> u16 {
    ((hi % 16) as int * 256 + lo as int) as u16
}

/// The VLAN identifier of an 802.1Q-tagged frame.
pub open spec fn spec_vlan(s: Seq<u8>) -> Option<u16> {
    if spec_tpid(s) == EtherType::DOT1Q {
        Some(spec_vid(s[14], s[15]))
    } else {
        None
    }
}

/// The priority code point of an 802.1Q-tagged frame.
pub open spec fn spec_vlan_pcp(s: Seq<u8>) -> Option<u8> {
    if spec_tpid(s) == EtherType::DOT1Q {
        Some(spec_pcp(s[14]))
    } else {
        None
    }
}

/// The drop eligible indicator of an 802.1Q-tagged frame.
pub open spec fn spec_vlan_dei(s: Seq<u8>) -> Option<bool> {
    if spec_tpid(s) == EtherType::DOT1Q {
        Some(spec_dei(s[14]))
    } else {
        None
    }
}

/// The VLAN tag that starts at `pos` in `s`.
pub open spec fn tag_at(s: Seq<u8>, pos: int) -> VlanTag {
    VlanTag {
        protocol_id: be16_at(s, pos) as u16,
        priority_codepoint: spec_pcp(s[pos + 2]),
        drop_eligible: spec_dei(s[pos + 2]),
        id: spec_vid(s[pos + 2], s[pos + 3]),
    }
}

/// The VLAN tags found from `pos` on: a QinQ tag is followed by another tag,
/// an 802.1Q tag ends the list, anything else is no tag.
pub open spec fn tag_sequence(s: Seq<u8>, pos: int) -> Seq<VlanTag>
    decreases s.len() - pos,
{
    if pos < 0 || pos + 4 > s.len() {
        Seq::empty()
    } else if be16_at(s, pos) == EtherType::DOT1Q {
        seq![tag_at(s, pos)]
    } else if be16_at(s, pos) == EtherType::QINQ {
        seq![tag_at(s, pos)] + tag_sequence(s, pos + 4)
    } else {
        Seq::empty()
    }
}

/// The VLAN tags of the frame `s`, in the order in which they appear.
pub open spec fn spec_vlan_tags(s: Seq<u8>) -> Seq<VlanTag> {
    tag_sequence(s, 12)
}

/// Which payload [`EthernetPdu::into_inner`] reads the rest of the frame as,
/// and what checking it gives.
pub open spec fn spec_inner_check(s: Seq<u8>) -> Result<(), Error> {
    let rest = s.skip(spec_ihl(s));
    if spec_ethertype(s) == EtherType::ARP {
        spec_arp_check(rest)
    } else if spec_ethertype(s) == EtherType::IPV4 {
        spec_ipv4_check(rest)
    } else if spec_ethertype(s) == EtherType::IPV6 {
        spec_ipv6_check(rest)
    } else {
        Ok(())
    }
}

/// `inner` is the payload of the frame `s`, of the kind its EtherType names.
pub open spec fn is_inner_of(inner: Ethernet, s: Seq<u8>) -> bool {
    let rest = s.skip(spec_ihl(s));
    let et = spec_ethertype(s);
    match inner {
        Ethernet::Raw(b) => et != EtherType::ARP && et != EtherType::IPV4 && et
            != EtherType::IPV6 && b@ == rest,
        Ethernet::Arp(p) => et == EtherType::ARP && p@ == rest,
        Ethernet::Ipv4(p) => et == EtherType::IPV4 && p@ == rest,
        Ethernet::Ipv6(p) => et == EtherType::IPV6 && p@ == rest,
    }
}

// ---------------------------------------------------------------------------
// Reading fields
// ---------------------------------------------------------------------------

/// Reads the big-endian 16-bit number at `i`.
fn read_be16(buffer: &[u8], i: usize) -> (r: u16)
    requires
        i + 1 < buffer@.len(),
    ensures
        r == be16_at(buffer@, i as int),
{
    (buffer[i] as u16) * 256 + (buffer[i + 1] as u16)
}

fn tag_pcp(b: u8) -> (r: u8)
    ensures
        r == spec_pcp(b),
{
    assert((b & 0xE0) >> 5 == b / 32) by (bit_vector);
    (b & 0xE0) >> 5
}

fn tag_dei(b: u8) -> (r: bool)
    ensures
        r == spec_dei(b),
{
    assert((((b & 0x10) >> 4) > 0) == ((b / 16) % 2 == 1)) by (bit_vector);
    ((b & 0x10) >> 4) > 0
}

fn tag_vid(hi: u8, lo: u8) -> (r: u16)
    ensures
        r == spec_vid(hi, lo),
{
    let high: u8 = hi & 0x0F;
    assert(hi & 0x0F == hi % 16) by (bit_vector);
    (high as u16) * 256 + (lo as u16)
}

// ---------------------------------------------------------------------------
// Frames
// ---------------------------------------------------------------------------

/// Represents an Ethernet header and payload.
#[derive(Debug, Copy, Clone)]
pub struct EthernetPdu<'a> {
    buffer: &'a [u8],
    ihl: usize,
}

/// Contains the inner payload of an [`EthernetPdu`].
#[derive(Debug, Copy, Clone)]
pub enum Ethernet<'a> {
    Raw(&'a [u8]),
    Arp(ArpPdu<'a>),
    Ipv4(Ipv4Pdu<'a>),
    Ipv6(Ipv6Pdu<'a>),
}

impl<'a> View for EthernetPdu<'a> {
    type V = Seq<u8>;

    closed spec fn view(&self) -> Seq<u8> {
        self.buffer@
    }
}

impl<'a> EthernetPdu<'a> {
    #[verifier::type_invariant]
    spec fn well_formed(self) -> bool {
        spec_header_len(self.buffer@) == Ok::<nat, Error>(self.ihl as nat)
    }

    /// Constructs an [`EthernetPdu`] backed by the provided `buffer`.
    pub fn new(buffer: &'a [u8]) -> (r: Result<Self, Error>)
        ensures
            r is Ok <==> frame_ok(buffer@),
            r matches Ok(p) ==> p@ == buffer@,
            r matches Err(e) ==> spec_header_len(buffer@) == Err::<nat, Error>(e),
    {
        if buffer.len() < 14 {
            return Err(Error::Truncated);
        }
        if read_be16(buffer, 12) < MIN_ETHERTYPE {
            // 802.3 (LLC) frames are not supported
            return Err(Error::Malformed);
        }
        let pos: usize = 12;
        let ethertype = read_be16(buffer, pos);
        let header = if ethertype == EtherType::DOT1Q {
            Self::dot1q(buffer, pos + 2)
        } else if ethertype == EtherType::QINQ {
            Self::qinq(buffer, pos + 2)
        } else {
            Ok(14)
        };
        match header {
            Ok(ihl) => Ok(EthernetPdu { buffer, ihl }),
            Err(e) => Err(e),
        }
    }

    /// The header length of a frame whose 802.1Q tag control field starts at
    /// `pos`: the tag and the EtherType behind it must be in the buffer.
    fn dot1q(buffer: &[u8], pos: usize) -> (r: Result<usize, Error>)
        requires
            pos <= usize::MAX - 4,
        ensures
            buffer@.len() < pos + 4 ==> r == Err::<usize, Error>(Error::Truncated),
            buffer@.len() >= pos + 4 ==> r == Ok::<usize, Error>((pos + 4) as usize),
    {
        // the buffer needs the tag and the EtherType behind it
        if buffer.len() < pos + 4 {
            return Err(Error::Truncated);
        }
        Ok(pos + 4)
    }

    /// The header length of a frame whose QinQ tag control field starts at
    /// `pos`: an 802.1Q tag must follow the service tag.
    fn qinq(buffer: &[u8], pos: usize) -> (r: Result<usize, Error>)
        requires
            pos <= usize::MAX - 8,
        ensures
            buffer@.len() < pos + 4 ==> r == Err::<usize, Error>(Error::Truncated),
            buffer@.len() >= pos + 4 && be16_at(buffer@, pos + 2) != EtherType::DOT1Q ==> r
                == Err::<usize, Error>(Error::Malformed),
            buffer@.len() >= pos + 4 && be16_at(buffer@, pos + 2) == EtherType::DOT1Q
                && buffer@.len() < pos + 8 ==> r == Err::<usize, Error>(Error::Truncated),
            buffer@.len() >= pos + 8 && be16_at(buffer@, pos + 2) == EtherType::DOT1Q ==> r
                == Ok::<usize, Error>((pos + 8) as usize),
    {
        // the buffer needs the service tag and the 802.1Q tag protocol identifier
        if buffer.len() < pos + 4 {
            return Err(Error::Truncated);
        }
        let pos = pos + 2;
        let ethertype = read_be16(buffer, pos);
        if ethertype != EtherType::DOT1Q {
            return Err(Error::Malformed);
        }
        Self::dot1q(buffer, pos + 2)
    }

    /// Returns a reference to the entire underlying buffer that was provided
    /// during construction.
    pub fn buffer(&'a self) -> (r: &'a [u8])
        ensures
            r@ == self@,
    {
        self.buffer
    }

    /// Consumes this object and returns a reference to the entire underlying
    /// buffer that was provided during construction.
    pub fn into_buffer(self) -> (r: &'a [u8])
        ensures
            r@ == self@,
    {
        self.buffer
    }

    /// Returns the slice of the underlying buffer that contains the header part
    /// of this PDU.
    pub fn as_bytes(&'a self) -> (r: &'a [u8])
        ensures
            r@ == self@.subrange(0, spec_ihl(self@)),
    {
        (*self).into_bytes()
    }

    /// Consumes this object and returns the slice of the underlying buffer that
    /// contains the header part of this PDU.
    pub fn into_bytes(self) -> (r: &'a [u8])
        ensures
            r@ == self@.subrange(0, spec_ihl(self@)),
    {
        proof {
            use_type_invariant(&self);
        }
        &self.buffer[0..self.computed_ihl()]
    }

    /// Returns an object representing the inner payload of this PDU.
    pub fn inner(&'a self) -> (r: Result<Ethernet<'a>, Error>)
        ensures
            r is Ok <==> spec_inner_check(self@) is Ok,
            r matches Ok(inner) ==> is_inner_of(inner, self@),
            r matches Err(e) ==> spec_inner_check(self@) == Err::<(), Error>(e),
    {
        (*self).into_inner()
    }

    /// Consumes this object and returns an object representing the inner
    /// payload of this PDU.
    pub fn into_inner(self) -> (r: Result<Ethernet<'a>, Error>)
        ensures
            r is Ok <==> spec_inner_check(self@) is Ok,
            r matches Ok(inner) ==> is_inner_of(inner, self@),
            r matches Err(e) ==> spec_inner_check(self@) == Err::<(), Error>(e),
    {
        proof {
            use_type_invariant(&self);
        }
        let ihl = self.computed_ihl();
        let rest = &self.buffer[ihl..self.buffer.len()];
        let ethertype = self.ethertype();
        if ethertype == EtherType::ARP {
            match ArpPdu::new(rest) {
                Ok(p) => Ok(Ethernet::Arp(p)),
                Err(e) => Err(e),
            }
        } else if ethertype == EtherType::IPV4 {
            match Ipv4Pdu::new(rest) {
                Ok(p) => Ok(Ethernet::Ipv4(p)),
                Err(e) => Err(e),
            }
        } else if ethertype == EtherType::IPV6 {
            match Ipv6Pdu::new(rest) {
                Ok(p) => Ok(Ethernet::Ipv6(p)),
                Err(e) => Err(e),
            }
        } else {
            Ok(Ethernet::Raw(rest))
        }
    }

    /// The length of the header: 14 untagged, 18 with an 802.1Q tag, 22 with
    /// QinQ tags.
    pub fn computed_ihl(&'a self) -> (r: usize)
        ensures
            r == spec_ihl(self@),
            frame_ok(self@),
    {
        proof {
            use_type_invariant(self);
        }
        self.ihl
    }

    /// The source MAC address.
    pub fn source_address(&'a self) -> (r: [u8; 6])
        ensures
            r@ == self@.subrange(6, 12),
    {
        proof {
            use_type_invariant(self);
        }
        let b = self.buffer;
        let source_address = [b[6], b[7], b[8], b[9], b[10], b[11]];
        assert(source_address@ =~= self@.subrange(6, 12));
        source_address
    }

    /// The destination MAC address.
    pub fn destination_address(&'a self) -> (r: [u8; 6])
        ensures
            r@ == self@.subrange(0, 6),
    {
        proof {
            use_type_invariant(self);
        }
        let b = self.buffer;
        let destination_address = [b[0], b[1], b[2], b[3], b[4], b[5]];
        assert(destination_address@ =~= self@.subrange(0, 6));
        destination_address
    }

    /// The tag protocol identifier, that is, the field after the addresses.
    pub fn tpid(&'a self) -> (r: u16)
        ensures
            r == spec_tpid(self@),
    {
        proof {
            use_type_invariant(self);
        }
        read_be16(self.buffer, 12)
    }

    /// The EtherType: behind the 802.1Q tag of a tagged frame, else the field
    /// after the addresses (so the service tag identifier for a QinQ frame).
    pub fn ethertype(&'a self) -> (r: u16)
        ensures
            r == spec_ethertype(self@),
    {
        proof {
            use_type_invariant(self);
        }
        let tpid = self.tpid();
        if tpid == EtherType::DOT1Q {
            read_be16(self.buffer, 16)
        } else {
            tpid
        }
    }

    /// The EtherType field that ends the header, whatever the tags.
    pub fn computed_ethertype(&'a self) -> (r: u16)
        ensures
            r == be16_at(self@, spec_ihl(self@) - 2),
    {
        proof {
            use_type_invariant(self);
        }
        read_be16(self.buffer, self.ihl - 2)
    }

    /// The VLAN identifier of an 802.1Q-tagged frame.
    pub fn vlan(&'a self) -> (r: Option<u16>)
        ensures
            r == spec_vlan(self@),
    {
        proof {
            use_type_invariant(self);
        }
        if self.tpid() == EtherType::DOT1Q {
            Some(tag_vid(self.buffer[14], self.buffer[15]))
        } else {
            None
        }
    }

    /// The priority code point of an 802.1Q-tagged frame.
    pub fn vlan_pcp(&'a self) -> (r: Option<u8>)
        ensures
            r == spec_vlan_pcp(self@),
    {
        proof {
            use_type_invariant(self);
        }
        if self.tpid() == EtherType::DOT1Q {
            Some(tag_pcp(self.buffer[14]))
        } else {
            None
        }
    }

    /// The drop eligible indicator of an 802.1Q-tagged frame.
    pub fn vlan_dei(&'a self) -> (r: Option<bool>)
        ensures
            r == spec_vlan_dei(self@),
    {
        proof {
            use_type_invariant(self);
        }
        if self.tpid() == EtherType::DOT1Q {
            Some(tag_dei(self.buffer[14]))
        } else {
            None
        }
    }

    /// The VLAN tags of a tagged frame, outermost first.
    pub fn vlan_tags(&'a self) -> (r: Option<VlanTagIterator<'a>>)
        ensures
            r is Some <==> (spec_tpid(self@) == EtherType::DOT1Q || spec_tpid(self@)
                == EtherType::QINQ),
            r matches Some(it) ==> it@ == spec_vlan_tags(self@),
    {
        proof {
            use_type_invariant(self);
        }
        let tpid = self.tpid();
        if tpid == EtherType::DOT1Q || tpid == EtherType::QINQ {
            Some(VlanTagIterator { buffer: self.buffer, pos: 12, eol: false })
        } else {
            None
        }
    }
}

// ---------------------------------------------------------------------------
// VLAN tags
// ---------------------------------------------------------------------------

/// Represents a VLAN tag.
#[derive(Debug, Copy, Clone)]
pub struct VlanTag {
    pub protocol_id: u16,
    pub priority_codepoint: u8,
    pub drop_eligible: bool,
    pub id: u16,
}

/// Walks the VLAN tags of a frame, outermost first.
#[derive(Debug, Copy, Clone)]
pub struct VlanTagIterator<'a> {
    buffer: &'a [u8],
    pos: usize,
    eol: bool,
}

impl<'a> View for VlanTagIterator<'a> {
    type V = Seq<VlanTag>;

    /// The tags not handed out yet.
    closed spec fn view(&self) -> Seq<VlanTag> {
        if self.eol {
            Seq::empty()
        } else {
            tag_sequence(self.buffer@, self.pos as int)
        }
    }
}

impl<'a> VlanTagIterator<'a> {
    #[verifier::type_invariant]
    spec fn well_formed(self) -> bool {
        &&& frame_ok(self.buffer@)
        &&& self.eol || self.pos == 12 || (self.pos == 16 && spec_tpid(self.buffer@)
            == EtherType::QINQ)
    }

    /// Hands out the next tag, or `None` once all were handed out.
    pub fn next(&mut self) -> (r: Option<VlanTag>)
        ensures
            old(self)@.len() == 0 ==> r is None && final(self)@ == old(self)@,
            old(self)@.len() > 0 ==> r == Some(old(self)@[0]) && final(self)@ == old(
                self,
            )@.drop_first(),
            r matches Some(t) ==> t.protocol_id == EtherType::DOT1Q || t.protocol_id
                == EtherType::QINQ,
            r matches Some(t) && t.protocol_id == EtherType::DOT1Q ==> final(self)@.len() == 0,
    {
        proof {
            use_type_invariant(&*self);
        }
        if self.eol {
            return None;
        }
        let tpid = read_be16(self.buffer, self.pos);
        if tpid != EtherType::DOT1Q && tpid != EtherType::QINQ {
            return None;
        }
        let b = self.buffer[self.pos + 2];
        let vlan_tag = VlanTag {
            protocol_id: tpid,
            priority_codepoint: tag_pcp(b),
            drop_eligible: tag_dei(b),
            id: tag_vid(b, self.buffer[self.pos + 3]),
        };
        if tpid == EtherType::DOT1Q {
            self.eol = true;
        }
        self.pos = self.pos + 4;
        Some(vlan_tag)
    }
}

// ---------------------------------------------------------------------------
// What the parse means, stated on the bytes themselves
// ---------------------------------------------------------------------------

/// Whether a frame is accepted, and the error it is refused with, depend only
/// on its length and on its bytes from offset 12 on: the two addresses (group
/// addresses included) never matter.
pub proof fn lemma_header_ignores_addresses(s: Seq<u8>, t: Seq<u8>)
    requires
        s.len() == t.len(),
        forall|i: int| 12 <= i < s.len() ==> s[i] == t[i],
    ensures
        spec_header_len(s) == spec_header_len(t),
        spec_ihl(s) == spec_ihl(t),
{
    if s.len() >= 14 {
        assert(s[12] == t[12] && s[13] == t[13]);
    }
    if s.len() >= 18 {
        assert(s[16] == t[16] && s[17] == t[17]);
    }
}

/// Bytes appended to an accepted frame are payload: the frame stays accepted,
/// with the same header.
pub proof fn lemma_header_stable_under_extension(s: Seq<u8>, t: Seq<u8>)
    requires
        frame_ok(s),
    ensures
        spec_header_len(s + t) == spec_header_len(s),
{
    let u = s + t;
    assert(u[12] == s[12] && u[13] == s[13]);
    if s.len() >= 18 {
        assert(u[16] == s[16] && u[17] == s[17]);
    }
}

/// Cutting an accepted frame short of its header leaves a truncated frame,
/// never a malformed or an accepted one.
pub proof fn lemma_cut_header_is_truncated(s: Seq<u8>, n: int)
    requires
        frame_ok(s),
        0 <= n < spec_ihl(s),
    ensures
        spec_header_len(s.take(n)) == Err::<nat, Error>(Error::Truncated),
{
    let u = s.take(n);
    if n >= 14 {
        assert(u[12] == s[12] && u[13] == s[13]);
    }
    if n >= 18 {
        assert(u[16] == s[16] && u[17] == s[17]);
    }
}

/// The header of a frame, read off its bytes: shorter than 14 bytes is
/// truncated; a type field below 0x0600 is an 802.3 length and refused; a type
/// field that is no tag identifier ends a 14-byte header; 0x8100 ends an
/// 18-byte header; 0x88A8 must be followed by 0x8100 and ends a 22-byte header.
pub proof fn lemma_header_from_bytes(s: Seq<u8>)
    ensures
        s.len() < 14 ==> spec_header_len(s) == Err::<nat, Error>(Error::Truncated),
        s.len() >= 14 && (s[12] as int) * 256 + (s[13] as int) < 0x0600 ==> spec_header_len(s)
            == Err::<nat, Error>(Error::Malformed),
        s.len() >= 14 && s[12] as int * 256 + s[13] as int >= 0x0600 && s[12] as int * 256
            + s[13] as int != 0x8100 && s[12] as int * 256 + s[13] as int != 0x88A8
            ==> spec_header_len(s) == Ok::<nat, Error>(14),
        s.len() >= 14 && s[12] == 0x81 && s[13] == 0x00 ==> spec_header_len(s) == if s.len()
            < 18 {
            Err::<nat, Error>(Error::Truncated)
        } else {
            Ok::<nat, Error>(18)
        },
        s.len() >= 14 && s[12] == 0x88 && s[13] == 0xA8 ==> spec_header_len(s) == if s.len()
            < 18 {
            Err::<nat, Error>(Error::Truncated)
        } else if s[16] != 0x81 || s[17] != 0x00 {
            Err::<nat, Error>(Error::Malformed)
        } else if s.len() < 22 {
            Err::<nat, Error>(Error::Truncated)
        } else {
            Ok::<nat, Error>(22)
        },
{
}

/// The EtherType of a frame is the field behind its 802.1Q tag when the type
/// field at offset 12 is 0x8100, and that type field otherwise.
pub proof fn lemma_ethertype_from_bytes(s: Seq<u8>)
    requires
        frame_ok(s),
    ensures
        s[12] == 0x81 && s[13] == 0x00 ==> spec_ethertype(s) == s[16] as int * 256 + s[17] as int,
        !(s[12] == 0x81 && s[13] == 0x00) ==> spec_ethertype(s) == s[12] as int * 256
            + s[13] as int,
{
}

/// The payload of an accepted frame is checked as ARP (0x0806), IPv4 (0x0800)
/// or IPv6 (0x86DD) according to its EtherType; any other EtherType is never
/// refused, and the payload comes back as the raw bytes behind the header.
pub proof fn lemma_payload_dispatch(s: Seq<u8>)
    requires
        frame_ok(s),
    ensures
        spec_ethertype(s) == 0x0806 ==> spec_inner_check(s) == spec_arp_check(
            s.skip(spec_ihl(s)),
        ),
        spec_ethertype(s) == 0x0800 ==> spec_inner_check(s) == spec_ipv4_check(
            s.skip(spec_ihl(s)),
        ),
        spec_ethertype(s) == 0x86DD ==> spec_inner_check(s) == spec_ipv6_check(
            s.skip(spec_ihl(s)),
        ),
        spec_ethertype(s) != 0x0806 && spec_ethertype(s) != 0x0800 && spec_ethertype(s)
            != 0x86DD ==> spec_inner_check(s) == Ok::<(), Error>(()),
        forall|inner: Ethernet|
            #![trigger is_inner_of(inner, s)]
            is_inner_of(inner, s) ==> (inner is Raw <==> (spec_ethertype(s) != 0x0806
                && spec_ethertype(s) != 0x0800 && spec_ethertype(s) != 0x86DD)),
        forall|inner: Ethernet|
            #![trigger is_inner_of(inner, s)]
            is_inner_of(inner, s) && inner is Arp ==> spec_ethertype(s) == 0x0806,
        forall|inner: Ethernet|
            #![trigger is_inner_of(inner, s)]
            is_inner_of(inner, s) && inner is Ipv4 ==> spec_ethertype(s) == 0x0800,
        forall|inner: Ethernet|
            #![trigger is_inner_of(inner, s)]
            is_inner_of(inner, s) && inner is Ipv6 ==> spec_ethertype(s) == 0x86DD,
        forall|inner: Ethernet|
            #![trigger is_inner_of(inner, s)]
            is_inner_of(inner, s) && inner is Raw ==> inner->Raw_0@ == s.subrange(
                spec_ihl(s),
                s.len() as int,
            ),
{
    assert forall|inner: Ethernet| #![trigger is_inner_of(inner, s)]
        is_inner_of(inner, s) && inner is Raw implies inner->Raw_0@ == s.subrange(
        spec_ihl(s),
        s.len() as int,
    ) by {
        assert(s.skip(spec_ihl(s)) =~= s.subrange(spec_ihl(s), s.len() as int));
    }
}

/// The top three bits, the next bit and the low twelve bits of a tag control
/// field `b * 256 + lo` make it up again.
proof fn lemma_tci_split(b: u8, lo: u8)
    ensures
        b as int * 256 + lo as int == spec_pcp(b) as int * 8192 + (if spec_dei(b) {
            4096int
        } else {
            0int
        }) + spec_vid(b, lo) as int,
        spec_pcp(b) < 8,
        spec_vid(b, lo) < 4096,
{
    assert(b == (b / 32) * 32 + ((b / 16) % 2) * 16 + b % 16) by (bit_vector);
}

/// A tag is decoded from its own four bytes: the protocol identifier is the
/// first two read big-endian, and the priority (three bits), drop eligible bit
/// and VLAN identifier (twelve bits) make up the tag control field in the last
/// two, from the most significant bit down.
pub proof fn lemma_tag_from_bytes(s: Seq<u8>, pos: int)
    requires
        0 <= pos,
        pos + 4 <= s.len(),
    ensures
        tag_at(s, pos).protocol_id == s[pos] as int * 256 + s[pos + 1] as int,
        tag_at(s, pos).priority_codepoint < 8,
        tag_at(s, pos).id < 4096,
        s[pos + 2] as int * 256 + s[pos + 3] as int == tag_at(s, pos).priority_codepoint as int
            * 8192 + (if tag_at(s, pos).drop_eligible {
            4096int
        } else {
            0int
        }) + tag_at(s, pos).id as int,
{
    lemma_tci_split(s[pos + 2], s[pos + 3]);
}

/// Two buffers that agree on the four bytes of a tag hold the same tag there,
/// whatever else they hold.
pub proof fn lemma_tag_reads_own_bytes(s: Seq<u8>, t: Seq<u8>, pos: int)
    requires
        0 <= pos,
        pos + 4 <= s.len(),
        pos + 4 <= t.len(),
        forall|i: int| pos <= i < pos + 4 ==> s[i] == t[i],
    ensures
        tag_at(s, pos) == tag_at(t, pos),
{
    assert(s[pos] == t[pos] && s[pos + 1] == t[pos + 1]);
    assert(s[pos + 2] == t[pos + 2] && s[pos + 3] == t[pos + 3]);
}

/// The `i`-th tag of an accepted frame is the one in bytes `12 + 4 * i` to
/// `16 + 4 * i`, decoded from those bytes alone.
pub proof fn lemma_frame_tags_from_bytes(s: Seq<u8>)
    requires
        frame_ok(s),
    ensures
        forall|i: int|
            0 <= i < spec_vlan_tags(s).len() ==> #[trigger] spec_vlan_tags(s)[i] == tag_at(
                s,
                12 + 4 * i,
            ),
        forall|i: int|
            0 <= i < spec_vlan_tags(s).len() ==> (#[trigger] spec_vlan_tags(s)[i]).protocol_id
                == s[12 + 4 * i] as int * 256 + s[13 + 4 * i] as int,
        forall|i: int|
            0 <= i < spec_vlan_tags(s).len() ==> s[14 + 4 * i] as int * 256 + s[15 + 4 * i] as int
                == (#[trigger] spec_vlan_tags(s)[i]).priority_codepoint as int * 8192 + (if spec_vlan_tags(
                s,
            )[i].drop_eligible {
                4096int
            } else {
                0int
            }) + spec_vlan_tags(s)[i].id as int,
{
    reveal_with_fuel(tag_sequence, 3);
    if spec_tpid(s) == EtherType::DOT1Q {
        lemma_tag_from_bytes(s, 12);
    } else if spec_tpid(s) == EtherType::QINQ {
        lemma_tag_from_bytes(s, 12);
        lemma_tag_from_bytes(s, 16);
    }
}

/// The VLAN fields of an 802.1Q frame make up its tag control field at bytes
/// 14 and 15: priority in the top three bits, drop eligible bit below them, and
/// the VLAN identifier in the low twelve bits. Other frames have none of them.
pub proof fn lemma_vlan_fields_from_bytes(s: Seq<u8>)
    requires
        frame_ok(s),
    ensures
        s[12] == 0x81 && s[13] == 0x00 ==> {
            &&& spec_vlan(s) is Some
            &&& spec_vlan_pcp(s) is Some
            &&& spec_vlan_dei(s) is Some
            &&& spec_vlan_pcp(s)->0 < 8
            &&& spec_vlan(s)->0 < 4096
            &&& spec_vlan(s)->0 as int == (s[14] as int * 256 + s[15] as int) % 4096
            &&& s[14] as int * 256 + s[15] as int == spec_vlan_pcp(s)->0 as int * 8192 + (if spec_vlan_dei(
                s,
            )->0 {
                4096int
            } else {
                0int
            }) + spec_vlan(s)->0 as int
        },
        !(s[12] == 0x81 && s[13] == 0x00) ==> spec_vlan(s) is None && spec_vlan_pcp(s) is None
            && spec_vlan_dei(s) is None,
{
    if s[12] == 0x81 && s[13] == 0x00 {
        lemma_tci_split(s[14], s[15]);
    }
}

// ---------------------------------------------------------------------------
// Properties of accepted frames
// ---------------------------------------------------------------------------

/// The header of an accepted frame is 14 bytes untagged, 18 with an 802.1Q tag
/// and 22 with QinQ tags; it fits in the frame, and it ends with the EtherType.
pub proof fn lemma_header_len_by_tags(s: Seq<u8>)
    requires
        frame_ok(s),
    ensures
        14 <= spec_ihl(s) <= s.len(),
        spec_tpid(s) == EtherType::DOT1Q ==> spec_ihl(s) == 18,
        spec_tpid(s) == EtherType::QINQ ==> spec_ihl(s) == 22,
        spec_tpid(s) != EtherType::DOT1Q && spec_tpid(s) != EtherType::QINQ ==> spec_ihl(s)
            == 14,
        spec_tpid(s) >= MIN_ETHERTYPE,
{
}

/// The header bytes followed by the payload bytes give back the whole frame.
pub proof fn lemma_header_then_payload(s: Seq<u8>)
    requires
        frame_ok(s),
    ensures
        s.subrange(0, spec_ihl(s)) + s.skip(spec_ihl(s)) == s,
{
    assert(s.subrange(0, spec_ihl(s)) + s.skip(spec_ihl(s)) =~= s);
}

/// The EtherType that ends the header is the one [`EthernetPdu::ethertype`]
/// reports, except for QinQ frames, where that one reports the service tag
/// identifier instead.
pub proof fn lemma_computed_ethertype(s: Seq<u8>)
    requires
        frame_ok(s),
    ensures
        spec_tpid(s) != EtherType::QINQ ==> be16_at(s, spec_ihl(s) - 2) == spec_ethertype(s),
        spec_tpid(s) == EtherType::QINQ ==> spec_ethertype(s) == EtherType::QINQ
            && be16_at(s, spec_ihl(s) - 2) == be16_at(s, 20),
{
}

/// An 802.1Q-tagged frame has exactly one tag, and its fields are the ones
/// that [`EthernetPdu::vlan`], [`EthernetPdu::vlan_pcp`] and
/// [`EthernetPdu::vlan_dei`] report.
pub proof fn lemma_dot1q_tags(s: Seq<u8>)
    requires
        frame_ok(s),
        spec_tpid(s) == EtherType::DOT1Q,
    ensures
        spec_vlan_tags(s).len() == 1,
        spec_vlan_tags(s)[0].protocol_id == EtherType::DOT1Q,
        Some(spec_vlan_tags(s)[0].id) == spec_vlan(s),
        Some(spec_vlan_tags(s)[0].priority_codepoint) == spec_vlan_pcp(s),
        Some(spec_vlan_tags(s)[0].drop_eligible) == spec_vlan_dei(s),
{
    reveal_with_fuel(tag_sequence, 2);
}

/// A QinQ frame has exactly two tags: the service tag, then an 802.1Q tag.
pub proof fn lemma_qinq_tags(s: Seq<u8>)
    requires
        frame_ok(s),
        spec_tpid(s) == EtherType::QINQ,
    ensures
        spec_vlan_tags(s).len() == 2,
        spec_vlan_tags(s)[0] == tag_at(s, 12),
        spec_vlan_tags(s)[1] == tag_at(s, 16),
        spec_vlan_tags(s)[0].protocol_id == EtherType::QINQ,
        spec_vlan_tags(s)[1].protocol_id == EtherType::DOT1Q,
{
    reveal_with_fuel(tag_sequence, 3);
}

/// An untagged frame has no tags, and no VLAN fields.
pub proof fn lemma_untagged(s: Seq<u8>)
    requires
        frame_ok(s),
        spec_tpid(s) != EtherType::DOT1Q,
        spec_tpid(s) != EtherType::QINQ,
    ensures
        spec_vlan_tags(s).len() == 0,
        spec_vlan(s) is None,
        spec_vlan_pcp(s) is None,
        spec_vlan_dei(s) is None,
{
}

/// The VLAN tags lie within the header, between the addresses and the
/// EtherType: they are the same when read from the header bytes alone, and
/// each takes four bytes from byte 12 on.
pub proof fn lemma_tags_within_header(s: Seq<u8>)
    requires
        frame_ok(s),
    ensures
        spec_vlan_tags(s) == spec_vlan_tags(s.subrange(0, spec_ihl(s))),
        12 + 4 * spec_vlan_tags(s).len() <= spec_ihl(s) - 2,
{
    reveal_with_fuel(tag_sequence, 3);
    let h = s.subrange(0, spec_ihl(s));
    assert(be16_at(h, 12) == be16_at(s, 12));
    if spec_tpid(s) == EtherType::DOT1Q {
        assert(tag_at(h, 12) == tag_at(s, 12));
        assert(spec_vlan_tags(s) =~= spec_vlan_tags(h));
    } else if spec_tpid(s) == EtherType::QINQ {
        assert(be16_at(h, 16) == be16_at(s, 16));
        assert(tag_at(h, 12) == tag_at(s, 12));
        assert(tag_at(h, 16) == tag_at(s, 16));
        assert(spec_vlan_tags(s) =~= spec_vlan_tags(h));
    } else {
        assert(spec_vlan_tags(s) =~= spec_vlan_tags(h));
    }
}

} // verus!

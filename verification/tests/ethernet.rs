use pdu::EtherType;
use pdu::{Error, Ethernet, EthernetPdu, VlanTag, VlanTagIterator};

// Helpers to build minimal Ethernet frames as byte vecs.
// Layout: dst(6) + src(6) + [vlan tags] + ethertype(2) + payload

// Minimal valid IPv4 header (20 bytes, no payload): version=4, ihl=5,
// total_length=20, protocol=0 (reserved/raw), src=1.2.3.4, dst=5.6.7.8
const IPV4_HDR: [u8; 20] = [
    0x45, 0x00, 0x00, 0x14, // version/ihl, dscp/ecn, total_length
    0x00, 0x00, 0x00, 0x00, // identification, flags/fragment_offset
    0x40, 0x00, 0x00, 0x00, // ttl, protocol, checksum
    0x01, 0x02, 0x03, 0x04, // src
    0x05, 0x06, 0x07, 0x08, // dst
];

fn untagged_frame() -> Vec<u8> {
    let mut f = vec![
        0x00, 0x11, 0x22, 0x33, 0x44, 0x55, // dst
        0xaa, 0xbb, 0xcc, 0xdd, 0xee, 0xff, // src
        0x08, 0x00, // ethertype: IPv4
    ];
    f.extend_from_slice(&IPV4_HDR);
    f
}

fn dot1q_frame(vlan_id: u16) -> Vec<u8> {
    let mut f = vec![
        0x00, 0x11, 0x22, 0x33, 0x44, 0x55, // dst
        0xaa, 0xbb, 0xcc, 0xdd, 0xee, 0xff, // src
        0x81, 0x00, // TPID: DOT1Q
    ];
    f.extend_from_slice(&vlan_id.to_be_bytes()); // TCI: PCP=0, DEI=0, VID
    f.extend_from_slice(&[0x08, 0x00]); // inner ethertype: IPv4
    f.extend_from_slice(&IPV4_HDR);
    f
}

fn qinq_frame(outer_vid: u16, inner_vid: u16) -> Vec<u8> {
    let mut f = vec![
        0x00, 0x11, 0x22, 0x33, 0x44, 0x55, // dst
        0xaa, 0xbb, 0xcc, 0xdd, 0xee, 0xff, // src
        0x88, 0xa8, // TPID: QINQ
    ];
    f.extend_from_slice(&outer_vid.to_be_bytes()); // outer TCI
    f.extend_from_slice(&[0x81, 0x00]); // inner TPID: DOT1Q
    f.extend_from_slice(&inner_vid.to_be_bytes()); // inner TCI
    f.extend_from_slice(&[0x08, 0x00]); // ethertype: IPv4
    f.extend_from_slice(&IPV4_HDR);
    f
}

fn frame_with(ethertype: u16, payload: &[u8]) -> Vec<u8> {
    let mut f = vec![
        0x00, 0x11, 0x22, 0x33, 0x44, 0x55, // dst
        0xaa, 0xbb, 0xcc, 0xdd, 0xee, 0xff, // src
    ];
    f.extend_from_slice(&ethertype.to_be_bytes());
    f.extend_from_slice(payload);
    f
}

fn collect_tags(mut it: VlanTagIterator) -> Vec<VlanTag> {
    let mut tags = Vec::new();
    while let Some(tag) = it.next() {
        tags.push(tag);
    }
    tags
}

#[test]
fn test_untagged() {
    let frame = untagged_frame();
    let pdu = EthernetPdu::new(&frame).unwrap();

    assert_eq!(pdu.computed_ihl(), 14);
    assert_eq!(pdu.tpid(), EtherType::IPV4);
    assert_eq!(pdu.ethertype(), EtherType::IPV4);
    assert_eq!(pdu.computed_ethertype(), EtherType::IPV4);
    assert!(pdu.vlan_tags().is_none());
    assert_eq!(pdu.as_bytes(), &frame[..14]);
    assert!(matches!(pdu.into_inner().unwrap(), Ethernet::Ipv4(_)));
}

#[test]
fn test_dot1q() {
    let frame = dot1q_frame(0x0064); // VLAN 100
    let pdu = EthernetPdu::new(&frame).unwrap();

    assert_eq!(pdu.computed_ihl(), 18);
    assert_eq!(pdu.tpid(), EtherType::DOT1Q);
    assert_eq!(pdu.ethertype(), EtherType::IPV4);
    assert_eq!(pdu.computed_ethertype(), EtherType::IPV4);
    assert_eq!(pdu.vlan(), Some(0x0064));

    let tags: Vec<VlanTag> = collect_tags(pdu.vlan_tags().unwrap());
    assert_eq!(tags.len(), 1);
    assert_eq!(tags[0].protocol_id, EtherType::DOT1Q);
    assert_eq!(tags[0].id, 0x0064);

    assert_eq!(pdu.as_bytes(), &frame[..18]);
    assert!(matches!(pdu.into_inner().unwrap(), Ethernet::Ipv4(_)));
}

#[test]
fn test_qinq() {
    let frame = qinq_frame(0x000a, 0x0064); // outer VLAN 10, inner VLAN 100
    let pdu = EthernetPdu::new(&frame).unwrap();

    assert_eq!(pdu.computed_ihl(), 22);
    assert_eq!(pdu.tpid(), EtherType::QINQ);
    assert_eq!(pdu.computed_ethertype(), EtherType::IPV4);

    let tags: Vec<VlanTag> = collect_tags(pdu.vlan_tags().unwrap());
    assert_eq!(tags.len(), 2);
    assert_eq!(tags[0].protocol_id, EtherType::QINQ);
    assert_eq!(tags[0].id, 0x000a);
    assert_eq!(tags[1].protocol_id, EtherType::DOT1Q);
    assert_eq!(tags[1].id, 0x0064);

    assert_eq!(pdu.as_bytes(), &frame[..22]);
    // into_inner() dispatches on tpid() not computed_ethertype(), so a QinQ
    // frame with an unrecognised outer TPID (0x88A8) yields Ethernet::Raw
    assert!(matches!(pdu.into_inner().unwrap(), Ethernet::Raw(_)));
}

#[test]
fn test_qinq_payload_offset() {
    // into_inner() slices from byte 22 onward, not byte 14 or 18
    let frame = qinq_frame(0x000a, 0x0064);
    let pdu = EthernetPdu::new(&frame).unwrap();
    let payload = &frame[22..];
    assert_eq!(&pdu.buffer()[pdu.computed_ihl()..], payload);
}

#[test]
fn test_truncated_untagged() {
    // 13 bytes - one short of minimum
    let frame = &untagged_frame()[..13];
    assert_eq!(EthernetPdu::new(frame).unwrap_err(), Error::Truncated);
}

#[test]
fn test_truncated_dot1q() {
    // Has DOT1Q TPID but not enough bytes for the tag
    let frame = &dot1q_frame(0x0064)[..15];
    assert_eq!(EthernetPdu::new(frame).unwrap_err(), Error::Truncated);
}

#[test]
fn test_truncated_qinq() {
    // Has QINQ TPID but not enough bytes for both tags
    let frame = &qinq_frame(0x000a, 0x0064)[..17];
    assert_eq!(EthernetPdu::new(frame).unwrap_err(), Error::Truncated);
}

#[test]
fn test_malformed_qinq_no_dot1q() {
    // QINQ outer tag not followed by DOT1Q - should be Malformed
    let mut frame = qinq_frame(0x000a, 0x0064);
    // Overwrite the inner TPID (bytes 16..18) with something that is not DOT1Q
    frame[16] = 0x08;
    frame[17] = 0x00;
    assert_eq!(EthernetPdu::new(&frame).unwrap_err(), Error::Malformed);
}

#[test]
fn test_malformed_llc_frame() {
    // ethertype < 0x0600 signals an 802.3 LLC frame, which is not supported
    let mut frame = untagged_frame();
    frame[12] = 0x05;
    frame[13] = 0xff;
    assert_eq!(EthernetPdu::new(&frame).unwrap_err(), Error::Malformed);
}

#[test]
fn test_smallest_ethertype_accepted() {
    let frame = frame_with(0x0600, &[]);
    let pdu = EthernetPdu::new(&frame).unwrap();
    assert_eq!(pdu.computed_ihl(), 14);
    assert_eq!(pdu.ethertype(), 0x0600);
    match pdu.into_inner().unwrap() {
        Ethernet::Raw(rest) => assert!(rest.is_empty()),
        _ => panic!("expected a raw payload"),
    }
}

#[test]
fn test_header_lengths_at_the_edge() {
    // a tagged frame needs 18 bytes, a QinQ frame 22
    let dot1q = dot1q_frame(7);
    assert_eq!(EthernetPdu::new(&dot1q[..17]).unwrap_err(), Error::Truncated);
    assert_eq!(EthernetPdu::new(&dot1q[..18]).unwrap().computed_ihl(), 18);
    let qinq = qinq_frame(1, 2);
    assert_eq!(EthernetPdu::new(&qinq[..21]).unwrap_err(), Error::Truncated);
    assert_eq!(EthernetPdu::new(&qinq[..22]).unwrap().computed_ihl(), 22);
    // the QinQ inner identifier is checked as soon as it is there
    let mut bad = qinq_frame(1, 2);
    bad[17] = 0x01;
    assert_eq!(EthernetPdu::new(&bad[..18]).unwrap_err(), Error::Malformed);
}

#[test]
fn test_addresses() {
    let frame = untagged_frame();
    let pdu = EthernetPdu::new(&frame).unwrap();
    assert_eq!(pdu.destination_address(), [0x00, 0x11, 0x22, 0x33, 0x44, 0x55]);
    assert_eq!(pdu.source_address(), [0xaa, 0xbb, 0xcc, 0xdd, 0xee, 0xff]);
    assert_eq!(pdu.into_buffer(), &frame[..]);
}

#[test]
fn test_dot1q_priority_and_drop_eligible() {
    // TCI 0xB064: PCP 5, DEI 1, VID 0x064
    let frame = dot1q_frame(0xB064);
    let pdu = EthernetPdu::new(&frame).unwrap();
    assert_eq!(pdu.vlan(), Some(0x0064));
    assert_eq!(pdu.vlan_pcp(), Some(5));
    assert_eq!(pdu.vlan_dei(), Some(true));
    let tags = collect_tags(pdu.vlan_tags().unwrap());
    assert_eq!(tags.len(), 1);
    assert_eq!(tags[0].priority_codepoint, 5);
    assert!(tags[0].drop_eligible);
    assert_eq!(tags[0].id, 0x0064);

    // TCI 0x4FFF: PCP 2, DEI 0, VID 0xFFF
    let frame = dot1q_frame(0x4FFF);
    let pdu = EthernetPdu::new(&frame).unwrap();
    assert_eq!(pdu.vlan(), Some(0x0FFF));
    assert_eq!(pdu.vlan_pcp(), Some(2));
    assert_eq!(pdu.vlan_dei(), Some(false));
}

#[test]
fn test_untagged_has_no_vlan_fields() {
    let frame = untagged_frame();
    let pdu = EthernetPdu::new(&frame).unwrap();
    assert_eq!(pdu.vlan(), None);
    assert_eq!(pdu.vlan_pcp(), None);
    assert_eq!(pdu.vlan_dei(), None);
}

#[test]
fn test_qinq_ethertype_is_service_tag() {
    let frame = qinq_frame(0xE00a, 0x0064);
    let pdu = EthernetPdu::new(&frame).unwrap();
    assert_eq!(pdu.ethertype(), EtherType::QINQ);
    assert_eq!(pdu.computed_ethertype(), EtherType::IPV4);
    assert_eq!(pdu.vlan(), None);
    let tags = collect_tags(pdu.vlan_tags().unwrap());
    assert_eq!(tags[0].priority_codepoint, 7);
    assert!(!tags[0].drop_eligible);
    assert_eq!(tags[0].id, 0x000a);
}

#[test]
fn test_tag_iterator_stays_exhausted() {
    let frame = dot1q_frame(3);
    let pdu = EthernetPdu::new(&frame).unwrap();
    let mut it = pdu.vlan_tags().unwrap();
    assert!(it.next().is_some());
    assert!(it.next().is_none());
    assert!(it.next().is_none());
}

#[test]
fn test_header_then_payload_rebuild_frame() {
    for frame in [untagged_frame(), dot1q_frame(9), qinq_frame(1, 2)] {
        let pdu = EthernetPdu::new(&frame).unwrap();
        let header = pdu.as_bytes();
        let mut rebuilt = header.to_vec();
        match pdu.inner().unwrap() {
            Ethernet::Ipv4(p) => rebuilt.extend_from_slice(p.buffer()),
            Ethernet::Raw(r) => rebuilt.extend_from_slice(r),
            _ => panic!("unexpected payload"),
        }
        assert_eq!(rebuilt, frame);
        assert_eq!(pdu.into_bytes(), header);
    }
}

#[test]
fn test_arp_payload() {
    // Ethernet/IPv4 ARP request: 8 fixed bytes, then 6+4+6+4 bytes of addresses
    let mut arp = vec![0x00, 0x01, 0x08, 0x00, 0x06, 0x04, 0x00, 0x01];
    arp.extend_from_slice(&[0u8; 20]);
    let frame = frame_with(EtherType::ARP, &arp);
    let pdu = EthernetPdu::new(&frame).unwrap();
    match pdu.into_inner().unwrap() {
        Ethernet::Arp(p) => assert_eq!(p.buffer(), &arp[..]),
        _ => panic!("expected an ARP payload"),
    }
    // one address byte short
    let frame = frame_with(EtherType::ARP, &arp[..27]);
    let pdu = EthernetPdu::new(&frame).unwrap();
    assert_eq!(pdu.into_inner().unwrap_err(), Error::Truncated);
    // not even the fixed part
    let frame = frame_with(EtherType::ARP, &arp[..7]);
    let pdu = EthernetPdu::new(&frame).unwrap();
    assert_eq!(pdu.inner().unwrap_err(), Error::Truncated);
}

#[test]
fn test_ipv4_payload_errors() {
    let frame = frame_with(EtherType::IPV4, &IPV4_HDR[..19]);
    let pdu = EthernetPdu::new(&frame).unwrap();
    assert_eq!(pdu.into_inner().unwrap_err(), Error::Truncated);

    let mut bad_version = IPV4_HDR;
    bad_version[0] = 0x65;
    let frame = frame_with(EtherType::IPV4, &bad_version);
    let pdu = EthernetPdu::new(&frame).unwrap();
    assert_eq!(pdu.into_inner().unwrap_err(), Error::Malformed);

    let mut short_ihl = IPV4_HDR;
    short_ihl[0] = 0x44;
    let frame = frame_with(EtherType::IPV4, &short_ihl);
    let pdu = EthernetPdu::new(&frame).unwrap();
    assert_eq!(pdu.into_inner().unwrap_err(), Error::Malformed);

    // header length of six words, but only five present
    let mut long_ihl = IPV4_HDR;
    long_ihl[0] = 0x46;
    let frame = frame_with(EtherType::IPV4, &long_ihl);
    let pdu = EthernetPdu::new(&frame).unwrap();
    assert_eq!(pdu.into_inner().unwrap_err(), Error::Truncated);
}

#[test]
fn test_ipv6_payload() {
    let mut ipv6 = vec![0x60u8];
    ipv6.extend_from_slice(&[0u8; 39]);
    let frame = frame_with(EtherType::IPV6, &ipv6);
    let pdu = EthernetPdu::new(&frame).unwrap();
    match pdu.into_inner().unwrap() {
        Ethernet::Ipv6(p) => assert_eq!(p.buffer().len(), 40),
        _ => panic!("expected an IPv6 payload"),
    }

    let frame = frame_with(EtherType::IPV6, &ipv6[..39]);
    let pdu = EthernetPdu::new(&frame).unwrap();
    assert_eq!(pdu.into_inner().unwrap_err(), Error::Truncated);

    ipv6[0] = 0x40;
    let frame = frame_with(EtherType::IPV6, &ipv6);
    let pdu = EthernetPdu::new(&frame).unwrap();
    assert_eq!(pdu.into_inner().unwrap_err(), Error::Malformed);
}

#[test]
fn test_dot1q_payload_is_read_behind_the_tag() {
    // the EtherType behind the 802.1Q tag decides the payload kind
    let mut frame = dot1q_frame(5);
    frame[16] = 0x65;
    frame[17] = 0x58; // TEB
    let pdu = EthernetPdu::new(&frame).unwrap();
    assert_eq!(pdu.ethertype(), EtherType::TEB);
    match pdu.into_inner().unwrap() {
        Ethernet::Raw(rest) => assert_eq!(rest, &frame[18..]),
        _ => panic!("expected a raw payload"),
    }
}

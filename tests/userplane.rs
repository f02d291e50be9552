use qcore::transport::{IpAddress, TransportAddressError, TransportLayerAddress};
use qcore::userplane::{
    DownlinkOutcome, GtpTeid, GtpTunnel, PacketProcessor, UplinkDrop, UserplaneError, MAX_UES,
};

const SUBNET: [u8; 4] = [10, 255, 0, 0];
const DU_IP: [u8; 4] = [192, 168, 1, 2];

fn tunnel(teid: [u8; 4]) -> GtpTunnel {
    GtpTunnel {
        transport_layer_address: TransportLayerAddress::from_ip(IpAddress::V4(DU_IP)),
        gtp_teid: GtpTeid(teid),
    }
}

fn downlink_buffer(dst: [u8; 4], len: usize) -> Vec<u8> {
    let mut buf = vec![0u8; 2000];
    buf[22] = 0x45;
    buf[22 + 16..22 + 20].copy_from_slice(&dst);
    buf[22 + len - 1] = 0xee;
    buf
}

fn uplink_packet(teid: [u8; 4]) -> Vec<u8> {
    // GTP-U without extensions, PDCP data header, SDAP data header, IPv4 header.
    let mut p = vec![0x30, 0xff, 0x00, 0x17, teid[0], teid[1], teid[2], teid[3]];
    p.extend_from_slice(&[0x80, 0x01]);
    p.push(0x81);
    let mut ip = vec![0u8; 20];
    ip[0] = 0x45;
    p.extend_from_slice(&ip);
    p
}

#[test]
fn reserved_session_slot_matches_address_and_teid() {
    let mut pp = PacketProcessor::new(SUBNET);
    let s = pp.reserve_userplane_session().unwrap();
    assert_eq!(s.ue_ip_addr, [10, 255, 0, 1]);
    assert_eq!(s.uplink_gtp_teid.0[3], 1);
    assert_eq!(s.qfi, 0);
    let s2 = pp.reserve_userplane_session().unwrap();
    assert_eq!(s2.ue_ip_addr, [10, 255, 0, 2]);
    assert_eq!(s2.uplink_gtp_teid.0[3], 2);
}

#[test]
fn slot_255_fails_and_freed_slot_is_reused() {
    let mut pp = PacketProcessor::new(SUBNET);
    let mut sessions = vec![];
    for i in 1..=MAX_UES {
        let s = pp.reserve_userplane_session().unwrap();
        assert_eq!(s.ue_ip_addr[3] as usize, i);
        sessions.push(s);
    }
    assert_eq!(pp.reserve_userplane_session().map(|_| ()), Err(UserplaneError::NoMoreSlots));
    pp.delete_userplane_session(&sessions[99]);
    let again = pp.reserve_userplane_session().unwrap();
    assert_eq!(again.ue_ip_addr[3], 100);
    assert_eq!(pp.reserve_userplane_session().map(|_| ()), Err(UserplaneError::NoMoreSlots));
}

#[test]
fn downlink_headers_and_sequence_numbers() {
    let mut pp = PacketProcessor::new(SUBNET);
    let s = pp.reserve_userplane_session().unwrap();
    pp.commit_userplane_session(&s, tunnel([1, 2, 3, 4]));
    let mut buf = downlink_buffer(s.ue_ip_addr, 28);
    let out = pp.downlink_forwarding_table.process_downlink_packet(&mut buf, 28);
    match out {
        DownlinkOutcome::Forward { remote_ip: IpAddress::V4(ip), len } => {
            assert_eq!(ip, DU_IP);
            assert_eq!(len, 50);
        }
        other => panic!("unexpected {other:?}"),
    }
    assert_eq!(
        buf[0..22],
        [
            0x34, 0xff, 0x00, 42, 1, 2, 3, 4, 0, 0, 0, 0x84, 0x02, 0x00, 0x00, 0, 0, 0, 0, 0, 0x80,
            0x00
        ]
    );
    assert_eq!(buf[22], 0x45);
    assert_eq!(buf[49], 0xee);

    let mut buf = downlink_buffer(s.ue_ip_addr, 28);
    pp.downlink_forwarding_table.process_downlink_packet(&mut buf, 28);
    // Both sequence numbers went up by one.
    assert_eq!(buf[15..18], [0, 0, 1]);
    assert_eq!(buf[20..22], [0x80, 0x01]);
}

#[test]
fn downlink_unknown_ip_is_dropped() {
    let mut pp = PacketProcessor::new(SUBNET);
    let mut buf = downlink_buffer([10, 255, 0, 7], 40);
    let before = buf.clone();
    assert!(matches!(
        pp.downlink_forwarding_table.process_downlink_packet(&mut buf, 40),
        DownlinkOutcome::UnknownIp
    ));
    assert_eq!(buf, before);
    let s = pp.reserve_userplane_session().unwrap();
    pp.commit_userplane_session(&s, tunnel([1, 2, 3, 4]));
    // Same slot, different subnet.
    let mut buf = downlink_buffer([10, 1, 0, 1], 40);
    assert!(matches!(
        pp.downlink_forwarding_table.process_downlink_packet(&mut buf, 40),
        DownlinkOutcome::UnknownIp
    ));
    let mut buf = downlink_buffer([10, 255, 0, 255], 40);
    assert!(matches!(
        pp.downlink_forwarding_table.process_downlink_packet(&mut buf, 40),
        DownlinkOutcome::UnknownIp
    ));
    let mut buf = downlink_buffer(s.ue_ip_addr, 40);
    assert!(matches!(
        pp.downlink_forwarding_table.process_downlink_packet(&mut buf, 19),
        DownlinkOutcome::TooShort
    ));
}

#[test]
fn uplink_valid_packet_is_forwarded() {
    let mut pp = PacketProcessor::new(SUBNET);
    let s = pp.reserve_userplane_session().unwrap();
    let p = uplink_packet(s.uplink_gtp_teid.0);
    assert_eq!(pp.uplink_forwarding_table.process_uplink_packet(&p, p.len()), Ok(11));
}

#[test]
fn uplink_with_extension_headers() {
    let mut pp = PacketProcessor::new(SUBNET);
    let s = pp.reserve_userplane_session().unwrap();
    let t = s.uplink_gtp_teid.0;
    let mut p = vec![0x34, 0xff, 0x00, 0x23, t[0], t[1], t[2], t[3], 0, 0, 0, 0x84];
    p.extend_from_slice(&[0x01, 0x00, 0x00, 0x00]);
    p.extend_from_slice(&[0x80, 0x05, 0x81]);
    let mut ip = vec![0u8; 20];
    ip[0] = 0x45;
    p.extend_from_slice(&ip);
    assert_eq!(pp.uplink_forwarding_table.process_uplink_packet(&p, p.len()), Ok(19));
    let mut zero_len = p.clone();
    zero_len[12] = 0;
    zero_len[15] = 0x85;
    assert_eq!(
        pp.uplink_forwarding_table.process_uplink_packet(&zero_len, zero_len.len()),
        Err(UplinkDrop::TooShortExt)
    );
    let mut long_ext = p.clone();
    long_ext[12] = 9;
    assert_eq!(
        pp.uplink_forwarding_table.process_uplink_packet(&long_ext, long_ext.len()),
        Err(UplinkDrop::TooShortExt)
    );
}

#[test]
fn uplink_too_short_is_dropped() {
    let pp = PacketProcessor::new(SUBNET);
    let p = uplink_packet([0, 0, 0, 1]);
    assert_eq!(pp.uplink_forwarding_table.process_uplink_packet(&p, 30), Err(UplinkDrop::TooShort));
}

#[test]
fn uplink_wrong_gtp_type_is_dropped() {
    let pp = PacketProcessor::new(SUBNET);
    let mut p = uplink_packet([0, 0, 0, 1]);
    p[1] = 0x1a;
    assert_eq!(pp.uplink_forwarding_table.process_uplink_packet(&p, p.len()), Err(UplinkDrop::GtpMessageType));
}

#[test]
fn uplink_header_checks() {
    let pp = PacketProcessor::new(SUBNET);
    let mut p = uplink_packet([0, 0, 0, 1]);
    p[8] = 0x00;
    assert_eq!(pp.uplink_forwarding_table.process_uplink_packet(&p, p.len()), Err(UplinkDrop::PdcpControl));
    let mut p = uplink_packet([0, 0, 0, 1]);
    p[10] = 0x01;
    assert_eq!(pp.uplink_forwarding_table.process_uplink_packet(&p, p.len()), Err(UplinkDrop::SdapControl));
    let mut p = uplink_packet([0, 0, 0, 1]);
    p[11] = 0x60;
    assert_eq!(pp.uplink_forwarding_table.process_uplink_packet(&p, p.len()), Err(UplinkDrop::NotIpv4));
}

#[test]
fn uplink_teid_mismatch_is_dropped() {
    let mut pp = PacketProcessor::new(SUBNET);
    let s = pp.reserve_userplane_session().unwrap();
    let mut t = s.uplink_gtp_teid.0;
    t[0] ^= 0xff;
    let p = uplink_packet(t);
    assert_eq!(pp.uplink_forwarding_table.process_uplink_packet(&p, p.len()), Err(UplinkDrop::TeidMismatch));
    let p = uplink_packet([0, 0, 0, 9]);
    assert_eq!(pp.uplink_forwarding_table.process_uplink_packet(&p, p.len()), Err(UplinkDrop::NoRule));
}

#[test]
fn deleted_session_stops_forwarding() {
    let mut pp = PacketProcessor::new(SUBNET);
    let s = pp.reserve_userplane_session().unwrap();
    pp.commit_userplane_session(&s, tunnel([9, 9, 9, 9]));
    pp.delete_userplane_session(&s);
    let p = uplink_packet(s.uplink_gtp_teid.0);
    assert_eq!(pp.uplink_forwarding_table.process_uplink_packet(&p, p.len()), Err(UplinkDrop::NoRule));
    let mut buf = downlink_buffer(s.ue_ip_addr, 30);
    assert!(matches!(
        pp.downlink_forwarding_table.process_downlink_packet(&mut buf, 30),
        DownlinkOutcome::UnknownIp
    ));
}

#[test]
fn unusable_remote_address_drops_downlink() {
    let mut pp = PacketProcessor::new(SUBNET);
    let s = pp.reserve_userplane_session().unwrap();
    let bad = GtpTunnel {
        transport_layer_address: TransportLayerAddress::from_bytes(&[1, 2, 3]),
        gtp_teid: GtpTeid([0; 4]),
    };
    pp.commit_userplane_session(&s, bad);
    let mut buf = downlink_buffer(s.ue_ip_addr, 30);
    let before = buf.clone();
    assert!(matches!(
        pp.downlink_forwarding_table.process_downlink_packet(&mut buf, 30),
        DownlinkOutcome::UnusableRemoteAddress
    ));
    assert_eq!(buf, before);
    // A later commit with a usable address replaces the rule.
    pp.commit_userplane_session(&s, tunnel([5, 6, 7, 8]));
    assert!(matches!(
        pp.downlink_forwarding_table.process_downlink_packet(&mut buf, 30),
        DownlinkOutcome::Forward { .. }
    ));
}

#[test]
fn transport_address_round_trip() {
    let v4 = [10, 0, 0, 1];
    match TransportLayerAddress::from_ip(IpAddress::V4(v4)).to_ip() {
        Ok(IpAddress::V4(o)) => assert_eq!(o, v4),
        _ => panic!("not IPv4"),
    }
    let v6 = [0x20, 0x01, 0x0d, 0xb8, 0, 0, 0, 0, 0, 0, 0, 0, 0, 0, 0, 1];
    match TransportLayerAddress::from_ip(IpAddress::V6(v6)).to_ip() {
        Ok(IpAddress::V6(o)) => assert_eq!(o, v6),
        _ => panic!("not IPv6"),
    }
    assert!(matches!(
        TransportLayerAddress::from_bytes(&[1, 2]).to_ip(),
        Err(TransportAddressError::BadLength)
    ));
}

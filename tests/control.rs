use qcore::config::Config;
use qcore::qcore::{CoreOutput, InboundPdu, QCore};
use qcore::security::challenge_for_rand;
use qcore::sims::SimTable;
use qcore::transport::{IpAddress, TransportLayerAddress};
use qcore::ue_context::NrCgi;
use qcore::ue_procedures::{
    Cause, NasDownlink, NasUplink, PduSessionRequest, UeAction, UeEvent, UeExit,
};
use qcore::userplane::{DownlinkOutcome, GtpTeid, GtpTunnel, UserplaneSession};

const KI: &str = "465b5ce8b199b49faa5f0a2ee238a6bc";
const OPC: &str = "cd63cb71954a9f4e48a5994e37a02baf";
const DU_IP: [u8; 4] = [127, 0, 0, 2];
const SNN: &[u8] = b"5G:mnc001.mcc001.3gppnetwork.org";

fn hex16(s: &str) -> [u8; 16] {
    qcore::sims::parse_hex16(s.as_bytes()).unwrap()
}

fn new_core() -> QCore {
    let mut sims = SimTable::new();
    sims.add_entry("imsi-001010123456789", KI, OPC).unwrap();
    sims.add_entry("imsi-001010123456780", KI, OPC).unwrap();
    let config = Config {
        ip_addr: IpAddress::V4([127, 0, 0, 1]),
        name: Some("QCore".to_string()),
        plmn: [0x00, 0xf1, 0x10],
        serving_network_name: SNN.to_vec(),
        sst: 1,
        skip_ue_authentication_check: false,
        amf_ids: [0x01, 0x00, 0x80],
        n6_tun_name: "ue".to_string(),
        ue_subnet: [10, 255, 0, 0],
    };
    QCore::new(config, sims)
}

/// SUPI mobile identity for IMSI 00101 0123456 78<last>.
fn supi(last: u8) -> Vec<u8> {
    vec![0x01, 0x00, 0xf1, 0x10, 0x00, 0x00, 0x00, 0x00, 0x10, 0x32, 0x54, 0x76, 0x98 & 0x0f | (last << 4)]
}

fn ue_message(cu: u32, event: UeEvent) -> InboundPdu {
    InboundPdu::UeMessage { gnb_cu_ue_f1ap_id: cu, event }
}

fn expect_to_ue(out: CoreOutput) -> (u32, UeAction) {
    match out {
        CoreOutput::ToUe { gnb_cu_ue_f1ap_id, action, .. } => (gnb_cu_ue_f1ap_id, action),
        CoreOutput::UeEnded { exit, .. } => panic!("UE ended: {exit:?}"),
        _ => panic!("no message for the UE"),
    }
}

fn nas_event(nas: NasUplink) -> UeEvent {
    UeEvent::UlInformationTransfer { nas: Some(nas) }
}

fn remote_tunnel(teid: [u8; 4]) -> GtpTunnel {
    GtpTunnel {
        transport_layer_address: TransportLayerAddress::from_ip(IpAddress::V4(DU_IP)),
        gtp_teid: GtpTeid(teid),
    }
}

/// Registration up to Registration Complete; returns the CU-F1AP id.
fn register(qc: &mut QCore, du_id: u32, imsi_last: u8, replay: Option<bool>) -> Result<u32, UeExit> {
    let initial = InboundPdu::InitialUlRrcMessageTransfer {
        gnb_du_ue_f1ap_id: du_id,
        nr_cgi: NrCgi { plmn_identity: 0x00f110, nr_cell_identity: 1 },
        event: UeEvent::InitialUlRrcMessageTransfer { du_to_cu_rrc_container: Some(vec![0xcc]), rrc_setup_request: true },
    };
    let (cu, action) = expect_to_ue(qc.handle_pdu(initial));
    assert!(matches!(action, UeAction::RrcSetup { ref cell_group_config } if cell_group_config == &vec![0xcc]));
    assert_ne!(cu, 0);

    let registration = NasUplink::RegistrationRequest { mobile_identity: supi(imsi_last), ue_security_capability: Some(vec![0xf0, 0xf0]) };
    let (_, action) = expect_to_ue(qc.handle_pdu(ue_message(cu, UeEvent::RrcSetupComplete { nas: Some(registration) })));
    let rand = match action {
        UeAction::DlNas(NasDownlink::AuthenticationRequest { rand, autn }) => {
            assert_eq!(autn[6..8], [0x80, 0x00]);
            rand
        }
        other => panic!("expected Authentication Request, got {other:?}"),
    };
    let res_star = challenge_for_rand(&hex16(KI), &hex16(OPC), SNN, &[0; 6], rand).xres_star;
    let response = NasUplink::AuthenticationResponse { authentication_response_parameter: Some(res_star.to_vec()) };
    let (_, action) = expect_to_ue(qc.handle_pdu(ue_message(cu, nas_event(response))));
    assert!(matches!(
        action,
        UeAction::DlNas(NasDownlink::SecurityModeCommand { ref replayed_ue_security_capability })
            if replayed_ue_security_capability == &vec![0xf0, 0xf0]
    ));

    let smc = NasUplink::SecurityModeComplete { replayed_registration_request: replay };
    match qc.handle_pdu(ue_message(cu, nas_event(smc))) {
        CoreOutput::ToUe { action: UeAction::RrcSecurityModeCommand, .. } => {}
        CoreOutput::UeEnded { exit, .. } => return Err(exit),
        _ => panic!("expected RRC Security Mode Command"),
    }
    let (_, action) = expect_to_ue(qc.handle_pdu(ue_message(cu, UeEvent::OtherUlDcch)));
    match action {
        UeAction::DlNas(NasDownlink::RegistrationAccept { sst, guti }) => {
            assert_eq!(sst, 1);
            assert_eq!(guti.len(), 11);
            assert_eq!(guti[..7], [0xf2, 0x00, 0xf1, 0x10, 0x01, 0x00, 0x80]);
        }
        other => panic!("expected Registration Accept, got {other:?}"),
    }
    let (_, action) = expect_to_ue(qc.handle_pdu(ue_message(cu, nas_event(NasUplink::RegistrationComplete))));
    assert!(matches!(action, UeAction::Nothing));
    Ok(cu)
}

/// PDU session establishment; returns the session.
fn establish_session(qc: &mut QCore, cu: u32, remote_teid: [u8; 4]) -> UserplaneSession {
    let request = PduSessionRequest { pdu_session_identity: 1, procedure_transaction_identity: 5 };
    let transport = NasUplink::UlNasTransport { pdu_session_establishment_request: Some(request) };
    let (_, action) = expect_to_ue(qc.handle_pdu(ue_message(cu, nas_event(transport))));
    let session = match action {
        UeAction::UeContextSetupRequest { session, sst } => {
            assert_eq!(sst, 1);
            session
        }
        other => panic!("expected UE Context Setup Request, got {other:?}"),
    };
    assert_eq!(session.ue_ip_addr[3], session.uplink_gtp_teid.0[3]);
    let response = UeEvent::UeContextSetupResponse { cell_group_config: vec![0xdd], remote_tunnel: Some(remote_tunnel(remote_teid)) };
    let (_, action) = expect_to_ue(qc.handle_pdu(ue_message(cu, response)));
    match action {
        UeAction::RrcReconfiguration { nas: NasDownlink::PduSessionEstablishmentAccept { pdu_session_identity, procedure_transaction_identity, ue_ipv4, sst }, cell_group_config, pdu_session_id } => {
            assert_eq!((pdu_session_identity, procedure_transaction_identity, sst, pdu_session_id), (1, 5, 1, 1));
            assert_eq!(ue_ipv4, session.ue_ip_addr);
            assert_eq!(cell_group_config, vec![0xdd]);
        }
        other => panic!("expected RRC Reconfiguration, got {other:?}"),
    }
    let (_, action) = expect_to_ue(qc.handle_pdu(ue_message(cu, UeEvent::RrcReconfigurationComplete)));
    assert!(matches!(action, UeAction::Nothing));
    session
}

fn downlink_to(qc: &mut QCore, dst: [u8; 4]) -> (DownlinkOutcome, Vec<u8>) {
    let mut buf = vec![0u8; 2000];
    buf[22] = 0x45;
    buf[22 + 16..22 + 20].copy_from_slice(&dst);
    let out = qc.packet_processor.downlink_forwarding_table.process_downlink_packet(&mut buf, 28);
    (out, buf)
}

fn uplink_from(teid: [u8; 4], dst: [u8; 4]) -> Vec<u8> {
    let mut p = vec![0x30, 0xff, 0x00, 0x17, teid[0], teid[1], teid[2], teid[3], 0x80, 0x00, 0x81];
    let mut ip = vec![0u8; 20];
    ip[0] = 0x45;
    ip[16..20].copy_from_slice(&dst);
    p.extend_from_slice(&ip);
    p
}

#[test]
fn attach() {
    let mut qc = new_core();
    assert!(matches!(qc.handle_pdu(InboundPdu::F1SetupRequest { transaction_id: 3 }), CoreOutput::F1SetupResponse { transaction_id: 3 }));
    let cu = register(&mut qc, 17, 9, Some(true)).unwrap();
    let session = establish_session(&mut qc, cu, [0xa, 0xb, 0xc, 0xd]);
    let (out, buf) = downlink_to(&mut qc, session.ue_ip_addr);
    assert!(matches!(out, DownlinkOutcome::Forward { remote_ip: IpAddress::V4(DU_IP), len: 50 }));
    assert_eq!(buf[4..8], [0xa, 0xb, 0xc, 0xd]);
    let p = uplink_from(session.uplink_gtp_teid.0, [8, 8, 8, 8]);
    assert_eq!(qc.packet_processor.uplink_forwarding_table.process_uplink_packet(&p, p.len()), Ok(11));
}

#[test]
fn two_ues() {
    let mut qc = new_core();
    let cu1 = register(&mut qc, 1, 9, Some(true)).unwrap();
    let cu2 = register(&mut qc, 2, 0, Some(true)).unwrap();
    assert_ne!(cu1, cu2);
    let s1 = establish_session(&mut qc, cu1, [1, 1, 1, 1]);
    let s2 = establish_session(&mut qc, cu2, [2, 2, 2, 2]);
    assert_ne!(s1.ue_ip_addr[3], s2.ue_ip_addr[3]);
    let (_, buf) = downlink_to(&mut qc, s1.ue_ip_addr);
    assert_eq!(buf[4..8], [1, 1, 1, 1]);
    let (_, buf) = downlink_to(&mut qc, s2.ue_ip_addr);
    assert_eq!(buf[4..8], [2, 2, 2, 2]);

    // UE1 to UE2: uplink, then the inner packet goes back down to UE2.
    let p = uplink_from(s1.uplink_gtp_teid.0, s2.ue_ip_addr);
    let offset = qc.packet_processor.uplink_forwarding_table.process_uplink_packet(&p, p.len()).unwrap();
    let inner = &p[offset..];
    let mut buf = vec![0u8; 2000];
    buf[22..22 + inner.len()].copy_from_slice(inner);
    let out = qc.packet_processor.downlink_forwarding_table.process_downlink_packet(&mut buf, inner.len());
    assert!(matches!(out, DownlinkOutcome::Forward { .. }));
    assert_eq!(buf[4..8], [2, 2, 2, 2]);
}

#[test]
fn deregistration() {
    let mut qc = new_core();
    let cu = register(&mut qc, 4, 9, Some(true)).unwrap();
    let session = establish_session(&mut qc, cu, [4, 4, 4, 4]);
    let (_, action) = expect_to_ue(qc.handle_pdu(ue_message(cu, nas_event(NasUplink::DeregistrationRequestFromUe))));
    assert!(matches!(action, UeAction::UeContextReleaseCommand { cause: Cause::RadioNetworkNormalRelease }));
    let out = qc.handle_pdu(ue_message(cu, UeEvent::UeContextReleaseComplete));
    assert!(matches!(out, CoreOutput::UeEnded { exit: UeExit::Released, .. }));
    assert!(!qc.ue_tasks.contains(cu));
    // The slot is free again.
    let again = qc.packet_processor.reserve_userplane_session().unwrap();
    assert_eq!(again.ue_ip_addr, session.ue_ip_addr);
}

#[test]
fn context_release_request() {
    let mut qc = new_core();
    let cu = register(&mut qc, 5, 9, Some(true)).unwrap();
    let session = establish_session(&mut qc, cu, [5, 5, 5, 5]);
    let cause = Cause::Other { group: 0, value: 10 };
    let (_, action) = expect_to_ue(qc.handle_pdu(ue_message(cu, UeEvent::UeContextReleaseRequest { cause })));
    assert!(matches!(action, UeAction::UeContextReleaseCommand { cause: Cause::Other { group: 0, value: 10 } }));
    assert!(matches!(qc.handle_pdu(ue_message(cu, UeEvent::UeContextReleaseComplete)), CoreOutput::UeEnded { .. }));
    assert!(!qc.ue_tasks.contains(cu));
    assert!(matches!(qc.handle_pdu(ue_message(cu, UeEvent::OtherUlDcch)), CoreOutput::Dropped));
    let (out, _) = downlink_to(&mut qc, session.ue_ip_addr);
    assert!(matches!(out, DownlinkOutcome::UnknownIp));
}

#[test]
fn f1_removal() {
    let mut qc = new_core();
    let cu1 = register(&mut qc, 1, 9, Some(true)).unwrap();
    let cu2 = register(&mut qc, 2, 0, Some(true)).unwrap();
    let s1 = establish_session(&mut qc, cu1, [1, 1, 1, 1]);
    let out = qc.handle_pdu(InboundPdu::F1RemovalRequest { transaction_id: 9 });
    assert!(matches!(out, CoreOutput::F1RemovalResponse { transaction_id: 9 }));
    assert!(!qc.ue_tasks.contains(cu1));
    assert!(!qc.ue_tasks.contains(cu2));
    assert!(qc.ue_tasks.ue_ids().is_empty());
    let p = uplink_from(s1.uplink_gtp_teid.0, [8, 8, 8, 8]);
    assert!(qc.packet_processor.uplink_forwarding_table.process_uplink_packet(&p, p.len()).is_err());
}

#[test]
fn security_mode_complete_with_replayed_registration() {
    let mut qc = new_core();
    assert!(register(&mut qc, 6, 9, Some(true)).is_ok());
    let mut qc = new_core();
    assert!(register(&mut qc, 6, 9, None).is_ok());
    let mut qc = new_core();
    assert_eq!(register(&mut qc, 6, 9, Some(false)), Err(UeExit::NotRegistrationRequest));
}

#[test]
fn wrong_res_star_ends_the_ue() {
    let mut qc = new_core();
    let initial = InboundPdu::InitialUlRrcMessageTransfer {
        gnb_du_ue_f1ap_id: 1,
        nr_cgi: NrCgi { plmn_identity: 0, nr_cell_identity: 0 },
        event: UeEvent::InitialUlRrcMessageTransfer { du_to_cu_rrc_container: Some(vec![]), rrc_setup_request: true },
    };
    let (cu, _) = expect_to_ue(qc.handle_pdu(initial));
    let registration = NasUplink::RegistrationRequest { mobile_identity: supi(9), ue_security_capability: Some(vec![0]) };
    expect_to_ue(qc.handle_pdu(ue_message(cu, UeEvent::RrcSetupComplete { nas: Some(registration) })));
    let response = NasUplink::AuthenticationResponse { authentication_response_parameter: Some(vec![0; 16]) };
    let out = qc.handle_pdu(ue_message(cu, nas_event(response)));
    assert!(matches!(out, CoreOutput::UeEnded { exit: UeExit::AuthenticationFailure, .. }));
    assert!(!qc.ue_tasks.contains(cu));
}

#[test]
fn registration_checks() {
    let mut qc = new_core();
    let initial = |du| InboundPdu::InitialUlRrcMessageTransfer {
        gnb_du_ue_f1ap_id: du,
        nr_cgi: NrCgi { plmn_identity: 0, nr_cell_identity: 0 },
        event: UeEvent::InitialUlRrcMessageTransfer { du_to_cu_rrc_container: Some(vec![]), rrc_setup_request: true },
    };
    let (cu, _) = expect_to_ue(qc.handle_pdu(initial(1)));
    let unknown = NasUplink::RegistrationRequest { mobile_identity: supi(1), ue_security_capability: Some(vec![0]) };
    let out = qc.handle_pdu(ue_message(cu, UeEvent::RrcSetupComplete { nas: Some(unknown) }));
    assert!(matches!(out, CoreOutput::UeEnded { exit: UeExit::UnknownImsi, .. }));

    let (cu, _) = expect_to_ue(qc.handle_pdu(initial(2)));
    let mut other_plmn = supi(9);
    other_plmn[1] = 0x13;
    let mismatch = NasUplink::RegistrationRequest { mobile_identity: other_plmn, ue_security_capability: Some(vec![0]) };
    let out = qc.handle_pdu(ue_message(cu, UeEvent::RrcSetupComplete { nas: Some(mismatch) }));
    assert!(matches!(out, CoreOutput::UeEnded { exit: UeExit::PlmnMismatch, .. }));

    let missing = InboundPdu::InitialUlRrcMessageTransfer {
        gnb_du_ue_f1ap_id: 3,
        nr_cgi: NrCgi { plmn_identity: 0, nr_cell_identity: 0 },
        event: UeEvent::InitialUlRrcMessageTransfer { du_to_cu_rrc_container: None, rrc_setup_request: true },
    };
    assert!(matches!(qc.handle_pdu(missing), CoreOutput::UeEnded { exit: UeExit::MissingDuToCuRrcContainer, .. }));
    assert!(qc.ue_tasks.ue_ids().is_empty());
}

#[test]
fn global_procedures_and_unknown_ue() {
    let mut qc = new_core();
    assert!(matches!(
        qc.handle_pdu(InboundPdu::GnbDuConfigurationUpdate { transaction_id: 7 }),
        CoreOutput::GnbDuConfigurationUpdateAcknowledge { transaction_id: 7 }
    ));
    assert!(matches!(qc.handle_pdu(ue_message(1234, UeEvent::OtherUlDcch)), CoreOutput::Dropped));
    assert!(matches!(qc.handle_pdu(InboundPdu::Unhandled), CoreOutput::Dropped));
}

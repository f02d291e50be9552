use qcore::config::{check_local_ip, check_ue_subnet, Config, ConfigError};
use qcore::qcore::{CoreOutput, F1apCu, InboundPdu, QCore};
use qcore::registry::UeRegistry;
use qcore::sims::SimTable;
use qcore::stats::{stats_report, StatsReport, DL_NUM_COUNTERS, UL_NUM_COUNTERS};
use qcore::transport::IpAddress;
use qcore::ue_context::{NrCgi, UeContext};
use qcore::ue_procedures::{nas_mobile_identity_guti, NasUplink, UeEvent, UeExit};
use qcore::nas::NasError;

fn bare_core() -> QCore {
    let config = Config {
        ip_addr: IpAddress::V4([192, 0, 2, 1]),
        name: None,
        plmn: [0x00, 0xf1, 0x10],
        serving_network_name: b"5G:mnc001.mcc001.3gppnetwork.org".to_vec(),
        sst: 1,
        skip_ue_authentication_check: true,
        amf_ids: [1, 0, 0x80],
        n6_tun_name: "ue".to_string(),
        ue_subnet: [10, 255, 0, 0],
    };
    QCore::new(config, SimTable::new())
}

fn start_ue(qc: &mut QCore) -> u32 {
    let pdu = InboundPdu::InitialUlRrcMessageTransfer {
        gnb_du_ue_f1ap_id: 1,
        nr_cgi: NrCgi { plmn_identity: 0, nr_cell_identity: 0 },
        event: UeEvent::InitialUlRrcMessageTransfer { du_to_cu_rrc_container: Some(vec![1]), rrc_setup_request: true },
    };
    match qc.handle_pdu(pdu) {
        CoreOutput::ToUe { gnb_cu_ue_f1ap_id, gnb_du_ue_f1ap_id, .. } => {
            assert_eq!(gnb_du_ue_f1ap_id, 1);
            gnb_cu_ue_f1ap_id
        }
        _ => panic!("UE did not start"),
    }
}

fn exit_of(out: CoreOutput) -> UeExit {
    match out {
        CoreOutput::UeEnded { exit, .. } => exit,
        _ => panic!("UE did not end"),
    }
}

fn registration(mobile_identity: Vec<u8>, cap: Option<Vec<u8>>) -> UeEvent {
    UeEvent::RrcSetupComplete { nas: Some(NasUplink::RegistrationRequest { mobile_identity, ue_security_capability: cap }) }
}

#[test]
fn ue_exit_reasons() {
    let mut qc = bare_core();
    let pdu = InboundPdu::InitialUlRrcMessageTransfer {
        gnb_du_ue_f1ap_id: 1,
        nr_cgi: NrCgi { plmn_identity: 0, nr_cell_identity: 0 },
        event: UeEvent::InitialUlRrcMessageTransfer { du_to_cu_rrc_container: Some(vec![1]), rrc_setup_request: false },
    };
    assert_eq!(exit_of(qc.handle_pdu(pdu)), UeExit::NotRrcSetupRequest);

    let supi = vec![0x01, 0x00, 0xf1, 0x10, 0, 0, 0, 0, 0x10, 0x32, 0x54, 0x76, 0x98];
    let cu = start_ue(&mut qc);
    let out = qc.handle_pdu(InboundPdu::UeMessage { gnb_cu_ue_f1ap_id: cu, event: registration(supi.clone(), None) });
    assert_eq!(exit_of(out), UeExit::MissingSecurityCapability);

    let cu = start_ue(&mut qc);
    let out = qc.handle_pdu(InboundPdu::UeMessage { gnb_cu_ue_f1ap_id: cu, event: registration(vec![1; 5], Some(vec![0])) });
    assert_eq!(exit_of(out), UeExit::MobileIdentity(NasError::MobileIdentityTooShort));

    let cu = start_ue(&mut qc);
    let mut guti = supi.clone();
    guti[0] = 0xf2;
    let out = qc.handle_pdu(InboundPdu::UeMessage { gnb_cu_ue_f1ap_id: cu, event: registration(guti, Some(vec![0])) });
    assert_eq!(exit_of(out), UeExit::MobileIdentity(NasError::NotSupi));

    let cu = start_ue(&mut qc);
    let out = qc.handle_pdu(InboundPdu::UeMessage { gnb_cu_ue_f1ap_id: cu, event: UeEvent::OtherUlDcch });
    assert_eq!(exit_of(out), UeExit::UnexpectedMessage);
    assert!(qc.ue_tasks.ue_ids().is_empty());
}

#[test]
fn missing_res_star_ends_the_ue() {
    let mut qc = bare_core();
    qc.sims.add_entry("imsi-001010123456789", "465b5ce8b199b49faa5f0a2ee238a6bc", "cd63cb71954a9f4e48a5994e37a02baf").unwrap();
    let supi = vec![0x01, 0x00, 0xf1, 0x10, 0, 0, 0, 0, 0x10, 0x32, 0x54, 0x76, 0x98];
    let cu = start_ue(&mut qc);
    let out = qc.handle_pdu(InboundPdu::UeMessage { gnb_cu_ue_f1ap_id: cu, event: registration(supi, Some(vec![0])) });
    assert!(matches!(out, CoreOutput::ToUe { .. }));
    let response = NasUplink::AuthenticationResponse { authentication_response_parameter: None };
    let out = qc.handle_pdu(InboundPdu::UeMessage { gnb_cu_ue_f1ap_id: cu, event: UeEvent::UlInformationTransfer { nas: Some(response) } });
    assert_eq!(exit_of(out), UeExit::MissingAuthenticationResponseParameter);
}

#[test]
fn skip_flag_accepts_any_res_star() {
    let mut qc = bare_core();
    qc.sims.add_entry("imsi-001010123456789", "465b5ce8b199b49faa5f0a2ee238a6bc", "cd63cb71954a9f4e48a5994e37a02baf").unwrap();
    let supi = vec![0x01, 0x00, 0xf1, 0x10, 0, 0, 0, 0, 0x10, 0x32, 0x54, 0x76, 0x98];
    let cu = start_ue(&mut qc);
    qc.handle_pdu(InboundPdu::UeMessage { gnb_cu_ue_f1ap_id: cu, event: registration(supi, Some(vec![0])) });
    let response = NasUplink::AuthenticationResponse { authentication_response_parameter: Some(vec![0; 16]) };
    let out = qc.handle_pdu(InboundPdu::UeMessage { gnb_cu_ue_f1ap_id: cu, event: UeEvent::UlInformationTransfer { nas: Some(response) } });
    assert!(matches!(out, CoreOutput::ToUe { .. }));
    assert!(qc.ue_tasks.contains(cu));
}

#[test]
fn config_checks() {
    assert_eq!(check_ue_subnet([10, 255, 0, 0]), Ok(()));
    assert_eq!(check_ue_subnet([10, 255, 0, 1]), Err(ConfigError::UeSubnetHostBits));
    assert_eq!(check_local_ip(IpAddress::V4([0, 0, 0, 0])), Err(ConfigError::UnspecifiedLocalIp));
    assert_eq!(check_local_ip(IpAddress::V4([0, 0, 0, 1])), Ok(()));
    assert_eq!(check_local_ip(IpAddress::V6([0; 16])), Err(ConfigError::UnspecifiedLocalIp));
    assert!(matches!(bare_core().ip_addr(), IpAddress::V4([192, 0, 2, 1])));
}

#[test]
fn stats_report_decisions() {
    let mut last_dl = vec![0u64; DL_NUM_COUNTERS];
    let mut last_ul = vec![0u64; UL_NUM_COUNTERS];
    let quiet = stats_report(&mut last_dl, &mut last_ul, &vec![0; DL_NUM_COUNTERS], &vec![0; UL_NUM_COUNTERS]);
    assert_eq!(quiet, StatsReport { traffic: false, dl_warn: false, ul_warn: false });

    let dl = vec![3, 300, 1, 0];
    let ul = vec![0; UL_NUM_COUNTERS];
    let r = stats_report(&mut last_dl, &mut last_ul, &dl, &ul);
    assert_eq!(r, StatsReport { traffic: true, dl_warn: true, ul_warn: false });
    assert_eq!(last_dl, dl);

    // Bytes moved without packets: no traffic line, and the traffic counters stay.
    let dl2 = vec![3, 400, 1, 0];
    let mut ul2 = vec![0; UL_NUM_COUNTERS];
    ul2[9] = 1;
    let r = stats_report(&mut last_dl, &mut last_ul, &dl2, &ul2);
    assert_eq!(r, StatsReport { traffic: false, dl_warn: false, ul_warn: true });
    assert_eq!(last_dl[1], 300);
    assert_eq!(last_ul[9], 1);
}

#[test]
fn registry_ids_are_unique_and_non_zero() {
    let mut reg = UeRegistry::new();
    let nr_cgi = NrCgi { plmn_identity: 0, nr_cell_identity: 0 };
    assert!(!reg.try_insert(UeContext::new(0, 1, nr_cgi)));
    assert!(reg.try_insert(UeContext::new(7, 1, nr_cgi)));
    assert!(!reg.try_insert(UeContext::new(7, 2, nr_cgi)));
    let id = reg.allocate_ue_id().unwrap();
    assert!(id != 0 && id != 7);
    assert_eq!(reg.first_fresh_id(&[0, 7, 9, 11]), Some(9));
    assert_eq!(reg.first_fresh_id(&[0, 7]), None);
    assert_eq!(reg.first_fresh_id(&[]), None);
    assert_eq!(reg.remove(7).map(|ue| ue.gnb_du_ue_f1ap_id), Some(1));
    assert!(reg.remove(7).is_none());
}

#[test]
fn guti_layout() {
    let guti = nas_mobile_identity_guti(&[0x00, 0xf1, 0x10], &[0x01, 0x00, 0x80], &[9, 8, 7, 6]);
    assert_eq!(guti, vec![0xf2, 0x00, 0xf1, 0x10, 0x01, 0x00, 0x80, 9, 8, 7, 6]);
}

#[test]
fn f1ap_cu_wraps_its_handler() {
    let cu = F1apCu::new(bare_core());
    assert!(cu.0.ue_tasks.ue_ids().is_empty());
}

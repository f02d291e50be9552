//! The per-UE signalling state machine: the initial-access ladder (RRC Setup,
//! Authentication, NAS and RRC Security Mode, Registration), then PDU session
//! establishment, deregistration and context release. Each inbound message
//! that the UE's mailbox delivers is one event; the machine answers with the
//! downlink message to send, or ends the UE.
use vstd::prelude::*;

use crate::config::Config;
use crate::identity::{fgs_mobile_identity, supi_imsi};
use crate::nas::NasError;
use crate::security::{
    algorithm_key_spec, derive_kamf, derive_kgnb, derive_knasint, derive_krrcint, generate_challenge,
    is_challenge, kamf_spec, kgnb_spec,
};
use crate::sims::{bytes_equal, SimTable};
use crate::ue_context::{PduSession, UeContext};
use crate::userplane::{committed_rule, GtpTunnel, PacketProcessor, UserplaneError, UserplaneSession};
use vstd::utf8::encode_utf8;

verus! {

/// Cause carried by UE Context Release.
#[derive(Clone, Copy, Debug, PartialEq, Eq, Structural)]
pub enum Cause {
    /// Radio network layer cause "normal release".
    RadioNetworkNormalRelease,
    /// Another cause, as the DU gave it: cause group and value.
    Other { group: u8, value: u8 },
}

/// The parts of a PDU Session Establishment Request that the core reads.
#[derive(Clone, Copy, Debug, PartialEq, Eq, Structural)]
pub struct PduSessionRequest {
    pub pdu_session_identity: u8,
    pub procedure_transaction_identity: u8,
}

/// An uplink NAS message, as the NAS codec decoded it.
#[derive(Debug)]
pub enum NasUplink {
    RegistrationRequest { mobile_identity: Vec<u8>, ue_security_capability: Option<Vec<u8>> },
    AuthenticationResponse { authentication_response_parameter: Option<Vec<u8>> },
    /// `replayed_registration_request`: absent without a NAS message
    /// container, else whether the container holds a Registration Request.
    SecurityModeComplete { replayed_registration_request: Option<bool> },
    RegistrationComplete,
    /// `pdu_session_establishment_request`: the 5GSM payload, when it is one.
    UlNasTransport { pdu_session_establishment_request: Option<PduSessionRequest> },
    DeregistrationRequestFromUe,
    Other,
}

/// An inbound message for a UE, decoded from F1AP, RRC and NAS.
pub enum UeEvent {
    InitialUlRrcMessageTransfer { du_to_cu_rrc_container: Option<Vec<u8>>, rrc_setup_request: bool },
    /// UL RRC Message Transfer with RRC Setup Complete; `nas` is absent when
    /// the dedicated NAS message does not decode.
    RrcSetupComplete { nas: Option<NasUplink> },
    /// UL RRC Message Transfer with UL Information Transfer; `nas` is absent
    /// when there is no dedicated NAS message or it does not decode.
    UlInformationTransfer { nas: Option<NasUplink> },
    /// UL RRC Message Transfer with RRC Reconfiguration Complete.
    RrcReconfigurationComplete,
    /// UL RRC Message Transfer with any other UL-DCCH message.
    OtherUlDcch,
    /// UE Context Setup Response; `remote_tunnel` is the DRB's downlink
    /// tunnel, absent when the response lacks it.
    UeContextSetupResponse { cell_group_config: Vec<u8>, remote_tunnel: Option<GtpTunnel> },
    UeContextReleaseRequest { cause: Cause },
    UeContextReleaseComplete,
    /// Any other F1AP PDU.
    Unexpected,
}

/// A downlink NAS message to build.
#[derive(Debug)]
pub enum NasDownlink {
    AuthenticationRequest { rand: [u8; 16], autn: [u8; 16] },
    SecurityModeCommand { replayed_ue_security_capability: Vec<u8> },
    RegistrationAccept { sst: u8, guti: Vec<u8> },
    PduSessionEstablishmentAccept {
        pdu_session_identity: u8,
        procedure_transaction_identity: u8,
        ue_ipv4: [u8; 4],
        sst: u8,
    },
}

/// What a UE sends in answer to an event.
#[derive(Debug)]
pub enum UeAction {
    /// DL RRC Message Transfer on SRB0 with RRC Setup.
    RrcSetup { cell_group_config: Vec<u8> },
    /// DL RRC Message Transfer on SRB1 with DL Information Transfer carrying NAS.
    DlNas(NasDownlink),
    /// DL RRC Message Transfer on SRB1 with RRC Security Mode Command.
    RrcSecurityModeCommand,
    /// UE Context Setup Request for one DRB on this session.
    UeContextSetupRequest { session: UserplaneSession, sst: u8 },
    /// DL RRC Message Transfer on SRB1 with RRC Reconfiguration carrying NAS.
    RrcReconfiguration { nas: NasDownlink, cell_group_config: Vec<u8>, pdu_session_id: u8 },
    /// UE Context Release Command.
    UeContextReleaseCommand { cause: Cause },
    /// Nothing to send.
    Nothing,
}

/// Why a UE's task ends.
#[derive(Clone, Copy, Debug, PartialEq, Eq, Structural)]
pub enum UeExit {
    MissingDuToCuRrcContainer,
    NotRrcSetupRequest,
    UnexpectedMessage,
    MissingSecurityCapability,
    MobileIdentity(NasError),
    PlmnMismatch,
    UnknownImsi,
    MissingAuthenticationResponseParameter,
    AuthenticationFailure,
    NotRegistrationRequest,
    Userplane(UserplaneError),
    /// The IMSI is too long for a KDF parameter.
    ImsiTooLong,
    /// The UE context was released.
    Released,
}

/// Where a UE stands in its signalling.
pub enum UeState {
    AwaitInitialTransfer,
    AwaitRrcSetupComplete,
    AwaitAuthenticationResponse {
        imsi: String,
        xres_star: [u8; 16],
        kseaf: [u8; 32],
        ue_security_capability: Vec<u8>,
    },
    AwaitSecurityModeComplete { kamf: [u8; 32] },
    AwaitRrcSecurityModeComplete,
    AwaitRegistrationComplete,
    Registered,
    AwaitUeContextSetupResponse { session: UserplaneSession, request: PduSessionRequest },
    AwaitRrcReconfigurationComplete,
    AwaitUeContextReleaseComplete,
}

/// The 5G-GUTI mobile identity: type octet, PLMN, AMF ids, TMSI.
pub open spec fn guti_spec(plmn: Seq<u8>, amf_ids: Seq<u8>, tmsi: Seq<u8>) -> Seq<u8> {
    seq![0xf2u8] + plmn + amf_ids + tmsi
}

/// The 5G-GUTI mobile identity IE value for a UE.
pub fn nas_mobile_identity_guti(plmn: &[u8; 3], guami: &[u8; 3], tmsi: &[u8; 4]) -> (r: Vec<u8>)
    ensures
        r@ == guti_spec(plmn@, guami@, tmsi@),
{
    let mut guti: Vec<u8> = Vec::new();
    guti.push(0xf2);
    guti.extend_from_slice(plmn);
    guti.extend_from_slice(guami);
    guti.extend_from_slice(tmsi);
    assert(guti@ =~= guti_spec(plmn@, guami@, tmsi@));
    guti
}

/// The KNASint derived for a UE that authenticated with this KSEAF and IMSI.
pub open spec fn knasint_for(kseaf: Seq<u8>, imsi: Seq<u8>) -> Seq<u8> {
    algorithm_key_spec(kamf_spec(kseaf, imsi), 0x02, 0x02)
}

/// The KRRCint derived from KAMF, with uplink NAS COUNT zero.
pub open spec fn krrcint_for(kamf: Seq<u8>) -> Seq<u8> {
    algorithm_key_spec(kgnb_spec(kamf, 0), 0x04, 0x02)
}

/// Outcome of the first message: RRC Setup toward the UE.
pub open spec fn on_initial_transfer(event: UeEvent, r: Result<UeAction, UeExit>, next: UeState) -> bool {
    match event {
        UeEvent::InitialUlRrcMessageTransfer { du_to_cu_rrc_container, rrc_setup_request } => match du_to_cu_rrc_container {
            None => r == Err::<UeAction, UeExit>(UeExit::MissingDuToCuRrcContainer),
            Some(c) => if !rrc_setup_request {
                r == Err::<UeAction, UeExit>(UeExit::NotRrcSetupRequest)
            } else {
                r == Ok::<UeAction, UeExit>(UeAction::RrcSetup { cell_group_config: c }) && next is AwaitRrcSetupComplete
            },
        },
        _ => r == Err::<UeAction, UeExit>(UeExit::UnexpectedMessage),
    }
}

/// Outcome of RRC Setup Complete: check the Registration Request, look up
/// the SIM and challenge the UE.
pub open spec fn on_rrc_setup_complete(event: UeEvent, config: Config, sims: SimTable, r: Result<UeAction, UeExit>, next: UeState) -> bool {
    match event {
        UeEvent::RrcSetupComplete { nas: Some(NasUplink::RegistrationRequest { mobile_identity, ue_security_capability }) } => {
            let mi = mobile_identity@;
            let imsi = encode_utf8(supi_imsi(mi));
            match ue_security_capability {
                None => r == Err::<UeAction, UeExit>(UeExit::MissingSecurityCapability),
                Some(cap) => if mi.len() < 12 {
                    r == Err::<UeAction, UeExit>(UeExit::MobileIdentity(NasError::MobileIdentityTooShort))
                } else if mi[0] != 0x01 {
                    r == Err::<UeAction, UeExit>(UeExit::MobileIdentity(NasError::NotSupi))
                } else if mi.subrange(1, 4) != config.plmn@ {
                    r == Err::<UeAction, UeExit>(UeExit::PlmnMismatch)
                } else if imsi.len() >= 0x1_0000 {
                    r == Err::<UeAction, UeExit>(UeExit::ImsiTooLong)
                } else {
                    match sims.creds_of(imsi) {
                        None => r == Err::<UeAction, UeExit>(UeExit::UnknownImsi),
                        Some(creds) => r matches Ok(UeAction::DlNas(NasDownlink::AuthenticationRequest { rand, autn }))
                            && next matches UeState::AwaitAuthenticationResponse { imsi: i, xres_star, kseaf, ue_security_capability: c }
                            && i@ == supi_imsi(mi)
                            && c == cap
                            && is_challenge(
                                crate::security::Challenge { rand, autn, xres_star, kseaf },
                                creds.ki@, creds.opc@, config.serving_network_name@, seq![0u8, 0, 0, 0, 0, 0], rand@,
                            ),
                    }
                },
            }
        },
        _ => r == Err::<UeAction, UeExit>(UeExit::UnexpectedMessage),
    }
}

/// What handling one event does to a UE (`u0` before, `u1` after) and to
/// the user plane (`p0` before, `p1` after), with result `r`: the step of
/// the signalling program for each state, and what each step leaves alone.
pub open spec fn handle_event_post(
    u0: UeContext,
    event: UeEvent,
    config: Config,
    sims: SimTable,
    p0: PacketProcessor,
    r: Result<UeAction, UeExit>,
    u1: UeContext,
    p1: PacketProcessor,
) -> bool {
    &&& (u1.wf())
    &&& (p1.wf())
    &&& (u1.key == u0.key)
    &&& (u1.gnb_du_ue_f1ap_id == u0.gnb_du_ue_f1ap_id)
    &&& (u1.tmsi == u0.tmsi)
    &&& (u0.state is AwaitInitialTransfer ==> on_initial_transfer(event, r, u1.state))
    &&& (u0.state is AwaitRrcSetupComplete ==> on_rrc_setup_complete(event, config, sims, r, u1.state))
    &&& (u0.state matches UeState::AwaitAuthenticationResponse { imsi, xres_star, kseaf, ue_security_capability } ==> match event {
        UeEvent::UlInformationTransfer { nas: Some(NasUplink::AuthenticationResponse { authentication_response_parameter }) } =>
            match authentication_response_parameter {
                None => r == Err::<UeAction, UeExit>(UeExit::MissingAuthenticationResponseParameter),
                Some(res) => if !config.skip_ue_authentication_check && res@ != xres_star@ {
                    r == Err::<UeAction, UeExit>(UeExit::AuthenticationFailure)
                } else {
                    &&& r == Ok::<UeAction, UeExit>(UeAction::DlNas(NasDownlink::SecurityModeCommand { replayed_ue_security_capability: ue_security_capability }))
                    &&& u1.state matches UeState::AwaitSecurityModeComplete { kamf }
                        && kamf@ == kamf_spec(kseaf@, encode_utf8(imsi@))
                    &&& u1.nas.security_context matches Some(ctx)
                        && ctx.dl_count == 0 && ctx.ik@ == knasint_for(kseaf@, encode_utf8(imsi@))
                },
            },
        _ => r == Err::<UeAction, UeExit>(UeExit::UnexpectedMessage),
    })
    &&& (u0.state matches UeState::AwaitSecurityModeComplete { kamf } ==> match event {
        UeEvent::UlInformationTransfer { nas: Some(NasUplink::SecurityModeComplete { replayed_registration_request }) } =>
            if replayed_registration_request == Some(false) {
                r == Err::<UeAction, UeExit>(UeExit::NotRegistrationRequest)
            } else {
                &&& r == Ok::<UeAction, UeExit>(UeAction::RrcSecurityModeCommand)
                &&& u1.state is AwaitRrcSecurityModeComplete
                &&& u1.pdcp_tx.pdcp_integrity_key matches Some(k) && k@ == krrcint_for(kamf@)
                &&& u1.pdcp_tx.tx_next == u0.pdcp_tx.tx_next
            },
        _ => r == Err::<UeAction, UeExit>(UeExit::UnexpectedMessage),
    })
    &&& (u0.state is AwaitRrcSecurityModeComplete ==> {
        &&& r matches Ok(UeAction::DlNas(NasDownlink::RegistrationAccept { sst, guti }))
            && sst == config.sst && guti@ == guti_spec(config.plmn@, config.amf_ids@, u0.tmsi@)
        &&& u1.state is AwaitRegistrationComplete
    })
    &&& (u0.state is AwaitRegistrationComplete ==> match event {
        UeEvent::UlInformationTransfer { nas: Some(NasUplink::RegistrationComplete) } =>
            r == Ok::<UeAction, UeExit>(UeAction::Nothing) && u1.state is Registered,
        _ => r == Err::<UeAction, UeExit>(UeExit::UnexpectedMessage),
    })
    &&& (u0.state is Registered ==> match event {
        UeEvent::UlInformationTransfer { nas: None } => r == Err::<UeAction, UeExit>(UeExit::UnexpectedMessage),
        UeEvent::UlInformationTransfer { nas: Some(NasUplink::UlNasTransport { pdu_session_establishment_request: Some(req) }) } =>
            if slots_exhausted_for(p0) {
                r == Err::<UeAction, UeExit>(UeExit::Userplane(UserplaneError::NoMoreSlots))
            } else {
                r matches Ok(UeAction::UeContextSetupRequest { session, sst })
                    && sst == config.sst
                    && session.wf()
                    && p1.slots_in_use() == p0.slots_in_use().insert(session.slot() as usize)
                    && u1.state == (UeState::AwaitUeContextSetupResponse { session, request: req })
                    && u1.pdu_sessions@ == u0.pdu_sessions@.push(
                        PduSession { id: req.pdu_session_identity, sst: config.sst, userplane_info: session })
            },
        UeEvent::UlInformationTransfer { nas: Some(NasUplink::DeregistrationRequestFromUe) } =>
            r == Ok::<UeAction, UeExit>(UeAction::UeContextReleaseCommand { cause: Cause::RadioNetworkNormalRelease })
                && u1.state is AwaitUeContextReleaseComplete,
        UeEvent::UlInformationTransfer { nas: Some(_) } =>
            r == Ok::<UeAction, UeExit>(UeAction::Nothing) && u1.state is Registered,
        UeEvent::UeContextReleaseRequest { cause } =>
            r == Ok::<UeAction, UeExit>(UeAction::UeContextReleaseCommand { cause }) && u1.state is AwaitUeContextReleaseComplete,
        _ => r == Err::<UeAction, UeExit>(UeExit::UnexpectedMessage),
    })
    &&& (u0.state matches UeState::AwaitUeContextSetupResponse { session, request } ==> match event {
        UeEvent::UeContextSetupResponse { cell_group_config, remote_tunnel: Some(t) } => {
            &&& r == Ok::<UeAction, UeExit>(UeAction::RrcReconfiguration {
                nas: NasDownlink::PduSessionEstablishmentAccept {
                    pdu_session_identity: request.pdu_session_identity,
                    procedure_transaction_identity: request.procedure_transaction_identity,
                    ue_ipv4: session.ue_ip_addr,
                    sst: config.sst,
                },
                cell_group_config,
                pdu_session_id: request.pdu_session_identity,
            })
            &&& u1.state is AwaitRrcReconfigurationComplete
            &&& p1.slots_in_use() == p0.slots_in_use()
            &&& p1.uplink_forwarding_table.rules@ == p0.uplink_forwarding_table.rules@
            &&& p1.downlink_forwarding_table.rules@ == p0.downlink_forwarding_table.rules@.update(
                session.slot() as int,
                Some(committed_rule(session, t)),
            )
        },
        _ => r == Err::<UeAction, UeExit>(UeExit::UnexpectedMessage),
    })
    &&& (u0.state is AwaitRrcReconfigurationComplete ==> match event {
        UeEvent::RrcReconfigurationComplete => r == Ok::<UeAction, UeExit>(UeAction::Nothing) && u1.state is Registered,
        _ => r == Err::<UeAction, UeExit>(UeExit::UnexpectedMessage),
    })
    &&& (u0.state is AwaitUeContextReleaseComplete ==> match event {
        UeEvent::UeContextReleaseComplete => r == Err::<UeAction, UeExit>(UeExit::Released),
        _ => r == Err::<UeAction, UeExit>(UeExit::UnexpectedMessage),
    })
    &&& (!(u0.state is AwaitAuthenticationResponse && r is Ok) ==> u1.nas == u0.nas)
    &&& (!(u0.state is AwaitSecurityModeComplete && r is Ok) ==> u1.pdcp_tx == u0.pdcp_tx)
    &&& (!(u0.state is Registered && r matches Ok(UeAction::UeContextSetupRequest { .. }))
        ==> u1.pdu_sessions@ == u0.pdu_sessions@)
    &&& (!(u0.state is Registered || (u0.state is AwaitUeContextSetupResponse && r is Ok)) ==> p1 == p0)
}

/// Handle one event for a UE. `Ok` carries the message to send and the UE
/// moves on; `Err` ends the UE.
pub fn handle_event(
    ue: &mut UeContext,
    event: UeEvent,
    config: &Config,
    sims: &SimTable,
    pp: &mut PacketProcessor,
) -> (r: Result<UeAction, UeExit>)
    requires
        old(ue).wf(),
        old(pp).wf(),
        config.wf(),
        sims.wf(),
    ensures
        handle_event_post(*old(ue), event, *config, *sims, *old(pp), r, *final(ue), *final(pp)),
{
    let mut state = UeState::AwaitUeContextReleaseComplete;
    std::mem::swap(&mut state, &mut ue.state);
    match state {
        UeState::AwaitInitialTransfer => match event {
            UeEvent::InitialUlRrcMessageTransfer { du_to_cu_rrc_container, rrc_setup_request } => {
                match du_to_cu_rrc_container {
                    None => Err(UeExit::MissingDuToCuRrcContainer),
                    Some(cell_group_config) => {
                        if !rrc_setup_request {
                            return Err(UeExit::NotRrcSetupRequest);
                        }
                        ue.state = UeState::AwaitRrcSetupComplete;
                        Ok(UeAction::RrcSetup { cell_group_config })
                    },
                }
            },
            _ => Err(UeExit::UnexpectedMessage),
        },
        UeState::AwaitRrcSetupComplete => match event {
            UeEvent::RrcSetupComplete { nas: Some(NasUplink::RegistrationRequest { mobile_identity, ue_security_capability }) } => {
                let cap = match ue_security_capability {
                    None => {
                        return Err(UeExit::MissingSecurityCapability);
                    },
                    Some(c) => c,
                };
                let id = match fgs_mobile_identity(mobile_identity.as_slice()) {
                    Err(e) => {
                        return Err(UeExit::MobileIdentity(e));
                    },
                    Ok(id) => id,
                };
                if id.plmn[0] != config.plmn[0] || id.plmn[1] != config.plmn[1] || id.plmn[2] != config.plmn[2] {
                    assert(id.plmn@ != config.plmn@) by {
                        if id.plmn@ == config.plmn@ {
                            assert(id.plmn@[0] == config.plmn@[0]);
                            assert(id.plmn@[1] == config.plmn@[1]);
                            assert(id.plmn@[2] == config.plmn@[2]);
                        }
                    }
                    return Err(UeExit::PlmnMismatch);
                }
                assert(id.plmn@ =~= config.plmn@);
                let imsi_bytes = id.imsi.as_str().as_bytes();
                if imsi_bytes.len() >= 0x1_0000 {
                    return Err(UeExit::ImsiTooLong);
                }
                let creds = match sims.lookup_sim(id.imsi.as_str()) {
                    None => {
                        return Err(UeExit::UnknownImsi);
                    },
                    Some(c) => c,
                };
                let mut sqn = [0u8; 6];
                assert(sqn@ =~= seq![0u8, 0, 0, 0, 0, 0]);
                let challenge = generate_challenge(&creds.ki, &creds.opc, config.serving_network_name.as_slice(), &mut sqn);
                ue.state = UeState::AwaitAuthenticationResponse {
                    imsi: id.imsi,
                    xres_star: challenge.xres_star,
                    kseaf: challenge.kseaf,
                    ue_security_capability: cap,
                };
                Ok(UeAction::DlNas(NasDownlink::AuthenticationRequest { rand: challenge.rand, autn: challenge.autn }))
            },
            _ => Err(UeExit::UnexpectedMessage),
        },
        UeState::AwaitAuthenticationResponse { imsi, xres_star, kseaf, ue_security_capability } => match event {
            UeEvent::UlInformationTransfer { nas: Some(NasUplink::AuthenticationResponse { authentication_response_parameter }) } => {
                let res = match authentication_response_parameter {
                    None => {
                        return Err(UeExit::MissingAuthenticationResponseParameter);
                    },
                    Some(p) => p,
                };
                if !config.skip_ue_authentication_check && !bytes_equal(res.as_slice(), &xres_star) {
                    return Err(UeExit::AuthenticationFailure);
                }
                let kamf = derive_kamf(&kseaf, imsi.as_str().as_bytes());
                // Integrity protection starts before the Security Mode Command goes out.
                let knasint = derive_knasint(&kamf);
                ue.nas.enable_security(knasint);
                ue.state = UeState::AwaitSecurityModeComplete { kamf };
                Ok(UeAction::DlNas(NasDownlink::SecurityModeCommand { replayed_ue_security_capability: ue_security_capability }))
            },
            _ => Err(UeExit::UnexpectedMessage),
        },
        UeState::AwaitSecurityModeComplete { kamf } => match event {
            UeEvent::UlInformationTransfer { nas: Some(NasUplink::SecurityModeComplete { replayed_registration_request }) } => {
                match replayed_registration_request {
                    Some(false) => {
                        return Err(UeExit::NotRegistrationRequest);
                    },
                    _ => {},
                }
                // KgNB from the fresh KAMF with the start value of the uplink NAS COUNT.
                let kgnb = derive_kgnb(&kamf, 0);
                let krrcint = derive_krrcint(&kgnb);
                ue.pdcp_tx.enable_security(krrcint);
                ue.state = UeState::AwaitRrcSecurityModeComplete;
                Ok(UeAction::RrcSecurityModeCommand)
            },
            _ => Err(UeExit::UnexpectedMessage),
        },
        UeState::AwaitRrcSecurityModeComplete => {
            // The content of the reply is not checked.
            let guti = nas_mobile_identity_guti(&config.plmn, &config.amf_ids, &ue.tmsi);
            ue.state = UeState::AwaitRegistrationComplete;
            Ok(UeAction::DlNas(NasDownlink::RegistrationAccept { sst: config.sst, guti }))
        },
        UeState::AwaitRegistrationComplete => match event {
            UeEvent::UlInformationTransfer { nas: Some(NasUplink::RegistrationComplete) } => {
                ue.state = UeState::Registered;
                Ok(UeAction::Nothing)
            },
            _ => Err(UeExit::UnexpectedMessage),
        },
        UeState::Registered => match event {
            UeEvent::UlInformationTransfer { nas } => match nas {
                None => Err(UeExit::UnexpectedMessage),
                Some(NasUplink::UlNasTransport { pdu_session_establishment_request: Some(request) }) => {
                    match pp.reserve_userplane_session() {
                        Err(e) => Err(UeExit::Userplane(e)),
                        Ok(session) => {
                            ue.pdu_sessions.push(PduSession { id: request.pdu_session_identity, sst: config.sst, userplane_info: session });
                            ue.state = UeState::AwaitUeContextSetupResponse { session, request };
                            Ok(UeAction::UeContextSetupRequest { session, sst: config.sst })
                        },
                    }
                },
                Some(NasUplink::DeregistrationRequestFromUe) => {
                    ue.state = UeState::AwaitUeContextReleaseComplete;
                    Ok(UeAction::UeContextReleaseCommand { cause: Cause::RadioNetworkNormalRelease })
                },
                Some(_) => {
                    ue.state = UeState::Registered;
                    Ok(UeAction::Nothing)
                },
            },
            UeEvent::UeContextReleaseRequest { cause } => {
                ue.state = UeState::AwaitUeContextReleaseComplete;
                Ok(UeAction::UeContextReleaseCommand { cause })
            },
            _ => Err(UeExit::UnexpectedMessage),
        },
        UeState::AwaitUeContextSetupResponse { session, request } => match event {
            UeEvent::UeContextSetupResponse { cell_group_config, remote_tunnel: Some(remote_tunnel) } => {
                pp.commit_userplane_session(&session, remote_tunnel);
                ue.state = UeState::AwaitRrcReconfigurationComplete;
                Ok(UeAction::RrcReconfiguration {
                    nas: NasDownlink::PduSessionEstablishmentAccept {
                        pdu_session_identity: request.pdu_session_identity,
                        procedure_transaction_identity: request.procedure_transaction_identity,
                        ue_ipv4: session.ue_ip_addr,
                        sst: config.sst,
                    },
                    cell_group_config,
                    pdu_session_id: request.pdu_session_identity,
                })
            },
            _ => Err(UeExit::UnexpectedMessage),
        },
        UeState::AwaitRrcReconfigurationComplete => match event {
            UeEvent::RrcReconfigurationComplete => {
                ue.state = UeState::Registered;
                Ok(UeAction::Nothing)
            },
            _ => Err(UeExit::UnexpectedMessage),
        },
        UeState::AwaitUeContextReleaseComplete => match event {
            UeEvent::UeContextReleaseComplete => Err(UeExit::Released),
            _ => Err(UeExit::UnexpectedMessage),
        },
    }
}

/// All slots taken in this packet processor.
pub open spec fn slots_exhausted_for(pp: PacketProcessor) -> bool {
    crate::userplane::slots_exhausted(pp.slots_in_use())
}

} // verus!

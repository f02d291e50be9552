//! Encoding of the downlink NAS messages that the core sends, through the
//! NAS 5GS codec of `oxirush_nas`. The information elements whose layout the
//! core decides (session AMBR, QoS rule, PDU address, NSSAI, 5G-GUTI) are
//! built here; the codec frames them into messages.
use vstd::prelude::*;

use crate::security::NAS_ABBA;
use crate::ue_procedures::NasDownlink;
use oxirush_nas::{
    encode_nas_5gs_message, Nas5gmmMessage, Nas5gsMessage, Nas5gsmMessage, NasAbba,
    NasAdditional5gSecurityInformation, NasAuthenticationParameterAutn, NasAuthenticationParameterRand,
    NasAuthenticationRequest, NasDlNasTransport, NasFGsMobileIdentity, NasFGsRegistrationResult,
    NasKeySetIdentifier, NasNssai, NasPayloadContainer, NasPayloadContainerType, NasPduAddress,
    NasPduSessionEstablishmentAccept, NasPduSessionType, NasQosRules, NasRegistrationAccept,
    NasSecurityAlgorithms, NasSecurityModeCommand, NasSessionAmbr, NasUeSecurityCapability,
};

verus! {

/// The encoded Authentication Request with these IE values.
pub uninterp spec fn nas_authentication_request(ngksi: u8, abba: Seq<u8>, rand: Seq<u8>, autn: Seq<u8>) -> Seq<u8>;

/// The encoded Security Mode Command with these IE values.
pub uninterp spec fn nas_security_mode_command(algorithms: u8, ngksi: u8, capability: Seq<u8>, additional: Seq<u8>) -> Seq<u8>;

/// The encoded Registration Accept with these IE values.
pub uninterp spec fn nas_registration_accept(result: Seq<u8>, guti: Seq<u8>, allowed_nssai: Seq<u8>) -> Seq<u8>;

/// The encoded PDU Session Establishment Accept (5GSM) with these values.
pub uninterp spec fn nas_pdu_session_establishment_accept(
    psi: u8,
    pti: u8,
    session_type: u8,
    qos_rules: Seq<u8>,
    ambr: Seq<u8>,
    pdu_address: Seq<u8>,
) -> Seq<u8>;

/// The encoded DL NAS Transport carrying this payload container.
pub uninterp spec fn nas_dl_nas_transport(container_type: u8, payload: Seq<u8>) -> Seq<u8>;

/// Relies on oxirush_nas: `NasAuthenticationRequest::new` with RAND and AUTN
/// set, framed as a 5GMM message and encoded by `encode_nas_5gs_message`.
#[verifier::external_body]
fn encode_authentication_request(ngksi: u8, abba: &[u8], rand: &[u8; 16], autn: &[u8; 16]) -> (r: Option<Vec<u8>>)
    ensures
        r matches Some(b) ==> b@ == nas_authentication_request(ngksi, abba@, rand@, autn@),
{
    let mut m = NasAuthenticationRequest::new(NasKeySetIdentifier::new(ngksi), NasAbba::new(abba.to_vec()));
    m.authentication_parameter_rand = Some(NasAuthenticationParameterRand::new(rand.to_vec()));
    m.authentication_parameter_autn = Some(NasAuthenticationParameterAutn::new(autn.to_vec()));
    encode_nas_5gs_message(&Nas5gsMessage::new_5gmm(Nas5gmmMessage::AuthenticationRequest(m))).ok()
}

/// Relies on oxirush_nas: `NasSecurityModeCommand::new` with the additional
/// 5G security information set, encoded by `encode_nas_5gs_message`.
#[verifier::external_body]
fn encode_security_mode_command(algorithms: u8, ngksi: u8, capability: &[u8], additional: &[u8]) -> (r: Option<Vec<u8>>)
    ensures
        r matches Some(b) ==> b@ == nas_security_mode_command(algorithms, ngksi, capability@, additional@),
{
    let mut m = NasSecurityModeCommand::new(
        NasSecurityAlgorithms::new(algorithms),
        NasKeySetIdentifier::new(ngksi),
        NasUeSecurityCapability::new(capability.to_vec()),
    );
    m.additional_5g_security_information = Some(NasAdditional5gSecurityInformation::new(additional.to_vec()));
    encode_nas_5gs_message(&Nas5gsMessage::new_5gmm(Nas5gmmMessage::SecurityModeCommand(m))).ok()
}

/// Relies on oxirush_nas: `NasRegistrationAccept::new` with 5G-GUTI and
/// allowed NSSAI set, encoded by `encode_nas_5gs_message`.
#[verifier::external_body]
fn encode_registration_accept(result: &[u8], guti: &[u8], allowed_nssai: &[u8]) -> (r: Option<Vec<u8>>)
    ensures
        r matches Some(b) ==> b@ == nas_registration_accept(result@, guti@, allowed_nssai@),
{
    let mut m = NasRegistrationAccept::new(NasFGsRegistrationResult::new(result.to_vec()));
    m.fg_guti = Some(NasFGsMobileIdentity::new(guti.to_vec()));
    m.allowed_nssai = Some(NasNssai::new(allowed_nssai.to_vec()));
    encode_nas_5gs_message(&Nas5gsMessage::new_5gmm(Nas5gmmMessage::RegistrationAccept(m))).ok()
}

/// Relies on oxirush_nas: `NasPduSessionEstablishmentAccept::new` with the
/// PDU address set, framed as a 5GSM message by `new_5gsm`, encoded by
/// `encode_nas_5gs_message`.
#[verifier::external_body]
fn encode_pdu_session_establishment_accept(
    psi: u8,
    pti: u8,
    session_type: u8,
    qos_rules: &[u8],
    ambr: &[u8],
    pdu_address: &[u8],
) -> (r: Option<Vec<u8>>)
    ensures
        r matches Some(b) ==> b@ == nas_pdu_session_establishment_accept(psi, pti, session_type, qos_rules@, ambr@, pdu_address@),
{
    let mut m = NasPduSessionEstablishmentAccept::new(
        NasPduSessionType::new(session_type),
        NasQosRules::new(qos_rules.to_vec()),
        NasSessionAmbr::new(ambr.to_vec()),
    );
    m.pdu_address = Some(NasPduAddress::new(pdu_address.to_vec()));
    let msg = Nas5gsMessage::new_5gsm(Nas5gsmMessage::PduSessionEstablishmentAccept(m), psi, pti);
    encode_nas_5gs_message(&msg).ok()
}

/// Relies on oxirush_nas: `NasDlNasTransport::new`, encoded by
/// `encode_nas_5gs_message`.
#[verifier::external_body]
fn encode_dl_nas_transport(container_type: u8, payload: &[u8]) -> (r: Option<Vec<u8>>)
    ensures
        r matches Some(b) ==> b@ == nas_dl_nas_transport(container_type, payload@),
{
    let m = NasDlNasTransport::new(NasPayloadContainerType::new(container_type), NasPayloadContainer::new(payload.to_vec()));
    encode_nas_5gs_message(&Nas5gsMessage::new_5gmm(Nas5gmmMessage::DlNasTransport(m))).ok()
}

/// Selected NAS security algorithms: 128-NIA2 integrity, NEA0 ciphering.
pub const NIA2_NEA0: u8 = 0x02;

/// Additional 5G security information: request retransmission of the initial NAS message.
pub const RETRANSMIT_INITIAL_NAS: u8 = 0x02;

/// 5GS registration result: 3GPP access, no emergency, no slice-specific
/// authentication, no SMS.
pub const REGISTRATION_RESULT_3GPP: u8 = 0x01;

/// PDU session type IPv4.
pub const PDU_SESSION_TYPE_IPV4: u8 = 0x01;

/// Payload container type 5GSM.
pub const PAYLOAD_CONTAINER_5GSM: u8 = 0x01;

/// Session AMBR: 1 Mbps downlink and 1 Mbps uplink.
pub open spec fn session_ambr() -> Seq<u8> {
    seq![0x06u8, 0x00, 0x01, 0x06, 0x00, 0x01]
}

/// One default QoS rule (id 1, create, one bidirectional match-all packet
/// filter, precedence 255) for QFI 1.
pub open spec fn default_qos_rule() -> Seq<u8> {
    seq![0x01u8, 0x00, 0x06, 0x31, 0x3f, 0x01, 0x01, 0xff, 0x01]
}

/// An IPv4 PDU address.
pub open spec fn ipv4_pdu_address(ue_ipv4: Seq<u8>) -> Seq<u8> {
    seq![PDU_SESSION_TYPE_IPV4] + ue_ipv4
}

/// Allowed NSSAI with one S-NSSAI holding only an SST.
pub open spec fn allowed_nssai(sst: u8) -> Seq<u8> {
    seq![0x01u8, sst]
}

/// The bytes of a downlink NAS message, when the codec encodes it.
pub open spec fn nas_downlink_bytes(m: NasDownlink) -> Option<Seq<u8>> {
    match m {
        NasDownlink::AuthenticationRequest { rand, autn } =>
            Some(nas_authentication_request(0, NAS_ABBA@, rand@, autn@)),
        NasDownlink::SecurityModeCommand { replayed_ue_security_capability } =>
            Some(nas_security_mode_command(NIA2_NEA0, 0, replayed_ue_security_capability@, seq![RETRANSMIT_INITIAL_NAS])),
        NasDownlink::RegistrationAccept { sst, guti } =>
            Some(nas_registration_accept(seq![REGISTRATION_RESULT_3GPP], guti@, allowed_nssai(sst))),
        NasDownlink::PduSessionEstablishmentAccept { pdu_session_identity, procedure_transaction_identity, ue_ipv4, sst } =>
            Some(nas_dl_nas_transport(
                PAYLOAD_CONTAINER_5GSM,
                nas_pdu_session_establishment_accept(
                    pdu_session_identity,
                    procedure_transaction_identity,
                    PDU_SESSION_TYPE_IPV4,
                    default_qos_rule(),
                    session_ambr(),
                    ipv4_pdu_address(ue_ipv4@),
                ),
            )),
    }
}

/// Encode a downlink NAS message as a plain NAS message, ready for
/// `NasContext::encode`. `None` when the codec refuses it.
pub fn encode_nas_downlink(m: &NasDownlink) -> (r: Option<Vec<u8>>)
    ensures
        r matches Some(b) ==> nas_downlink_bytes(*m) == Some(b@),
{
    match m {
        NasDownlink::AuthenticationRequest { rand, autn } => encode_authentication_request(0, &NAS_ABBA, rand, autn),
        NasDownlink::SecurityModeCommand { replayed_ue_security_capability } => {
            let additional: [u8; 1] = [RETRANSMIT_INITIAL_NAS];
            assert(additional@ =~= seq![RETRANSMIT_INITIAL_NAS]);
            encode_security_mode_command(NIA2_NEA0, 0, replayed_ue_security_capability.as_slice(), &additional)
        },
        NasDownlink::RegistrationAccept { sst, guti } => {
            let result: [u8; 1] = [REGISTRATION_RESULT_3GPP];
            let nssai: [u8; 2] = [0x01, *sst];
            assert(result@ =~= seq![REGISTRATION_RESULT_3GPP]);
            assert(nssai@ =~= allowed_nssai(*sst));
            encode_registration_accept(&result, guti.as_slice(), &nssai)
        },
        NasDownlink::PduSessionEstablishmentAccept { pdu_session_identity, procedure_transaction_identity, ue_ipv4, sst: _ } => {
            let qos: [u8; 9] = [0x01, 0x00, 0x06, 0x31, 0x3f, 0x01, 0x01, 0xff, 0x01];
            let ambr: [u8; 6] = [0x06, 0x00, 0x01, 0x06, 0x00, 0x01];
            let address: [u8; 5] = [PDU_SESSION_TYPE_IPV4, ue_ipv4[0], ue_ipv4[1], ue_ipv4[2], ue_ipv4[3]];
            assert(qos@ =~= default_qos_rule());
            assert(ambr@ =~= session_ambr());
            assert(address@ =~= ipv4_pdu_address(ue_ipv4@));
            let inner = encode_pdu_session_establishment_accept(
                *pdu_session_identity,
                *procedure_transaction_identity,
                PDU_SESSION_TYPE_IPV4,
                &qos,
                &ambr,
                &address,
            );
            match inner {
                None => None,
                Some(inner) => encode_dl_nas_transport(PAYLOAD_CONTAINER_5GSM, inner.as_slice()),
            }
        },
    }
}

} // verus!

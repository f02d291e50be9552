//! The per-UE context: identifiers, NAS and PDCP state, PDU sessions.
use vstd::prelude::*;

use crate::nas::NasContext;
use crate::pdcp::PdcpTx;
use crate::ue_procedures::UeState;
use crate::userplane::UserplaneSession;
use vstd::utf8::encode_utf8;

verus! {

/// NR Cell Global Identity: PLMN and 36-bit NR cell identity.
#[derive(Clone, Copy, Debug, PartialEq, Eq, Structural)]
pub struct NrCgi {
    pub plmn_identity: u32,
    pub nr_cell_identity: u64,
}

/// One PDU session of a UE.
#[derive(Debug)]
pub struct PduSession {
    pub id: u8,
    pub sst: u8,
    pub userplane_info: UserplaneSession,
}

/// Everything the core keeps about one UE.
pub struct UeContext {
    pub key: u32,
    pub gnb_du_ue_f1ap_id: u32,
    pub tmsi: [u8; 4],
    pub pdu_sessions: Vec<PduSession>,
    pub pdcp_tx: PdcpTx,
    pub nr_cgi: NrCgi,
    pub nas: NasContext,
    pub state: UeState,
}

impl UeContext {
    pub open spec fn wf(&self) -> bool {
        &&& self.nas.wf()
        &&& forall|i: int| 0 <= i < self.pdu_sessions@.len() ==> (#[trigger] self.pdu_sessions@[i]).userplane_info.wf()
        &&& match self.state {
            UeState::AwaitAuthenticationResponse { imsi, .. } => encode_utf8(imsi@).len() < 0x1_0000,
            UeState::AwaitUeContextSetupResponse { session, .. } => session.wf(),
            _ => true,
        }
    }

    /// A new UE with a random TMSI, no sessions, and no security yet.
    pub fn new(ue_id: u32, gnb_du_ue_f1ap_id: u32, nr_cgi: NrCgi) -> (r: UeContext)
        ensures
            r.wf(),
            r.key == ue_id,
            r.gnb_du_ue_f1ap_id == gnb_du_ue_f1ap_id,
            r.nr_cgi == nr_cgi,
            r.pdu_sessions@.len() == 0,
            r.pdcp_tx.tx_next == 0,
            r.pdcp_tx.pdcp_integrity_key is None,
            r.nas.security_context is None,
            r.state is AwaitInitialTransfer,
    {
        UeContext {
            key: ue_id,
            gnb_du_ue_f1ap_id,
            tmsi: rand::random(),
            pdu_sessions: Vec::new(),
            pdcp_tx: PdcpTx::new(),
            nr_cgi,
            nas: NasContext::new(),
            state: UeState::AwaitInitialTransfer,
        }
    }
}

} // verus!

//! The F1AP router: global procedures answered at once, UE-associated
//! messages delivered to the UE they name, and UEs torn down when they end.
use vstd::prelude::*;

use crate::config::Config;
use crate::registry::UeRegistry;
use crate::sims::SimTable;
use crate::transport::IpAddress;
use crate::ue_context::{NrCgi, UeContext};
use crate::ue_procedures::{handle_event, handle_event_post, UeAction, UeEvent, UeExit};
use crate::userplane::PacketProcessor;

verus! {

/// An inbound F1AP PDU, as far as the router reads it.
pub enum InboundPdu {
    F1SetupRequest { transaction_id: u8 },
    F1RemovalRequest { transaction_id: u8 },
    GnbDuConfigurationUpdate { transaction_id: u8 },
    /// The first message of a new UE.
    InitialUlRrcMessageTransfer { gnb_du_ue_f1ap_id: u32, nr_cgi: NrCgi, event: UeEvent },
    /// Any other message for a UE, named by its CU-F1AP id.
    UeMessage { gnb_cu_ue_f1ap_id: u32, event: UeEvent },
    /// A PDU the core does not handle.
    Unhandled,
}

/// What the router does with an inbound PDU.
pub enum CoreOutput {
    F1SetupResponse { transaction_id: u8 },
    F1RemovalResponse { transaction_id: u8 },
    GnbDuConfigurationUpdateAcknowledge { transaction_id: u8 },
    /// Send the UE's answer to the DU.
    ToUe { gnb_cu_ue_f1ap_id: u32, gnb_du_ue_f1ap_id: u32, action: UeAction },
    /// The UE ended; its sessions are deleted and it is no longer reachable.
    UeEnded { gnb_cu_ue_f1ap_id: u32, exit: UeExit },
    /// Nothing to do: unhandled PDU, unknown UE, or no free id.
    Dropped,
}

/// The F1AP application of a gNB-CU over the handler that serves its
/// procedures.
pub struct F1apCu<T>(pub T);

impl<T> F1apCu<T> {
    pub fn new(inner: T) -> (r: F1apCu<T>)
        ensures
            r.0 == inner,
    {
        F1apCu(inner)
    }
}

/// The control-plane core: configuration, SIMs, live UEs and the user plane.
pub struct QCore {
    pub config: Config,
    pub sims: SimTable,
    pub ue_tasks: UeRegistry,
    pub packet_processor: PacketProcessor,
}

/// The UE `u0` handled `event`, went on with `action`, and stands in the
/// registry `reg` as the predicate of `handle_event` leaves it.
pub open spec fn ue_went_on(
    u0: UeContext,
    event: UeEvent,
    config: Config,
    sims: SimTable,
    p0: PacketProcessor,
    action: UeAction,
    reg: Map<u32, UeContext>,
    p1: PacketProcessor,
) -> bool {
    &&& reg.contains_key(u0.key)
    &&& handle_event_post(u0, event, config, sims, p0, Ok(action), reg[u0.key], p1)
}

/// The UE `u0` handled `event` and ended with `exit`; the slots of all its
/// sessions are free in `p2`.
pub open spec fn ue_ended(
    u0: UeContext,
    event: UeEvent,
    config: Config,
    sims: SimTable,
    p0: PacketProcessor,
    exit: UeExit,
    p2: PacketProcessor,
) -> bool {
    exists|u1: UeContext, p1: PacketProcessor|
        #[trigger] handle_event_post(u0, event, config, sims, p0, Err(exit), u1, p1)
            && forall|i: int| 0 <= i < u1.pdu_sessions@.len()
                ==> !p2.slots_in_use().contains(#[trigger] u1.pdu_sessions@[i].userplane_info.slot() as usize)
}

/// A UE as it is created: its ids, no security, no sessions, awaiting its
/// first message.
pub open spec fn fresh_ue(u: UeContext, ue_id: u32, gnb_du_ue_f1ap_id: u32, nr_cgi: NrCgi) -> bool {
    &&& u.wf()
    &&& u.key == ue_id
    &&& u.gnb_du_ue_f1ap_id == gnb_du_ue_f1ap_id
    &&& u.nr_cgi == nr_cgi
    &&& u.pdu_sessions@.len() == 0
    &&& u.pdcp_tx.tx_next == 0
    &&& u.pdcp_tx.pdcp_integrity_key is None
    &&& u.nas.security_context is None
    &&& u.state is AwaitInitialTransfer
}

/// Delete every user-plane session of a UE and forget them.
pub fn destroy(ue: &mut UeContext, pp: &mut PacketProcessor)
    requires
        old(ue).wf(),
        old(pp).wf(),
    ensures
        final(ue).wf(),
        final(pp).wf(),
        final(ue).pdu_sessions@.len() == 0,
        final(ue).key == old(ue).key,
        forall|i: int| 0 <= i < old(ue).pdu_sessions@.len() ==>
            !final(pp).slots_in_use().contains(#[trigger] old(ue).pdu_sessions@[i].userplane_info.slot() as usize),
{
    let ghost sessions = ue.pdu_sessions@;
    let mut i: usize = 0;
    while i < ue.pdu_sessions.len()
        invariant
            pp.wf(),
            ue.pdu_sessions@ == sessions,
            i <= sessions.len(),
            forall|j: int| 0 <= j < sessions.len() ==> (#[trigger] sessions[j]).userplane_info.wf(),
            forall|j: int| 0 <= j < i ==> !pp.slots_in_use().contains(#[trigger] sessions[j].userplane_info.slot() as usize),
        decreases sessions.len() - i,
    {
        pp.delete_userplane_session(&ue.pdu_sessions[i].userplane_info);
        i += 1;
    }
    ue.pdu_sessions.clear();
}

impl QCore {
    pub open spec fn wf(&self) -> bool {
        &&& self.config.wf()
        &&& self.sims.wf()
        &&& self.ue_tasks.wf()
        &&& self.packet_processor.wf()
    }

    /// A core with no UEs and an empty user plane.
    pub fn new(config: Config, sims: SimTable) -> (r: QCore)
        requires
            config.wf(),
            sims.wf(),
        ensures
            r.wf(),
            r.config == config,
            r.sims == sims,
            r.ue_tasks@.dom().is_empty(),
            r.packet_processor.slots_in_use() == set![0usize],
            r.packet_processor.ue_subnet == config.ue_subnet,
    {
        let packet_processor = PacketProcessor::new(config.ue_subnet);
        QCore { config, sims, ue_tasks: UeRegistry::new(), packet_processor }
    }

    /// The F1 address.
    pub fn ip_addr(&self) -> (r: IpAddress)
        ensures
            r == self.config.ip_addr,
    {
        self.config.ip_addr
    }

    /// End every UE: delete their sessions and remove them from the registry.
    pub fn delete_ue_channels(&mut self)
        requires
            old(self).wf(),
        ensures
            final(self).wf(),
            final(self).ue_tasks@.dom().is_empty(),
    {
        let ids = self.ue_tasks.ue_ids();
        assert(ids@.subrange(0, ids@.len() as int) =~= ids@);
        assert forall|k: u32| self.ue_tasks@.contains_key(k) implies ids@.contains(k) by {
            assert(ids@.to_set().contains(k));
        }
        let mut i: usize = 0;
        while i < ids.len()
            invariant
                self.wf(),
                i <= ids@.len(),
                forall|k: u32| self.ue_tasks@.contains_key(k) ==> ids@.subrange(i as int, ids@.len() as int).contains(k),
            decreases ids@.len() - i,
        {
            let id = ids[i];
            if let Some(mut ue) = self.ue_tasks.remove(id) {
                destroy(&mut ue, &mut self.packet_processor);
            }
            assert forall|k: u32| self.ue_tasks@.contains_key(k) implies ids@.subrange(i + 1, ids@.len() as int).contains(k) by {
                let j = choose|j: int| 0 <= j < ids@.len() - i && ids@.subrange(i as int, ids@.len() as int)[j] == k;
                assert(j != 0);
                assert(ids@.subrange(i + 1, ids@.len() as int)[j - 1] == k);
            }
            i += 1;
        }
        assert(self.ue_tasks@.dom() =~= Set::<u32>::empty()) by {
            assert forall|k: u32| !self.ue_tasks@.contains_key(k) by {
                if self.ue_tasks@.contains_key(k) {
                    assert(ids@.subrange(i as int, ids@.len() as int).len() == 0);
                }
            }
        }
    }

    /// Run one event for a UE that has been taken out of the registry: put it
    /// back if it goes on, tear it down if it ends.
    fn run_ue(&mut self, ue: UeContext, event: UeEvent) -> (r: CoreOutput)
        requires
            old(self).wf(),
            ue.wf(),
            ue.key != 0,
            !old(self).ue_tasks@.contains_key(ue.key),
        ensures
            final(self).wf(),
            final(self).config == old(self).config,
            final(self).sims == old(self).sims,
            match r {
                CoreOutput::ToUe { gnb_cu_ue_f1ap_id, gnb_du_ue_f1ap_id, action } => gnb_cu_ue_f1ap_id == ue.key
                    && gnb_du_ue_f1ap_id == ue.gnb_du_ue_f1ap_id
                    && final(self).ue_tasks@ == old(self).ue_tasks@.insert(ue.key, final(self).ue_tasks@[ue.key])
                    && ue_went_on(ue, event, old(self).config, old(self).sims, old(self).packet_processor, action,
                        final(self).ue_tasks@, final(self).packet_processor),
                CoreOutput::UeEnded { gnb_cu_ue_f1ap_id, exit } => gnb_cu_ue_f1ap_id == ue.key
                    && final(self).ue_tasks@ == old(self).ue_tasks@
                    && ue_ended(ue, event, old(self).config, old(self).sims, old(self).packet_processor, exit,
                        final(self).packet_processor),
                _ => false,
            },
    {
        let ghost u0 = ue;
        let ghost ev = event;
        let mut ue = ue;
        let result = handle_event(&mut ue, event, &self.config, &self.sims, &mut self.packet_processor);
        let ghost u1 = ue;
        let ghost p1 = self.packet_processor;
        match result {
            Ok(action) => {
                let id = ue.key;
                let du_id = ue.gnb_du_ue_f1ap_id;
                let inserted = self.ue_tasks.try_insert(ue);
                assert(inserted);
                assert(self.ue_tasks@ =~= old(self).ue_tasks@.insert(id, self.ue_tasks@[id]));
                CoreOutput::ToUe { gnb_cu_ue_f1ap_id: id, gnb_du_ue_f1ap_id: du_id, action }
            },
            Err(exit) => {
                destroy(&mut ue, &mut self.packet_processor);
                assert(handle_event_post(u0, ev, self.config, self.sims, old(self).packet_processor, Err(exit), u1, p1));
                CoreOutput::UeEnded { gnb_cu_ue_f1ap_id: ue.key, exit }
            },
        }
    }

    /// Handle one inbound F1AP PDU.
    pub fn handle_pdu(&mut self, pdu: InboundPdu) -> (r: CoreOutput)
        requires
            old(self).wf(),
        ensures
            final(self).wf(),
            match pdu {
                InboundPdu::F1SetupRequest { transaction_id } =>
                    r == (CoreOutput::F1SetupResponse { transaction_id }) && final(self).ue_tasks@ == old(self).ue_tasks@,
                InboundPdu::GnbDuConfigurationUpdate { transaction_id } =>
                    r == (CoreOutput::GnbDuConfigurationUpdateAcknowledge { transaction_id })
                        && final(self).ue_tasks@ == old(self).ue_tasks@,
                InboundPdu::F1RemovalRequest { transaction_id } =>
                    r == (CoreOutput::F1RemovalResponse { transaction_id }) && final(self).ue_tasks@.dom().is_empty(),
                InboundPdu::InitialUlRrcMessageTransfer { gnb_du_ue_f1ap_id, nr_cgi, event } => match r {
                    CoreOutput::ToUe { gnb_cu_ue_f1ap_id, gnb_du_ue_f1ap_id: du, action } => {
                        &&& gnb_cu_ue_f1ap_id != 0
                        &&& !old(self).ue_tasks@.contains_key(gnb_cu_ue_f1ap_id)
                        &&& du == gnb_du_ue_f1ap_id
                        &&& final(self).ue_tasks@ == old(self).ue_tasks@.insert(
                            gnb_cu_ue_f1ap_id, final(self).ue_tasks@[gnb_cu_ue_f1ap_id])
                        &&& exists|u0: UeContext| #[trigger] fresh_ue(u0, gnb_cu_ue_f1ap_id, gnb_du_ue_f1ap_id, nr_cgi)
                            && ue_went_on(u0, event, old(self).config, old(self).sims, old(self).packet_processor,
                                action, final(self).ue_tasks@, final(self).packet_processor)
                    },
                    CoreOutput::UeEnded { gnb_cu_ue_f1ap_id, exit } => {
                        &&& final(self).ue_tasks@ == old(self).ue_tasks@
                        &&& exists|u0: UeContext| #[trigger] fresh_ue(u0, gnb_cu_ue_f1ap_id, gnb_du_ue_f1ap_id, nr_cgi)
                            && ue_ended(u0, event, old(self).config, old(self).sims, old(self).packet_processor,
                                exit, final(self).packet_processor)
                    },
                    CoreOutput::Dropped => final(self).ue_tasks@ == old(self).ue_tasks@
                        && old(self).ue_tasks@.dom().len() >= 0xffff_ffff,
                    _ => false,
                },
                InboundPdu::UeMessage { gnb_cu_ue_f1ap_id: id, event } => if !old(self).ue_tasks@.contains_key(id) {
                    r is Dropped && final(self).ue_tasks@ == old(self).ue_tasks@
                } else {
                    match r {
                        CoreOutput::ToUe { gnb_cu_ue_f1ap_id, gnb_du_ue_f1ap_id, action } => gnb_cu_ue_f1ap_id == id
                            && gnb_du_ue_f1ap_id == old(self).ue_tasks@[id].gnb_du_ue_f1ap_id
                            && final(self).ue_tasks@ == old(self).ue_tasks@.insert(id, final(self).ue_tasks@[id])
                            && ue_went_on(old(self).ue_tasks@[id], event, old(self).config, old(self).sims,
                                old(self).packet_processor, action, final(self).ue_tasks@, final(self).packet_processor),
                        CoreOutput::UeEnded { gnb_cu_ue_f1ap_id, exit } => gnb_cu_ue_f1ap_id == id
                            && final(self).ue_tasks@ == old(self).ue_tasks@.remove(id)
                            && ue_ended(old(self).ue_tasks@[id], event, old(self).config, old(self).sims,
                                old(self).packet_processor, exit, final(self).packet_processor),
                        _ => false,
                    }
                },
                InboundPdu::Unhandled => r is Dropped && final(self).ue_tasks@ == old(self).ue_tasks@,
            },
    {
        match pdu {
            InboundPdu::F1SetupRequest { transaction_id } => CoreOutput::F1SetupResponse { transaction_id },
            InboundPdu::GnbDuConfigurationUpdate { transaction_id } => {
                CoreOutput::GnbDuConfigurationUpdateAcknowledge { transaction_id }
            },
            InboundPdu::F1RemovalRequest { transaction_id } => {
                // All UEs end, which tears down their user-plane sessions.
                self.delete_ue_channels();
                CoreOutput::F1RemovalResponse { transaction_id }
            },
            InboundPdu::InitialUlRrcMessageTransfer { gnb_du_ue_f1ap_id, nr_cgi, event } => {
                match self.ue_tasks.allocate_ue_id() {
                    None => CoreOutput::Dropped,
                    Some(ue_id) => {
                        let ue = UeContext::new(ue_id, gnb_du_ue_f1ap_id, nr_cgi);
                        let ghost u0 = ue;
                        assert(fresh_ue(u0, ue_id, gnb_du_ue_f1ap_id, nr_cgi));
                        self.run_ue(ue, event)
                    },
                }
            },
            InboundPdu::UeMessage { gnb_cu_ue_f1ap_id, event } => {
                match self.ue_tasks.remove(gnb_cu_ue_f1ap_id) {
                    None => CoreOutput::Dropped,
                    Some(ue) => {
                        let ghost before = old(self).ue_tasks@;
                        let r = self.run_ue(ue, event);
                        proof {
                            if r is ToUe {
                                assert(self.ue_tasks@ =~= before.insert(gnb_cu_ue_f1ap_id, self.ue_tasks@[gnb_cu_ue_f1ap_id]));
                            }
                        }
                        r
                    },
                }
            },
            InboundPdu::Unhandled => CoreOutput::Dropped,
        }
    }
}

/// Every PDU session of every live UE sits in a slot from 1 to 254 that is
/// the last octet of the UE's address and the last byte of its uplink TEID.
pub proof fn lemma_live_sessions_slot_consistent(qc: QCore, ue_id: u32, i: int)
    requires
        qc.wf(),
        qc.ue_tasks@.contains_key(ue_id),
        0 <= i < qc.ue_tasks@[ue_id].pdu_sessions@.len(),
    ensures
        1 <= qc.ue_tasks@[ue_id].pdu_sessions@[i].userplane_info.slot() <= crate::userplane::MAX_UES,
        qc.ue_tasks@[ue_id].pdu_sessions@[i].userplane_info.ue_ip_addr[3]
            == qc.ue_tasks@[ue_id].pdu_sessions@[i].userplane_info.uplink_gtp_teid.0[3],
{
    assert(qc.ue_tasks@[ue_id].wf());
    assert(qc.ue_tasks@[ue_id].pdu_sessions@[i].userplane_info.wf());
}

} // verus!

//! PDCP Data PDUs for the signalling radio bearers SRB0 and SRB1: a 12-bit
//! sequence number header, the RRC payload and a 4-byte MAC-I.
use vstd::prelude::*;

use crate::security::{be16, be32, calculate_nia2_mac, nia2_spec};

verus! {

/// Mask of the 12-bit downlink sequence number.
pub const PDCP_SN_DL_MASK: u16 = 0x0fff;

/// DIRECTION input of 128-NIA2 for downlink.
pub const DIRECTION_DL: u8 = 1;

/// Transmit state of one UE's signalling radio bearer.
pub struct PdcpTx {
    pub tx_next: u32,
    pub pdcp_integrity_key: Option<[u8; 16]>,
}

/// A PDCP PDU as bytes.
pub struct PdcpPdu(pub Vec<u8>);

/// Why a PDCP PDU could not be read.
#[derive(Clone, Copy, Debug, PartialEq, Eq, Structural)]
pub enum PdcpError {
    TooShort,
}

/// The PDU header: four reserved bits and the 12-bit sequence number, big-endian.
pub open spec fn pdcp_header(sn: nat) -> Seq<u8> {
    be16(sn)
}

/// Sequence number written for a PDU on `srb_id` with this transmit state.
pub open spec fn pdcp_sn(tx: PdcpTx, srb_id: u8) -> nat {
    if srb_id == 0 {
        0
    } else {
        (tx.tx_next % 4096) as nat
    }
}

/// The MAC-I of a PDU: NIA2 with KRRCint over header and payload on SRB1 once
/// security is on, otherwise four zero bytes.
pub open spec fn pdcp_mac(tx: PdcpTx, srb_id: u8, inner: Seq<u8>) -> Seq<u8> {
    if srb_id != 0 && tx.pdcp_integrity_key is Some {
        nia2_spec(
            tx.pdcp_integrity_key->Some_0@,
            be32(tx.tx_next),
            (srb_id - 1) as u8,
            DIRECTION_DL,
            pdcp_header(pdcp_sn(tx, srb_id)) + inner,
        )
    } else {
        seq![0u8, 0u8, 0u8, 0u8]
    }
}

/// The bytes of the PDU that `encode` builds.
pub open spec fn encoded_pdu(tx: PdcpTx, srb_id: u8, inner: Seq<u8>) -> Seq<u8> {
    pdcp_header(pdcp_sn(tx, srb_id)) + inner + pdcp_mac(tx, srb_id, inner)
}

/// The payload of a PDU: everything between the 2-byte header and the 4-byte
/// MAC; none when the PDU is shorter than 6 bytes.
pub open spec fn pdcp_inner(pdu: Seq<u8>) -> Option<Seq<u8>> {
    if pdu.len() < 6 {
        None
    } else {
        Some(pdu.subrange(2, pdu.len() - 4))
    }
}

impl PdcpPdu {
    /// View the inner packet in a PDCP packet.
    pub fn view_inner(&self) -> (r: Result<&[u8], PdcpError>)
        ensures
            match r {
                Ok(s) => pdcp_inner(self.0@) == Some(s@),
                Err(e) => pdcp_inner(self.0@) is None && e == PdcpError::TooShort,
            },
    {
        if self.0.len() < 6 {
            return Err(PdcpError::TooShort);
        }
        Ok(&self.0.as_slice()[2..self.0.len() - 4])
    }
}

impl PdcpTx {
    /// A bearer with TX_NEXT at zero and no integrity protection.
    pub fn new() -> (r: PdcpTx)
        ensures
            r.tx_next == 0,
            r.pdcp_integrity_key is None,
    {
        PdcpTx { tx_next: 0, pdcp_integrity_key: None }
    }

    /// Protect later PDUs on SRB1 with `ik` (KRRCint).
    pub fn enable_security(&mut self, ik: [u8; 16])
        ensures
            final(self).pdcp_integrity_key == Some(ik),
            final(self).tx_next == old(self).tx_next,
    {
        self.pdcp_integrity_key = Some(ik);
    }

    /// Encapsulate an inner packet in an outer PDCP packet.
    ///
    /// On SRB0 the sequence number and MAC are zero and TX_NEXT stays; on SRB1
    /// the PDU carries TX_NEXT's low 12 bits and TX_NEXT advances by one.
    pub fn encode(&mut self, srb_id: u8, inner: Vec<u8>) -> (r: PdcpPdu)
        requires
            srb_id <= 1,
            srb_id == 1 ==> old(self).tx_next < u32::MAX,
            inner@.len() + 6 <= usize::MAX,
        ensures
            r.0@ == encoded_pdu(*old(self), srb_id, inner@),
            final(self).pdcp_integrity_key == old(self).pdcp_integrity_key,
            final(self).tx_next == if srb_id == 0 { old(self).tx_next } else { (old(self).tx_next + 1) as u32 },
    {
        let ghost old_tx = *self;
        let pdcp_seq_num: u16 = if srb_id == 0 {
            0
        } else {
            (self.tx_next % 4096) as u16
        };
        let mut pdcp_pdu: Vec<u8> = Vec::new();
        pdcp_pdu.push((pdcp_seq_num / 256) as u8);
        pdcp_pdu.push((pdcp_seq_num % 256) as u8);
        assert(pdcp_pdu@ =~= pdcp_header(pdcp_sn(old_tx, srb_id)));
        let mut inner = inner;
        let ghost inner_s = inner@;
        pdcp_pdu.append(&mut inner);
        assert(pdcp_pdu@ =~= pdcp_header(pdcp_sn(old_tx, srb_id)) + inner_s);

        let mut mac = [0u8; 4];
        if srb_id > 0 {
            let count = self.tx_next;
            let bearer = srb_id - 1;
            if let Some(ik) = self.pdcp_integrity_key {
                let count_bytes: [u8; 4] = [
                    (count / 0x100_0000) as u8,
                    ((count / 0x1_0000) % 256) as u8,
                    ((count / 256) % 256) as u8,
                    (count % 256) as u8,
                ];
                assert(count_bytes@ =~= be32(count));
                mac = calculate_nia2_mac(&ik, count_bytes, bearer, DIRECTION_DL, pdcp_pdu.as_slice());
            }
            self.tx_next = self.tx_next + 1;
        }
        assert(mac@ =~= pdcp_mac(old_tx, srb_id, inner_s));
        let ghost before_mac = pdcp_pdu@;
        pdcp_pdu.extend_from_slice(&mac);
        assert(pdcp_pdu@ =~= before_mac + mac@);
        PdcpPdu(pdcp_pdu)
    }
}

/// The RRC container for an RRC message: as it is on SRB0, framed as a PDCP
/// PDU on SRB1.
pub fn maybe_pdcp_encapsulate(rrc_bytes: Vec<u8>, srb_id: u8, pdcp: &mut PdcpTx) -> (r: Vec<u8>)
    requires
        srb_id <= 1,
        srb_id == 1 ==> old(pdcp).tx_next < u32::MAX,
        rrc_bytes@.len() + 6 <= usize::MAX,
    ensures
        srb_id == 0 ==> r@ == rrc_bytes@ && *final(pdcp) == *old(pdcp),
        srb_id == 1 ==> r@ == encoded_pdu(*old(pdcp), 1, rrc_bytes@)
            && final(pdcp).tx_next == old(pdcp).tx_next + 1
            && final(pdcp).pdcp_integrity_key == old(pdcp).pdcp_integrity_key,
{
    if srb_id == 0 {
        rrc_bytes
    } else {
        pdcp.encode(srb_id, rrc_bytes).0
    }
}

/// Reading back the payload of a PDU built by `encode` gives the payload that
/// went in, on either SRB; and a PDU shorter than six bytes has no payload.
pub proof fn lemma_pdcp_round_trip(tx: PdcpTx, srb_id: u8, payload: Seq<u8>, short: Seq<u8>)
    requires
        srb_id <= 1,
        short.len() < 6,
    ensures
        pdcp_inner(encoded_pdu(tx, srb_id, payload)) == Some(payload),
        pdcp_inner(short) is None,
{
    let pdu = encoded_pdu(tx, srb_id, payload);
    let mac = pdcp_mac(tx, srb_id, payload);
    assert(mac.len() == 4);
    assert(pdu.subrange(2, pdu.len() - 4) =~= payload);
}

} // verus!

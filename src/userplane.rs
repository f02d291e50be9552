//! The user-plane forwarding engine: forwarding tables indexed by slot, the
//! downlink (N6 to F1-U) and uplink (F1-U to N6) packet decisions, and the
//! reservation of per-session slots.
use vstd::prelude::*;

use crate::security::be32;
use crate::slots::{pool_in_use, pool_new, pool_new_id, pool_request_id, pool_return_id};
use crate::transport::{IpAddress, TransportLayerAddress, ip_of_octets};
use index_pool::IndexPool;

verus! {

pub const GTP_BASE_HEADER_LEN: usize = 8;
pub const GTP_EXTENDED_HEADER_LEN: usize = 12;
pub const GTP_EXT_HEADER_LEN_NRUP_DL_USER_DATA: usize = 8;
pub const PDCP_HEADER_LEN: usize = 2;
pub const SDAP_HEADER_LEN: usize = 1;
pub const IPV4_HEADER_LEN: usize = 20;

/// Downlink direction: the inner packet starts after GTP, NR-U and PDCP headers.
pub const DOWNLINK_INNER_PACKET_OFFSET: usize = 22;

/// GTP-U message type of a G-PDU.
pub const GTP_MESSAGE_TYPE_GPDU: u8 = 255;

/// UDP port of GTP-U.
pub const GTPU_PORT: u16 = 2152;

/// Highest slot index; slot 0 is never handed out, so UE addresses end in 1 to 254.
pub const MAX_UES: usize = 254;

/// Entries in each forwarding table: slots 0 to 254.
pub const TABLE_SIZE: usize = 255;

/// A GTP-U tunnel endpoint identifier.
#[derive(Clone, Copy, Debug)]
pub struct GtpTeid(pub [u8; 4]);

/// A GTP-U tunnel: the peer's transport address and TEID.
pub struct GtpTunnel {
    pub transport_layer_address: TransportLayerAddress,
    pub gtp_teid: GtpTeid,
}

/// The user-plane half of a PDU session.
#[derive(Clone, Copy, Debug)]
pub struct UserplaneSession {
    pub qfi: u8,
    pub uplink_gtp_teid: GtpTeid,
    pub ue_ip_addr: [u8; 4],
}

impl UserplaneSession {
    /// The slot that the session occupies.
    pub open spec fn slot(&self) -> u8 {
        self.ue_ip_addr[3]
    }

    /// The slot is in 1..=254 and is the last byte of both the UE address and
    /// the uplink TEID.
    pub open spec fn wf(&self) -> bool {
        &&& 1 <= self.slot() <= MAX_UES
        &&& self.uplink_gtp_teid.0[3] == self.slot()
    }
}

/// How to forward downlink packets for one UE.
#[derive(Clone, Copy, Debug)]
pub struct DownlinkForwardingRule {
    /// The DU's address; none when its transport address is neither IPv4 nor IPv6.
    pub remote_ip: Option<IpAddress>,
    pub remote_teid: [u8; 4],
    pub ue_ipv4: [u8; 4],
    pub pdcp_seq_num: u16,
    pub nr_seq_num: u32,
}

/// Downlink rules, indexed by the last octet of the UE address.
pub struct DownlinkForwardingTable {
    pub rules: Vec<Option<DownlinkForwardingRule>>,
}

/// The TEID that uplink packets for one UE must carry.
#[derive(Clone, Copy, Debug)]
pub struct UplinkForwardingRule {
    pub local_teid: [u8; 4],
}

/// Uplink rules, indexed by the last byte of the TEID.
pub struct UplinkForwardingTable {
    pub rules: Vec<Option<UplinkForwardingRule>>,
}

/// The table slot for a UE address.
pub fn downlink_table_index_from_ip(ue_ip: [u8; 4]) -> (r: usize)
    ensures
        r == ue_ip[3] as usize,
{
    ue_ip[3] as usize
}

/// The table slot for a TEID.
pub fn uplink_table_index_from_gtp_teid(teid: &[u8; 4]) -> (r: usize)
    ensures
        r == teid[3] as usize,
{
    teid[3] as usize
}

/// The rule at `slot`, if the slot is in the table and holds one.
pub open spec fn rule_at<T>(rules: Seq<Option<T>>, slot: int) -> Option<T> {
    if 0 <= slot < rules.len() {
        rules[slot]
    } else {
        None
    }
}

/// The counters of a rule after one more downlink packet.
pub open spec fn advanced(rule: DownlinkForwardingRule) -> DownlinkForwardingRule {
    DownlinkForwardingRule {
        pdcp_seq_num: ((rule.pdcp_seq_num + 1) % 0x1_0000) as u16,
        nr_seq_num: ((rule.nr_seq_num + 1) % 0x1_0000_0000) as u32,
        ..rule
    }
}

/// GTP-U header with NR RAN container (NR-U DL user data) and PDCP header
/// of a downlink packet whose inner packet is `bytes_read` bytes long.
pub open spec fn downlink_headers(bytes_read: nat, teid: Seq<u8>, nr_sn: u32, pdcp_sn: u16) -> Seq<u8> {
    let len = bytes_read + 14;
    seq![0x34u8, 0xff, (len / 256) as u8, (len % 256) as u8]
        + teid
        + seq![0u8, 0, 0, 0x84, 0x02, 0, 0]
        + be32(nr_sn).subrange(1, 4)
        + seq![0u8, 0, (0x80 + (pdcp_sn / 256) % 16) as u8, (pdcp_sn % 256) as u8]
}

/// What to do with a packet read from N6.
#[derive(Clone, Copy, Debug)]
pub enum DownlinkOutcome {
    /// Shorter than an IPv4 header.
    TooShort,
    /// No rule for the destination address.
    UnknownIp,
    /// The rule's DU transport address is neither IPv4 nor IPv6.
    UnusableRemoteAddress,
    /// Send the first `len` bytes of the buffer to the DU at `remote_ip`.
    Forward { remote_ip: IpAddress, len: usize },
}

/// The destination address of the IPv4 packet at the inner-packet offset.
pub open spec fn downlink_destination(buf: Seq<u8>) -> Seq<u8> {
    buf.subrange(38, 42)
}

impl DownlinkForwardingTable {
    pub open spec fn wf(&self) -> bool {
        self.rules@.len() == TABLE_SIZE
    }

    /// A table with no rules.
    pub fn new() -> (r: DownlinkForwardingTable)
        ensures
            r.wf(),
            forall|i: int| 0 <= i < TABLE_SIZE ==> r.rules@[i] is None,
    {
        let mut rules: Vec<Option<DownlinkForwardingRule>> = Vec::new();
        let mut i: usize = 0;
        while i < TABLE_SIZE
            invariant
                i <= TABLE_SIZE,
                rules@.len() == i,
                forall|j: int| 0 <= j < i ==> rules@[j] is None,
            decreases TABLE_SIZE - i,
        {
            rules.push(None);
            i += 1;
        }
        DownlinkForwardingTable { rules }
    }

    /// Forward packets for `ue_ipv4` to the tunnel, with counters from zero.
    pub fn add_rule(&mut self, remote_ip: Option<IpAddress>, remote_teid: GtpTeid, ue_ipv4: [u8; 4])
        requires
            old(self).wf(),
            ue_ipv4[3] <= MAX_UES,
        ensures
            final(self).wf(),
            final(self).rules@ == old(self).rules@.update(
                ue_ipv4[3] as int,
                Some(DownlinkForwardingRule { remote_ip, remote_teid: remote_teid.0, ue_ipv4, pdcp_seq_num: 0, nr_seq_num: 0 }),
            ),
    {
        let idx = downlink_table_index_from_ip(ue_ipv4);
        self.rules.set(
            idx,
            Some(DownlinkForwardingRule { remote_ip, remote_teid: remote_teid.0, ue_ipv4, pdcp_seq_num: 0, nr_seq_num: 0 }),
        );
    }

    /// Stop forwarding packets for `ue_ipv4`.
    pub fn remove_rule(&mut self, ue_ipv4: [u8; 4])
        requires
            old(self).wf(),
            ue_ipv4[3] <= MAX_UES,
        ensures
            final(self).wf(),
            final(self).rules@ == old(self).rules@.update(ue_ipv4[3] as int, None),
    {
        let idx = downlink_table_index_from_ip(ue_ipv4);
        self.rules.set(idx, None);
    }

    /// Decide on a packet that N6 wrote at offset 22 of `buf`, `bytes_read`
    /// bytes long. When it goes to a UE, write the GTP-U, NR-U and PDCP
    /// headers into bytes 0..22 and advance the rule's sequence numbers.
    pub fn process_downlink_packet(&mut self, buf: &mut Vec<u8>, bytes_read: usize) -> (r: DownlinkOutcome)
        requires
            old(self).wf(),
            DOWNLINK_INNER_PACKET_OFFSET + bytes_read <= old(buf)@.len(),
            old(buf)@.len() <= 0xffff,
        ensures
            final(self).wf(),
            bytes_read < IPV4_HEADER_LEN ==> r is TooShort && final(self).rules@ == old(self).rules@
                && final(buf)@ == old(buf)@,
            bytes_read >= IPV4_HEADER_LEN ==> {
                let slot = old(buf)@[41] as int;
                let rule = rule_at(old(self).rules@, slot);
                if rule is Some && rule->Some_0.ue_ipv4@ == downlink_destination(old(buf)@)
                    && rule->Some_0.remote_ip is Some {
                    let ru = rule->Some_0;
                    &&& r == (DownlinkOutcome::Forward { remote_ip: ru.remote_ip->Some_0, len: (bytes_read + 22) as usize })
                    &&& final(buf)@ == downlink_headers(bytes_read as nat, ru.remote_teid@, ru.nr_seq_num, ru.pdcp_seq_num)
                        + old(buf)@.subrange(22, old(buf)@.len() as int)
                    &&& final(self).rules@ == old(self).rules@.update(slot, Some(advanced(ru)))
                } else {
                    &&& if rule is Some && rule->Some_0.ue_ipv4@ == downlink_destination(old(buf)@) {
                        r is UnusableRemoteAddress
                    } else {
                        r is UnknownIp
                    }
                    &&& final(self).rules@ == old(self).rules@
                    &&& final(buf)@ == old(buf)@
                }
            },
    {
        if bytes_read < IPV4_HEADER_LEN {
            return DownlinkOutcome::TooShort;
        }
        let ue_ip_addr: [u8; 4] = [buf[38], buf[39], buf[40], buf[41]];
        assert(ue_ip_addr@ =~= downlink_destination(buf@));
        let idx = downlink_table_index_from_ip(ue_ip_addr);
        if idx >= self.rules.len() {
            return DownlinkOutcome::UnknownIp;
        }
        let entry = match self.rules[idx] {
            Some(e) => e,
            None => {
                return DownlinkOutcome::UnknownIp;
            },
        };
        if entry.ue_ipv4[0] != ue_ip_addr[0] || entry.ue_ipv4[1] != ue_ip_addr[1]
            || entry.ue_ipv4[2] != ue_ip_addr[2] || entry.ue_ipv4[3] != ue_ip_addr[3] {
            assert(entry.ue_ipv4@ != downlink_destination(buf@)) by {
                if entry.ue_ipv4@ == downlink_destination(buf@) {
                    assert(entry.ue_ipv4@[0] == ue_ip_addr@[0]);
                    assert(entry.ue_ipv4@[3] == ue_ip_addr@[3]);
                }
            }
            return DownlinkOutcome::UnknownIp;
        }
        assert(entry.ue_ipv4@ =~= downlink_destination(buf@));
        let remote_ip = match entry.remote_ip {
            Some(ip) => ip,
            None => {
                return DownlinkOutcome::UnusableRemoteAddress;
            },
        };

        let pdcp_seq_num = entry.pdcp_seq_num;
        let nr_seq_num = entry.nr_seq_num;
        let next = DownlinkForwardingRule {
            pdcp_seq_num: if pdcp_seq_num == u16::MAX { 0 } else { pdcp_seq_num + 1 },
            nr_seq_num: if nr_seq_num == u32::MAX { 0 } else { nr_seq_num + 1 },
            ..entry
        };
        self.rules.set(idx, Some(next));

        let ghost old_buf = buf@;
        // The GTP-U payload is everything after the 8-byte base header.
        let gtp_payload_length: usize = bytes_read + DOWNLINK_INNER_PACKET_OFFSET - GTP_BASE_HEADER_LEN;

        // GTP-U header: version 1, PT=1, E=1, S=0, PN=0; message type; length; TEID.
        buf.set(0, 0x34);
        buf.set(1, GTP_MESSAGE_TYPE_GPDU);
        buf.set(2, (gtp_payload_length / 256) as u8);
        buf.set(3, (gtp_payload_length % 256) as u8);
        buf.set(4, entry.remote_teid[0]);
        buf.set(5, entry.remote_teid[1]);
        buf.set(6, entry.remote_teid[2]);
        buf.set(7, entry.remote_teid[3]);
        // Sequence number and N-PDU number (unused), then the next extension
        // header type: NR RAN container.
        buf.set(8, 0);
        buf.set(9, 0);
        buf.set(10, 0);
        buf.set(11, 0x84);
        // NR RAN container, DL user data: length in 4-byte units, PDU type and
        // flags, NR-U sequence number, padding, no next extension header.
        buf.set(12, (GTP_EXT_HEADER_LEN_NRUP_DL_USER_DATA / 4) as u8);
        buf.set(13, 0);
        buf.set(14, 0);
        buf.set(15, ((nr_seq_num / 0x1_0000) % 256) as u8);
        buf.set(16, ((nr_seq_num / 256) % 256) as u8);
        buf.set(17, (nr_seq_num % 256) as u8);
        buf.set(18, 0);
        buf.set(19, 0);
        // PDCP data PDU for a DRB with a 12-bit sequence number.
        buf.set(20, 0x80 + ((pdcp_seq_num / 256) % 16) as u8);
        buf.set(21, (pdcp_seq_num % 256) as u8);
        // No SDAP header downlink.

        assert(buf@ =~= downlink_headers(bytes_read as nat, entry.remote_teid@, nr_seq_num, pdcp_seq_num)
            + old_buf.subrange(22, old_buf.len() as int));
        assert(next == advanced(entry));
        DownlinkOutcome::Forward { remote_ip, len: bytes_read + DOWNLINK_INNER_PACKET_OFFSET }
    }
}

/// For every downlink packet on a slot, the NR-U and PDCP sequence numbers of
/// the next packet on that slot are strictly greater, short of the counters'
/// wrap-around.
pub proof fn lemma_downlink_sequence_numbers_increase(rule: DownlinkForwardingRule)
    requires
        rule.pdcp_seq_num < u16::MAX,
        rule.nr_seq_num < u32::MAX,
    ensures
        advanced(rule).pdcp_seq_num > rule.pdcp_seq_num,
        advanced(rule).nr_seq_num > rule.nr_seq_num,
        advanced(rule).remote_teid == rule.remote_teid,
        advanced(rule).ue_ipv4 == rule.ue_ipv4,
{
}

/// Why an uplink packet was dropped.
#[derive(Clone, Copy, Debug, PartialEq, Eq, Structural)]
pub enum UplinkDrop {
    /// Shorter than GTP, PDCP and SDAP headers and an IPv4 header.
    TooShort,
    /// Not a G-PDU.
    GtpMessageType,
    /// Extension headers run past the packet, or one has length zero.
    TooShortExt,
    /// A PDCP control PDU.
    PdcpControl,
    /// An SDAP control PDU.
    SdapControl,
    /// The inner packet is not IPv4.
    NotIpv4,
    /// No rule for the TEID's slot.
    NoRule,
    /// The slot's rule holds another TEID.
    TeidMismatch,
}

/// Shortest uplink packet: GTP base header, PDCP and SDAP headers, IPv4 header.
pub const UPLINK_MIN_LEN: usize = 31;

/// Skip GTP extension headers from `offset` (which follows a next-extension-type
/// byte): the end of the last one, or none when one has length zero or the
/// rest no longer holds PDCP, SDAP and IPv4 headers.
pub open spec fn skip_extensions(b: Seq<u8>, n: int, offset: int) -> Option<int>
    decreases n - offset,
{
    if !(1 <= offset < b.len()) {
        None
    } else if b[offset - 1] == 0 {
        Some(offset)
    } else if b[offset] == 0 {
        None
    } else {
        let next = offset + b[offset] * 4;
        if n < next + 23 {
            None
        } else {
            skip_extensions(b, n, next)
        }
    }
}

/// Where the inner IPv4 packet of an uplink packet starts, or why it is dropped
/// before the TEID is looked at.
pub open spec fn uplink_inner_offset(b: Seq<u8>, n: int) -> Result<int, UplinkDrop> {
    if n < 31 {
        Err(UplinkDrop::TooShort)
    } else if b[1] != GTP_MESSAGE_TYPE_GPDU {
        Err(UplinkDrop::GtpMessageType)
    } else {
        let start = if b[0] == 0x30 { Some(8int) } else { skip_extensions(b, n, 12) };
        match start {
            None => Err(UplinkDrop::TooShortExt),
            Some(o) => if b[o] < 0x80 {
                Err(UplinkDrop::PdcpControl)
            } else if b[o + 2] < 0x80 {
                Err(UplinkDrop::SdapControl)
            } else if b[o + 3] / 16 != 4 {
                Err(UplinkDrop::NotIpv4)
            } else {
                Ok(o + 3)
            },
        }
    }
}

/// The uplink decision: the inner packet's offset, or why it is dropped.
pub open spec fn uplink_decision(rules: Seq<Option<UplinkForwardingRule>>, b: Seq<u8>, n: int) -> Result<int, UplinkDrop> {
    match uplink_inner_offset(b, n) {
        Err(e) => Err(e),
        Ok(o) => match rule_at(rules, b[7] as int) {
            None => Err(UplinkDrop::NoRule),
            Some(rule) => if rule.local_teid@ == b.subrange(4, 8) {
                Ok(o)
            } else {
                Err(UplinkDrop::TeidMismatch)
            },
        },
    }
}

proof fn lemma_header_bits(v: u8)
    ensures
        (v & 0x80 == 0) == (v < 0x80),
        (v & 0xf0 == 0x40) == (v / 16 == 4),
{
    assert((v & 0x80 == 0) == (v < 0x80)) by (bit_vector);
    assert((v & 0xf0 == 0x40) == (v / 16 == 4)) by (bit_vector);
}

impl UplinkForwardingTable {
    pub open spec fn wf(&self) -> bool {
        self.rules@.len() == TABLE_SIZE
    }

    /// A table with no rules.
    pub fn new() -> (r: UplinkForwardingTable)
        ensures
            r.wf(),
            forall|i: int| 0 <= i < TABLE_SIZE ==> r.rules@[i] is None,
    {
        let mut rules: Vec<Option<UplinkForwardingRule>> = Vec::new();
        let mut i: usize = 0;
        while i < TABLE_SIZE
            invariant
                i <= TABLE_SIZE,
                rules@.len() == i,
                forall|j: int| 0 <= j < i ==> rules@[j] is None,
            decreases TABLE_SIZE - i,
        {
            rules.push(None);
            i += 1;
        }
        UplinkForwardingTable { rules }
    }

    /// Accept uplink packets for the UE at `ue_ipv4`, whose TEID ends in the
    /// same slot byte.
    pub fn add_rule(&mut self, ue_ipv4: [u8; 4], teid: [u8; 4])
        requires
            old(self).wf(),
            ue_ipv4[3] <= MAX_UES,
            teid[3] == ue_ipv4[3],
        ensures
            final(self).wf(),
            final(self).rules@ == old(self).rules@.update(teid[3] as int, Some(UplinkForwardingRule { local_teid: teid })),
    {
        let idx = ue_ipv4[3] as usize;
        self.rules.set(idx, Some(UplinkForwardingRule { local_teid: teid }));
    }

    /// Stop accepting uplink packets with this TEID's slot.
    pub fn remove_rule(&mut self, teid: [u8; 4])
        requires
            old(self).wf(),
            teid[3] <= MAX_UES,
        ensures
            final(self).wf(),
            final(self).rules@ == old(self).rules@.update(teid[3] as int, None),
    {
        let idx = uplink_table_index_from_gtp_teid(&teid);
        self.rules.set(idx, None);
    }

    /// Decide on a packet received from F1-U, `bytes_read` bytes long: the
    /// offset at which its inner IPv4 packet starts, or why it is dropped.
    pub fn process_uplink_packet(&self, buf: &[u8], bytes_read: usize) -> (r: Result<usize, UplinkDrop>)
        requires
            self.wf(),
            bytes_read <= buf@.len(),
            buf@.len() <= 0xffff,
        ensures
            bytes_read < UPLINK_MIN_LEN ==> r == Err::<usize, UplinkDrop>(UplinkDrop::TooShort),
            bytes_read >= UPLINK_MIN_LEN && buf@[1] != GTP_MESSAGE_TYPE_GPDU
                ==> r == Err::<usize, UplinkDrop>(UplinkDrop::GtpMessageType),
            r is Ok ==> (rule_at(self.rules@, buf@[7] as int) matches Some(rule)
                && rule.local_teid@ == buf@.subrange(4, 8)),
            match r {
                Ok(o) => uplink_decision(self.rules@, buf@, bytes_read as int) == Ok::<int, UplinkDrop>(o as int)
                    && o <= bytes_read,
                Err(e) => uplink_decision(self.rules@, buf@, bytes_read as int) == Err::<int, UplinkDrop>(e),
            },
    {
        let ghost b = buf@;
        let ghost n = bytes_read as int;
        if bytes_read < GTP_BASE_HEADER_LEN + PDCP_HEADER_LEN + SDAP_HEADER_LEN + IPV4_HEADER_LEN {
            return Err(UplinkDrop::TooShort);
        }
        if buf[1] != GTP_MESSAGE_TYPE_GPDU {
            return Err(UplinkDrop::GtpMessageType);
        }
        let mut offset: usize;
        if buf[0] == 0x30 {
            offset = GTP_BASE_HEADER_LEN;
        } else {
            offset = GTP_EXTENDED_HEADER_LEN;
            while buf[offset - 1] != 0
                invariant
                    12 <= offset,
                    offset + 19 <= bytes_read,
                    bytes_read <= buf@.len() <= 0xffff,
                    b == buf@,
                    n == bytes_read as int,
                    skip_extensions(b, n, offset as int) == skip_extensions(b, n, 12),
                    b[0] != 0x30,
                    b[1] == GTP_MESSAGE_TYPE_GPDU,
                    n >= 31,
                decreases bytes_read - offset,
            {
                // An extension header follows: skip it.
                let ext_len = buf[offset] as usize;
                if ext_len == 0 {
                    assert(skip_extensions(b, n, offset as int) is None);
                    return Err(UplinkDrop::TooShortExt);
                }
                let next = offset + ext_len * 4;
                if bytes_read < next + PDCP_HEADER_LEN + SDAP_HEADER_LEN + IPV4_HEADER_LEN {
                    assert(skip_extensions(b, n, offset as int) is None);
                    return Err(UplinkDrop::TooShortExt);
                }
                assert(skip_extensions(b, n, offset as int) == skip_extensions(b, n, next as int));
                offset = next;
            }
            assert(skip_extensions(b, n, offset as int) == Some(offset as int));
        }

        // PDCP data PDU for a DRB with a 12-bit sequence number (not a control PDU).
        let pdcp = buf[offset];
        proof { lemma_header_bits(pdcp); }
        if pdcp & 0x80 == 0 {
            return Err(UplinkDrop::PdcpControl);
        }
        offset += PDCP_HEADER_LEN;

        // SDAP data PDU header: D/C, R, QFI.
        let sdap = buf[offset];
        proof { lemma_header_bits(sdap); }
        if sdap & 0x80 == 0 {
            return Err(UplinkDrop::SdapControl);
        }
        offset += SDAP_HEADER_LEN;

        let ip_version = buf[offset];
        proof { lemma_header_bits(ip_version); }
        if ip_version & 0xf0 != 0x40 {
            return Err(UplinkDrop::NotIpv4);
        }

        let idx = buf[7] as usize;
        if idx >= self.rules.len() {
            return Err(UplinkDrop::NoRule);
        }
        let entry = match self.rules[idx] {
            Some(e) => e,
            None => {
                return Err(UplinkDrop::NoRule);
            },
        };
        if entry.local_teid[0] != buf[4] || entry.local_teid[1] != buf[5] || entry.local_teid[2] != buf[6]
            || entry.local_teid[3] != buf[7] {
            assert(entry.local_teid@ != b.subrange(4, 8)) by {
                if entry.local_teid@ == b.subrange(4, 8) {
                    assert(entry.local_teid@[0] == b.subrange(4, 8)[0]);
                    assert(entry.local_teid@[1] == b.subrange(4, 8)[1]);
                    assert(entry.local_teid@[2] == b.subrange(4, 8)[2]);
                    assert(entry.local_teid@[3] == b.subrange(4, 8)[3]);
                }
            }
            return Err(UplinkDrop::TeidMismatch);
        }
        assert(entry.local_teid@ =~= b.subrange(4, 8));
        Ok(offset)
    }
}

/// Why a user-plane session could not be set up.
#[derive(Clone, Copy, Debug, PartialEq, Eq, Structural)]
pub enum UserplaneError {
    /// All slots 1 to 254 are taken.
    NoMoreSlots,
}

/// Every slot up to 254 is taken (slot 0 is always taken).
pub open spec fn slots_exhausted(used: Set<usize>) -> bool {
    forall|i: usize| i <= MAX_UES ==> used.contains(i)
}

/// `s` is the least slot that is not taken.
pub open spec fn least_free_slot(used: Set<usize>, s: usize) -> bool {
    &&& !used.contains(s)
    &&& forall|i: usize| i < s ==> used.contains(i)
}

/// The forwarding tables and the slot pool of the user plane.
pub struct PacketProcessor {
    pub index_pool: IndexPool,
    pub downlink_forwarding_table: DownlinkForwardingTable,
    pub uplink_forwarding_table: UplinkForwardingTable,
    pub ue_subnet: [u8; 4],
}

impl PacketProcessor {
    /// The slots handed out and not yet freed; slot 0 is always among them.
    pub open spec fn slots_in_use(&self) -> Set<usize> {
        pool_in_use(self.index_pool)
    }

    /// Tables of 255 slots; slot 0 taken; every installed rule sits in a slot
    /// from 1 to 254 given by the last byte of its TEID or UE address, and
    /// every slot with an uplink rule is taken.
    pub open spec fn wf(&self) -> bool {
        &&& self.downlink_forwarding_table.wf()
        &&& self.uplink_forwarding_table.wf()
        &&& self.slots_in_use().contains(0)
        &&& forall|i: usize| self.slots_in_use().contains(i) ==> i <= MAX_UES
        &&& forall|s: int| 0 <= s < TABLE_SIZE && (#[trigger] self.uplink_forwarding_table.rules@[s]) is Some ==> {
            &&& 1 <= s
            &&& self.slots_in_use().contains(s as usize)
            &&& self.uplink_forwarding_table.rules@[s]->Some_0.local_teid[3] == s
        }
        &&& forall|s: int| 0 <= s < TABLE_SIZE && (#[trigger] self.downlink_forwarding_table.rules@[s]) is Some ==> {
            &&& 1 <= s
            &&& self.downlink_forwarding_table.rules@[s]->Some_0.ue_ipv4[3] == s
        }
    }

    /// Empty tables and a pool with slot 0 taken, so that the first UE gets an
    /// address ending in 1.
    pub fn new(ue_subnet: [u8; 4]) -> (r: PacketProcessor)
        ensures
            r.wf(),
            r.slots_in_use() == set![0usize],
            r.ue_subnet == ue_subnet,
            forall|i: int| 0 <= i < TABLE_SIZE ==> r.downlink_forwarding_table.rules@[i] is None,
            forall|i: int| 0 <= i < TABLE_SIZE ==> r.uplink_forwarding_table.rules@[i] is None,
    {
        let mut index_pool = pool_new();
        let _ = pool_request_id(&mut index_pool, 0);
        assert(pool_in_use(index_pool) =~= set![0usize]);
        PacketProcessor {
            index_pool,
            downlink_forwarding_table: DownlinkForwardingTable::new(),
            uplink_forwarding_table: UplinkForwardingTable::new(),
            ue_subnet,
        }
    }

    /// Take the least free slot, give the session a TEID whose first three
    /// bytes are random and whose last is the slot, and an address in the UE
    /// subnet whose last octet is the slot; install the uplink rule.
    pub fn reserve_userplane_session(&mut self) -> (r: Result<UserplaneSession, UserplaneError>)
        requires
            old(self).wf(),
        ensures
            final(self).wf(),
            final(self).ue_subnet == old(self).ue_subnet,
            final(self).downlink_forwarding_table.rules@ == old(self).downlink_forwarding_table.rules@,
            (r is Err) == slots_exhausted(old(self).slots_in_use()),
            r is Err ==> r == Err::<UserplaneSession, UserplaneError>(UserplaneError::NoMoreSlots)
                && final(self).slots_in_use() == old(self).slots_in_use()
                && final(self).uplink_forwarding_table.rules@ == old(self).uplink_forwarding_table.rules@,
            r matches Ok(sess) ==> {
                &&& sess.wf()
                &&& sess.qfi == 0
                &&& least_free_slot(old(self).slots_in_use(), sess.slot() as usize)
                &&& sess.ue_ip_addr[0] == old(self).ue_subnet[0]
                &&& sess.ue_ip_addr[1] == old(self).ue_subnet[1]
                &&& sess.ue_ip_addr[2] == old(self).ue_subnet[2]
                &&& final(self).slots_in_use() == old(self).slots_in_use().insert(sess.slot() as usize)
                &&& final(self).uplink_forwarding_table.rules@ == old(self).uplink_forwarding_table.rules@.update(
                    sess.slot() as int,
                    Some(UplinkForwardingRule { local_teid: sess.uplink_gtp_teid.0 }),
                )
            },
    {
        let ghost used = pool_in_use(self.index_pool);
        let idx = pool_new_id(&mut self.index_pool);
        if idx > MAX_UES {
            let _ = pool_return_id(&mut self.index_pool, idx);
            assert(pool_in_use(self.index_pool) =~= used);
            return Err(UserplaneError::NoMoreSlots);
        }
        assert(!slots_exhausted(used));
        let slot = idx as u8;

        // The top of the TEID is random: it is meant to be unpredictable.
        let top: [u8; 3] = rand::random();
        let teid: [u8; 4] = [top[0], top[1], top[2], slot];

        // One PDU session per UE and at most 254 UEs: the slot is the host number.
        let ue_ipv4_addr: [u8; 4] = [self.ue_subnet[0], self.ue_subnet[1], self.ue_subnet[2], slot];

        self.uplink_forwarding_table.add_rule(ue_ipv4_addr, teid);
        Ok(UserplaneSession { uplink_gtp_teid: GtpTeid(teid), ue_ip_addr: ue_ipv4_addr, qfi: 0 })
    }

    /// Install the downlink rule of a reserved session, toward the DU's
    /// tunnel. A DU transport address that is neither IPv4 nor IPv6 is kept
    /// as none, and packets for the session are then dropped.
    pub fn commit_userplane_session(&mut self, session: &UserplaneSession, remote_tunnel_info: GtpTunnel)
        requires
            old(self).wf(),
            session.wf(),
        ensures
            final(self).wf(),
            final(self).slots_in_use() == old(self).slots_in_use(),
            final(self).ue_subnet == old(self).ue_subnet,
            final(self).uplink_forwarding_table.rules@ == old(self).uplink_forwarding_table.rules@,
            final(self).downlink_forwarding_table.rules@ == old(self).downlink_forwarding_table.rules@.update(
                session.slot() as int,
                Some(committed_rule(*session, remote_tunnel_info)),
            ),
    {
        let remote_teid = remote_tunnel_info.gtp_teid;
        let remote_ip = match remote_tunnel_info.transport_layer_address.to_ip() {
            Ok(ip) => Some(ip),
            Err(_) => None,
        };
        self.downlink_forwarding_table.add_rule(remote_ip, remote_teid, session.ue_ip_addr);
    }

    /// Remove both rules of a session and free its slot.
    pub fn delete_userplane_session(&mut self, session: &UserplaneSession)
        requires
            old(self).wf(),
            session.wf(),
        ensures
            final(self).wf(),
            final(self).ue_subnet == old(self).ue_subnet,
            final(self).slots_in_use() == old(self).slots_in_use().remove(session.slot() as usize),
            final(self).downlink_forwarding_table.rules@
                == old(self).downlink_forwarding_table.rules@.update(session.slot() as int, None),
            final(self).uplink_forwarding_table.rules@
                == old(self).uplink_forwarding_table.rules@.update(session.slot() as int, None),
    {
        self.downlink_forwarding_table.remove_rule(session.ue_ip_addr);
        self.uplink_forwarding_table.remove_rule(session.uplink_gtp_teid.0);
        let _ = pool_return_id(&mut self.index_pool, session.ue_ip_addr[3] as usize);
    }
}

/// The downlink rule that committing a session toward a DU tunnel installs.
pub open spec fn committed_rule(session: UserplaneSession, tunnel: GtpTunnel) -> DownlinkForwardingRule {
    DownlinkForwardingRule {
        remote_ip: ip_of_octets(tunnel.transport_layer_address@),
        remote_teid: tunnel.gtp_teid.0,
        ue_ipv4: session.ue_ip_addr,
        pdcp_seq_num: 0,
        nr_seq_num: 0,
    }
}

/// Every installed rule sits in a slot from 1 to 254 that equals the last
/// byte of its TEID (uplink) or of its UE address (downlink).
pub proof fn lemma_rules_slot_consistent(pp: PacketProcessor, s: int)
    requires
        pp.wf(),
        0 <= s < TABLE_SIZE,
    ensures
        pp.uplink_forwarding_table.rules@[s] matches Some(rule) ==> 1 <= s <= MAX_UES && rule.local_teid[3] == s,
        pp.downlink_forwarding_table.rules@[s] matches Some(rule) ==> 1 <= s <= MAX_UES && rule.ue_ipv4[3] == s,
{
}

/// With every slot taken, reservation fails; freeing a slot makes it the
/// least free slot, so the next reservation succeeds and hands it out.
pub proof fn lemma_freed_slot_is_reused(used: Set<usize>, s: usize)
    requires
        slots_exhausted(used),
        1 <= s <= MAX_UES,
    ensures
        !slots_exhausted(used.remove(s)),
        least_free_slot(used.remove(s), s),
{
    assert(!used.remove(s).contains(s));
}

} // verus!

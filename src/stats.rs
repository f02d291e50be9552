//! Packet counters of the user-plane pipelines and the decision of what to
//! report every few seconds: traffic when packets arrived, a warning when a
//! drop counter moved.
use vstd::prelude::*;

verus! {

pub const DL_RX_PKTS: usize = 0;
pub const DL_RX_BYTES: usize = 1;
pub const DL_DROP_TOO_SHORT: usize = 2;
pub const DL_DROP_UNKNOWN_IP: usize = 3;
pub const DL_NUM_COUNTERS: usize = 4;

pub const UL_RX_PKTS: usize = 0;
pub const UL_RX_BYTES: usize = 1;
pub const UL_DROP_TOO_SHORT: usize = 2;
pub const UL_DROP_GTP_MESSAGE_TYPE: usize = 3;
pub const UL_DROP_TOO_SHORT_EXT: usize = 4;
pub const UL_DROP_PDCP_CONTROL: usize = 5;
pub const UL_DROP_SDAP_CONTROL: usize = 6;
pub const UL_DROP_NOT_IPV4: usize = 7;
pub const UL_DROP_UNKNOWN_TEID_1: usize = 8;
pub const UL_DROP_UNKNOWN_TEID_2: usize = 9;
pub const UL_NUM_COUNTERS: usize = 10;

/// What one reporting round prints.
#[derive(Clone, Copy, Debug, PartialEq, Eq, Structural)]
pub struct StatsReport {
    /// Packets arrived in either direction since the last traffic line.
    pub traffic: bool,
    /// A downlink drop counter moved.
    pub dl_warn: bool,
    /// An uplink drop counter moved.
    pub ul_warn: bool,
}

/// Some counter from `first` on differs between the two snapshots.
pub open spec fn moved_from(last: Seq<u64>, now: Seq<u64>, first: int) -> bool {
    exists|i: int| first <= i < now.len() && last[i] != now[i]
}

fn any_moved(last: &Vec<u64>, now: &Vec<u64>, first: usize) -> (r: bool)
    requires
        last@.len() == now@.len(),
    ensures
        r == moved_from(last@, now@, first as int),
{
    let mut i = first;
    while i < now.len()
        invariant
            first <= i,
            last@.len() == now@.len(),
            forall|j: int| first <= j < i ==> last@[j] == now@[j],
        decreases now@.len() - i,
    {
        if last[i] != now[i] {
            return true;
        }
        i += 1;
    }
    assert(!moved_from(last@, now@, first as int)) by {
        if moved_from(last@, now@, first as int) {
            let k = choose|k: int| first <= k < now@.len() && last@[k] != now@[k];
            assert(k < i);
        }
    }
    false
}

/// Compare fresh counter snapshots with the last reported ones. The traffic
/// counters are taken over only when traffic is reported; the drop counters
/// are taken over every round.
pub fn stats_report(last_dl: &mut Vec<u64>, last_ul: &mut Vec<u64>, dl: &Vec<u64>, ul: &Vec<u64>) -> (r: StatsReport)
    requires
        old(last_dl)@.len() == DL_NUM_COUNTERS,
        dl@.len() == DL_NUM_COUNTERS,
        old(last_ul)@.len() == UL_NUM_COUNTERS,
        ul@.len() == UL_NUM_COUNTERS,
    ensures
        r.traffic == (old(last_dl)@[DL_RX_PKTS as int] != dl@[DL_RX_PKTS as int]
            || old(last_ul)@[UL_RX_PKTS as int] != ul@[UL_RX_PKTS as int]),
        r.dl_warn == moved_from(old(last_dl)@, dl@, DL_DROP_TOO_SHORT as int),
        r.ul_warn == moved_from(old(last_ul)@, ul@, UL_DROP_TOO_SHORT as int),
        final(last_dl)@ == if r.traffic { dl@ } else { dl@.update(0, old(last_dl)@[0]).update(1, old(last_dl)@[1]) },
        final(last_ul)@ == if r.traffic { ul@ } else { ul@.update(0, old(last_ul)@[0]).update(1, old(last_ul)@[1]) },
{
    let traffic = last_dl[DL_RX_PKTS] != dl[DL_RX_PKTS] || last_ul[UL_RX_PKTS] != ul[UL_RX_PKTS];
    let dl_warn = any_moved(last_dl, dl, DL_DROP_TOO_SHORT);
    let ul_warn = any_moved(last_ul, ul, UL_DROP_TOO_SHORT);
    let ghost old_dl = last_dl@;
    let ghost old_ul = last_ul@;
    let mut i: usize = 0;
    while i < DL_NUM_COUNTERS
        invariant
            i <= DL_NUM_COUNTERS,
            dl@.len() == DL_NUM_COUNTERS,
            last_dl@.len() == DL_NUM_COUNTERS,
            forall|j: int| 0 <= j < DL_NUM_COUNTERS ==> last_dl@[j] == if j < i && (traffic || j >= 2) { dl@[j] } else { old_dl[j] },
        decreases DL_NUM_COUNTERS - i,
    {
        if traffic || i >= DL_DROP_TOO_SHORT {
            last_dl.set(i, dl[i]);
        }
        i += 1;
    }
    let mut i: usize = 0;
    while i < UL_NUM_COUNTERS
        invariant
            i <= UL_NUM_COUNTERS,
            ul@.len() == UL_NUM_COUNTERS,
            last_ul@.len() == UL_NUM_COUNTERS,
            forall|j: int| 0 <= j < UL_NUM_COUNTERS ==> last_ul@[j] == if j < i && (traffic || j >= 2) { ul@[j] } else { old_ul[j] },
        decreases UL_NUM_COUNTERS - i,
    {
        if traffic || i >= UL_DROP_TOO_SHORT {
            last_ul.set(i, ul[i]);
        }
        i += 1;
    }
    if traffic {
        assert(last_dl@ =~= dl@);
        assert(last_ul@ =~= ul@);
    } else {
        assert(last_dl@ =~= dl@.update(0, old_dl[0]).update(1, old_dl[1]));
        assert(last_ul@ =~= ul@.update(0, old_ul[0]).update(1, old_ul[1]));
    }
    StatsReport { traffic, dl_warn, ul_warn }
}

} // verus!

//! SIM credentials by IMSI, as loaded from the SIM file: each entry is keyed
//! `imsi-<IMSI>` and holds Ki and OPc as 32 hexadecimal characters.
use vstd::prelude::*;
use vstd::string::StringSliceAdditionalSpecFns;

verus! {

/// A subscriber's long-term key and operator variant key.
#[derive(Clone, Copy, Debug)]
pub struct SimCreds {
    pub ki: [u8; 16],
    pub opc: [u8; 16],
}

/// The SIM credentials, keyed by the IMSI's bytes.
pub struct SimTable {
    pub entries: Vec<(Vec<u8>, SimCreds)>,
}

/// Why a SIM file entry was rejected.
#[derive(Clone, Copy, Debug, PartialEq, Eq, Structural)]
pub enum SimError {
    /// The key does not start with `imsi-`.
    MissingImsiPrefix,
    /// Ki is not 32 hexadecimal characters.
    BadKi,
    /// OPc is not 32 hexadecimal characters.
    BadOpc,
}

/// The value of a hexadecimal digit, either case.
pub open spec fn hex_value(c: u8) -> Option<u8> {
    if 48 <= c <= 57 {
        Some((c - 48) as u8)
    } else if 97 <= c <= 102 {
        Some((c - 87) as u8)
    } else if 65 <= c <= 70 {
        Some((c - 55) as u8)
    } else {
        None
    }
}

pub open spec fn all_hex(s: Seq<u8>) -> bool {
    forall|i: int| 0 <= i < s.len() ==> (#[trigger] hex_value(s[i])) is Some
}

/// The 16 bytes that 32 hexadecimal characters spell, high nibble first.
pub open spec fn hex16(s: Seq<u8>) -> Seq<u8> {
    Seq::new(16, |i: int| (hex_value(s[2 * i])->Some_0 * 16 + hex_value(s[2 * i + 1])->Some_0) as u8)
}

/// The bytes `imsi-`.
pub open spec fn imsi_prefix() -> Seq<u8> {
    seq![0x69u8, 0x6d, 0x73, 0x69, 0x2d]
}

fn hex_digit(c: u8) -> (r: Option<u8>)
    ensures
        r == hex_value(c),
{
    if 48 <= c && c <= 57 {
        Some(c - 48)
    } else if 97 <= c && c <= 102 {
        Some(c - 87)
    } else if 65 <= c && c <= 70 {
        Some(c - 55)
    } else {
        None
    }
}

/// 16 bytes from 32 hexadecimal characters.
pub fn parse_hex16(s: &[u8]) -> (r: Option<[u8; 16]>)
    ensures
        match r {
            Some(b) => s@.len() == 32 && all_hex(s@) && b@ == hex16(s@),
            None => !(s@.len() == 32 && all_hex(s@)),
        },
{
    if s.len() != 32 {
        return None;
    }
    let mut out = [0u8; 16];
    let mut i: usize = 0;
    while i < 16
        invariant
            i <= 16,
            s@.len() == 32,
            out@.len() == 16,
            forall|j: int| 0 <= j < 2 * i ==> (#[trigger] hex_value(s@[j])) is Some,
            forall|j: int| 0 <= j < i ==> out@[j] == hex16(s@)[j],
        decreases 16 - i,
    {
        let hi = match hex_digit(s[2 * i]) {
            Some(v) => v,
            None => {
                return None;
            },
        };
        let lo = match hex_digit(s[2 * i + 1]) {
            Some(v) => v,
            None => {
                return None;
            },
        };
        out[i] = hi * 16 + lo;
        i += 1;
    }
    assert(out@ =~= hex16(s@));
    Some(out)
}

/// Whether two byte strings are equal.
pub(crate) fn bytes_equal(a: &[u8], b: &[u8]) -> (r: bool)
    ensures
        r == (a@ == b@),
{
    if a.len() != b.len() {
        return false;
    }
    let mut i: usize = 0;
    while i < a.len()
        invariant
            i <= a@.len(),
            a@.len() == b@.len(),
            forall|j: int| 0 <= j < i ==> a@[j] == b@[j],
        decreases a@.len() - i,
    {
        if a[i] != b[i] {
            return false;
        }
        i += 1;
    }
    assert(a@ =~= b@);
    true
}

impl SimTable {
    /// No IMSI appears twice.
    pub open spec fn wf(&self) -> bool {
        forall|i: int, j: int|
            0 <= i < self.entries@.len() && 0 <= j < self.entries@.len() && i != j
                ==> (#[trigger] self.entries@[i]).0@ != (#[trigger] self.entries@[j]).0@
    }

    /// The credentials filed under these IMSI bytes.
    pub open spec fn creds_of(&self, imsi: Seq<u8>) -> Option<SimCreds> {
        if exists|i: int| 0 <= i < self.entries@.len() && (#[trigger] self.entries@[i]).0@ == imsi {
            let i = choose|i: int| 0 <= i < self.entries@.len() && (#[trigger] self.entries@[i]).0@ == imsi;
            Some(self.entries@[i].1)
        } else {
            None
        }
    }

    /// An empty table.
    pub fn new() -> (r: SimTable)
        ensures
            r.wf(),
            r.entries@.len() == 0,
    {
        SimTable { entries: Vec::new() }
    }

    fn find(&self, imsi: &[u8]) -> (r: Option<usize>)
        ensures
            match r {
                Some(i) => i < self.entries@.len() && self.entries@[i as int].0@ == imsi@,
                None => forall|i: int| 0 <= i < self.entries@.len() ==> (#[trigger] self.entries@[i]).0@ != imsi@,
            },
    {
        let mut i: usize = 0;
        while i < self.entries.len()
            invariant
                i <= self.entries@.len(),
                forall|j: int| 0 <= j < i ==> (#[trigger] self.entries@[j]).0@ != imsi@,
            decreases self.entries@.len() - i,
        {
            if bytes_equal(self.entries[i].0.as_slice(), imsi) {
                return Some(i);
            }
            i += 1;
        }
        None
    }

    /// The credentials of an IMSI.
    pub fn lookup_sim(&self, imsi: &str) -> (r: Option<SimCreds>)
        requires
            self.wf(),
        ensures
            r == self.creds_of(imsi.spec_bytes()),
    {
        let key = imsi.as_bytes();
        match self.find(key) {
            Some(i) => {
                let ghost k = choose|j: int| 0 <= j < self.entries@.len() && (#[trigger] self.entries@[j]).0@ == key@;
                assert(self.entries@[i as int].0@ == key@);
                assert(k == i as int);
                Some(self.entries[i].1)
            },
            None => None,
        }
    }

    /// Add one entry of the SIM file: the key must be `imsi-` followed by the
    /// IMSI, Ki and OPc 32 hexadecimal characters each. An entry for an IMSI
    /// already present replaces it.
    pub fn add_entry(&mut self, key: &str, ki_hex: &str, opc_hex: &str) -> (r: Result<(), SimError>)
        requires
            old(self).wf(),
        ensures
            final(self).wf(),
            ({
                let k = key.spec_bytes();
                let has_prefix = k.len() >= 5 && k.subrange(0, 5) == imsi_prefix();
                let ki_ok = ki_hex.spec_bytes().len() == 32 && all_hex(ki_hex.spec_bytes());
                let opc_ok = opc_hex.spec_bytes().len() == 32 && all_hex(opc_hex.spec_bytes());
                &&& !has_prefix ==> r == Err::<(), SimError>(SimError::MissingImsiPrefix)
                &&& has_prefix && !ki_ok ==> r == Err::<(), SimError>(SimError::BadKi)
                &&& has_prefix && ki_ok && !opc_ok ==> r == Err::<(), SimError>(SimError::BadOpc)
                &&& has_prefix && ki_ok && opc_ok ==> r is Ok && final(self).creds_of(k.subrange(5, k.len() as int))
                    == Some(SimCreds { ki: arr16(hex16(ki_hex.spec_bytes())), opc: arr16(hex16(opc_hex.spec_bytes())) })
            }),
            r is Err ==> final(self).entries@ == old(self).entries@,
            r is Ok ==> forall|i: Seq<u8>| i != key.spec_bytes().subrange(5, key.spec_bytes().len() as int)
                ==> #[trigger] final(self).creds_of(i) == old(self).creds_of(i),
    {
        let k = key.as_bytes();
        if k.len() < 5 || k[0] != 0x69 || k[1] != 0x6d || k[2] != 0x73 || k[3] != 0x69 || k[4] != 0x2d {
            assert(!(k@.len() >= 5 && k@.subrange(0, 5) == imsi_prefix())) by {
                if k@.len() >= 5 && k@.subrange(0, 5) == imsi_prefix() {
                    assert(k@.subrange(0, 5)[0] == k@[0]);
                    assert(k@.subrange(0, 5)[1] == k@[1]);
                    assert(k@.subrange(0, 5)[2] == k@[2]);
                    assert(k@.subrange(0, 5)[3] == k@[3]);
                    assert(k@.subrange(0, 5)[4] == k@[4]);
                }
            }
            return Err(SimError::MissingImsiPrefix);
        }
        assert(k@.subrange(0, 5) =~= imsi_prefix());
        let ki = match parse_hex16(ki_hex.as_bytes()) {
            Some(v) => v,
            None => {
                return Err(SimError::BadKi);
            },
        };
        let opc = match parse_hex16(opc_hex.as_bytes()) {
            Some(v) => v,
            None => {
                return Err(SimError::BadOpc);
            },
        };
        assert(ki == arr16(ki@)) by { lemma_arr16(ki); }
        assert(opc == arr16(opc@)) by { lemma_arr16(opc); }
        let imsi_slice = &k[5..k.len()];
        let mut imsi: Vec<u8> = Vec::new();
        imsi.extend_from_slice(imsi_slice);
        let creds = SimCreds { ki, opc };
        let ghost imsi_s = k@.subrange(5, k@.len() as int);
        assert(imsi@ =~= imsi_s);
        match self.find(imsi.as_slice()) {
            Some(i) => {
                self.entries.set(i, (imsi, creds));
                assert(self.entries@[i as int].0@ == imsi_s);
            },
            None => {
                self.entries.push((imsi, creds));
                assert(self.entries@[self.entries@.len() - 1].0@ == imsi_s);
            },
        }
        let ghost i0 = choose|j: int| 0 <= j < self.entries@.len() && (#[trigger] self.entries@[j]).0@ == imsi_s;
        assert(self.entries@[i0].1 == creds);
        assert forall|i: Seq<u8>| i != imsi_s implies #[trigger] self.creds_of(i) == old(self).creds_of(i) by {
            lemma_other_keys_kept(*old(self), *self, imsi_s, i);
        }
        Ok(())
    }
}

/// Under unique keys, the credentials filed at an index are those of its key.
proof fn lemma_creds_at(t: SimTable, j: int)
    requires
        t.wf(),
        0 <= j < t.entries@.len(),
    ensures
        t.creds_of(t.entries@[j].0@) == Some(t.entries@[j].1),
{
    let k = t.entries@[j].0@;
    assert(t.entries@[j].0@ == k);
    let c = choose|i: int| 0 <= i < t.entries@.len() && (#[trigger] t.entries@[i]).0@ == k;
    assert(c == j);
}

/// Entries whose keys differ from `changed` are the same before and after,
/// where `after` differs from `before` only in entries keyed `changed`.
proof fn lemma_other_keys_kept(before: SimTable, after: SimTable, changed: Seq<u8>, key: Seq<u8>)
    requires
        before.wf(),
        after.wf(),
        key != changed,
        forall|j: int| 0 <= j < after.entries@.len() && (#[trigger] after.entries@[j]).0@ != changed
            ==> j < before.entries@.len() && before.entries@[j] == after.entries@[j],
        forall|j: int| 0 <= j < before.entries@.len() && (#[trigger] before.entries@[j]).0@ != changed
            ==> j < after.entries@.len() && before.entries@[j] == after.entries@[j],
    ensures
        after.creds_of(key) == before.creds_of(key),
{
    if exists|j: int| 0 <= j < before.entries@.len() && (#[trigger] before.entries@[j]).0@ == key {
        let j = choose|j: int| 0 <= j < before.entries@.len() && (#[trigger] before.entries@[j]).0@ == key;
        lemma_creds_at(before, j);
        lemma_creds_at(after, j);
    } else if exists|j: int| 0 <= j < after.entries@.len() && (#[trigger] after.entries@[j]).0@ == key {
        let j = choose|j: int| 0 <= j < after.entries@.len() && (#[trigger] after.entries@[j]).0@ == key;
        assert(before.entries@[j].0@ == key);
    }
}

/// The array of a 16-byte sequence.
pub open spec fn arr16(s: Seq<u8>) -> [u8; 16] {
    [s[0], s[1], s[2], s[3], s[4], s[5], s[6], s[7], s[8], s[9], s[10], s[11], s[12], s[13], s[14], s[15]]
}

proof fn lemma_arr16(a: [u8; 16])
    ensures
        a == arr16(a@),
{
    assert(a =~= arr16(a@));
}

} // verus!

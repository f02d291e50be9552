//! The registry of live UEs, keyed by the CU-side F1AP id.
use vstd::prelude::*;

use crate::ue_context::UeContext;
use dashmap::DashMap;

verus! {

#[verifier::external_type_specification]
#[verifier::external_body]
#[verifier::reject_recursive_types(K)]
#[verifier::reject_recursive_types(V)]
#[verifier::reject_recursive_types(S)]
pub struct ExDashMap<K, V, S>(DashMap<K, V, S>);

/// The UEs that a registry holds, by CU-F1AP id.
pub uninterp spec fn registry_contents(m: DashMap<u32, UeContext>) -> Map<u32, UeContext>;

/// Relies on dashmap::DashMap::new: an empty map.
#[verifier::external_body]
fn map_new() -> (r: DashMap<u32, UeContext>)
    ensures
        registry_contents(r).dom() == Set::<u32>::empty(),
{
    DashMap::new()
}

/// Relies on dashmap::DashMap::contains_key: whether the key is present.
#[verifier::external_body]
fn map_contains_key(m: &DashMap<u32, UeContext>, k: u32) -> (r: bool)
    ensures
        r == registry_contents(*m).contains_key(k),
{
    m.contains_key(&k)
}

/// Relies on dashmap::DashMap::insert: the key maps to the value afterwards.
#[verifier::external_body]
fn map_insert(m: &mut DashMap<u32, UeContext>, k: u32, v: UeContext)
    ensures
        registry_contents(*final(m)) == registry_contents(*old(m)).insert(k, v),
{
    m.insert(k, v);
}

/// Relies on dashmap::DashMap::remove: the entry, if there was one, comes out.
#[verifier::external_body]
fn map_remove(m: &mut DashMap<u32, UeContext>, k: u32) -> (r: Option<UeContext>)
    ensures
        registry_contents(*final(m)) == registry_contents(*old(m)).remove(k),
        (r is Some) == registry_contents(*old(m)).contains_key(k),
        r matches Some(v) ==> v == registry_contents(*old(m))[k],
{
    m.remove(&k).map(|e| e.1)
}

/// Relies on dashmap::DashMap::iter: each entry's key, in an order that
/// depends on hashing.
#[verifier::external_body]
fn map_keys(m: &DashMap<u32, UeContext>) -> (r: Vec<u32>)
    ensures
        r@.to_set() == registry_contents(*m).dom(),
        r@.no_duplicates(),
{
    m.iter().map(|e| *e.key()).collect()
}

/// The first candidate that is non-zero and not a key of `held`; none when
/// there is no such candidate.
pub open spec fn first_fresh(candidates: Seq<u32>, held: Map<u32, UeContext>) -> Option<u32>
    decreases candidates.len(),
{
    if candidates.len() == 0 {
        None
    } else if candidates[0] != 0 && !held.contains_key(candidates[0]) {
        Some(candidates[0])
    } else {
        first_fresh(candidates.drop_first(), held)
    }
}

/// The ids 1 to n + 1, in order (none when n + 1 does not fit an id).
pub open spec fn scan_candidates(n: nat) -> Seq<u32> {
    if n < 0xffff_ffff {
        Seq::new(n + 1, |i: int| (i + 1) as u32)
    } else {
        Seq::empty()
    }
}

/// When some candidate is non-zero and not held, `first_fresh` picks one.
pub proof fn lemma_first_fresh_finds(candidates: Seq<u32>, held: Map<u32, UeContext>, j: int)
    requires
        0 <= j < candidates.len(),
        candidates[j] != 0,
        !held.contains_key(candidates[j]),
    ensures
        first_fresh(candidates, held) is Some,
    decreases candidates.len(),
{
    if j > 0 && !(candidates[0] != 0 && !held.contains_key(candidates[0])) {
        assert(candidates.drop_first()[j - 1] == candidates[j]);
        lemma_first_fresh_finds(candidates.drop_first(), held, j - 1);
    }
}

/// Pigeonhole: of the ids 1 to n + 1, one is not among the n held keys.
proof fn lemma_scan_has_fresh(cands: Seq<u32>, held: Map<u32, UeContext>, keys: Seq<u32>)
    requires
        keys.to_set() == held.dom(),
        keys.no_duplicates(),
        keys.len() == held.dom().len(),
        keys.len() < 0xffff_ffff,
        cands == scan_candidates(keys.len() as nat),
    ensures
        exists|j: int| 0 <= j < cands.len() && cands[j] != 0 && !held.contains_key(cands[j]),
{
    assert(cands.no_duplicates()) by {
        assert forall|a: int, b: int| 0 <= a < cands.len() && 0 <= b < cands.len() && a != b
            implies cands[a] != cands[b] by {}
    }
    cands.unique_seq_to_set();
    if forall|j: int| 0 <= j < cands.len() ==> held.contains_key(cands[j]) {
        assert(cands.to_set().subset_of(held.dom())) by {
            assert forall|x: u32| cands.to_set().contains(x) implies held.dom().contains(x) by {
                let j = choose|j: int| 0 <= j < cands.len() && cands[j] == x;
            }
        }
        vstd::seq_lib::seq_to_set_is_finite(keys);
        vstd::set_lib::lemma_len_subset(cands.to_set(), keys.to_set());
        assert(false);
    }
    let j = choose|j: int| 0 <= j < cands.len() && !held.contains_key(cands[j]);
    assert(cands[j] != 0);
}

/// A candidate that `first_fresh` picks is non-zero and not held.
pub proof fn lemma_first_fresh_is_fresh(candidates: Seq<u32>, held: Map<u32, UeContext>)
    ensures
        first_fresh(candidates, held) matches Some(id) ==> id != 0 && !held.contains_key(id),
    decreases candidates.len(),
{
    if candidates.len() > 0 {
        lemma_first_fresh_is_fresh(candidates.drop_first(), held);
    }
}

/// The live UEs.
pub struct UeRegistry {
    pub ue_tasks: DashMap<u32, UeContext>,
}

/// How many random draws an id allocation makes before it scans for a free id.
pub const ID_ALLOCATION_ATTEMPTS: usize = 16;

impl UeRegistry {
    pub open spec fn view(&self) -> Map<u32, UeContext> {
        registry_contents(self.ue_tasks)
    }

    /// No UE has id zero, and each UE is filed under its own id.
    pub open spec fn wf(&self) -> bool {
        &&& !self@.contains_key(0)
        &&& forall|id: u32| #[trigger] self@.contains_key(id) ==> self@[id].key == id && self@[id].wf()
    }

    /// A registry with no UEs.
    pub fn new() -> (r: UeRegistry)
        ensures
            r.wf(),
            r@ == Map::<u32, UeContext>::empty(),
    {
        let r = UeRegistry { ue_tasks: map_new() };
        assert(r@ =~= Map::<u32, UeContext>::empty());
        r
    }

    /// Whether a UE holds this id.
    pub fn contains(&self, ue_id: u32) -> (r: bool)
        ensures
            r == self@.contains_key(ue_id),
    {
        map_contains_key(&self.ue_tasks, ue_id)
    }

    /// File `ue` under its id, unless the id is zero or already held.
    pub fn try_insert(&mut self, ue: UeContext) -> (r: bool)
        requires
            old(self).wf(),
            ue.wf(),
        ensures
            final(self).wf(),
            r == (ue.key != 0 && !old(self)@.contains_key(ue.key)),
            r ==> final(self)@ == old(self)@.insert(ue.key, ue),
            !r ==> final(self)@ == old(self)@,
    {
        if ue.key == 0 || map_contains_key(&self.ue_tasks, ue.key) {
            return false;
        }
        map_insert(&mut self.ue_tasks, ue.key, ue);
        true
    }

    /// The first candidate that is non-zero and held by no UE.
    pub fn first_fresh_id(&self, candidates: &[u32]) -> (r: Option<u32>)
        ensures
            r == first_fresh(candidates@, self@),
    {
        let mut i: usize = 0;
        assert(candidates@.subrange(0, candidates@.len() as int) =~= candidates@);
        while i < candidates.len()
            invariant
                i <= candidates@.len(),
                first_fresh(candidates@, self@) == first_fresh(candidates@.subrange(i as int, candidates@.len() as int), self@),
            decreases candidates@.len() - i,
        {
            let ghost rest = candidates@.subrange(i as int, candidates@.len() as int);
            assert(rest.drop_first() =~= candidates@.subrange(i + 1, candidates@.len() as int));
            let c = candidates[i];
            if c != 0 && !map_contains_key(&self.ue_tasks, c) {
                return Some(c);
            }
            i += 1;
        }
        None
    }

    /// Draw random ids, re-drawing on a collision up to a fixed number of
    /// draws, and take the first that is non-zero and held by no UE. Should
    /// every draw collide, the ids 1 to n + 1 (n the number of live UEs) are
    /// tried in turn, and one of them is free.
    pub fn allocate_ue_id(&self) -> (r: Option<u32>)
        ensures
            exists|draws: Seq<u32>| draws.len() == ID_ALLOCATION_ATTEMPTS
                && r == first_fresh(draws + scan_candidates(self@.dom().len()), self@),
            r matches Some(id) ==> id != 0 && !self@.contains_key(id),
            self@.dom().len() < 0xffff_ffff ==> r is Some,
    {
        let mut draws: Vec<u32> = Vec::new();
        let mut attempt: usize = 0;
        while attempt < ID_ALLOCATION_ATTEMPTS
            invariant
                attempt <= ID_ALLOCATION_ATTEMPTS,
                draws@.len() == attempt,
            decreases ID_ALLOCATION_ATTEMPTS - attempt,
        {
            let ue_id: u32 = rand::random();
            draws.push(ue_id);
            attempt += 1;
        }
        let ghost drawn = draws@;
        let ids = self.ue_ids();
        proof {
            ids@.unique_seq_to_set();
        }
        let n = ids.len();
        let mut all = draws;
        if n < 0xffff_ffff {
            let mut k: u64 = 1;
            while k <= n as u64 + 1
                invariant
                    1 <= k <= n + 2,
                    n < 0xffff_ffff,
                    all@ == drawn + Seq::new((k - 1) as nat, |i: int| (i + 1) as u32),
                decreases n + 2 - k,
            {
                all.push(k as u32);
                assert(all@ =~= drawn + Seq::new(k as nat, |i: int| (i + 1) as u32));
                k += 1;
            }
        }
        assert(all@ =~= drawn + scan_candidates(self@.dom().len())) by {
            if n >= 0xffff_ffff {
                assert(scan_candidates(self@.dom().len()) =~= Seq::<u32>::empty());
            }
        }
        let r = self.first_fresh_id(all.as_slice());
        proof {
            lemma_first_fresh_is_fresh(all@, self@);
            if n < 0xffff_ffff {
                let cands = scan_candidates(self@.dom().len());
                lemma_scan_has_fresh(cands, self@, ids@);
                let j = choose|j: int| 0 <= j < cands.len() && cands[j] != 0 && !self@.contains_key(cands[j]);
                lemma_first_fresh_finds(all@, self@, drawn.len() + j);
            }
        }
        r
    }

    /// Take a UE out of the registry, so that it can no longer be reached.
    pub fn remove(&mut self, ue_id: u32) -> (r: Option<UeContext>)
        requires
            old(self).wf(),
        ensures
            final(self).wf(),
            final(self)@ == old(self)@.remove(ue_id),
            match r {
                Some(ue) => old(self)@.contains_key(ue_id) && ue == old(self)@[ue_id] && ue.key == ue_id && ue.wf(),
                None => !old(self)@.contains_key(ue_id),
            },
    {
        map_remove(&mut self.ue_tasks, ue_id)
    }

    /// The ids of all live UEs.
    pub fn ue_ids(&self) -> (r: Vec<u32>)
        ensures
            r@.to_set() == self@.dom(),
            r@.no_duplicates(),
    {
        map_keys(&self.ue_tasks)
    }
}

/// No two live UEs share a CU-F1AP id: a UE is filed under its own id, so two
/// entries whose UEs have the same id are the same entry.
pub proof fn lemma_ue_ids_unique(reg: UeRegistry, a: u32, b: u32)
    requires
        reg.wf(),
        reg@.contains_key(a),
        reg@.contains_key(b),
        a != b,
    ensures
        reg@[a].key != reg@[b].key,
        reg@[a].key != 0,
{
}

} // verus!

//! The record store: one record per identifier, created once, then changed
//! only by the transitions of the engine.
use vstd::prelude::*;
use crate::record::{apply, step, EmployeeData, ErrorCode, Transition};

verus! {

/// What `initialize` is given: the identifier (seed) that addresses the new record.
pub struct PdeascAccount {
    pub seed: Vec<u8>,
}

/// A handle to a record of a store: the identifier it was created under.
pub struct EmployeeAccount {
    pub seed: Vec<u8>,
}

/// `initialize` was given an identifier that already addresses a record.
#[derive(PartialEq, Eq, Structural, Clone, Copy, Debug)]
pub struct AlreadyExists;

/// Records keyed by their identifiers, an identifier being any byte sequence.
pub struct RecordStore {
    seeds: Vec<Vec<u8>>,
    records: Vec<EmployeeData>,
}

/// Whether `a` and `b` hold the same bytes.
fn same_bytes(a: &Vec<u8>, b: &Vec<u8>) -> (r: bool)
    ensures
        r == (a@ == b@),
{
    if a.len() != b.len() {
        return false;
    }
    let mut i: usize = 0;
    while i < a.len()
        invariant
            a@.len() == b@.len(),
            0 <= i <= a@.len(),
            forall|j: int| 0 <= j < i ==> a@[j] == b@[j],
        decreases a@.len() - i,
    {
        if a[i] != b[i] {
            return false;
        }
        i = i + 1;
    }
    assert(a@ =~= b@);
    true
}

/// A copy of the bytes of `v`.
fn copy_bytes(v: &Vec<u8>) -> (r: Vec<u8>)
    ensures
        r@ == v@,
{
    let mut r: Vec<u8> = Vec::new();
    let mut i: usize = 0;
    while i < v.len()
        invariant
            0 <= i <= v@.len(),
            r@ == v@.subrange(0, i as int),
        decreases v@.len() - i,
    {
        r.push(v[i]);
        i = i + 1;
        assert(r@ =~= v@.subrange(0, i as int));
    }
    assert(v@.subrange(0, v@.len() as int) =~= v@);
    r
}

impl View for RecordStore {
    type V = Map<Seq<u8>, EmployeeData>;

    /// Each identifier of the store mapped to its record.
    closed spec fn view(&self) -> Map<Seq<u8>, EmployeeData> {
        Map::new(
            |k: Seq<u8>| self.seed_seq().contains(k),
            |k: Seq<u8>| self.records@[self.seed_seq().index_of(k)],
        )
    }
}

impl RecordStore {
    /// The identifiers, in order of creation.
    pub closed spec fn seed_seq(&self) -> Seq<Seq<u8>> {
        Seq::new(self.seeds@.len(), |i: int| self.seeds@[i]@)
    }

    /// One record for each identifier, and no identifier twice.
    pub closed spec fn wf(&self) -> bool {
        &&& self.seeds@.len() == self.records@.len()
        &&& self.seed_seq().no_duplicates()
    }

    /// An empty store.
    pub fn new() -> (r: RecordStore)
        ensures
            r.wf(),
            r@ == Map::<Seq<u8>, EmployeeData>::empty(),
    {
        let r = RecordStore { seeds: Vec::new(), records: Vec::new() };
        assert(r@ =~= Map::<Seq<u8>, EmployeeData>::empty());
        r
    }

    /// The position of `seed` among the identifiers, if it is there.
    fn find(&self, seed: &Vec<u8>) -> (r: Option<usize>)
        requires
            self.wf(),
        ensures
            match r {
                Some(i) => i < self.seeds@.len() && self.seed_seq()[i as int] == seed@,
                None => !self.seed_seq().contains(seed@),
            },
    {
        let mut i: usize = 0;
        while i < self.seeds.len()
            invariant
                0 <= i <= self.seeds@.len(),
                forall|j: int| 0 <= j < i ==> self.seed_seq()[j] != seed@,
            decreases self.seeds@.len() - i,
        {
            if same_bytes(&self.seeds[i], seed) {
                return Some(i);
            }
            i = i + 1;
        }
        None
    }

    /// Whether a record exists for `seed`.
    pub fn contains(&self, seed: &Vec<u8>) -> (r: bool)
        requires
            self.wf(),
        ensures
            r == self@.contains_key(seed@),
    {
        self.find(seed).is_some()
    }

    /// The record that `account` addresses, if the store holds one.
    pub fn get(&self, account: &EmployeeAccount) -> (r: Option<EmployeeData>)
        requires
            self.wf(),
        ensures
            r == (if self@.contains_key(account.seed@) {
                Some(self@[account.seed@])
            } else {
                None::<EmployeeData>
            }),
    {
        match self.find(&account.seed) {
            Some(i) => {
                proof { self.lemma_index_of(i as int); }
                Some(self.records[i])
            },
            None => None,
        }
    }

    /// The identifier at position `i` is found at position `i`.
    proof fn lemma_index_of(&self, i: int)
        requires
            self.wf(),
            0 <= i < self.seeds@.len(),
        ensures
            self.seed_seq().contains(self.seed_seq()[i]),
            self.seed_seq().index_of(self.seed_seq()[i]) == i,
    {
        let s = self.seed_seq();
        assert(s.contains(s[i]));
    }

    /// Creates the record addressed by `ctx.seed`, inactive with every
    /// timestamp zero, and returns its handle; fails with `AlreadyExists`,
    /// changing nothing, where that identifier already has a record.
    pub fn initialize(&mut self, ctx: &PdeascAccount) -> (r: Result<EmployeeAccount, AlreadyExists>)
        requires
            old(self).wf(),
        ensures
            final(self).wf(),
            old(self)@.contains_key(ctx.seed@) ==> r == Err::<EmployeeAccount, AlreadyExists>(AlreadyExists)
                && final(self)@ == old(self)@,
            !old(self)@.contains_key(ctx.seed@) ==> r is Ok && r->Ok_0.seed@ == ctx.seed@
                && final(self)@ == old(self)@.insert(ctx.seed@, final(self)@[ctx.seed@])
                && final(self)@[ctx.seed@].is_initial(),
    {
        if self.find(&ctx.seed).is_some() {
            return Err(AlreadyExists);
        }
        let ghost before = self.seed_seq();
        let fresh = EmployeeData::new();
        self.seeds.push(copy_bytes(&ctx.seed));
        self.records.push(fresh);
        let ghost n = before.len() as int;
        assert(self.seed_seq() =~= before.push(ctx.seed@));
        proof {
            self.lemma_index_of(n);
            assert forall|k: Seq<u8>| #[trigger] before.contains(k) implies self.seed_seq().contains(k)
                && self.seed_seq().index_of(k) == before.index_of(k) && self@[k] == old(self)@[k] by {
                let j = before.index_of(k);
                assert(self.seed_seq()[j] == k);
                self.lemma_index_of(j);
            }
            assert forall|k: Seq<u8>| #[trigger] self.seed_seq().contains(k) implies before.contains(k)
                || k == ctx.seed@ by {
                let j = self.seed_seq().index_of(k);
                if j < n {
                    assert(before[j] == k);
                }
            }
        }
        assert(self@ =~= old(self)@.insert(ctx.seed@, fresh));
        Ok(EmployeeAccount { seed: copy_bytes(&ctx.seed) })
    }

    /// Performs transition `t` at time `now` on the record that `account`
    /// addresses, with the outcome that `step` gives; the other records stay
    /// as they were.
    pub fn transition(&mut self, account: &EmployeeAccount, t: Transition, now: u64) -> (r: Result<(), ErrorCode>)
        requires
            old(self).wf(),
            old(self)@.contains_key(account.seed@),
        ensures
            final(self).wf(),
            match step(old(self)@[account.seed@], t, now) {
                Ok(next) => r == Ok::<(), ErrorCode>(()) && final(self)@ == old(self)@.insert(account.seed@, next),
                Err(e) => r == Err::<(), ErrorCode>(e) && final(self)@ == old(self)@,
            },
    {
        let i = match self.find(&account.seed) {
            Some(i) => i,
            None => {
                // not reached: `requires` puts the identifier in the store
                return Err(ErrorCode::NotClockedIn);
            },
        };
        proof { self.lemma_index_of(i as int); }
        let mut data = self.records[i];
        let r = apply(&mut data, t, now);
        self.records.set(i, data);
        proof { self.lemma_index_of(i as int); }
        assert(self.seed_seq() =~= old(self).seed_seq());
        assert(self@ =~= old(self)@.insert(account.seed@, data));
        r
    }
}

} // verus!

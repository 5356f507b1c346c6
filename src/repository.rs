//! The transaction repository: an in-memory store with the repository's
//! semantics, and the statements a relational store runs for a batch.
use vstd::prelude::*;
use crate::chain::Chain;
use crate::primitives::{RequestId, TxHash, hex_text, uuid_text};
use crate::request::{Request, RequestUpdate, TxIntent, same_request};

verus! {

/// No two records share an id.
pub open spec fn ids_unique(s: Seq<Request>) -> bool {
    forall|i: int, j: int| 0 <= i < j < s.len() ==> s[i].id != s[j].id
}

/// Whether some record has the id.
pub open spec fn has_id(s: Seq<Request>, id: RequestId) -> bool {
    exists|i: int| 0 <= i < s.len() && (#[trigger] s[i]).id == id
}

/// The record with the id, searching from the most recent.
pub open spec fn lookup(s: Seq<Request>, id: RequestId) -> Option<Request>
    decreases s.len(),
{
    if s.len() == 0 {
        None
    } else if s.last().id == id {
        Some(s.last())
    } else {
        lookup(s.drop_last(), id)
    }
}

/// What `status` reports for the id: whether it is mined, and its current hash.
pub open spec fn status_of(s: Seq<Request>, id: RequestId) -> Option<(bool, TxHash)> {
    match lookup(s, id) {
        Some(r) => Some((r.mined, r.hash)),
        None => None,
    }
}

/// In a store with unique ids, the record at any index is what `lookup`
/// finds for its id, and `lookup` finds nothing for an absent id.
pub proof fn lemma_lookup(s: Seq<Request>, id: RequestId)
    requires
        ids_unique(s),
    ensures
        !has_id(s, id) <==> lookup(s, id) is None,
        forall|k: int| 0 <= k < s.len() && s[k].id == id ==> lookup(s, id) == Some(#[trigger] s[k]),
    decreases s.len(),
{
    if s.len() > 0 {
        let t = s.drop_last();
        assert(ids_unique(t));
        lemma_lookup(t, id);
        if s.last().id != id {
            assert forall|k: int| 0 <= k < t.len() && t[k].id == id implies s[k] == t[k] by {}
            if has_id(s, id) {
                let k = choose|k: int| 0 <= k < s.len() && (#[trigger] s[k]).id == id;
                assert(t[k].id == id);
            }
            if has_id(t, id) {
                let k = choose|k: int| 0 <= k < t.len() && (#[trigger] t[k]).id == id;
                assert(s[k].id == id);
            }
        } else {
            assert(s[s.len() - 1].id == id);
            assert forall|k: int| 0 <= k < s.len() && s[k].id == id implies k == s.len() - 1 by {
                if k < s.len() - 1 {
                    assert(s[k].id != s[s.len() - 1].id);
                }
            }
        }
    }
}

/// The records that are not mined and belong to `chain`, in store order.
pub open spec fn pending_of(s: Seq<Request>, chain: Chain) -> Seq<Request>
    decreases s.len(),
{
    if s.len() == 0 {
        Seq::empty()
    } else {
        let rest = pending_of(s.drop_last(), chain);
        if !s.last().mined && s.last().chain == chain {
            rest.push(s.last())
        } else {
            rest
        }
    }
}

/// The pending records of a chain in a store with unique ids are records
/// of that chain that are not mined, each found under its own id, and no
/// two share an id: a batch with one update for each of them meets the
/// conditions of `lemma_status_never_reverts`.
pub proof fn lemma_pending_of(s: Seq<Request>, chain: Chain)
    requires
        ids_unique(s),
    ensures
        ({
            let p = pending_of(s, chain);
            &&& forall|i: int| 0 <= i < p.len() ==> !(#[trigger] p[i]).mined && p[i].chain == chain
            &&& forall|i: int| 0 <= i < p.len() ==> lookup(s, (#[trigger] p[i]).id) == Some(p[i])
            &&& forall|i: int, j: int| 0 <= i < j < p.len() ==> p[i].id != p[j].id
            &&& forall|i: int| 0 <= i < p.len() ==> has_id(s, (#[trigger] p[i]).id)
        }),
    decreases s.len(),
{
    if s.len() > 0 {
        let t = s.drop_last();
        assert(ids_unique(t));
        lemma_pending_of(t, chain);
        let q = pending_of(t, chain);
        let x = s.last();
        assert forall|i: int| 0 <= i < q.len() implies lookup(s, (#[trigger] q[i]).id) == Some(q[i])
            && q[i].id != x.id && has_id(s, q[i].id) by {
            let k = choose|k: int| 0 <= k < t.len() && (#[trigger] t[k]).id == q[i].id;
            assert(s[k] == t[k]);
            assert(s[k].id != s[s.len() - 1].id);
        }
        if !x.mined && x.chain == chain {
            let p = q.push(x);
            assert(p[p.len() - 1] == x);
            assert(lookup(s, x.id) == Some(x));
            assert(s[s.len() - 1] == x);
            assert forall|i: int| 0 <= i < p.len() implies has_id(s, (#[trigger] p[i]).id) by {
                if i == p.len() - 1 {
                    assert(s[s.len() - 1].id == p[i].id);
                }
            }
        }
    }
}

/// A record after one update: `mined` and `hash` written, and the request
/// replaced where the update carries one.
pub open spec fn updated(r: Request, u: RequestUpdate) -> Request {
    Request {
        mined: u.mined,
        hash: u.hash,
        tx: match u.tx {
            Some(t) => t,
            None => r.tx,
        },
        ..r
    }
}

/// The store after one update; an id that no record has changes nothing.
pub open spec fn apply_update(s: Seq<Request>, u: RequestUpdate) -> Seq<Request> {
    Seq::new(s.len(), |i: int| if s[i].id == u.id { updated(s[i], u) } else { s[i] })
}

/// The store after a batch of updates, applied in order.
pub open spec fn apply_updates(s: Seq<Request>, us: Seq<RequestUpdate>) -> Seq<Request>
    decreases us.len(),
{
    if us.len() == 0 {
        s
    } else {
        apply_update(apply_updates(s, us.drop_last()), us.last())
    }
}

/// Why a repository operation failed.
#[derive(Clone, Copy, Debug, PartialEq, Eq, Structural)]
pub enum RepositoryError {
    /// A record with the id already exists.
    Conflict,
}

/// The repository held in memory.
#[derive(Debug)]
pub struct MemoryRepository {
    records: Vec<Request>,
}

impl View for MemoryRepository {
    type V = Seq<Request>;

    closed spec fn view(&self) -> Seq<Request> {
        self.records@
    }
}

impl MemoryRepository {
    pub open spec fn wf(&self) -> bool {
        ids_unique(self@)
    }

    /// An empty repository.
    pub fn new() -> (r: MemoryRepository)
        ensures
            r.wf(),
            r@ == Seq::<Request>::empty(),
    {
        MemoryRepository { records: Vec::new() }
    }

    /// The number of records held.
    pub fn len(&self) -> (r: usize)
        ensures
            r == self@.len(),
    {
        self.records.len()
    }

    fn find(&self, id: RequestId) -> (r: Option<usize>)
        ensures
            r matches Some(k) ==> k < self@.len() && self@[k as int].id == id,
            r is None <==> !has_id(self@, id),
    {
        let mut k: usize = 0;
        while k < self.records.len()
            invariant
                k <= self.records@.len(),
                self@ == self.records@,
                forall|j: int| 0 <= j < k ==> self.records@[j].id != id,
            decreases self.records@.len() - k,
        {
            if self.records[k].id == id {
                return Some(k);
            }
            k = k + 1;
        }
        None
    }

    /// Inserts a new record; fails with `Conflict`, changing nothing, where
    /// a record with the id exists.
    pub fn save(
        &mut self,
        id: RequestId,
        hash: TxHash,
        tx: TxIntent,
        mined: bool,
        chain: Chain,
    ) -> (r: Result<(), RepositoryError>)
        requires
            old(self).wf(),
        ensures
            final(self).wf(),
            has_id(old(self)@, id) ==> r == Err::<(), RepositoryError>(RepositoryError::Conflict)
                && final(self)@ == old(self)@,
            !has_id(old(self)@, id) ==> r is Ok && final(self)@ == old(self)@.push(
                Request { id, tx, hash, mined, chain },
            ),
    {
        match self.find(id) {
            Some(_) => Err(RepositoryError::Conflict),
            None => {
                self.records.push(Request { id, tx, hash, mined, chain });
                proof {
                    assert(self@ == self.records@);
                }
                Ok(())
            },
        }
    }

    /// A copy of the record with the id, if there is one.
    pub fn get(&self, id: RequestId) -> (r: Option<Request>)
        requires
            self.wf(),
        ensures
            r is None <==> lookup(self@, id) is None,
            r matches Some(q) ==> same_request(q, lookup(self@, id)->0),
    {
        proof {
            lemma_lookup(self@, id);
        }
        match self.find(id) {
            Some(k) => Some(self.records[k].duplicate()),
            None => None,
        }
    }

    /// Whether the record with the id is mined, and its current hash; no
    /// RPC is involved.
    pub fn status(&self, id: RequestId) -> (r: Option<(bool, TxHash)>)
        requires
            self.wf(),
        ensures
            r == status_of(self@, id),
    {
        proof {
            lemma_lookup(self@, id);
        }
        match self.find(id) {
            Some(k) => Some((self.records[k].mined, self.records[k].hash)),
            None => None,
        }
    }

    /// Copies of the records of `chain` that are not mined, in store order.
    pub fn get_pending(&self, chain: Chain) -> (r: Vec<Request>)
        ensures
            r@.len() == pending_of(self@, chain).len(),
            forall|i: int| 0 <= i < r@.len() ==> same_request(#[trigger] r@[i], pending_of(self@, chain)[i]),
    {
        let mut out: Vec<Request> = Vec::new();
        let mut k: usize = 0;
        while k < self.records.len()
            invariant
                k <= self.records@.len(),
                self@ == self.records@,
                out@.len() == pending_of(self@.subrange(0, k as int), chain).len(),
                forall|i: int|
                    0 <= i < out@.len() ==> same_request(
                        #[trigger] out@[i],
                        pending_of(self@.subrange(0, k as int), chain)[i],
                    ),
            decreases self.records@.len() - k,
        {
            let ghost before = out@;
            assert(self@.subrange(0, k + 1).drop_last() =~= self@.subrange(0, k as int));
            assert(self@.subrange(0, k + 1).last() == self@[k as int]);
            let rec = &self.records[k];
            if !rec.mined && rec.chain == chain {
                out.push(rec.duplicate());
                assert(forall|i: int| 0 <= i < before.len() ==> out@[i] == before[i]);
            }
            k = k + 1;
        }
        assert(self@.subrange(0, self@.len() as int) =~= self@);
        out
    }

    /// Applies a batch of updates, in order; an update whose id no record
    /// has changes nothing.
    pub fn update_many(&mut self, updates: Vec<RequestUpdate>)
        requires
            old(self).wf(),
        ensures
            final(self).wf(),
            final(self)@ == apply_updates(old(self)@, updates@),
    {
        let ghost start = self@;
        let ghost all = updates@;
        let mut queue = updates;
        let n = queue.len();
        let mut i: usize = 0;
        while i < n
            invariant
                self.wf(),
                all == updates@,
                n == all.len(),
                i <= n,
                queue@ == all.subrange(i as int, n as int),
                self@ == apply_updates(start, all.subrange(0, i as int)),
            decreases n - i,
        {
            let u = queue.remove(0);
            assert(all.subrange(0, i + 1).drop_last() =~= all.subrange(0, i as int));
            assert(all.subrange(0, i + 1).last() == all[i as int]);
            self.apply_one(u);
            i = i + 1;
            proof {
                assert(queue@ =~= all.subrange(i as int, n as int));
            }
        }
        assert(all.subrange(0, n as int) =~= all);
    }

    fn apply_one(&mut self, u: RequestUpdate)
        requires
            old(self).wf(),
        ensures
            final(self).wf(),
            final(self)@ == apply_update(old(self)@, u),
    {
        let ghost prev = self@;
        match self.find(u.id) {
            None => {
                assert(self@ =~= apply_update(prev, u));
            },
            Some(k) => {
                let mut rec = self.records.remove(k);
                rec.mined = u.mined;
                rec.hash = u.hash;
                match u.tx {
                    Some(t) => {
                        rec.tx = t;
                    },
                    None => {},
                }
                self.records.insert(k, rec);
                proof {
                    assert(self@ == self.records@);
                    assert forall|i: int| 0 <= i < prev.len() && i != k implies prev[i].id != u.id by {
                        if i < k {
                            assert(prev[i].id != prev[k as int].id);
                        } else {
                            assert(prev[k as int].id != prev[i].id);
                        }
                    }
                    assert(self@ =~= apply_update(prev, u));
                }
            },
        }
    }
}

/// Right after a request is saved under a fresh id as not mined with hash
/// `h`, its status reads `(false, h)`.
pub proof fn lemma_status_after_submit(before: Seq<Request>, req: Request)
    requires
        ids_unique(before),
        !has_id(before, req.id),
        !req.mined,
    ensures
        status_of(before.push(req), req.id) == Some((false, req.hash)),
{
    assert(before.push(req).last() == req);
}

/// A batch whose updates name distinct records that are not mined keeps
/// every mined record exactly as it was, and sets no record from mined back
/// to not mined; ids and order of the records stay.
pub proof fn lemma_status_never_reverts(before: Seq<Request>, updates: Seq<RequestUpdate>)
    requires
        ids_unique(before),
        forall|k: int| 0 <= k < updates.len() ==> (lookup(before, #[trigger] updates[k].id) matches Some(r) && !r.mined),
        forall|k: int, l: int| 0 <= k < l < updates.len() ==> updates[k].id != updates[l].id,
    ensures
        ({
            let after = apply_updates(before, updates);
            &&& after.len() == before.len()
            &&& forall|i: int| 0 <= i < before.len() ==> (#[trigger] after[i]).id == before[i].id
            &&& forall|i: int| 0 <= i < before.len() && before[i].mined ==> #[trigger] after[i] == before[i]
        }),
    decreases updates.len(),
{
    if updates.len() > 0 {
        let init = updates.drop_last();
        lemma_status_never_reverts(before, init);
        let mid = apply_updates(before, init);
        let u = updates.last();
        lemma_lookup(before, u.id);
        assert(lookup(before, updates[updates.len() - 1].id) matches Some(r) && !r.mined);
        assert forall|i: int| 0 <= i < before.len() && before[i].mined implies #[trigger] apply_update(mid, u)[i]
            == before[i] by {
            if before[i].id == u.id {
                assert(lookup(before, u.id) == Some(before[i]));
            }
        }
    }
}

/// A statement of the relational store, with its parameters in stored form.
#[derive(Debug)]
pub enum Statement {
    Begin,
    /// Sets `hash` and `mined`, and `tx` where given, of the row `id`.
    UpdateRequest { id: String, hash: String, mined: bool, tx: Option<TxIntent> },
    Commit,
}

/// The statements that apply a batch of updates atomically: none for an
/// empty batch; otherwise one transaction holding one update per element.
pub fn update_statements(updates: Vec<RequestUpdate>) -> (r: Vec<Statement>)
    ensures
        updates@.len() == 0 ==> r@.len() == 0,
        updates@.len() > 0 ==> {
            &&& r@.len() == updates@.len() + 2
            &&& r@[0] is Begin
            &&& r@.last() is Commit
            &&& forall|i: int|
                0 <= i < updates@.len() ==> match #[trigger] r@[i + 1] {
                    Statement::UpdateRequest { id, hash, mined, tx } => {
                        &&& id@ == uuid_text(updates@[i].id.value)
                        &&& hash@ == hex_text(updates@[i].hash.bytes@)
                        &&& mined == updates@[i].mined
                        &&& tx == updates@[i].tx
                    },
                    _ => false,
                }
        },
{
    let mut out: Vec<Statement> = Vec::new();
    if updates.len() == 0 {
        return out;
    }
    let ghost all = updates@;
    let mut queue = updates;
    let n = queue.len();
    out.push(Statement::Begin);
    let mut i: usize = 0;
    while i < n
        invariant
            all == updates@,
            n == all.len(),
            n > 0,
            i <= n,
            queue@ == all.subrange(i as int, n as int),
            out@.len() == i + 1,
            out@[0] is Begin,
            forall|j: int|
                0 <= j < i ==> match #[trigger] out@[j + 1] {
                    Statement::UpdateRequest { id, hash, mined, tx } => {
                        &&& id@ == uuid_text(all[j].id.value)
                        &&& hash@ == hex_text(all[j].hash.bytes@)
                        &&& mined == all[j].mined
                        &&& tx == all[j].tx
                    },
                    _ => false,
                },
        decreases n - i,
    {
        let u = queue.remove(0);
        let st = Statement::UpdateRequest {
            id: u.id.to_text(),
            hash: u.hash.to_text(),
            mined: u.mined,
            tx: u.tx,
        };
        out.push(st);
        i = i + 1;
        proof {
            assert(queue@ =~= all.subrange(i as int, n as int));
        }
    }
    out.push(Statement::Commit);
    out
}

} // verus!

//! The per-chain monitor's decisions. The host runs the loop: on each new
//! block it records the block, fetches the block's transaction hashes, a fee
//! estimate and the chain's pending requests, asks for a plan, performs each
//! re-broadcast the plan calls for, resolves its outcome here, and writes the
//! resulting updates back in one batch.
use vstd::prelude::*;
use crate::chain::Chain;
use crate::fees::{bump_transaction, bumpable, bumped_tx, tx_bump_fits};
use crate::primitives::{RequestId, TxHash};
use crate::request::{Request, RequestUpdate, TxIntent, with_fees};

verus! {

/// Whether `pat` occurs in `s` as a contiguous run.
pub open spec fn has_substring(s: Seq<char>, pat: Seq<char>) -> bool {
    exists|i: int| 0 <= i && i + pat.len() <= s.len() && #[trigger] s.subrange(i, i + pat.len()) == pat
}

/// Relies on `str::contains`: whether `pat` occurs in `s`.
#[verifier::external_body]
fn str_contains(s: &str, pat: &str) -> (r: bool)
    ensures
        r == has_substring(s@, pat@),
{
    s.contains(pat)
}

/// Whether a rejected broadcast says that the nonce was already used, that
/// is, that an earlier request with the same nonce has been included.
pub open spec fn nonce_too_low(message: Seq<char>) -> bool {
    has_substring(message, "nonce too low"@)
}

/// Whether a block whose transactions have the given hashes includes `h`.
pub open spec fn block_includes(hashes: Seq<TxHash>, h: TxHash) -> bool {
    exists|i: int| 0 <= i < hashes.len() && (#[trigger] hashes[i]).bytes@ == h.bytes@
}

/// What a tick does with one pending request.
#[derive(Debug)]
pub enum TickStep {
    /// The request was seen in the block: record it as mined.
    Mined(RequestUpdate),
    /// Not included, and escalation is not due at this block.
    Wait(RequestId),
    /// Broadcast `tx`, the bumped replacement of the request whose current hash is `hash`.
    Rebroadcast { id: RequestId, hash: TxHash, tx: TxIntent },
}

/// Why a tick was abandoned. Nothing of an abandoned tick is written; the
/// next block starts afresh.
#[derive(Debug)]
pub enum TickError {
    /// The stored fees of the request, or the estimate, have `max_fee < max_priority_fee`.
    InvalidFees(RequestId),
    /// The bumped fees of the request do not fit in 128 bits.
    FeeOverflow(RequestId),
    /// A re-broadcast failed for another reason than a used nonce.
    Broadcast(String),
}

/// The result of broadcasting a replacement.
#[derive(Debug)]
pub enum BroadcastOutcome {
    /// Accepted, under this hash.
    Sent(TxHash),
    /// Rejected, with the provider's message.
    Rejected(String),
}

/// The decision state of the monitor of one chain.
#[derive(Clone, Copy, Debug)]
pub struct ChainMonitor {
    pub chain: Chain,
    /// Escalation is considered on every `block_frequency`-th block.
    pub block_frequency: u8,
    /// Blocks seen since the monitor started.
    pub block_count: u64,
}

impl ChainMonitor {
    pub open spec fn wf(&self) -> bool {
        self.block_frequency > 0
    }

    /// Whether the current block is one on which re-broadcasts happen.
    pub open spec fn escalation_due(&self) -> bool {
        self.block_count % (self.block_frequency as u64) == 0
    }

    /// What a tick does with `req`.
    pub open spec fn step_for(
        &self,
        hashes: Seq<TxHash>,
        req: Request,
        estimate_max_fee: u128,
        estimate_max_priority_fee: u128,
    ) -> Result<TickStep, TickError> {
        if block_includes(hashes, req.hash) {
            Ok(TickStep::Mined(RequestUpdate { id: req.id, mined: true, hash: req.hash, tx: None }))
        } else if !self.escalation_due() {
            Ok(TickStep::Wait(req.id))
        } else if !bumpable(req.tx, estimate_max_fee, estimate_max_priority_fee) {
            Err(TickError::InvalidFees(req.id))
        } else if !tx_bump_fits(req.tx, estimate_max_fee, estimate_max_priority_fee) {
            Err(TickError::FeeOverflow(req.id))
        } else {
            Ok(
                TickStep::Rebroadcast {
                    id: req.id,
                    hash: req.hash,
                    tx: bumped_tx(req.tx, estimate_max_fee, estimate_max_priority_fee),
                },
            )
        }
    }

    /// The steps of a tick over `pending`, in order, or the first error.
    pub open spec fn plan(
        &self,
        hashes: Seq<TxHash>,
        pending: Seq<Request>,
        estimate_max_fee: u128,
        estimate_max_priority_fee: u128,
    ) -> Result<Seq<TickStep>, TickError>
        decreases pending.len(),
    {
        if pending.len() == 0 {
            Ok(Seq::empty())
        } else {
            match self.plan(hashes, pending.drop_last(), estimate_max_fee, estimate_max_priority_fee) {
                Err(e) => Err(e),
                Ok(steps) => match self.step_for(
                    hashes,
                    pending.last(),
                    estimate_max_fee,
                    estimate_max_priority_fee,
                ) {
                    Err(e) => Err(e),
                    Ok(s) => Ok(steps.push(s)),
                },
            }
        }
    }

    /// A monitor of `chain` that has seen no block yet.
    pub open spec fn new_spec(chain: Chain, block_frequency: u8) -> ChainMonitor {
        ChainMonitor { chain, block_frequency, block_count: 0 }
    }

    /// A monitor that has seen no block yet.
    pub fn new(chain: Chain, block_frequency: u8) -> (r: ChainMonitor)
        requires
            block_frequency > 0,
        ensures
            r.wf(),
            r == ChainMonitor::new_spec(chain, block_frequency),
    {
        ChainMonitor { chain, block_frequency, block_count: 0 }
    }

    /// Counts a new block; returns whether re-broadcasts are due at it.
    pub fn record_block(&mut self) -> (due: bool)
        requires
            old(self).wf(),
        ensures
            final(self).wf(),
            final(self).chain == old(self).chain,
            final(self).block_frequency == old(self).block_frequency,
            final(self).block_count == if old(self).block_count == u64::MAX {
                0
            } else {
                (old(self).block_count + 1) as u64
            },
            due == final(self).escalation_due(),
    {
        if self.block_count == u64::MAX {
            self.block_count = 0;
        } else {
            self.block_count = self.block_count + 1;
        }
        self.block_count % (self.block_frequency as u64) == 0
    }

    /// The record of a transaction just broadcast under `hash` on this
    /// monitor's chain: a fresh id, not mined.
    pub fn new_request(&self, hash: TxHash, tx: TxIntent) -> (r: Request)
        ensures
            r.hash == hash,
            r.tx == tx,
            !r.mined,
            r.chain == self.chain,
    {
        Request { id: RequestId::new_v4(), tx, hash, mined: false, chain: self.chain }
    }

    /// Decides, for each pending request of this chain in order, what the
    /// tick at the current block does with it: a request whose hash is among
    /// the block's transactions is recorded as mined; otherwise, where
    /// escalation is due, its bumped replacement is to be broadcast; else it
    /// waits. Fails at the first request whose fees cannot be bumped.
    pub fn plan_tick(
        &self,
        block_tx_hashes: &Vec<TxHash>,
        pending: Vec<Request>,
        estimate_max_fee: u128,
        estimate_max_priority_fee: u128,
    ) -> (r: Result<Vec<TickStep>, TickError>)
        requires
            self.wf(),
        ensures
            match self.plan(block_tx_hashes@, pending@, estimate_max_fee, estimate_max_priority_fee) {
                Ok(steps) => r matches Ok(v) && v@ == steps,
                Err(e) => r matches Err(e2) && e2 == e,
            },
    {
        let ghost all = pending@;
        let mut queue = pending;
        let mut steps: Vec<TickStep> = Vec::new();
        let n = queue.len();
        let mut i: usize = 0;
        while i < n
            invariant
                self.wf(),
                all == pending@,
                n == all.len(),
                i <= n,
                queue@ == all.subrange(i as int, n as int),
                self.plan(block_tx_hashes@, all.subrange(0, i as int), estimate_max_fee, estimate_max_priority_fee)
                    == Ok::<Seq<TickStep>, TickError>(steps@),
            decreases n - i,
        {
            let req = queue.remove(0);
            assert(req == all[i as int]);
            assert(all.subrange(0, i + 1).drop_last() =~= all.subrange(0, i as int));
            assert(all.subrange(0, i + 1).last() == all[i as int]);
            let step = match self.step_tick(block_tx_hashes, req, estimate_max_fee, estimate_max_priority_fee) {
                Ok(step) => step,
                Err(e) => {
                    proof {
                        let next = all.subrange(0, i + 1);
                        assert(self.plan(block_tx_hashes@, next, estimate_max_fee, estimate_max_priority_fee)
                            == Err::<Seq<TickStep>, TickError>(e));
                        self.lemma_plan_err_extends(
                            block_tx_hashes@,
                            all,
                            (i + 1) as nat,
                            estimate_max_fee,
                            estimate_max_priority_fee,
                        );
                        assert(self.plan(block_tx_hashes@, all, estimate_max_fee, estimate_max_priority_fee)
                            == Err::<Seq<TickStep>, TickError>(e));
                    }
                    return Err(e);
                },
            };
            steps.push(step);
            i = i + 1;
            proof {
                assert(queue@ =~= all.subrange(i as int, n as int));
            }
        }
        assert(all.subrange(0, n as int) =~= all);
        Ok(steps)
    }

    fn step_tick(
        &self,
        block_tx_hashes: &Vec<TxHash>,
        req: Request,
        estimate_max_fee: u128,
        estimate_max_priority_fee: u128,
    ) -> (r: Result<TickStep, TickError>)
        requires
            self.wf(),
        ensures
            r == self.step_for(block_tx_hashes@, req, estimate_max_fee, estimate_max_priority_fee),
    {
        if block_contains(block_tx_hashes, &req.hash) {
            return Ok(TickStep::Mined(RequestUpdate { id: req.id, mined: true, hash: req.hash, tx: None }));
        }
        if self.block_count % (self.block_frequency as u64) != 0 {
            return Ok(TickStep::Wait(req.id));
        }
        let prev_max = match req.tx.max_fee_per_gas {
            Some(v) => v,
            None => estimate_max_fee,
        };
        let prev_priority = match req.tx.max_priority_fee_per_gas {
            Some(v) => v,
            None => estimate_max_priority_fee,
        };
        if estimate_max_fee < estimate_max_priority_fee || prev_max < prev_priority {
            return Err(TickError::InvalidFees(req.id));
        }
        let mut tx = req.tx;
        if bump_transaction(&mut tx, estimate_max_fee, estimate_max_priority_fee) {
            Ok(TickStep::Rebroadcast { id: req.id, hash: req.hash, tx })
        } else {
            Err(TickError::FeeOverflow(req.id))
        }
    }

    proof fn lemma_plan_err_extends(
        &self,
        hashes: Seq<TxHash>,
        pending: Seq<Request>,
        k: nat,
        estimate_max_fee: u128,
        estimate_max_priority_fee: u128,
    )
        requires
            k <= pending.len(),
            self.plan(hashes, pending.subrange(0, k as int), estimate_max_fee, estimate_max_priority_fee) is Err,
        ensures
            self.plan(hashes, pending, estimate_max_fee, estimate_max_priority_fee) == self.plan(
                hashes,
                pending.subrange(0, k as int),
                estimate_max_fee,
                estimate_max_priority_fee,
            ),
        decreases pending.len() - k,
    {
        if k < pending.len() {
            let next = pending.subrange(0, (k + 1) as int);
            assert(next.drop_last() =~= pending.subrange(0, k as int));
            self.lemma_plan_err_extends(hashes, pending, (k + 1) as nat, estimate_max_fee, estimate_max_priority_fee);
        } else {
            assert(pending.subrange(0, k as int) =~= pending);
        }
    }
}

/// The request a step is about.
pub open spec fn step_id(s: TickStep) -> RequestId {
    match s {
        TickStep::Mined(u) => u.id,
        TickStep::Wait(id) => id,
        TickStep::Rebroadcast { id, .. } => id,
    }
}

/// A plan has one step per pending request, in order and about that request;
/// a step that records a request as mined keeps its current hash, and a
/// re-broadcast carries its current hash.
pub proof fn lemma_plan_follows_pending(
    m: ChainMonitor,
    hashes: Seq<TxHash>,
    pending: Seq<Request>,
    estimate_max_fee: u128,
    estimate_max_priority_fee: u128,
)
    requires
        m.plan(hashes, pending, estimate_max_fee, estimate_max_priority_fee) is Ok,
    ensures
        ({
            let steps = m.plan(hashes, pending, estimate_max_fee, estimate_max_priority_fee)->Ok_0;
            &&& steps.len() == pending.len()
            &&& forall|i: int| 0 <= i < steps.len() ==> step_id(#[trigger] steps[i]) == pending[i].id
            &&& forall|i: int|
                0 <= i < steps.len() ==> match #[trigger] steps[i] {
                    TickStep::Mined(u) => u.mined && u.hash == pending[i].hash && u.tx is None,
                    TickStep::Rebroadcast { hash, .. } => hash == pending[i].hash,
                    TickStep::Wait(_) => true,
                }
        }),
    decreases pending.len(),
{
    if pending.len() > 0 {
        lemma_plan_follows_pending(
            m,
            hashes,
            pending.drop_last(),
            estimate_max_fee,
            estimate_max_priority_fee,
        );
    }
}

/// Whether `h` is among `hashes`.
fn block_contains(hashes: &Vec<TxHash>, h: &TxHash) -> (r: bool)
    ensures
        r == block_includes(hashes@, *h),
{
    let mut i: usize = 0;
    while i < hashes.len()
        invariant
            i <= hashes@.len(),
            forall|j: int| 0 <= j < i ==> hashes@[j].bytes@ != h.bytes@,
        decreases hashes@.len() - i,
    {
        if hashes[i] == *h {
            return true;
        }
        i = i + 1;
    }
    false
}

/// The update that a re-broadcast of `tx`, the replacement of the request
/// `id` whose current hash is `hash`, leads to: the new hash and request
/// where it was sent; the request recorded as mined under its current hash
/// where the provider reports the nonce as used; otherwise the tick fails.
pub fn resolve_rebroadcast(
    id: RequestId,
    hash: TxHash,
    tx: TxIntent,
    outcome: BroadcastOutcome,
) -> (r: Result<RequestUpdate, TickError>)
    ensures
        match outcome {
            BroadcastOutcome::Sent(h) => r == Ok::<RequestUpdate, TickError>(
                RequestUpdate { id, mined: false, hash: h, tx: Some(tx) },
            ),
            BroadcastOutcome::Rejected(m) => if nonce_too_low(m@) {
                r == Ok::<RequestUpdate, TickError>(RequestUpdate { id, mined: true, hash, tx: None })
            } else {
                r == Err::<RequestUpdate, TickError>(TickError::Broadcast(m))
            },
        },
{
    match outcome {
        BroadcastOutcome::Sent(h) => Ok(RequestUpdate { id, mined: false, hash: h, tx: Some(tx) }),
        BroadcastOutcome::Rejected(m) => {
            if str_contains(m.as_str(), "nonce too low") {
                Ok(RequestUpdate { id, mined: true, hash, tx: None })
            } else {
                Err(TickError::Broadcast(m))
            }
        },
    }
}

/// Whether a submission needs a fee estimate: either fee field is absent.
pub fn needs_fee_estimate(tx: &TxIntent) -> (r: bool)
    ensures
        r == (tx.max_fee_per_gas is None || tx.max_priority_fee_per_gas is None),
{
    tx.max_fee_per_gas.is_none() || tx.max_priority_fee_per_gas.is_none()
}

/// The submission with both fee fields set from the estimate.
pub fn with_fee_estimate(tx: TxIntent, estimate_max_fee: u128, estimate_max_priority_fee: u128) -> (r:
    TxIntent)
    ensures
        r == with_fees(tx, estimate_max_fee, estimate_max_priority_fee),
{
    let mut tx = tx;
    tx.max_fee_per_gas = Some(estimate_max_fee);
    tx.max_priority_fee_per_gas = Some(estimate_max_priority_fee);
    tx
}

} // verus!

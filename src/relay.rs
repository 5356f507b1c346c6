//! The relay facade: which chains have a monitor, what a relayed request
//! becomes, and how failures reach the client.
use vstd::prelude::*;
use crate::chain::Chain;
use crate::monitor::ChainMonitor;
use crate::primitives::Address;
use crate::request::TxIntent;

verus! {

/// A failure the relay reports to its client.
#[derive(Clone, Copy, Debug, PartialEq, Eq, Structural)]
pub enum RelayError {
    /// No monitor serves the chain, or the chain is not offered.
    UnsupportedChain,
    /// A monitor for the chain is already set up.
    AlreadyRegistered,
    /// No request has the id.
    NotFound,
    /// Anything else: estimation, filling, broadcast or storage failed.
    Internal,
}

impl RelayError {
    /// The HTTP status that reports the failure.
    pub fn status_code(&self) -> (r: u16)
        ensures
            r == match *self {
                RelayError::UnsupportedChain => 400u16,
                RelayError::NotFound => 404u16,
                _ => 500u16,
            },
    {
        match self {
            RelayError::UnsupportedChain => 400,
            RelayError::NotFound => 404,
            _ => 500,
        }
    }
}

/// The chains that the HTTP front-end offers.
pub open spec fn offered(chain: Chain) -> bool {
    chain == Chain::Goerli || chain == Chain::Sepolia
}

/// Whether the front-end offers the chain.
pub fn is_supported_chain(chain: Chain) -> (r: bool)
    ensures
        r == offered(chain),
{
    match chain {
        Chain::Goerli => true,
        Chain::Sepolia => true,
        _ => false,
    }
}

/// The request that a client's relay call stands for: a transfer of `value`
/// to `to` with the optional payload, a priority fee of one wei and nothing
/// else set; `UnsupportedChain` where the chain is not offered.
pub fn relay_request(to: Address, value: u128, data: Option<Vec<u8>>, chain: Chain) -> (r: Result<
    TxIntent,
    RelayError,
>)
    ensures
        !offered(chain) <==> r == Err::<TxIntent, RelayError>(RelayError::UnsupportedChain),
        offered(chain) ==> r == Ok::<TxIntent, RelayError>(
            TxIntent {
                from: None,
                to: Some(to),
                gas: None,
                value: Some(value),
                data: data,
                nonce: None,
                max_priority_fee_per_gas: Some(1),
                max_fee_per_gas: None,
                chain_id: None,
            },
        ),
{
    if !is_supported_chain(chain) {
        return Err(RelayError::UnsupportedChain);
    }
    let mut tx = TxIntent::new();
    tx.to = Some(to);
    tx.value = Some(value);
    tx.max_priority_fee_per_gas = Some(1);
    tx.data = data;
    Ok(tx)
}

/// The chains that have monitors, each at most once.
pub open spec fn chains_distinct(s: Seq<ChainMonitor>) -> bool {
    forall|i: int, j: int| 0 <= i < j < s.len() ==> s[i].chain != s[j].chain
}

/// Whether some monitor serves the chain.
pub open spec fn serves(s: Seq<ChainMonitor>, chain: Chain) -> bool {
    exists|i: int| 0 <= i < s.len() && (#[trigger] s[i]).chain == chain
}

/// The registry of per-chain monitors.
#[derive(Debug)]
pub struct TransactionMonitor {
    monitors: Vec<ChainMonitor>,
}

impl View for TransactionMonitor {
    type V = Seq<ChainMonitor>;

    closed spec fn view(&self) -> Seq<ChainMonitor> {
        self.monitors@
    }
}

impl TransactionMonitor {
    pub open spec fn wf(&self) -> bool {
        &&& chains_distinct(self@)
        &&& forall|i: int| 0 <= i < self@.len() ==> (#[trigger] self@[i]).wf()
    }

    /// A registry with no chain.
    pub fn new() -> (r: TransactionMonitor)
        ensures
            r.wf(),
            r@ == Seq::<ChainMonitor>::empty(),
    {
        TransactionMonitor { monitors: Vec::new() }
    }

    /// Sets up the monitor of a chain; `AlreadyRegistered`, changing
    /// nothing, where the chain has one.
    pub fn setup_monitor(&mut self, chain: Chain, block_frequency: u8) -> (r: Result<(), RelayError>)
        requires
            old(self).wf(),
            block_frequency > 0,
        ensures
            final(self).wf(),
            serves(old(self)@, chain) ==> r == Err::<(), RelayError>(RelayError::AlreadyRegistered)
                && final(self)@ == old(self)@,
            !serves(old(self)@, chain) ==> r is Ok && final(self)@ == old(self)@.push(
                ChainMonitor::new_spec(chain, block_frequency),
            ),
    {
        match self.monitor_for(chain) {
            Ok(_) => Err(RelayError::AlreadyRegistered),
            Err(_) => {
                let ghost prev = self@;
                proof {
                    assert forall|i: int| 0 <= i < prev.len() implies prev[i].chain != chain by {
                        if prev[i].chain == chain {
                            assert(serves(prev, chain));
                        }
                    }
                }
                let m = ChainMonitor::new(chain, block_frequency);
                self.monitors.push(m);
                proof {
                    assert(self@ == self.monitors@);
                    assert(self@ == prev.push(m));
                }
                Ok(())
            },
        }
    }

    /// The monitor of a chain; `UnsupportedChain` where none is set up.
    pub fn monitor_for(&self, chain: Chain) -> (r: Result<ChainMonitor, RelayError>)
        requires
            self.wf(),
        ensures
            !serves(self@, chain) <==> r is Err,
            r is Err ==> r == Err::<ChainMonitor, RelayError>(RelayError::UnsupportedChain),
            r matches Ok(m) ==> m.wf() && m.chain == chain && exists|i: int|
                0 <= i < self@.len() && #[trigger] self@[i] == m,
    {
        let mut k: usize = 0;
        while k < self.monitors.len()
            invariant
                self.wf(),
                k <= self.monitors@.len(),
                self@ == self.monitors@,
                forall|j: int| 0 <= j < k ==> self.monitors@[j].chain != chain,
            decreases self.monitors@.len() - k,
        {
            if self.monitors[k].chain == chain {
                return Ok(self.monitors[k]);
            }
            k = k + 1;
        }
        Err(RelayError::UnsupportedChain)
    }
}

} // verus!

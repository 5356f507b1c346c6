//! The networks the relay can serve, and their numeric chain ids.
use vstd::prelude::*;

verus! {

/// An enumerated network tag; the dispatch key of the relay and the
/// persisted `chain` column.
#[derive(Clone, Copy, Debug, PartialEq, Eq, Structural, Hash)]
pub enum Chain {
    Mainnet,
    Goerli,
    Sepolia,
    Polygon,
    PolygonMumbai,
    AnvilHardhat,
}

/// The EIP-155 chain id of a network.
pub open spec fn chain_number(c: Chain) -> u32 {
    match c {
        Chain::Mainnet => 1,
        Chain::Goerli => 5,
        Chain::Sepolia => 11155111,
        Chain::Polygon => 137,
        Chain::PolygonMumbai => 80001,
        Chain::AnvilHardhat => 31337,
    }
}

impl Chain {
    /// The numeric chain id, as stored.
    pub fn id(&self) -> (r: u32)
        ensures
            r == chain_number(*self),
    {
        match self {
            Chain::Mainnet => 1,
            Chain::Goerli => 5,
            Chain::Sepolia => 11155111,
            Chain::Polygon => 137,
            Chain::PolygonMumbai => 80001,
            Chain::AnvilHardhat => 31337,
        }
    }

    /// The network with the given chain id, if it is one of those above.
    pub fn from_id(id: u32) -> (r: Option<Chain>)
        ensures
            r matches Some(c) ==> chain_number(c) == id,
            r is None <==> forall|c: Chain| chain_number(c) != id,
    {
        let r = if id == 1 {
            Some(Chain::Mainnet)
        } else if id == 5 {
            Some(Chain::Goerli)
        } else if id == 11155111 {
            Some(Chain::Sepolia)
        } else if id == 137 {
            Some(Chain::Polygon)
        } else if id == 80001 {
            Some(Chain::PolygonMumbai)
        } else if id == 31337 {
            Some(Chain::AnvilHardhat)
        } else {
            None
        };
        proof {
            if r is None {
                assert forall|c: Chain| chain_number(c) != id by {
                    match c {
                        Chain::Mainnet => {},
                        Chain::Goerli => {},
                        Chain::Sepolia => {},
                        Chain::Polygon => {},
                        Chain::PolygonMumbai => {},
                        Chain::AnvilHardhat => {},
                    }
                }
            }
        }
        r
    }
}

/// Distinct networks have distinct chain ids.
pub proof fn lemma_chain_number_injective(a: Chain, b: Chain)
    ensures
        chain_number(a) == chain_number(b) ==> a == b,
{
}

} // verus!

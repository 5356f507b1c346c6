//! WebSocket endpoints of the hosted RPC service, per chain.
use vstd::prelude::*;
use vstd::string::StrSliceExecFns;
use vstd::string::StringExecFns;
use crate::chain::Chain;

verus! {

/// The service's host prefix for a chain, where the service offers it.
pub open spec fn alchemy_prefix(chain: Chain) -> Option<Seq<char>> {
    match chain {
        Chain::Mainnet => Some("eth-mainnet"@),
        Chain::Goerli => Some("eth-goerli"@),
        Chain::Polygon => Some("polygon-mainnet"@),
        Chain::PolygonMumbai => Some("polygon-mumbai"@),
        Chain::Sepolia => Some("eth-sepolia"@),
        Chain::AnvilHardhat => None,
    }
}

fn get_prefix(chain: Chain) -> (r: &'static str)
    requires
        alchemy_prefix(chain) is Some,
    ensures
        r@ == alchemy_prefix(chain)->0,
{
    match chain {
        Chain::Mainnet => "eth-mainnet",
        Chain::Goerli => "eth-goerli",
        Chain::Polygon => "polygon-mainnet",
        Chain::PolygonMumbai => "polygon-mumbai",
        Chain::Sepolia => "eth-sepolia",
        Chain::AnvilHardhat => "",
    }
}

/// The WebSocket URL of the service for a chain and an API key.
pub fn get_ws(chain: Chain, key: &str) -> (r: String)
    requires
        alchemy_prefix(chain) is Some,
    ensures
        r@ == "wss://"@ + alchemy_prefix(chain)->0 + ".g.alchemy.com/v2/"@ + key@,
{
    let mut url = String::from_str("wss://");
    url.append(get_prefix(chain));
    url.append(".g.alchemy.com/v2/");
    url.append(key);
    url
}

} // verus!

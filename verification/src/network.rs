//! The networks whose blocks the service follows, with their names and the
//! numeric codes that identify them on the wire.

use vstd::prelude::*;

verus! {

/// A supported network.
#[derive(Clone, Copy, Debug, PartialEq, Eq, Hash, Structural)]
pub enum Network {
    /// Ethereum main network.
    EthMainnet,
}

/// The name under which a network is stored and logged.
pub open spec fn network_name(network: Network) -> Seq<char> {
    match network {
        Network::EthMainnet => seq!['E', 'T', 'H', '_', 'M', 'A', 'I', 'N', 'N', 'E', 'T'],
    }
}

/// The network that a stored name stands for, if any.
pub open spec fn parse_network(name: Seq<char>) -> Option<Network> {
    if name == network_name(Network::EthMainnet) {
        Some(Network::EthMainnet)
    } else {
        None
    }
}

/// The wire code of a network.
pub open spec fn network_code(network: Network) -> i32 {
    match network {
        Network::EthMainnet => 0,
    }
}

/// The network that a wire code stands for, if any.
pub open spec fn network_of_code(code: i32) -> Option<Network> {
    if code == 0 {
        Some(Network::EthMainnet)
    } else {
        None
    }
}

impl Network {
    /// The stored name of this network (`"ETH_MAINNET"`).
    pub fn as_str_name(&self) -> (name: &'static str)
        ensures
            name@ == network_name(*self),
    {
        proof {
            reveal_strlit("ETH_MAINNET");
        }
        match self {
            Network::EthMainnet => "ETH_MAINNET",
        }
    }

    /// The network whose stored name is `name`, or `None` for any other text.
    pub fn from_str_name(name: &str) -> (network: Option<Network>)
        ensures
            network == parse_network(name@),
    {
        let given = String::from_str(name);
        let known = String::from_str(Network::EthMainnet.as_str_name());
        if given == known {
            Some(Network::EthMainnet)
        } else {
            None
        }
    }

    /// The wire code of this network.
    pub fn code(&self) -> (code: i32)
        ensures
            code == network_code(*self),
    {
        match self {
            Network::EthMainnet => 0,
        }
    }

    /// The network with wire code `code`, or `None` for an unknown code.
    pub fn from_code(code: i32) -> (network: Option<Network>)
        ensures
            network == network_of_code(code),
    {
        if code == 0 {
            Some(Network::EthMainnet)
        } else {
            None
        }
    }

    /// The network named by a request field: an unknown code stands for the
    /// default network, the first one.
    pub fn from_field(code: i32) -> (network: Network)
        ensures
            network == (match network_of_code(code) {
                Some(n) => n,
                None => Network::EthMainnet,
            }),
    {
        match Network::from_code(code) {
            Some(n) => n,
            None => Network::EthMainnet,
        }
    }
}

/// A stored name reads back as the network it was written for.
pub proof fn lemma_name_round_trip(network: Network)
    ensures
        parse_network(network_name(network)) == Some(network),
{
}

/// A wire code reads back as the network it was written for.
pub proof fn lemma_code_round_trip(network: Network)
    ensures
        network_of_code(network_code(network)) == Some(network),
{
}

} // verus!

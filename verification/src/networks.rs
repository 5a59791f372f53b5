//! Networks as the console shows them, and the defaults for creating one.

use vstd::prelude::*;
use vstd::string::StringExecFns;
use crate::string_map::{lemma_position_of, put, StringMap, TextPair};
use crate::text::{text_or_default, text_or_empty};

verus! {

/// The driver of a network that is created without naming one.
pub const DEFAULT_DRIVER: &'static str = "bridge";

/// The key under which a network's subnet is shown.
pub const SUBNET_KEY: &'static str = "subnet";

/// The key under which a network's gateway is shown.
pub const GATEWAY_KEY: &'static str = "gateway";

/// One address configuration of a network.
#[derive(Debug, Clone, PartialEq, Eq)]
pub struct EngineIpamConfig {
    pub subnet: Option<String>,
    pub gateway: Option<String>,
}

/// A network as the engine lists it. The engine may leave any field out.
#[derive(Debug, Clone, PartialEq, Eq)]
pub struct EngineNetwork {
    pub id: Option<String>,
    pub name: Option<String>,
    pub driver: Option<String>,
    pub scope: Option<String>,
    pub internal: Option<bool>,
    /// The address configurations; only the first is shown.
    pub ipam_config: Option<Vec<EngineIpamConfig>>,
}

/// A network as the console shows it.
#[derive(Debug, Clone)]
pub struct NetworkDetails {
    pub id: String,
    pub name: String,
    pub driver: String,
    pub scope: String,
    pub internal: bool,
    /// The subnet and the gateway, each where the engine gave one.
    pub ipam: StringMap,
}

/// A shown network as plain values.
pub struct NetworkDetailsView {
    pub id: Seq<char>,
    pub name: Seq<char>,
    pub driver: Seq<char>,
    pub scope: Seq<char>,
    pub internal: bool,
    pub ipam: Seq<TextPair>,
}

impl View for NetworkDetails {
    type V = NetworkDetailsView;

    open spec fn view(&self) -> NetworkDetailsView {
        NetworkDetailsView {
            id: self.id@,
            name: self.name@,
            driver: self.driver@,
            scope: self.scope@,
            internal: self.internal,
            ipam: self.ipam.pairs(),
        }
    }
}

/// The pairs that are shown for one address configuration: the subnet, then
/// the gateway, each where there is one.
pub open spec fn ipam_pairs_of(config: EngineIpamConfig) -> Seq<TextPair> {
    let subnet: Seq<TextPair> = match config.subnet {
        Some(subnet) => seq![(SUBNET_KEY@, subnet@)],
        None => Seq::empty(),
    };
    match config.gateway {
        Some(gateway) => put(subnet, GATEWAY_KEY@, gateway@),
        None => subnet,
    }
}

/// What is shown for a listed network. Of its address configurations only
/// the first counts.
pub open spec fn network_details_of(network: EngineNetwork) -> NetworkDetailsView {
    NetworkDetailsView {
        id: text_or_empty(network.id),
        name: text_or_empty(network.name),
        driver: text_or_empty(network.driver),
        scope: text_or_empty(network.scope),
        internal: match network.internal {
            Some(internal) => internal,
            None => false,
        },
        ipam: match network.ipam_config {
            Some(configs) => if configs@.len() > 0 {
                ipam_pairs_of(configs@[0])
            } else {
                Seq::empty()
            },
            None => Seq::empty(),
        },
    }
}

/// Makes the map that is shown for one address configuration.
pub fn convert_ipam_config(config: &EngineIpamConfig) -> (r: StringMap)
    ensures
        r.pairs() == ipam_pairs_of(*config),
{
    let mut r = StringMap::new();
    match &config.subnet {
        Some(subnet) => {
            r.insert(String::from_str(SUBNET_KEY), subnet.clone());
            proof {
                lemma_position_of(Seq::<TextPair>::empty(), SUBNET_KEY@);
            }
            assert(r.pairs() =~= seq![(SUBNET_KEY@, subnet@)]);
        },
        None => {},
    }
    match &config.gateway {
        Some(gateway) => {
            r.insert(String::from_str(GATEWAY_KEY), gateway.clone());
        },
        None => {},
    }
    r
}

/// Makes the network that is shown from a network of the engine's list.
pub fn convert_network(network: &EngineNetwork) -> (r: NetworkDetails)
    ensures
        r@ == network_details_of(*network),
{
    let ipam = match &network.ipam_config {
        Some(configs) => if configs.len() > 0 {
            convert_ipam_config(&configs[0])
        } else {
            StringMap::new()
        },
        None => StringMap::new(),
    };
    NetworkDetails {
        id: text_or_default(network.id.clone()),
        name: text_or_default(network.name.clone()),
        driver: text_or_default(network.driver.clone()),
        scope: text_or_default(network.scope.clone()),
        internal: match network.internal {
            Some(internal) => internal,
            None => false,
        },
        ipam,
    }
}

/// The views of a list of shown networks.
pub open spec fn network_views(items: Seq<NetworkDetails>) -> Seq<NetworkDetailsView> {
    items.map_values(|n: NetworkDetails| n@)
}

/// Makes the list that is shown from the engine's list, network by network.
pub fn convert_network_list(networks: &Vec<EngineNetwork>) -> (r: Vec<NetworkDetails>)
    ensures
        network_views(r@) == networks@.map_values(|n: EngineNetwork| network_details_of(n)),
{
    let ghost want = networks@.map_values(|n: EngineNetwork| network_details_of(n));
    let mut r: Vec<NetworkDetails> = Vec::new();
    let n = networks.len();
    let mut i: usize = 0;
    while i < n
        invariant
            n == networks.len(),
            i <= n,
            want == networks@.map_values(|n: EngineNetwork| network_details_of(n)),
            network_views(r@) == want.take(i as int),
        decreases n - i,
    {
        let shown = convert_network(&networks[i]);
        proof {
            assert(network_views(r@.push(shown)) =~= network_views(r@).push(shown@));
            assert(want.take(i + 1) =~= want.take(i as int).push(shown@));
        }
        r.push(shown);
        i += 1;
    }
    assert(want.take(n as int) == want);
    r
}

/// The driver with which a network is created: the one asked for, or
/// `bridge`.
pub fn network_driver(driver: Option<String>) -> (r: String)
    ensures
        r@ == match driver {
            Some(d) => d@,
            None => DEFAULT_DRIVER@,
        },
{
    match driver {
        Some(d) => d,
        None => String::from_str(DEFAULT_DRIVER),
    }
}

/// The id of a network that was created: the one that the engine answered,
/// or the name that was asked for where it answered none.
pub fn created_network_id(id: Option<String>, name: String) -> (r: String)
    ensures
        r@ == match id {
            Some(given) => given@,
            None => name@,
        },
{
    match id {
        Some(given) => given,
        None => name,
    }
}

} // verus!

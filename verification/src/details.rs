//! The details of one container, made from what the engine's inspection
//! reports: published ports from the table of port bindings, mounts,
//! environment and the address on each network.

use vstd::prelude::*;
use vstd::string::StringExecFns;
use crate::containers::{
    lemma_mapping_views_push, mapping_views, or_empty, PortMapping, PortMappingView,
};
use crate::decimal::{parse_u16, parse_u16_spec};
use crate::string_map::{put, StringMap, TextPair};
use crate::text::{
    copy_texts, lemma_split_spec, opt_text, skip_leading, split_on, split_spec, strip_leading,
    text_or_default, text_or_empty, texts,
};

verus! {

/// The protocol of a port whose key names none.
pub const DEFAULT_PROTOCOL: &'static str = "tcp";

/// One binding of a container port to the host.
#[derive(Debug, Clone, PartialEq, Eq)]
pub struct EngineBinding {
    pub host_ip: Option<String>,
    /// The host port as decimal text.
    pub host_port: Option<String>,
}

/// A binding as plain values.
pub struct EngineBindingView {
    pub host_ip: Option<Seq<char>>,
    pub host_port: Option<Seq<char>>,
}

impl View for EngineBinding {
    type V = EngineBindingView;

    open spec fn view(&self) -> EngineBindingView {
        EngineBindingView { host_ip: opt_text(self.host_ip), host_port: opt_text(self.host_port) }
    }
}

/// One row of the table of port bindings: a container port, written
/// `port/protocol`, and what it is bound to.
#[derive(Debug, Clone, PartialEq, Eq)]
pub struct EnginePortBindings {
    pub port: String,
    pub bindings: Option<Vec<EngineBinding>>,
}

/// A row of the table as plain values.
pub struct EnginePortBindingsView {
    pub port: Seq<char>,
    pub bindings: Option<Seq<EngineBindingView>>,
}

impl View for EnginePortBindings {
    type V = EnginePortBindingsView;

    open spec fn view(&self) -> EnginePortBindingsView {
        EnginePortBindingsView {
            port: self.port@,
            bindings: match self.bindings {
                Some(list) => Some(list@.map_values(|b: EngineBinding| b@)),
                None => None,
            },
        }
    }
}

/// A mount as the engine reports it.
#[derive(Debug, Clone, PartialEq, Eq)]
pub struct EngineMount {
    /// The kind of mount, such as `bind` or `volume`.
    pub typ: Option<String>,
    pub source: Option<String>,
    pub destination: Option<String>,
    pub mode: Option<String>,
    pub rw: Option<bool>,
}

/// A mount of a container.
#[derive(Debug, Clone, PartialEq, Eq)]
pub struct MountInfo {
    pub mount_type: String,
    pub source: String,
    pub destination: String,
    pub mode: String,
    /// Whether the container may write to it.
    pub rw: bool,
}

/// A mount as plain values.
pub struct MountInfoView {
    pub mount_type: Seq<char>,
    pub source: Seq<char>,
    pub destination: Seq<char>,
    pub mode: Seq<char>,
    pub rw: bool,
}

impl View for MountInfo {
    type V = MountInfoView;

    open spec fn view(&self) -> MountInfoView {
        MountInfoView {
            mount_type: self.mount_type@,
            source: self.source@,
            destination: self.destination@,
            mode: self.mode@,
            rw: self.rw,
        }
    }
}

/// The mount that is shown for a reported mount: a text that the engine
/// left out is empty, and a mount of unknown mode is read-only.
pub open spec fn mount_info_of(mount: EngineMount) -> MountInfoView {
    MountInfoView {
        mount_type: text_or_empty(mount.typ),
        source: text_or_empty(mount.source),
        destination: text_or_empty(mount.destination),
        mode: text_or_empty(mount.mode),
        rw: match mount.rw {
            Some(rw) => rw,
            None => false,
        },
    }
}

/// The views of a list of mounts.
pub open spec fn mount_info_views(mounts: Seq<MountInfo>) -> Seq<MountInfoView> {
    mounts.map_values(|m: MountInfo| m@)
}

/// The attachment of a container to one network.
#[derive(Debug, Clone, PartialEq, Eq)]
pub struct EngineEndpoint {
    /// The network's name.
    pub network: String,
    pub ip_address: Option<String>,
}

/// The pair of network name and address for an endpoint; the address is
/// empty where the engine gave none.
pub open spec fn endpoint_pair_of(endpoint: EngineEndpoint) -> TextPair {
    (endpoint.network@, text_or_empty(endpoint.ip_address))
}

/// The pairs of a map that received the pair of each endpoint in turn.
pub open spec fn network_pairs_of(endpoints: Seq<EngineEndpoint>) -> Seq<TextPair>
    decreases endpoints.len(),
{
    if endpoints.len() == 0 {
        Seq::empty()
    } else {
        let pair = endpoint_pair_of(endpoints.last());
        put(network_pairs_of(endpoints.drop_last()), pair.0, pair.1)
    }
}

/// What the engine's inspection of a container reports. The engine may
/// leave any field out.
#[derive(Debug, Clone, PartialEq, Eq)]
pub struct EngineInspect {
    pub id: Option<String>,
    /// The name, with a leading `/`.
    pub name: Option<String>,
    /// The time of creation as text.
    pub created: Option<String>,
    /// The image named in the container's configuration.
    pub image: Option<String>,
    /// The environment in the container's configuration.
    pub env: Option<Vec<String>>,
    /// The name of the state, such as `running`.
    pub state: Option<String>,
    /// The whole state object, rendered as text.
    pub state_text: String,
    /// The table of port bindings in the host configuration.
    pub port_bindings: Option<Vec<EnginePortBindings>>,
    pub mounts: Option<Vec<EngineMount>>,
    /// The networks in the network settings.
    pub networks: Option<Vec<EngineEndpoint>>,
}

/// The addresses of a container, by network.
#[derive(Debug, Clone)]
pub struct NetworkInfo {
    pub networks: StringMap,
}

/// The details of a container.
#[derive(Debug, Clone)]
pub struct ContainerDetails {
    pub id: String,
    /// The name without the engine's leading `/`.
    pub name: String,
    pub image: String,
    /// The name of the state.
    pub state: String,
    /// The whole state, rendered as text.
    pub status: String,
    pub created: String,
    pub ports: Vec<PortMapping>,
    pub mounts: Vec<MountInfo>,
    pub env: Vec<String>,
    pub network_settings: NetworkInfo,
}

/// The details of a container as plain values.
pub struct ContainerDetailsView {
    pub id: Seq<char>,
    pub name: Seq<char>,
    pub image: Seq<char>,
    pub state: Seq<char>,
    pub status: Seq<char>,
    pub created: Seq<char>,
    pub ports: Seq<PortMappingView>,
    pub mounts: Seq<MountInfoView>,
    pub env: Seq<Seq<char>>,
    pub networks: Seq<TextPair>,
}

impl View for ContainerDetails {
    type V = ContainerDetailsView;

    open spec fn view(&self) -> ContainerDetailsView {
        ContainerDetailsView {
            id: self.id@,
            name: self.name@,
            image: self.image@,
            state: self.state@,
            status: self.status@,
            created: self.created@,
            ports: mapping_views(self.ports@),
            mounts: mount_info_views(self.mounts@),
            env: texts(self.env@),
            networks: self.network_settings.networks.pairs(),
        }
    }
}

/// The published port for one binding of a container port. The key is split
/// at `/`: the number before it is the private port, 0 where it cannot be
/// read, and the part after it the protocol, `tcp` where there is none. The
/// public port is the binding's host port where that can be read.
pub open spec fn bound_port_of(port: Seq<char>, binding: EngineBindingView) -> PortMappingView {
    let parts = split_spec(port, '/');
    PortMappingView {
        ip: or_empty(binding.host_ip),
        private_port: match parse_u16_spec(parts[0]) {
            Some(number) => number,
            None => 0,
        },
        public_port: match binding.host_port {
            Some(text) => parse_u16_spec(text),
            None => None,
        },
        port_type: if parts.len() > 1 {
            parts[1]
        } else {
            DEFAULT_PROTOCOL@
        },
    }
}

/// The published ports of one row of the table, one for each binding.
pub open spec fn row_ports_of(row: EnginePortBindingsView) -> Seq<PortMappingView> {
    match row.bindings {
        Some(list) => list.map_values(|b: EngineBindingView| bound_port_of(row.port, b)),
        None => Seq::empty(),
    }
}

/// The published ports of the whole table, row after row.
pub open spec fn table_ports_of(rows: Seq<EnginePortBindingsView>) -> Seq<PortMappingView>
    decreases rows.len(),
{
    if rows.len() == 0 {
        Seq::empty()
    } else {
        table_ports_of(rows.drop_last()) + row_ports_of(rows.last())
    }
}

/// The views of the rows of a table.
pub open spec fn row_views(rows: Seq<EnginePortBindings>) -> Seq<EnginePortBindingsView> {
    rows.map_values(|r: EnginePortBindings| r@)
}

/// The details that are shown for an inspection.
pub open spec fn details_of(inspect: EngineInspect) -> ContainerDetailsView {
    ContainerDetailsView {
        id: text_or_empty(inspect.id),
        name: skip_leading(text_or_empty(inspect.name), '/'),
        image: text_or_empty(inspect.image),
        state: text_or_empty(inspect.state),
        status: inspect.state_text@,
        created: text_or_empty(inspect.created),
        ports: match inspect.port_bindings {
            Some(rows) => table_ports_of(row_views(rows@)),
            None => Seq::empty(),
        },
        mounts: match inspect.mounts {
            Some(list) => list@.map_values(|m: EngineMount| mount_info_of(m)),
            None => Seq::empty(),
        },
        env: match inspect.env {
            Some(list) => texts(list@),
            None => Seq::empty(),
        },
        networks: match inspect.networks {
            Some(list) => network_pairs_of(list@),
            None => Seq::empty(),
        },
    }
}

/// Makes the published port for one binding of the container port `port`.
pub fn convert_binding(port: &str, binding: &EngineBinding) -> (r: PortMapping)
    ensures
        r@ == bound_port_of(port@, binding@),
{
    let parts = split_on(port, '/');
    proof {
        lemma_split_spec(port@, '/');
        assert(texts(parts@).len() == parts@.len());
        assert(texts(parts@)[0] == parts@[0]@);
    }
    let private_port = match parse_u16(parts[0].as_str()) {
        Some(number) => number,
        None => 0,
    };
    let public_port = match &binding.host_port {
        Some(text) => parse_u16(text.as_str()),
        None => None,
    };
    let port_type = if parts.len() > 1 {
        assert(texts(parts@)[1] == parts@[1]@);
        parts[1].clone()
    } else {
        String::from_str(DEFAULT_PROTOCOL)
    };
    PortMapping {
        ip: text_or_default(binding.host_ip.clone()),
        private_port,
        public_port,
        port_type,
    }
}

/// Makes the published ports of the table of port bindings.
pub fn convert_port_bindings(rows: &Vec<EnginePortBindings>) -> (r: Vec<PortMapping>)
    ensures
        mapping_views(r@) == table_ports_of(row_views(rows@)),
{
    let ghost views = row_views(rows@);
    let mut r: Vec<PortMapping> = Vec::new();
    let n = rows.len();
    let mut i: usize = 0;
    assert(views.take(0) =~= Seq::<EnginePortBindingsView>::empty());
    assert(mapping_views(r@) =~= Seq::<PortMappingView>::empty());
    while i < n
        invariant
            n == rows.len(),
            i <= n,
            views == row_views(rows@),
            mapping_views(r@) == table_ports_of(views.take(i as int)),
        decreases n - i,
    {
        let row = &rows[i];
        let ghost done = table_ports_of(views.take(i as int));
        let ghost want = row_ports_of(row@);
        proof {
            let next = views.take(i + 1);
            assert(next.drop_last() =~= views.take(i as int));
            assert(next.last() == row@);
        }
        match &row.bindings {
            Some(list) => {
                let m = list.len();
                let mut j: usize = 0;
                assert(done + want.take(0) =~= done);
                while j < m
                    invariant
                        m == list.len(),
                        j <= m,
                        row.bindings == Some(*list),
                        want == row_ports_of(row@),
                        mapping_views(r@) == done + want.take(j as int),
                    decreases m - j,
                {
                    let shown = convert_binding(row.port.as_str(), &list[j]);
                    proof {
                        lemma_mapping_views_push(r@, shown);
                        assert(want[j as int] == shown@);
                        assert(done + want.take(j + 1) =~= (done + want.take(j as int)).push(
                            shown@,
                        ));
                    }
                    r.push(shown);
                    j += 1;
                }
                assert(want.take(m as int) == want);
            },
            None => {
                assert(done + want =~= done);
            },
        }
        i += 1;
    }
    assert(views.take(n as int) == views);
    r
}

/// Makes the mounts that are shown from the mounts that the engine reports.
pub fn convert_mounts(mounts: &Vec<EngineMount>) -> (r: Vec<MountInfo>)
    ensures
        mount_info_views(r@) == mounts@.map_values(|m: EngineMount| mount_info_of(m)),
{
    let ghost want = mounts@.map_values(|m: EngineMount| mount_info_of(m));
    let mut r: Vec<MountInfo> = Vec::new();
    let n = mounts.len();
    let mut i: usize = 0;
    while i < n
        invariant
            n == mounts.len(),
            i <= n,
            want == mounts@.map_values(|m: EngineMount| mount_info_of(m)),
            mount_info_views(r@) == want.take(i as int),
        decreases n - i,
    {
        let mount = &mounts[i];
        let shown = MountInfo {
            mount_type: text_or_default(mount.typ.clone()),
            source: text_or_default(mount.source.clone()),
            destination: text_or_default(mount.destination.clone()),
            mode: text_or_default(mount.mode.clone()),
            rw: match mount.rw {
                Some(rw) => rw,
                None => false,
            },
        };
        proof {
            assert(mount_info_views(r@.push(shown)) =~= mount_info_views(r@).push(shown@));
            assert(want.take(i + 1) =~= want.take(i as int).push(shown@));
        }
        r.push(shown);
        i += 1;
    }
    assert(want.take(n as int) == want);
    r
}

/// Makes the map from network name to address. Where a name comes twice,
/// the later address stays.
pub fn convert_networks(endpoints: &Vec<EngineEndpoint>) -> (r: StringMap)
    ensures
        r.pairs() == network_pairs_of(endpoints@),
{
    let mut r = StringMap::new();
    let n = endpoints.len();
    let mut i: usize = 0;
    assert(endpoints@.take(0) =~= Seq::<EngineEndpoint>::empty());
    while i < n
        invariant
            n == endpoints.len(),
            i <= n,
            r.pairs() == network_pairs_of(endpoints@.take(i as int)),
        decreases n - i,
    {
        let endpoint = &endpoints[i];
        proof {
            let next = endpoints@.take(i + 1);
            assert(next.drop_last() =~= endpoints@.take(i as int));
            assert(next.last() == *endpoint);
        }
        r.insert(endpoint.network.clone(), text_or_default(endpoint.ip_address.clone()));
        i += 1;
    }
    assert(endpoints@.take(n as int) == endpoints@);
    r
}

/// Makes the details that are shown from what the inspection reports.
pub fn convert_container_details(inspect: &EngineInspect) -> (r: ContainerDetails)
    ensures
        r@ == details_of(*inspect),
{
    let name = match &inspect.name {
        Some(name) => strip_leading(name.as_str(), '/'),
        None => String::new(),
    };
    let ports = match &inspect.port_bindings {
        Some(rows) => convert_port_bindings(rows),
        None => Vec::new(),
    };
    let mounts = match &inspect.mounts {
        Some(list) => convert_mounts(list),
        None => Vec::new(),
    };
    let env = match &inspect.env {
        Some(list) => copy_texts(list),
        None => Vec::new(),
    };
    let networks = match &inspect.networks {
        Some(list) => convert_networks(list),
        None => StringMap::new(),
    };
    let r = ContainerDetails {
        id: text_or_default(inspect.id.clone()),
        name,
        image: text_or_default(inspect.image.clone()),
        state: text_or_default(inspect.state.clone()),
        status: inspect.state_text.clone(),
        created: text_or_default(inspect.created.clone()),
        ports,
        mounts,
        env,
        network_settings: NetworkInfo { networks },
    };
    proof {
        let want = details_of(*inspect);
        assert(r@.ports =~= want.ports);
        assert(r@.mounts =~= want.mounts);
        assert(r@.env =~= want.env);
        assert(r@.networks =~= want.networks);
    }
    r
}

} // verus!

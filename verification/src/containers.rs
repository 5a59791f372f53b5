//! Containers as the console shows them, made from what the engine reports:
//! the entries of the container list and the details of one container.

use vstd::prelude::*;
use crate::text::{opt_text, opt_texts, skip_leading, strip_leading, text_or_default, texts};

verus! {

/// A published port of a container.
#[derive(Debug, Clone, PartialEq, Eq)]
pub struct PortMapping {
    /// The host address, empty where the engine gave none.
    pub ip: String,
    /// The port inside the container; 0 where it could not be read.
    pub private_port: u16,
    /// The port on the host.
    pub public_port: Option<u16>,
    /// The protocol, such as `tcp` or `udp`.
    pub port_type: String,
}

/// A published port as plain values.
pub struct PortMappingView {
    pub ip: Seq<char>,
    pub private_port: u16,
    pub public_port: Option<u16>,
    pub port_type: Seq<char>,
}

impl View for PortMapping {
    type V = PortMappingView;

    open spec fn view(&self) -> PortMappingView {
        PortMappingView {
            ip: self.ip@,
            private_port: self.private_port,
            public_port: self.public_port,
            port_type: self.port_type@,
        }
    }
}

/// The views of a list of published ports.
pub open spec fn mapping_views(ports: Seq<PortMapping>) -> Seq<PortMappingView> {
    ports.map_values(|p: PortMapping| p@)
}

/// Adding a port at the end of a list adds its view at the end of the
/// list's views.
pub proof fn lemma_mapping_views_push(ports: Seq<PortMapping>, port: PortMapping)
    ensures
        mapping_views(ports.push(port)) == mapping_views(ports).push(port@),
{
    assert(mapping_views(ports.push(port)) =~= mapping_views(ports).push(port@));
}

/// A port as the engine lists it with a container.
#[derive(Debug, Clone, PartialEq, Eq)]
pub struct EnginePort {
    pub ip: Option<String>,
    pub private_port: u16,
    pub public_port: Option<u16>,
    /// The protocol's name.
    pub typ: Option<String>,
}

/// A listed port as plain values.
pub struct EnginePortView {
    pub ip: Option<Seq<char>>,
    pub private_port: u16,
    pub public_port: Option<u16>,
    pub typ: Option<Seq<char>>,
}

impl View for EnginePort {
    type V = EnginePortView;

    open spec fn view(&self) -> EnginePortView {
        EnginePortView {
            ip: opt_text(self.ip),
            private_port: self.private_port,
            public_port: self.public_port,
            typ: opt_text(self.typ),
        }
    }
}

/// A text, empty where there is none.
pub open spec fn or_empty(text: Option<Seq<char>>) -> Seq<char> {
    match text {
        Some(t) => t,
        None => Seq::empty(),
    }
}

/// The published port for a listed port: what the engine left out is empty.
pub open spec fn listed_port_of(port: EnginePortView) -> PortMappingView {
    PortMappingView {
        ip: or_empty(port.ip),
        private_port: port.private_port,
        public_port: port.public_port,
        port_type: or_empty(port.typ),
    }
}

/// An entry of the engine's container list. The engine may leave any field
/// out.
#[derive(Debug, Clone, PartialEq, Eq)]
pub struct EngineContainer {
    pub id: Option<String>,
    /// The container's names, each with a leading `/`.
    pub names: Option<Vec<String>>,
    pub image: Option<String>,
    pub state: Option<String>,
    pub status: Option<String>,
    pub ports: Option<Vec<EnginePort>>,
    /// Seconds since the epoch.
    pub created: Option<i64>,
}

/// A list entry of the engine as plain values.
pub struct EngineContainerView {
    pub id: Option<Seq<char>>,
    pub names: Option<Seq<Seq<char>>>,
    pub image: Option<Seq<char>>,
    pub state: Option<Seq<char>>,
    pub status: Option<Seq<char>>,
    pub ports: Option<Seq<EnginePortView>>,
    pub created: Option<i64>,
}

impl View for EngineContainer {
    type V = EngineContainerView;

    open spec fn view(&self) -> EngineContainerView {
        EngineContainerView {
            id: opt_text(self.id),
            names: opt_texts(self.names),
            image: opt_text(self.image),
            state: opt_text(self.state),
            status: opt_text(self.status),
            ports: match self.ports {
                Some(list) => Some(list@.map_values(|p: EnginePort| p@)),
                None => None,
            },
            created: self.created,
        }
    }
}

/// A container as the list shows it.
#[derive(Debug, Clone, PartialEq, Eq)]
pub struct ContainerInfo {
    pub id: String,
    /// The name without the engine's leading `/`.
    pub name: String,
    pub image: String,
    pub state: String,
    pub status: String,
    pub ports: Vec<PortMapping>,
    /// Seconds since the epoch.
    pub created: i64,
}

/// A shown container as plain values.
pub struct ContainerInfoView {
    pub id: Seq<char>,
    pub name: Seq<char>,
    pub image: Seq<char>,
    pub state: Seq<char>,
    pub status: Seq<char>,
    pub ports: Seq<PortMappingView>,
    pub created: i64,
}

impl View for ContainerInfo {
    type V = ContainerInfoView;

    open spec fn view(&self) -> ContainerInfoView {
        ContainerInfoView {
            id: self.id@,
            name: self.name@,
            image: self.image@,
            state: self.state@,
            status: self.status@,
            ports: mapping_views(self.ports@),
            created: self.created,
        }
    }
}

/// The name that is shown for a list of engine names: the first, without
/// its leading `/`; empty where there is none.
pub open spec fn shown_name_of(names: Option<Seq<Seq<char>>>) -> Seq<char> {
    match names {
        Some(list) => if list.len() > 0 {
            skip_leading(list[0], '/')
        } else {
            Seq::empty()
        },
        None => Seq::empty(),
    }
}

/// What the list shows for an entry of the engine: a field that the engine
/// left out is empty, or 0 for the time of creation.
pub open spec fn container_info_of(container: EngineContainerView) -> ContainerInfoView {
    ContainerInfoView {
        id: or_empty(container.id),
        name: shown_name_of(container.names),
        image: or_empty(container.image),
        state: or_empty(container.state),
        status: or_empty(container.status),
        ports: match container.ports {
            Some(list) => list.map_values(|p: EnginePortView| listed_port_of(p)),
            None => Seq::empty(),
        },
        created: match container.created {
            Some(at) => at,
            None => 0,
        },
    }
}

/// The published ports for the ports that the engine lists.
fn convert_listed_ports(ports: &Vec<EnginePort>) -> (r: Vec<PortMapping>)
    ensures
        mapping_views(r@) == ports@.map_values(|p: EnginePort| p@).map_values(
            |p: EnginePortView| listed_port_of(p),
        ),
{
    let ghost want = ports@.map_values(|p: EnginePort| p@).map_values(
        |p: EnginePortView| listed_port_of(p),
    );
    let mut r: Vec<PortMapping> = Vec::new();
    let n = ports.len();
    let mut i: usize = 0;
    while i < n
        invariant
            n == ports.len(),
            i <= n,
            want == ports@.map_values(|p: EnginePort| p@).map_values(
                |p: EnginePortView| listed_port_of(p),
            ),
            mapping_views(r@) == want.take(i as int),
        decreases n - i,
    {
        let port = &ports[i];
        let shown = PortMapping {
            ip: text_or_default(port.ip.clone()),
            private_port: port.private_port,
            public_port: port.public_port,
            port_type: text_or_default(port.typ.clone()),
        };
        proof {
            lemma_mapping_views_push(r@, shown);
            assert(want.take(i + 1) =~= want.take(i as int).push(shown@));
        }
        r.push(shown);
        i += 1;
    }
    assert(want.take(n as int) == want);
    r
}

/// Makes the entry that the list shows from an entry of the engine.
pub fn convert_container_summary(container: &EngineContainer) -> (r: ContainerInfo)
    ensures
        r@ == container_info_of(container@),
{
    let name = match &container.names {
        Some(list) => if list.len() > 0 {
            assert(texts(list@)[0] == list@[0]@);
            strip_leading(list[0].as_str(), '/')
        } else {
            String::new()
        },
        None => String::new(),
    };
    let ports = match &container.ports {
        Some(list) => convert_listed_ports(list),
        None => Vec::new(),
    };
    let r = ContainerInfo {
        id: text_or_default(container.id.clone()),
        name,
        image: text_or_default(container.image.clone()),
        state: text_or_default(container.state.clone()),
        status: text_or_default(container.status.clone()),
        ports,
        created: match container.created {
            Some(at) => at,
            None => 0,
        },
    };
    assert(r@.ports =~= container_info_of(container@).ports);
    r
}

/// The views of a list of containers.
pub open spec fn info_views(items: Seq<ContainerInfo>) -> Seq<ContainerInfoView> {
    items.map_values(|c: ContainerInfo| c@)
}

/// Makes the list that is shown from the engine's list, entry by entry.
pub fn convert_container_list(containers: &Vec<EngineContainer>) -> (r: Vec<ContainerInfo>)
    ensures
        info_views(r@) == containers@.map_values(|c: EngineContainer| container_info_of(c@)),
{
    let ghost want = containers@.map_values(|c: EngineContainer| container_info_of(c@));
    let mut r: Vec<ContainerInfo> = Vec::new();
    let n = containers.len();
    let mut i: usize = 0;
    while i < n
        invariant
            n == containers.len(),
            i <= n,
            want == containers@.map_values(|c: EngineContainer| container_info_of(c@)),
            info_views(r@) == want.take(i as int),
        decreases n - i,
    {
        let shown = convert_container_summary(&containers[i]);
        proof {
            assert(info_views(r@.push(shown)) =~= info_views(r@).push(shown@));
            assert(want.take(i + 1) =~= want.take(i as int).push(shown@));
        }
        r.push(shown);
        i += 1;
    }
    assert(want.take(n as int) == want);
    r
}

} // verus!

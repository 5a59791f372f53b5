//! From a request to create a container to what the engine is asked for:
//! exposed ports and their bindings, bind mounts and volume mounts, limits,
//! the restart policy and the network endpoint.

use vstd::prelude::*;
use vstd::string::StringExecFns;
use crate::string_map::{StringMap, TextPair};
use crate::text::{
    copy_opt_text, copy_opt_texts, has_char, lemma_split_pair, lemma_texts_push, opt_text,
    opt_texts, split_on, split_spec, starts_with, str_starts_with, text_eq, texts,
};

verus! {

/// The address on which every published port listens.
pub const ANY_HOST_IP: &'static str = "0.0.0.0";

/// A request to create a container.
#[derive(Debug)]
pub struct CreateContainerRequest {
    /// The container's name; the engine picks one where there is none.
    pub name: Option<String>,
    /// The image to start from.
    pub image: String,
    /// Environment entries, each `KEY=VALUE`.
    pub env: Option<Vec<String>>,
    /// Published ports: from `containerPort/protocol` to the host port.
    pub ports: Option<StringMap>,
    /// Volume entries, each `source:target` or `source:target:mode`.
    pub volumes: Option<Vec<String>>,
    /// The network to attach to.
    pub network: Option<String>,
    /// A restart policy. Whatever it says, its presence asks for
    /// `unless-stopped`.
    pub restart_policy: Option<String>,
    /// The command, in place of the image's own.
    pub command: Option<Vec<String>>,
    /// Memory limit in bytes.
    pub memory_limit: Option<i64>,
    /// CPU quota, where 100000 is one core.
    pub cpu_quota: Option<i64>,
}

/// A request as plain values.
pub struct RequestView {
    pub name: Option<Seq<char>>,
    pub image: Seq<char>,
    pub env: Option<Seq<Seq<char>>>,
    pub ports: Option<Seq<TextPair>>,
    pub volumes: Option<Seq<Seq<char>>>,
    pub network: Option<Seq<char>>,
    pub restart_policy: Option<Seq<char>>,
    pub command: Option<Seq<Seq<char>>>,
    pub memory_limit: Option<i64>,
    pub cpu_quota: Option<i64>,
}

impl View for CreateContainerRequest {
    type V = RequestView;

    open spec fn view(&self) -> RequestView {
        RequestView {
            name: opt_text(self.name),
            image: self.image@,
            env: opt_texts(self.env),
            ports: match self.ports {
                Some(map) => Some(map.pairs()),
                None => None,
            },
            volumes: opt_texts(self.volumes),
            network: opt_text(self.network),
            restart_policy: opt_text(self.restart_policy),
            command: opt_texts(self.command),
            memory_limit: self.memory_limit,
            cpu_quota: self.cpu_quota,
        }
    }
}

/// One published port: the container's port, and the host address and port
/// bound to it.
#[derive(Debug, Clone, PartialEq, Eq)]
pub struct PortBinding {
    pub container_port: String,
    pub host_ip: String,
    pub host_port: String,
}

/// A published port as plain values.
pub struct PortBindingView {
    pub container_port: Seq<char>,
    pub host_ip: Seq<char>,
    pub host_port: Seq<char>,
}

impl View for PortBinding {
    type V = PortBindingView;

    open spec fn view(&self) -> PortBindingView {
        PortBindingView {
            container_port: self.container_port@,
            host_ip: self.host_ip@,
            host_port: self.host_port@,
        }
    }
}

/// A named volume mounted into the container.
#[derive(Debug, Clone, PartialEq, Eq)]
pub struct VolumeMount {
    pub source: String,
    pub target: String,
    pub read_only: bool,
}

/// A volume mount as plain values.
pub struct VolumeMountView {
    pub source: Seq<char>,
    pub target: Seq<char>,
    pub read_only: bool,
}

impl View for VolumeMount {
    type V = VolumeMountView;

    open spec fn view(&self) -> VolumeMountView {
        VolumeMountView { source: self.source@, target: self.target@, read_only: self.read_only }
    }
}

/// The restart policies that a plan can ask for.
#[derive(Debug, Clone, Copy, PartialEq, Eq, Structural)]
pub enum RestartPolicy {
    /// Restart unless the container was stopped by hand.
    UnlessStopped,
}

/// What one volume entry asks for.
#[derive(Debug, Clone, PartialEq, Eq)]
pub enum VolumeEntry {
    /// Fewer than two parts: nothing.
    Skipped,
    /// A host path bound into the container, as `source:target:mode`.
    Bind(String),
    /// A named volume.
    Volume(VolumeMount),
}

/// A volume entry's meaning as plain values.
pub enum VolumeEntryView {
    Skipped,
    Bind(Seq<char>),
    Volume(VolumeMountView),
}

impl View for VolumeEntry {
    type V = VolumeEntryView;

    open spec fn view(&self) -> VolumeEntryView {
        match self {
            VolumeEntry::Skipped => VolumeEntryView::Skipped,
            VolumeEntry::Bind(bind) => VolumeEntryView::Bind(bind@),
            VolumeEntry::Volume(mount) => VolumeEntryView::Volume(mount@),
        }
    }
}

/// Whether a volume's source is a path on the host: it starts with `/` or
/// `.`. Any other source names a volume.
pub open spec fn is_host_path(source: Seq<char>) -> bool {
    starts_with(source, "/"@) || starts_with(source, "."@)
}

/// What a volume entry asks for. Its parts are `source`, `target` and an
/// optional mode, `rw` where there is none; parts after the third are not
/// looked at.
pub open spec fn volume_entry_of(entry: Seq<char>) -> VolumeEntryView {
    let parts = split_spec(entry, ':');
    if parts.len() < 2 {
        VolumeEntryView::Skipped
    } else {
        let mode = if parts.len() > 2 {
            parts[2]
        } else {
            "rw"@
        };
        if is_host_path(parts[0]) {
            VolumeEntryView::Bind(parts[0] + ":"@ + parts[1] + ":"@ + mode)
        } else {
            VolumeEntryView::Volume(
                VolumeMountView { source: parts[0], target: parts[1], read_only: mode == "ro"@ },
            )
        }
    }
}

/// `source:target` without a mode is mounted for reading and writing: as a
/// bind mount where the source is a path on the host, as a volume where it
/// is not.
pub proof fn lemma_volume_entry_without_mode(source: Seq<char>, target: Seq<char>)
    requires
        !has_char(source, ':'),
        !has_char(target, ':'),
    ensures
        volume_entry_of(source + seq![':'] + target) == if is_host_path(source) {
            VolumeEntryView::Bind(source + ":"@ + target + ":rw"@)
        } else {
            VolumeEntryView::Volume(VolumeMountView { source, target, read_only: false })
        },
{
    lemma_split_pair(source, target, ':');
    reveal_strlit("rw");
    reveal_strlit("ro");
    reveal_strlit(":");
    reveal_strlit(":rw");
    assert("rw"@[1] != "ro"@[1]);
    assert(":rw"@ =~= ":"@ + "rw"@);
    assert(source + ":"@ + target + ":"@ + "rw"@ =~= source + ":"@ + target + ":rw"@);
}

/// Reads one volume entry.
pub fn read_volume_entry(entry: &str) -> (r: VolumeEntry)
    ensures
        r@ == volume_entry_of(entry@),
{
    let parts = split_on(entry, ':');
    assert(texts(parts@).len() == parts@.len());
    if parts.len() < 2 {
        return VolumeEntry::Skipped;
    }
    assert(texts(parts@)[0] == parts@[0]@);
    assert(texts(parts@)[1] == parts@[1]@);
    let source = parts[0].as_str();
    let target = parts[1].as_str();
    let mode = if parts.len() > 2 {
        assert(texts(parts@)[2] == parts@[2]@);
        parts[2].as_str()
    } else {
        "rw"
    };
    if str_starts_with(source, "/") || str_starts_with(source, ".") {
        let mut bind = String::from_str(source);
        bind.append(":");
        bind.append(target);
        bind.append(":");
        bind.append(mode);
        VolumeEntry::Bind(bind)
    } else {
        VolumeEntry::Volume(
            VolumeMount {
                source: String::from_str(source),
                target: String::from_str(target),
                read_only: text_eq(mode, "ro"),
            },
        )
    }
}

/// The bind mounts among a list of volume entries, in order.
pub open spec fn binds_of(entries: Seq<Seq<char>>) -> Seq<Seq<char>>
    decreases entries.len(),
{
    if entries.len() == 0 {
        Seq::empty()
    } else {
        let front = binds_of(entries.drop_last());
        match volume_entry_of(entries.last()) {
            VolumeEntryView::Bind(bind) => front.push(bind),
            _ => front,
        }
    }
}

/// The volume mounts among a list of volume entries, in order.
pub open spec fn mounts_of(entries: Seq<Seq<char>>) -> Seq<VolumeMountView>
    decreases entries.len(),
{
    if entries.len() == 0 {
        Seq::empty()
    } else {
        let front = mounts_of(entries.drop_last());
        match volume_entry_of(entries.last()) {
            VolumeEntryView::Volume(mount) => front.push(mount),
            _ => front,
        }
    }
}

/// The views of a list of volume mounts.
pub open spec fn mount_views(mounts: Seq<VolumeMount>) -> Seq<VolumeMountView> {
    mounts.map_values(|m: VolumeMount| m@)
}

/// The views of a list of port bindings.
pub open spec fn binding_views(bindings: Seq<PortBinding>) -> Seq<PortBindingView> {
    bindings.map_values(|b: PortBinding| b@)
}

/// The binding that publishes one entry of the port map.
pub open spec fn binding_of(pair: TextPair) -> PortBindingView {
    PortBindingView { container_port: pair.0, host_ip: ANY_HOST_IP@, host_port: pair.1 }
}

/// A list, or nothing where the list is empty.
pub open spec fn non_empty<T>(items: Seq<T>) -> Option<Seq<T>> {
    if items.len() == 0 {
        None
    } else {
        Some(items)
    }
}

/// What the engine is asked for when a container is created.
#[derive(Debug, Clone, PartialEq, Eq)]
pub struct ContainerPlan {
    /// The container's name, where the request gave one.
    pub name: Option<String>,
    pub image: String,
    pub env: Option<Vec<String>>,
    pub command: Option<Vec<String>>,
    /// The container ports that are exposed.
    pub exposed_ports: Option<Vec<String>>,
    /// One binding for each exposed port.
    pub port_bindings: Option<Vec<PortBinding>>,
    /// Host paths bound into the container.
    pub binds: Option<Vec<String>>,
    /// Named volumes mounted into the container.
    pub mounts: Option<Vec<VolumeMount>>,
    pub memory: Option<i64>,
    pub cpu_quota: Option<i64>,
    pub restart_policy: Option<RestartPolicy>,
    /// The networks for which an endpoint with default settings is made.
    pub endpoints: Vec<String>,
}

/// A plan as plain values.
pub struct PlanView {
    pub name: Option<Seq<char>>,
    pub image: Seq<char>,
    pub env: Option<Seq<Seq<char>>>,
    pub command: Option<Seq<Seq<char>>>,
    pub exposed_ports: Option<Seq<Seq<char>>>,
    pub port_bindings: Option<Seq<PortBindingView>>,
    pub binds: Option<Seq<Seq<char>>>,
    pub mounts: Option<Seq<VolumeMountView>>,
    pub memory: Option<i64>,
    pub cpu_quota: Option<i64>,
    pub restart_policy: Option<RestartPolicy>,
    pub endpoints: Seq<Seq<char>>,
}

impl View for ContainerPlan {
    type V = PlanView;

    open spec fn view(&self) -> PlanView {
        PlanView {
            name: opt_text(self.name),
            image: self.image@,
            env: opt_texts(self.env),
            command: opt_texts(self.command),
            exposed_ports: opt_texts(self.exposed_ports),
            port_bindings: match self.port_bindings {
                Some(list) => Some(binding_views(list@)),
                None => None,
            },
            binds: opt_texts(self.binds),
            mounts: match self.mounts {
                Some(list) => Some(mount_views(list@)),
                None => None,
            },
            memory: self.memory,
            cpu_quota: self.cpu_quota,
            restart_policy: self.restart_policy,
            endpoints: texts(self.endpoints@),
        }
    }
}

/// The plan for a request. Every entry of the port map is exposed and bound
/// on `0.0.0.0`; volume entries become bind mounts or volume mounts; any
/// restart policy asks for `unless-stopped`; a network gets one endpoint.
/// A list that would be empty is left out.
pub open spec fn plan_of(request: RequestView) -> PlanView {
    let ports = match request.ports {
        Some(pairs) => pairs,
        None => Seq::empty(),
    };
    let volumes = match request.volumes {
        Some(entries) => entries,
        None => Seq::empty(),
    };
    PlanView {
        name: request.name,
        image: request.image,
        env: request.env,
        command: request.command,
        exposed_ports: non_empty(ports.map_values(|pair: TextPair| pair.0)),
        port_bindings: non_empty(ports.map_values(|pair: TextPair| binding_of(pair))),
        binds: non_empty(binds_of(volumes)),
        mounts: non_empty(mounts_of(volumes)),
        memory: request.memory_limit,
        cpu_quota: request.cpu_quota,
        restart_policy: match request.restart_policy {
            Some(_) => Some(RestartPolicy::UnlessStopped),
            None => None,
        },
        endpoints: match request.network {
            Some(network) => seq![network],
            None => Seq::empty(),
        },
    }
}

/// The exposed ports and the bindings for a port map.
fn plan_ports(ports: &StringMap) -> (r: (Vec<String>, Vec<PortBinding>))
    ensures
        texts(r.0@) == ports.pairs().map_values(|pair: TextPair| pair.0),
        binding_views(r.1@) == ports.pairs().map_values(|pair: TextPair| binding_of(pair)),
{
    let mut exposed: Vec<String> = Vec::new();
    let mut bindings: Vec<PortBinding> = Vec::new();
    let n = ports.len();
    let mut i: usize = 0;
    while i < n
        invariant
            n == ports.pairs().len(),
            i <= n,
            texts(exposed@) == ports.pairs().map_values(|pair: TextPair| pair.0).take(i as int),
            binding_views(bindings@) == ports.pairs().map_values(
                |pair: TextPair| binding_of(pair),
            ).take(i as int),
        decreases n - i,
    {
        let container_port = ports.key_at(i);
        let host_port = ports.value_at(i);
        let binding = PortBinding {
            container_port: container_port.clone(),
            host_ip: String::from_str(ANY_HOST_IP),
            host_port: host_port.clone(),
        };
        let port = container_port.clone();
        proof {
            lemma_texts_push(exposed@, port);
            assert(binding_views(bindings@.push(binding)) =~= binding_views(bindings@).push(
                binding@,
            ));
            assert(ports.pairs().map_values(|pair: TextPair| pair.0).take(i + 1)
                =~= ports.pairs().map_values(|pair: TextPair| pair.0).take(i as int).push(port@));
            assert(ports.pairs().map_values(|pair: TextPair| binding_of(pair)).take(i + 1)
                =~= ports.pairs().map_values(|pair: TextPair| binding_of(pair)).take(
                i as int,
            ).push(binding@));
        }
        exposed.push(port);
        bindings.push(binding);
        i += 1;
    }
    proof {
        let names = ports.pairs().map_values(|pair: TextPair| pair.0);
        let binds = ports.pairs().map_values(|pair: TextPair| binding_of(pair));
        assert(names.take(n as int) == names);
        assert(binds.take(n as int) == binds);
    }
    (exposed, bindings)
}

/// The bind mounts and the volume mounts for a list of volume entries.
fn plan_volumes(entries: &Vec<String>) -> (r: (Vec<String>, Vec<VolumeMount>))
    ensures
        texts(r.0@) == binds_of(texts(entries@)),
        mount_views(r.1@) == mounts_of(texts(entries@)),
{
    let mut binds: Vec<String> = Vec::new();
    let mut mounts: Vec<VolumeMount> = Vec::new();
    let n = entries.len();
    let mut i: usize = 0;
    assert(texts(entries@).take(0) =~= Seq::<Seq<char>>::empty());
    assert(texts(binds@) =~= Seq::<Seq<char>>::empty());
    assert(mount_views(mounts@) =~= Seq::<VolumeMountView>::empty());
    while i < n
        invariant
            n == entries.len(),
            i <= n,
            texts(binds@) == binds_of(texts(entries@).take(i as int)),
            mount_views(mounts@) == mounts_of(texts(entries@).take(i as int)),
        decreases n - i,
    {
        proof {
            let next = texts(entries@).take(i + 1);
            assert(next.drop_last() =~= texts(entries@).take(i as int));
            assert(next.last() == entries@[i as int]@);
        }
        match read_volume_entry(entries[i].as_str()) {
            VolumeEntry::Skipped => {},
            VolumeEntry::Bind(bind) => {
                proof {
                    lemma_texts_push(binds@, bind);
                }
                binds.push(bind);
            },
            VolumeEntry::Volume(mount) => {
                assert(mount_views(mounts@.push(mount)) =~= mount_views(mounts@).push(mount@));
                mounts.push(mount);
            },
        }
        i += 1;
    }
    assert(texts(entries@).take(n as int) == texts(entries@));
    (binds, mounts)
}

/// Works out what the engine is asked for when `request` is carried out.
pub fn plan_container(request: &CreateContainerRequest) -> (plan: ContainerPlan)
    ensures
        plan@ == plan_of(request@),
{
    let (exposed, bindings) = match &request.ports {
        Some(ports) => plan_ports(ports),
        None => (Vec::new(), Vec::new()),
    };
    let (binds, mounts) = match &request.volumes {
        Some(entries) => plan_volumes(entries),
        None => (Vec::new(), Vec::new()),
    };
    let restart_policy = match &request.restart_policy {
        Some(_) => Some(RestartPolicy::UnlessStopped),
        None => None,
    };
    let mut endpoints: Vec<String> = Vec::new();
    match &request.network {
        Some(network) => {
            endpoints.push(network.clone());
        },
        None => {},
    }
    let plan = ContainerPlan {
        name: copy_opt_text(&request.name),
        image: request.image.clone(),
        env: copy_opt_texts(&request.env),
        command: copy_opt_texts(&request.command),
        exposed_ports: if exposed.len() == 0 {
            None
        } else {
            Some(exposed)
        },
        port_bindings: if bindings.len() == 0 {
            None
        } else {
            Some(bindings)
        },
        binds: if binds.len() == 0 {
            None
        } else {
            Some(binds)
        },
        mounts: if mounts.len() == 0 {
            None
        } else {
            Some(mounts)
        },
        memory: request.memory_limit,
        cpu_quota: request.cpu_quota,
        restart_policy,
        endpoints,
    };
    proof {
        let want = plan_of(request@);
        assert(plan@.endpoints =~= want.endpoints);
        assert(plan@.exposed_ports == want.exposed_ports);
        assert(plan@.port_bindings == want.port_bindings);
        assert(plan@.binds == want.binds);
        assert(plan@.mounts == want.mounts);
    }
    plan
}

} // verus!

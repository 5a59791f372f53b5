//! Deploying a compose file: what each service asks of the engine, and the
//! record of how each service fared.

use vstd::prelude::*;
use vstd::string::StringExecFns;
use crate::creation::{non_empty, CreateContainerRequest, RequestView};
use crate::decimal::{
    decimal_text, is_digit, lemma_decimal_text_digits, parse_i64, parse_i64_spec,
};
use crate::string_map::{put, StringMap, TextPair};
use crate::text::{
    chars_of, copy_opt_text, copy_opt_texts, has_char, lemma_split_pair, lemma_texts_push,
    lowercased, opt_text, opt_texts, split_on, split_spec, str_has_char, texts, trim_text,
    trimmed,
};

verus! {

/// Bytes in a kibibyte.
pub const KIB: i64 = 1024;

/// Bytes in a mebibyte.
pub const MIB: i64 = 1048576;

/// Bytes in a gibibyte.
pub const GIB: i64 = 1073741824;

/// The number that `text` denotes, times `factor`, where that fits in 64
/// bits.
pub open spec fn scaled(text: Seq<char>, factor: int) -> Option<i64> {
    match parse_i64_spec(text) {
        Some(v) => if i64::MIN <= v * factor <= i64::MAX {
            Some((v * factor) as i64)
        } else {
            None
        },
        None => None,
    }
}

/// The bytes that a trimmed, lowercase memory limit denotes. A last `g`, `m`
/// or `k` scales the integer before it by 1024³, 1024² or 1024; without one
/// the whole text is the number of bytes. Nothing where the number cannot be
/// read or the bytes pass 64 bits.
pub open spec fn memory_limit_of(limit: Seq<char>) -> Option<i64> {
    if limit.len() > 0 && limit.last() == 'g' {
        scaled(limit.drop_last(), GIB as int)
    } else if limit.len() > 0 && limit.last() == 'm' {
        scaled(limit.drop_last(), MIB as int)
    } else if limit.len() > 0 && limit.last() == 'k' {
        scaled(limit.drop_last(), KIB as int)
    } else {
        parse_i64_spec(limit)
    }
}

/// A number written in decimal, with or without a unit after it, denotes
/// that number of bytes, gibibytes, mebibytes or kibibytes.
pub proof fn lemma_memory_limit_units(n: nat)
    ensures
        n <= i64::MAX ==> memory_limit_of(decimal_text(n)) == Some(n as i64),
        n * GIB <= i64::MAX ==> memory_limit_of(decimal_text(n).push('g')) == Some(
            (n * GIB) as i64,
        ),
        n * MIB <= i64::MAX ==> memory_limit_of(decimal_text(n).push('m')) == Some(
            (n * MIB) as i64,
        ),
        n * KIB <= i64::MAX ==> memory_limit_of(decimal_text(n).push('k')) == Some(
            (n * KIB) as i64,
        ),
{
    let t = decimal_text(n);
    lemma_decimal_text_digits(n);
    assert(is_digit(t[0]));
    assert(is_digit(t.last()));
    assert(t.push('g').drop_last() == t);
    assert(t.push('m').drop_last() == t);
    assert(t.push('k').drop_last() == t);
}

/// Reads the integer `text` and scales it by `factor`.
fn read_scaled(text: &str, factor: i64) -> (r: Option<i64>)
    ensures
        r == scaled(text@, factor as int),
{
    match parse_i64(text) {
        Some(v) => v.checked_mul(factor),
        None => None,
    }
}

/// Reads a memory limit that was already trimmed and lowercased.
pub fn read_memory_limit(limit: &str) -> (r: Option<i64>)
    ensures
        r == memory_limit_of(limit@),
{
    let chars = chars_of(limit);
    let n = chars.len();
    if n == 0 {
        return parse_i64(limit);
    }
    let last = chars[n - 1];
    assert(limit@.drop_last() == limit@.subrange(0, n - 1));
    if last == 'g' {
        read_scaled(limit.substring_char(0, n - 1), GIB)
    } else if last == 'm' {
        read_scaled(limit.substring_char(0, n - 1), MIB)
    } else if last == 'k' {
        read_scaled(limit.substring_char(0, n - 1), KIB)
    } else {
        parse_i64(limit)
    }
}

/// Reads a memory limit such as `512m`, `1g`, `2k` or `100` into bytes,
/// whatever its case and the white space around it.
pub fn parse_memory_limit(limit_str: &str) -> (r: Option<i64>)
    ensures
        r == memory_limit_of(lowercased(trimmed(limit_str@))),
{
    let normalized = trim_text(limit_str).to_lowercase();
    read_memory_limit(normalized.as_str())
}

/// The `command` of a service: absent, one string, or a list whose items
/// are strings or something else.
#[derive(Debug, Clone, PartialEq, Eq)]
pub enum ComposeCommand {
    /// No command, or a value that is neither a string nor a list.
    Absent,
    /// A single string.
    Single(String),
    /// A list; an item that is not a string is `None`.
    List(Vec<Option<String>>),
}

/// A command as plain values.
pub enum CommandView {
    Absent,
    Single(Seq<char>),
    List(Seq<Option<Seq<char>>>),
}

impl View for ComposeCommand {
    type V = CommandView;

    open spec fn view(&self) -> CommandView {
        match self {
            ComposeCommand::Absent => CommandView::Absent,
            ComposeCommand::Single(text) => CommandView::Single(text@),
            ComposeCommand::List(items) => CommandView::List(
                items@.map_values(|item: Option<String>| opt_text(item)),
            ),
        }
    }
}

/// The strings among the items of a list, in order.
pub open spec fn strings_among(items: Seq<Option<Seq<char>>>) -> Seq<Seq<char>>
    decreases items.len(),
{
    if items.len() == 0 {
        Seq::empty()
    } else {
        let front = strings_among(items.drop_last());
        match items.last() {
            Some(text) => front.push(text),
            None => front,
        }
    }
}

/// The command line that a `command` stands for: one string becomes a list
/// of one, a list keeps its strings and drops the rest.
pub open spec fn command_line_of(command: CommandView) -> Option<Seq<Seq<char>>> {
    match command {
        CommandView::Absent => None,
        CommandView::Single(text) => Some(seq![text]),
        CommandView::List(items) => Some(strings_among(items)),
    }
}

/// Brings a `command` into the form of a command line.
pub fn command_line(command: &ComposeCommand) -> (r: Option<Vec<String>>)
    ensures
        opt_texts(r) == command_line_of(command@),
{
    match command {
        ComposeCommand::Absent => None,
        ComposeCommand::Single(text) => {
            let mut line: Vec<String> = Vec::new();
            line.push(text.clone());
            assert(texts(line@) =~= seq![text@]);
            Some(line)
        },
        ComposeCommand::List(items) => {
            let ghost views = items@.map_values(|item: Option<String>| opt_text(item));
            let mut line: Vec<String> = Vec::new();
            let n = items.len();
            let mut i: usize = 0;
            assert(views.take(0) =~= Seq::<Option<Seq<char>>>::empty());
            assert(texts(line@) =~= Seq::<Seq<char>>::empty());
            while i < n
                invariant
                    n == items.len(),
                    i <= n,
                    views == items@.map_values(|item: Option<String>| opt_text(item)),
                    texts(line@) == strings_among(views.take(i as int)),
                decreases n - i,
            {
                proof {
                    let next = views.take(i + 1);
                    assert(next.drop_last() =~= views.take(i as int));
                    assert(next.last() == opt_text(items@[i as int]));
                }
                match &items[i] {
                    Some(text) => {
                        let item = text.clone();
                        proof {
                            lemma_texts_push(line@, item);
                        }
                        line.push(item);
                    },
                    None => {},
                }
                i += 1;
            }
            assert(views.take(n as int) == views);
            Some(line)
        },
    }
}

/// The port map entry that a compose port stands for. `host:container`
/// publishes the container's port, over `tcp` unless the container part
/// names a protocol after a `/`; an entry with any other number of parts
/// publishes nothing.
pub open spec fn compose_port_of(entry: Seq<char>) -> Option<TextPair> {
    let parts = split_spec(entry, ':');
    if parts.len() == 2 {
        let key = if has_char(parts[1], '/') {
            parts[1]
        } else {
            parts[1] + "/tcp"@
        };
        Some((key, parts[0]))
    } else {
        None
    }
}

/// `host:container` publishes the container's port on the host's: over `tcp`
/// where the container part names no protocol, over the named protocol
/// where it does.
pub proof fn lemma_compose_port(host: Seq<char>, container: Seq<char>)
    requires
        !has_char(host, ':'),
        !has_char(container, ':'),
    ensures
        compose_port_of(host + seq![':'] + container) == Some(
            (
                if has_char(container, '/') {
                    container
                } else {
                    container + "/tcp"@
                },
                host,
            ),
        ),
{
    lemma_split_pair(host, container, ':');
}

/// The pairs of the port map for a list of compose ports: each entry is put
/// in turn, so that a later entry for the same container port overrides an
/// earlier one.
pub open spec fn compose_ports_of(entries: Seq<Seq<char>>) -> Seq<TextPair>
    decreases entries.len(),
{
    if entries.len() == 0 {
        Seq::empty()
    } else {
        let front = compose_ports_of(entries.drop_last());
        match compose_port_of(entries.last()) {
            Some(pair) => put(front, pair.0, pair.1),
            None => front,
        }
    }
}

/// Reads one compose port.
pub fn read_compose_port(entry: &str) -> (r: Option<(String, String)>)
    ensures
        match r {
            Some(pair) => compose_port_of(entry@) == Some((pair.0@, pair.1@)),
            None => compose_port_of(entry@) is None,
        },
{
    let parts = split_on(entry, ':');
    assert(texts(parts@).len() == parts@.len());
    if parts.len() != 2 {
        return None;
    }
    assert(texts(parts@)[0] == parts@[0]@);
    assert(texts(parts@)[1] == parts@[1]@);
    let host_port = parts[0].clone();
    let mut key = parts[1].clone();
    if !str_has_char(parts[1].as_str(), '/') {
        key.append("/tcp");
    }
    Some((key, host_port))
}

/// The port map for a list of compose ports.
pub fn read_compose_ports(entries: &Vec<String>) -> (r: StringMap)
    ensures
        r.pairs() == compose_ports_of(texts(entries@)),
{
    let mut r = StringMap::new();
    let n = entries.len();
    let mut i: usize = 0;
    assert(texts(entries@).take(0) =~= Seq::<Seq<char>>::empty());
    while i < n
        invariant
            n == entries.len(),
            i <= n,
            r.pairs() == compose_ports_of(texts(entries@).take(i as int)),
        decreases n - i,
    {
        proof {
            let next = texts(entries@).take(i + 1);
            assert(next.drop_last() =~= texts(entries@).take(i as int));
            assert(next.last() == entries@[i as int]@);
        }
        match read_compose_port(entries[i].as_str()) {
            Some(pair) => {
                r.insert(pair.0, pair.1);
            },
            None => {},
        }
        i += 1;
    }
    assert(texts(entries@).take(n as int) == texts(entries@));
    r
}

/// One service of a compose file.
#[derive(Debug, Clone, PartialEq, Eq)]
pub struct ComposeService {
    pub image: Option<String>,
    pub container_name: Option<String>,
    /// Environment entries, each `KEY=VALUE`.
    pub environment: Option<Vec<String>>,
    /// Published ports, each `host:container` or `host:container/protocol`.
    pub ports: Option<Vec<String>>,
    /// Volume entries, each `source:target` or `source:target:mode`.
    pub volumes: Option<Vec<String>>,
    /// Networks; only the first is used.
    pub networks: Option<Vec<String>>,
    pub restart: Option<String>,
    pub command: ComposeCommand,
    /// Memory limit such as `512m`.
    pub mem_limit: Option<String>,
    /// The service's share of CPU as a quota, where 100000 is one core.
    pub cpu_quota: Option<i64>,
}

/// A service as plain values.
pub struct ServiceView {
    pub image: Option<Seq<char>>,
    pub container_name: Option<Seq<char>>,
    pub environment: Option<Seq<Seq<char>>>,
    pub ports: Option<Seq<Seq<char>>>,
    pub volumes: Option<Seq<Seq<char>>>,
    pub networks: Option<Seq<Seq<char>>>,
    pub restart: Option<Seq<char>>,
    pub command: CommandView,
    pub mem_limit: Option<Seq<char>>,
    pub cpu_quota: Option<i64>,
}

impl View for ComposeService {
    type V = ServiceView;

    open spec fn view(&self) -> ServiceView {
        ServiceView {
            image: opt_text(self.image),
            container_name: opt_text(self.container_name),
            environment: opt_texts(self.environment),
            ports: opt_texts(self.ports),
            volumes: opt_texts(self.volumes),
            networks: opt_texts(self.networks),
            restart: opt_text(self.restart),
            command: self.command@,
            mem_limit: opt_text(self.mem_limit),
            cpu_quota: self.cpu_quota,
        }
    }
}

/// The message for a service without an image.
pub const NO_IMAGE: &'static str = "No image specified";

/// The request that creates the container of a service, or nothing where
/// the service names no image. The container is named after the service
/// unless the service gives it a name; of the networks only the first is
/// used; a memory limit that cannot be read is left out.
pub open spec fn request_of(service_name: Seq<char>, service: ServiceView) -> Option<RequestView> {
    match service.image {
        None => None,
        Some(image) => Some(
            RequestView {
                name: Some(
                    match service.container_name {
                        Some(name) => name,
                        None => service_name,
                    },
                ),
                image,
                env: service.environment,
                ports: match service.ports {
                    Some(entries) => non_empty(compose_ports_of(entries)),
                    None => None,
                },
                volumes: service.volumes,
                network: match service.networks {
                    Some(networks) => if networks.len() > 0 {
                        Some(networks[0])
                    } else {
                        None
                    },
                    None => None,
                },
                restart_policy: service.restart,
                command: command_line_of(service.command),
                memory_limit: match service.mem_limit {
                    Some(limit) => memory_limit_of(lowercased(trimmed(limit))),
                    None => None,
                },
                cpu_quota: service.cpu_quota,
            },
        ),
    }
}

/// Works out the request that creates the container of a service. Fails
/// with `NO_IMAGE` exactly where the service names no image.
pub fn service_request(service_name: &str, service: &ComposeService) -> (r: Result<
    CreateContainerRequest,
    String,
>)
    ensures
        match r {
            Ok(request) => request_of(service_name@, service@) == Some(request@),
            Err(message) => request_of(service_name@, service@) is None && message@ == NO_IMAGE@,
        },
{
    let image = match &service.image {
        Some(image) => image.clone(),
        None => {
            return Err(String::from_str(NO_IMAGE));
        },
    };
    let ports = match &service.ports {
        Some(entries) => {
            let map = read_compose_ports(entries);
            if map.is_empty() {
                None
            } else {
                Some(map)
            }
        },
        None => None,
    };
    let memory_limit = match &service.mem_limit {
        Some(limit) => parse_memory_limit(limit.as_str()),
        None => None,
    };
    let network = match &service.networks {
        Some(networks) => if networks.len() > 0 {
            assert(texts(networks@)[0] == networks@[0]@);
            Some(networks[0].clone())
        } else {
            None
        },
        None => None,
    };
    let name = match &service.container_name {
        Some(name) => name.clone(),
        None => String::from_str(service_name),
    };
    let request = CreateContainerRequest {
        name: Some(name),
        image,
        env: copy_opt_texts(&service.environment),
        ports,
        volumes: copy_opt_texts(&service.volumes),
        network,
        restart_policy: copy_opt_text(&service.restart),
        command: command_line(&service.command),
        memory_limit,
        cpu_quota: service.cpu_quota,
    };
    Ok(request)
}

/// How the deployment of one service fared.
#[derive(Debug, Clone, PartialEq, Eq)]
pub struct ComposeDeployResult {
    pub service_name: String,
    /// The new container's id, where one was created.
    pub container_id: Option<String>,
    pub success: bool,
    /// What went wrong, where something did.
    pub error: Option<String>,
}

/// A deployment result as plain values.
pub struct DeployResultView {
    pub service_name: Seq<char>,
    pub container_id: Option<Seq<char>>,
    pub success: bool,
    pub error: Option<Seq<char>>,
}

impl View for ComposeDeployResult {
    type V = DeployResultView;

    open spec fn view(&self) -> DeployResultView {
        DeployResultView {
            service_name: self.service_name@,
            container_id: opt_text(self.container_id),
            success: self.success,
            error: opt_text(self.error),
        }
    }
}

/// The result for a service from what came of it: the new container's id,
/// or the message of the failure.
pub open spec fn deploy_result_of(
    service_name: Seq<char>,
    outcome: Result<Seq<char>, Seq<char>>,
) -> DeployResultView {
    match outcome {
        Ok(id) => DeployResultView {
            service_name,
            container_id: Some(id),
            success: true,
            error: None,
        },
        Err(message) => DeployResultView {
            service_name,
            container_id: None,
            success: false,
            error: Some(message),
        },
    }
}

/// An outcome with its texts taken by their views.
pub open spec fn outcome_view(outcome: Result<String, String>) -> Result<Seq<char>, Seq<char>> {
    match outcome {
        Ok(id) => Ok(id@),
        Err(message) => Err(message@),
    }
}

/// Records what came of a service: success with the container's id, or
/// failure with its message.
pub fn deploy_result(service_name: &str, outcome: Result<String, String>) -> (r:
    ComposeDeployResult)
    ensures
        r@ == deploy_result_of(service_name@, outcome_view(outcome)),
{
    match outcome {
        Ok(id) => ComposeDeployResult {
            service_name: String::from_str(service_name),
            container_id: Some(id),
            success: true,
            error: None,
        },
        Err(message) => ComposeDeployResult {
            service_name: String::from_str(service_name),
            container_id: None,
            success: false,
            error: Some(message),
        },
    }
}

/// A service with the name under which the compose file declares it.
#[derive(Debug, Clone, PartialEq, Eq)]
pub struct NamedService {
    pub name: String,
    pub service: ComposeService,
}

/// Whether `results` holds what is known so far of deploying `services`:
/// one result for each of the first services, under that service's name,
/// and for a service without an image the failure that says so.
pub open spec fn reports_in_order(
    services: Seq<NamedService>,
    results: Seq<ComposeDeployResult>,
) -> bool {
    &&& results.len() <= services.len()
    &&& forall|k: int|
        0 <= k < results.len() ==> {
            &&& (#[trigger] results[k])@.service_name == services[k].name@
            &&& services[k].service.image is None ==> results[k]@ == deploy_result_of(
                services[k].name@,
                Err(NO_IMAGE@),
            )
        }
}

/// The deployment of the services of a compose file, one after the other.
/// Containers are created by the caller: `next_request` hands out the
/// request for the next service, `record` takes what came of it. A service
/// that fails has its failure recorded, and the deployment goes on with the
/// next one.
#[derive(Debug)]
pub struct Deployment {
    services: Vec<NamedService>,
    results: Vec<ComposeDeployResult>,
}

impl Deployment {
    #[verifier::type_invariant]
    spec fn in_order(&self) -> bool {
        reports_in_order(self.services@, self.results@)
    }

    /// The services to deploy, in order.
    pub closed spec fn services(&self) -> Seq<NamedService> {
        self.services@
    }

    /// The results so far: those of the first services, in order.
    pub closed spec fn results(&self) -> Seq<ComposeDeployResult> {
        self.results@
    }

    /// Whether every service has its result.
    pub open spec fn finished(&self) -> bool {
        self.results().len() == self.services().len()
    }

    /// A deployment of `services` of which nothing is done yet.
    pub fn new(services: Vec<NamedService>) -> (r: Self)
        ensures
            r.services() == services@,
            r.results() == Seq::<ComposeDeployResult>::empty(),
    {
        Deployment { services, results: Vec::new() }
    }

    /// Whether every service has its result.
    pub fn is_finished(&self) -> (r: bool)
        ensures
            r == self.finished(),
            reports_in_order(self.services(), self.results()),
    {
        proof {
            use_type_invariant(self);
        }
        self.results.len() == self.services.len()
    }

    /// The request for the next service that names an image. On the way,
    /// each service that names none gets its failure recorded. `None` means
    /// that every service has its result.
    pub fn next_request(&mut self) -> (r: Option<CreateContainerRequest>)
        ensures
            final(self).services() == old(self).services(),
            reports_in_order(final(self).services(), final(self).results()),
            old(self).results().len() <= final(self).results().len(),
            final(self).results().take(old(self).results().len() as int) == old(self).results(),
            forall|k: int|
                old(self).results().len() <= k < final(self).results().len() ==> (
                #[trigger] final(self).services()[k]).service.image is None,
            match r {
                Some(request) => {
                    &&& !final(self).finished()
                    &&& request_of(
                        final(self).services()[final(self).results().len() as int].name@,
                        final(self).services()[final(self).results().len() as int].service@,
                    ) == Some(request@)
                },
                None => final(self).finished(),
            },
    {
        proof {
            use_type_invariant(&*self);
        }
        let ghost start = self.results@;
        let mut taken = Deployment { services: Vec::new(), results: Vec::new() };
        core::mem::swap(self, &mut taken);
        let services = taken.services;
        let mut results = taken.results;
        let mut found: Option<CreateContainerRequest> = None;
        while results.len() < services.len() && found.is_none()
            invariant
                reports_in_order(services@, results@),
                start.len() <= results@.len(),
                results@.take(start.len() as int) == start,
                forall|k: int|
                    start.len() <= k < results@.len() ==> (#[trigger] services@[k]).service.image
                        is None,
                match found {
                    Some(request) => {
                        &&& results@.len() < services@.len()
                        &&& request_of(
                            services@[results@.len() as int].name@,
                            services@[results@.len() as int].service@,
                        ) == Some(request@)
                    },
                    None => true,
                },
            decreases services.len() - results.len() + (if found is None { 1int } else { 0int }),
        {
            let at = results.len();
            let named = &services[at];
            match service_request(named.name.as_str(), &named.service) {
                Ok(request) => {
                    found = Some(request);
                },
                Err(message) => {
                    let result = deploy_result(named.name.as_str(), Err(message));
                    let ghost before = results@;
                    results.push(result);
                    assert(results@.take(start.len() as int) =~= before.take(start.len() as int));
                },
            }
        }
        *self = Deployment { services, results };
        found
    }

    /// Records what came of creating the container of the next service:
    /// the new container's id, or the message of the failure.
    pub fn record(&mut self, outcome: Result<String, String>)
        requires
            !old(self).finished(),
        ensures
            final(self).services() == old(self).services(),
            reports_in_order(final(self).services(), final(self).results()),
            final(self).results().len() == old(self).results().len() + 1,
            final(self).results().drop_last() == old(self).results(),
            final(self).results().last()@ == deploy_result_of(
                old(self).services()[old(self).results().len() as int].name@,
                match old(self).services()[old(self).results().len() as int].service.image {
                    Some(_) => outcome_view(outcome),
                    None => Err(NO_IMAGE@),
                },
            ),
    {
        proof {
            use_type_invariant(&*self);
        }
        let mut taken = Deployment { services: Vec::new(), results: Vec::new() };
        core::mem::swap(self, &mut taken);
        let services = taken.services;
        let mut results = taken.results;
        let ghost before = results@;
        let at = results.len();
        let named = &services[at];
        let result = match &named.service.image {
            Some(_) => deploy_result(named.name.as_str(), outcome),
            None => deploy_result(named.name.as_str(), Err(String::from_str(NO_IMAGE))),
        };
        results.push(result);
        assert(results@.drop_last() =~= before);
        *self = Deployment { services, results };
    }

    /// The results, one for each service that was reached, in order.
    pub fn into_results(self) -> (r: Vec<ComposeDeployResult>)
        ensures
            r@ == self.results(),
            reports_in_order(self.services(), r@),
    {
        proof {
            use_type_invariant(&self);
        }
        self.results
    }
}

} // verus!

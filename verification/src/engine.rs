//! What is asked of the engine for the simple commands, and the message of
//! a command that failed.

use vstd::prelude::*;
use vstd::string::StringExecFns;

verus! {

/// The operations that can fail with a cause of their own.
#[derive(Debug, Clone, Copy, PartialEq, Eq, Structural)]
pub enum Operation {
    ListContainers,
    StartContainer,
    StopContainer,
    RestartContainer,
    PauseContainer,
    UnpauseContainer,
    RemoveContainer,
    ReadLogs,
    InspectContainer,
    Connect,
    ListImages,
    RemoveImage,
    PullImage,
    GetStats,
    ListVolumes,
    CreateVolume,
    RemoveVolume,
    ListNetworks,
    CreateNetwork,
    RemoveNetwork,
    CreateContainer,
    StartCreatedContainer,
    ParseCompose,
    SearchRegistry,
    SearchRegistryLegacy,
    ParseSearchResults,
}

/// The words that name a failed operation, before the cause.
pub open spec fn failure_prefix_of(operation: Operation) -> Seq<char> {
    match operation {
        Operation::ListContainers => "Failed to list containers: "@,
        Operation::StartContainer => "Failed to start container: "@,
        Operation::StopContainer => "Failed to stop container: "@,
        Operation::RestartContainer => "Failed to restart container: "@,
        Operation::PauseContainer => "Failed to pause container: "@,
        Operation::UnpauseContainer => "Failed to unpause container: "@,
        Operation::RemoveContainer => "Failed to remove container: "@,
        Operation::ReadLogs => "Failed to read logs: "@,
        Operation::InspectContainer => "Failed to inspect container: "@,
        Operation::Connect => "Docker connection failed: "@,
        Operation::ListImages => "Failed to list images: "@,
        Operation::RemoveImage => "Failed to remove image: "@,
        Operation::PullImage => "Failed to pull image: "@,
        Operation::GetStats => "Failed to get stats: "@,
        Operation::ListVolumes => "Failed to list volumes: "@,
        Operation::CreateVolume => "Failed to create volume: "@,
        Operation::RemoveVolume => "Failed to remove volume: "@,
        Operation::ListNetworks => "Failed to list networks: "@,
        Operation::CreateNetwork => "Failed to create network: "@,
        Operation::RemoveNetwork => "Failed to remove network: "@,
        Operation::CreateContainer => "Failed to create container: "@,
        Operation::StartCreatedContainer => "Failed to start container after creation: "@,
        Operation::ParseCompose => "Failed to parse compose file: "@,
        Operation::SearchRegistry => "Failed to search Docker Hub: "@,
        Operation::SearchRegistryLegacy => "Failed to search Docker Hub (legacy): "@,
        Operation::ParseSearchResults => "Failed to parse search results: "@,
    }
}

/// The words that name a failed operation, before the cause.
pub fn failure_prefix(operation: Operation) -> (r: &'static str)
    ensures
        r@ == failure_prefix_of(operation),
{
    match operation {
        Operation::ListContainers => "Failed to list containers: ",
        Operation::StartContainer => "Failed to start container: ",
        Operation::StopContainer => "Failed to stop container: ",
        Operation::RestartContainer => "Failed to restart container: ",
        Operation::PauseContainer => "Failed to pause container: ",
        Operation::UnpauseContainer => "Failed to unpause container: ",
        Operation::RemoveContainer => "Failed to remove container: ",
        Operation::ReadLogs => "Failed to read logs: ",
        Operation::InspectContainer => "Failed to inspect container: ",
        Operation::Connect => "Docker connection failed: ",
        Operation::ListImages => "Failed to list images: ",
        Operation::RemoveImage => "Failed to remove image: ",
        Operation::PullImage => "Failed to pull image: ",
        Operation::GetStats => "Failed to get stats: ",
        Operation::ListVolumes => "Failed to list volumes: ",
        Operation::CreateVolume => "Failed to create volume: ",
        Operation::RemoveVolume => "Failed to remove volume: ",
        Operation::ListNetworks => "Failed to list networks: ",
        Operation::CreateNetwork => "Failed to create network: ",
        Operation::RemoveNetwork => "Failed to remove network: ",
        Operation::CreateContainer => "Failed to create container: ",
        Operation::StartCreatedContainer => "Failed to start container after creation: ",
        Operation::ParseCompose => "Failed to parse compose file: ",
        Operation::SearchRegistry => "Failed to search Docker Hub: ",
        Operation::SearchRegistryLegacy => "Failed to search Docker Hub (legacy): ",
        Operation::ParseSearchResults => "Failed to parse search results: ",
    }
}

/// The message of a failed operation: the words that name the operation,
/// then the cause as the engine or the network gave it.
pub fn failure_message(operation: Operation, cause: &str) -> (r: String)
    ensures
        r@ == failure_prefix_of(operation) + cause@,
{
    let mut message = String::from_str(failure_prefix(operation));
    message.append(cause);
    message
}

/// The message for an engine that answered a request for statistics with no
/// sample at all.
pub const NO_STATS: &'static str = "Failed to retrieve stats";

/// The number of log lines that are fetched where the caller names none.
pub const DEFAULT_TAIL: &'static str = "100";

/// What is asked of the engine for a container's logs.
#[derive(Debug, Clone, PartialEq, Eq)]
pub struct LogRequest {
    pub stdout: bool,
    pub stderr: bool,
    /// Whether to wait for further lines.
    pub follow: bool,
    /// How many of the last lines to fetch.
    pub tail: String,
}

/// The request for a container's logs: both streams, without waiting for
/// more, and the last `tail` lines, 100 where `tail` is absent.
pub fn log_request(tail: Option<String>) -> (r: LogRequest)
    ensures
        r.stdout,
        r.stderr,
        !r.follow,
        r.tail@ == match tail {
            Some(lines) => lines@,
            None => DEFAULT_TAIL@,
        },
{
    LogRequest {
        stdout: true,
        stderr: true,
        follow: false,
        tail: match tail {
            Some(lines) => lines,
            None => String::from_str(DEFAULT_TAIL),
        },
    }
}

/// Takes the next piece of a container's logs. A piece of text is added to
/// `logs`; a failure ends the reading with its message and leaves `logs`
/// as it was.
pub fn take_log_chunk(logs: &mut String, chunk: Result<String, String>) -> (r: Result<(), String>)
    ensures
        match chunk {
            Ok(text) => r is Ok && final(logs)@ == old(logs)@ + text@,
            Err(cause) => {
                &&& final(logs)@ == old(logs)@
                &&& r matches Err(message)
                &&& message@ == failure_prefix_of(Operation::ReadLogs) + cause@
            },
        },
{
    match chunk {
        Ok(text) => {
            logs.append(text.as_str());
            Ok(())
        },
        Err(cause) => Err(failure_message(Operation::ReadLogs, cause.as_str())),
    }
}

/// Whether a list is asked for in full. Without this only what runs is
/// listed.
#[derive(Debug, Clone, Copy, PartialEq, Eq)]
pub struct ListOptions {
    pub all: bool,
}

/// The options for listing containers: everything where `all` is set, and
/// the engine's own choice, which is what runs, where it is not.
pub fn list_containers_options(all: bool) -> (r: Option<ListOptions>)
    ensures
        r == if all {
            Some(ListOptions { all: true })
        } else {
            None::<ListOptions>
        },
{
    if all {
        Some(ListOptions { all: true })
    } else {
        None
    }
}

/// Whether a removal is forced.
#[derive(Debug, Clone, Copy, PartialEq, Eq)]
pub struct RemoveOptions {
    pub force: bool,
}

/// The options for removing a volume: forced removal where `force` is set,
/// and the engine's defaults where it is not.
pub fn remove_volume_options(force: bool) -> (r: Option<RemoveOptions>)
    ensures
        r == if force {
            Some(RemoveOptions { force: true })
        } else {
            None::<RemoveOptions>
        },
{
    if force {
        Some(RemoveOptions { force: true })
    } else {
        None
    }
}

} // verus!

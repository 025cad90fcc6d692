use vstd::prelude::*;

use crate::association::{Association, MachineRole};
use crate::container::RunContainerInput;
use crate::error::Error;
use crate::resources::{machine_awaits_bootstrap, Cluster, DockerMachine, Machine};
use crate::runtime::{first_named, removal_target, summaries_view, ContainerSummary};

verus! {

/// Delay before a machine is looked at again, whatever the outcome.
pub const REQUEUE_SECONDS: u64 = 300;

/// What the controller asks of its scheduler once a reconciliation is over.
#[derive(Debug, Clone, Copy, PartialEq, Eq, Structural)]
pub enum Action {
    /// Reconcile the machine again after this many seconds.
    Requeue(u64),
}

/// The outside work a reconciliation asks for next. Whoever drives it performs the command and
/// reports what came of it as an [`Event`].
#[derive(Debug)]
pub enum Command {
    /// Fetch the Machine `name`; answered by `OwnerFetched`.
    FetchOwner { namespace: String, name: String },
    /// Fetch the Cluster `name`; answered by `ClusterFetched`.
    FetchCluster { namespace: String, name: String },
    /// Fetch the DockerCluster `name`; answered by `DockerClusterFetched`.
    FetchDockerCluster { namespace: String, name: String },
    /// List the containers that carry all of these labels; answered by `ContainersListed`.
    ListContainers { filters: Vec<(String, String)> },
    /// Find a free host port; answered by `PortReserved`.
    ReservePort,
    /// Create and start a container; answered by `ContainerStarted`.
    StartContainer { input: RunContainerInput },
    /// Run a command in a container; answered by `Executed`.
    Exec { id: String, command: Vec<String> },
    /// Remove a container, forcibly and with its volumes; answered by `ContainerRemoved`.
    RemoveContainer { id: String },
    /// The reconciliation is over.
    Finish(Result<Action, Error>),
}

/// The outcome of a command. Failures carry the collaborator's message.
#[derive(Debug)]
pub enum Event {
    /// The Machine, or `None` when it does not exist.
    OwnerFetched(Result<Option<Machine>, String>),
    ClusterFetched(Result<Cluster, String>),
    /// Whether the DockerCluster could be fetched.
    DockerClusterFetched(bool),
    ContainersListed(Result<Vec<ContainerSummary>, String>),
    PortReserved(Result<u16, String>),
    /// The id of the started container.
    ContainerStarted(Result<String, String>),
    Executed(Result<(), String>),
    ContainerRemoved(Result<String, String>),
}

/// Where a reconciliation stands: which answer it waits for, and what it has learnt so far.
pub enum Stage {
    AwaitOwner,
    AwaitCluster { machine: Machine },
    AwaitDockerCluster { machine: Machine, cluster: Cluster },
    /// A provisioned machine: its container is looked up for its address.
    AwaitAddress { role: MachineRole },
    /// Listing before a create: does the container exist already?
    AwaitCreateListing { role: MachineRole },
    AwaitPort { role: MachineRole },
    AwaitStart,
    AwaitExec,
    /// Listing before a delete: which container is to go?
    AwaitRemovalListing { role: MachineRole },
    AwaitRemoval,
    Finished,
}

/// One pass of the reconciler over one DockerMachine, either applying it (creating its
/// container) or cleaning it up (deleting its container).
pub struct Reconciliation {
    pub docker_machine: DockerMachine,
    pub deleting: bool,
    pub stage: Stage,
}

pub open spec fn requeue() -> Result<Action, Error> {
    Ok(Action::Requeue(REQUEUE_SECONDS))
}

pub open spec fn namespace_of(ns: Option<String>) -> Seq<char> {
    match ns {
        Some(n) => n@,
        None => Seq::empty(),
    }
}

/// The command ends the reconciliation with `outcome`.
pub open spec fn finishes(c: Command, outcome: Result<Action, Error>) -> bool {
    c == Command::Finish(outcome)
}

/// The command lists the containers with the role's cluster and role labels.
pub open spec fn lists_for(c: Command, role: MachineRole) -> bool {
    c is ListContainers && c->ListContainers_filters.deep_view() == role.spec_filters()
}

/// Whether the command reaches the container runtime.
pub open spec fn touches_runtime(c: Command) -> bool {
    c is ListContainers || c is ReservePort || c is StartContainer || c is Exec
        || c is RemoveContainer
}

fn ns_string(ns: &Option<String>) -> (r: String)
    ensures
        r@ == namespace_of(*ns),
{
    match ns {
        Some(n) => n.clone(),
        None => String::new(),
    }
}

fn finish(outcome: Result<Action, Error>) -> (r: (Stage, Command))
    ensures
        r.0 is Finished,
        finishes(r.1, outcome),
{
    (Stage::Finished, Command::Finish(outcome))
}

fn requeue_now() -> (r: (Stage, Command))
    ensures
        r.0 is Finished,
        finishes(r.1, requeue()),
{
    finish(Ok(Action::Requeue(REQUEUE_SECONDS)))
}

/// The step after the infrastructure check and the address refresh: wait for bootstrap data,
/// else list the containers to see whether the machine's exists.
fn after_address(role: MachineRole) -> (r: (Stage, Command))
    ensures
        role.association().awaits_bootstrap() ==> r.0 is Finished && finishes(r.1, requeue()),
        !role.association().awaits_bootstrap() ==> r.0 == (Stage::AwaitCreateListing { role })
            && lists_for(r.1, role),
{
    let gate = match &role {
        MachineRole::Worker(a) => a.prepare_bootstrap(),
        MachineRole::ControlPlane(a) => a.prepare_bootstrap(),
    };
    match gate {
        Err(_) => requeue_now(),
        Ok(()) => {
            let filters = role.get_filters();
            (Stage::AwaitCreateListing { role }, Command::ListContainers { filters })
        },
    }
}

fn crictl_ps() -> (r: Vec<String>)
    ensures
        r.deep_view() == seq!["crictl"@, "ps"@],
{
    let mut v: Vec<String> = Vec::new();
    v.push(String::from_str("crictl"));
    v.push(String::from_str("ps"));
    assert(v.deep_view() =~= seq!["crictl"@, "ps"@]);
    v
}

impl Reconciliation {
    /// Begins reconciling `docker_machine`: to apply it, or (`deleting`) to clean it up. A
    /// DockerMachine without an owner of kind `Machine` cannot be tied to a cluster yet: the
    /// reconciliation ends at once with a requeue, before any runtime call.
    pub fn start(docker_machine: DockerMachine, deleting: bool) -> (r: (Reconciliation, Command))
        ensures
            r.0.docker_machine == docker_machine,
            r.0.deleting == deleting,
            match docker_machine.spec_owner_name() {
                None => r.0.stage is Finished && finishes(r.1, requeue()),
                Some(owner) => {
                    &&& r.0.stage is AwaitOwner
                    &&& r.1 is FetchOwner
                    &&& r.1->FetchOwner_name@ == owner
                    &&& r.1->FetchOwner_namespace@ == namespace_of(docker_machine.namespace)
                },
            },
            !touches_runtime(r.1),
    {
        match docker_machine.owner_name() {
            Err(_) => {
                let (stage, command) = requeue_now();
                (Reconciliation { docker_machine, deleting, stage }, command)
            },
            Ok(name) => {
                let namespace = ns_string(&docker_machine.namespace);
                (
                    Reconciliation { docker_machine, deleting, stage: Stage::AwaitOwner },
                    Command::FetchOwner { namespace, name },
                )
            },
        }
    }

    /// Takes the outcome of the last command and decides what comes next.
    pub fn advance(self, event: Event) -> (r: (Reconciliation, Command))
        ensures
            r.0.docker_machine == self.docker_machine,
            r.0.deleting == self.deleting,
            // a pass is over exactly when the command finishes it
            r.1 is Finish <==> r.0.stage is Finished,
            // resolving the association: a missing owner Machine, cluster label or DockerCluster
            // is a wait state, which ends the pass quietly with a requeue
            (self.stage is AwaitOwner && event is OwnerFetched) ==> match event->OwnerFetched_0 {
                Err(e) => finishes(r.1, Err(Error::KubeError(e))),
                Ok(None) => finishes(r.1, requeue()),
                Ok(Some(m)) => match m.spec_cluster_name() {
                    None => finishes(r.1, requeue()),
                    Some(n) => {
                        &&& r.0.stage == (Stage::AwaitCluster { machine: m })
                        &&& r.1 is FetchCluster
                        &&& r.1->FetchCluster_name@ == n
                        &&& r.1->FetchCluster_namespace@ == namespace_of(m.namespace)
                    },
                },
            },
            (self.stage is AwaitCluster && event is ClusterFetched) ==> match event->ClusterFetched_0 {
                Err(e) => finishes(r.1, Err(Error::KubeError(e))),
                Ok(c) => match c.infrastructure_ref_name {
                    None => finishes(r.1, requeue()),
                    Some(n) => {
                        &&& r.0.stage == (Stage::AwaitDockerCluster {
                            machine: self.stage->AwaitCluster_machine,
                            cluster: c,
                        })
                        &&& r.1 is FetchDockerCluster
                        &&& r.1->FetchDockerCluster_name@ == n@
                        &&& r.1->FetchDockerCluster_namespace@ == namespace_of(c.namespace)
                    },
                },
            },
            // the association is resolved: the machine's role decides the rest
            (self.stage is AwaitDockerCluster && event is DockerClusterFetched) ==> {
                let machine = self.stage->AwaitDockerCluster_machine;
                let cluster = self.stage->AwaitDockerCluster_cluster;
                let role = stage_role(r.0.stage);
                if !event->DockerClusterFetched_0 {
                    finishes(r.1, requeue())
                } else if !self.deleting && !cluster.infrastructure_is_ready() {
                    finishes(r.1, requeue())
                } else if !self.deleting && self.docker_machine.provider_id is None
                    && machine_awaits_bootstrap(machine) {
                    finishes(r.1, requeue())
                } else {
                    &&& resolved_role(role, machine, cluster, self.docker_machine.custom_image)
                    &&& lists_for(r.1, role)
                    &&& if self.deleting {
                        r.0.stage is AwaitRemovalListing
                    } else if self.docker_machine.provider_id is Some {
                        r.0.stage is AwaitAddress
                    } else {
                        r.0.stage is AwaitCreateListing
                    }
                }
            },
            (self.stage is AwaitAddress && event is ContainersListed) ==> match event->ContainersListed_0 {
                Err(e) => finishes(r.1, Err(Error::ContainerError(e))),
                Ok(_) => {
                    let role = self.stage->AwaitAddress_role;
                    if role.association().awaits_bootstrap() {
                        finishes(r.1, requeue())
                    } else {
                        r.0.stage == (Stage::AwaitCreateListing { role }) && lists_for(r.1, role)
                    }
                },
            },
            // creating: nothing is started when a container with the machine's name exists
            (self.stage is AwaitCreateListing && event is ContainersListed) ==> match event->ContainersListed_0 {
                Err(e) => finishes(r.1, Err(Error::ContainerError(e))),
                Ok(listed) => {
                    let role = self.stage->AwaitCreateListing_role;
                    if first_named(
                        summaries_view(listed@),
                        role.association().spec_container_name(),
                        0,
                    ) is Some {
                        finishes(r.1, requeue())
                    } else if role is ControlPlane {
                        r.0.stage == (Stage::AwaitPort { role }) && r.1 is ReservePort
                    } else {
                        &&& r.0.stage is AwaitStart
                        &&& r.1 is StartContainer
                        &&& r.1->StartContainer_input.wf()
                        &&& r.1->StartContainer_input@ == role.spec_create_input(0)
                    }
                },
            },
            (self.stage is AwaitPort && event is PortReserved) ==> match event->PortReserved_0 {
                Err(e) => finishes(r.1, Err(Error::PortLookupError(e))),
                Ok(port) => if port == 0 {
                    r.1 is Finish && r.1->Finish_0 is Err && r.1->Finish_0->Err_0 is PortLookupError
                } else {
                    &&& r.0.stage is AwaitStart
                    &&& r.1 is StartContainer
                    &&& r.1->StartContainer_input.wf()
                    &&& r.1->StartContainer_input@ == self.stage->AwaitPort_role.spec_create_input(
                        port as u32,
                    )
                },
            },
            (self.stage is AwaitStart && event is ContainerStarted) ==> match event->ContainerStarted_0 {
                Err(e) => finishes(r.1, Err(Error::ContainerCreateError(e))),
                Ok(id) => {
                    &&& r.0.stage is AwaitExec
                    &&& r.1 is Exec
                    &&& r.1->Exec_id == id
                    &&& r.1->Exec_command.deep_view() == seq!["crictl"@, "ps"@]
                },
            },
            (self.stage is AwaitExec && event is Executed) ==> match event->Executed_0 {
                Err(e) => finishes(r.1, Err(Error::ContainerError(e))),
                Ok(_) => finishes(r.1, requeue()),
            },
            // deleting: a machine without a container is already clean
            (self.stage is AwaitRemovalListing && event is ContainersListed) ==> match event->ContainersListed_0 {
                Err(e) => finishes(r.1, Err(Error::ContainerError(e))),
                Ok(listed) => {
                    let role = self.stage->AwaitRemovalListing_role;
                    match removal_target(summaries_view(listed@), role.association().spec_container_name()) {
                        None => finishes(r.1, requeue()),
                        Some(id) => {
                            &&& r.0.stage is AwaitRemoval
                            &&& r.1 is RemoveContainer
                            &&& r.1->RemoveContainer_id@ == id
                        },
                    }
                },
            },
            (self.stage is AwaitRemoval && event is ContainerRemoved) ==> match event->ContainerRemoved_0 {
                Err(e) => finishes(r.1, Err(Error::ContainerRemoveError(e))),
                Ok(_) => finishes(r.1, requeue()),
            },
            // an answer that the stage does not wait for ends the pass
            !expects(self.stage, event) ==> finishes(r.1, Err(Error::UnexpectedEvent)),
    {
        let Reconciliation { docker_machine, deleting, stage } = self;
        let (stage, command) = match (stage, event) {
            (Stage::AwaitOwner, Event::OwnerFetched(fetched)) => match fetched {
                Err(e) => finish(Err(Error::KubeError(e))),
                Ok(None) => requeue_now(),
                Ok(Some(machine)) => match machine.cluster_name() {
                    Err(_) => requeue_now(),
                    Ok(name) => {
                        let namespace = ns_string(&machine.namespace);
                        (Stage::AwaitCluster { machine }, Command::FetchCluster { namespace, name })
                    },
                },
            },
            (Stage::AwaitCluster { machine }, Event::ClusterFetched(fetched)) => match fetched {
                Err(e) => finish(Err(Error::KubeError(e))),
                Ok(cluster) => match &cluster.infrastructure_ref_name {
                    None => requeue_now(),
                    Some(n) => {
                        let name = n.clone();
                        let namespace = ns_string(&cluster.namespace);
                        (
                            Stage::AwaitDockerCluster { machine, cluster },
                            Command::FetchDockerCluster { namespace, name },
                        )
                    },
                },
            },
            (Stage::AwaitDockerCluster { machine, cluster }, Event::DockerClusterFetched(found)) => {
                if !found {
                    requeue_now()
                } else {
                    let ready = match cluster.infrastructure_ready {
                        Some(true) => true,
                        _ => false,
                    };
                    let association = Association::new(
                        cluster,
                        machine,
                        docker_machine.custom_image.clone(),
                    );
                    let role = MachineRole::from_machine(association);
                    if deleting {
                        let filters = role.get_filters();
                        (Stage::AwaitRemovalListing { role }, Command::ListContainers { filters })
                    } else if !ready {
                        requeue_now()
                    } else if docker_machine.provider_id.is_some() {
                        let filters = role.get_filters();
                        (Stage::AwaitAddress { role }, Command::ListContainers { filters })
                    } else {
                        after_address(role)
                    }
                }
            },
            (Stage::AwaitAddress { role }, Event::ContainersListed(listed)) => match listed {
                Err(e) => finish(Err(Error::ContainerError(e))),
                Ok(_) => after_address(role),
            },
            (Stage::AwaitCreateListing { role }, Event::ContainersListed(listed)) => match listed {
                Err(e) => finish(Err(Error::ContainerError(e))),
                Ok(listed) => {
                    if !role.must_create(&listed) {
                        requeue_now()
                    } else if role.needs_host_port() {
                        (Stage::AwaitPort { role }, Command::ReservePort)
                    } else {
                        match role.create_input(None) {
                            Ok(input) => (Stage::AwaitStart, Command::StartContainer { input }),
                            Err(e) => finish(Err(e)),
                        }
                    }
                },
            },
            (Stage::AwaitPort { role }, Event::PortReserved(reserved)) => match reserved {
                Err(e) => finish(Err(Error::PortLookupError(e))),
                Ok(0) => finish(
                    Err(Error::PortLookupError(String::from_str("port 0 names no host port"))),
                ),
                Ok(port) => match role.create_input(Some(port)) {
                    Ok(input) => (Stage::AwaitStart, Command::StartContainer { input }),
                    Err(e) => finish(Err(e)),
                },
            },
            (Stage::AwaitStart, Event::ContainerStarted(started)) => match started {
                Err(e) => finish(Err(Error::ContainerCreateError(e))),
                Ok(id) => (Stage::AwaitExec, Command::Exec { id, command: crictl_ps() }),
            },
            (Stage::AwaitExec, Event::Executed(executed)) => match executed {
                Err(e) => finish(Err(Error::ContainerError(e))),
                Ok(()) => requeue_now(),
            },
            (Stage::AwaitRemovalListing { role }, Event::ContainersListed(listed)) => match listed {
                Err(e) => finish(Err(Error::ContainerError(e))),
                Ok(listed) => match role.delete_target(&listed) {
                    None => requeue_now(),
                    Some(id) => (Stage::AwaitRemoval, Command::RemoveContainer { id }),
                },
            },
            (Stage::AwaitRemoval, Event::ContainerRemoved(removed)) => match removed {
                Err(e) => finish(Err(Error::ContainerRemoveError(e))),
                Ok(_) => requeue_now(),
            },
            _ => finish(Err(Error::UnexpectedEvent)),
        };
        (Reconciliation { docker_machine, deleting, stage }, command)
    }
}

/// The role a stage works for, where it has one.
pub open spec fn stage_role(stage: Stage) -> MachineRole {
    match stage {
        Stage::AwaitAddress { role } => role,
        Stage::AwaitCreateListing { role } => role,
        Stage::AwaitPort { role } => role,
        Stage::AwaitRemovalListing { role } => role,
        _ => arbitrary(),
    }
}

/// The role was built from this machine and cluster with the standard configuration.
pub open spec fn resolved_role(
    role: MachineRole,
    machine: Machine,
    cluster: Cluster,
    custom_image: Option<String>,
) -> bool {
    &&& role.association().cluster == cluster
    &&& role.association().machine == machine
    &&& role.association().custom_image == custom_image
    &&& role.association().config.is_standard()
    &&& (role is ControlPlane <==> machine.is_control_plane())
}

/// The stage waits for this kind of answer.
pub open spec fn expects(stage: Stage, event: Event) -> bool {
    match stage {
        Stage::AwaitOwner => event is OwnerFetched,
        Stage::AwaitCluster { .. } => event is ClusterFetched,
        Stage::AwaitDockerCluster { .. } => event is DockerClusterFetched,
        Stage::AwaitAddress { .. } => event is ContainersListed,
        Stage::AwaitCreateListing { .. } => event is ContainersListed,
        Stage::AwaitPort { .. } => event is PortReserved,
        Stage::AwaitStart => event is ContainerStarted,
        Stage::AwaitExec => event is Executed,
        Stage::AwaitRemovalListing { .. } => event is ContainersListed,
        Stage::AwaitRemoval => event is ContainerRemoved,
        Stage::Finished => false,
    }
}

} // verus!

use vstd::prelude::*;

use crate::container::{
    decimal, decimal_string, encode, keys_distinct, strings_hash, Mount, MountView, PortMapping,
    PortMappingView, RunContainerInput, RunContainerInputView,
};
use crate::error::Error;
use crate::resources::{machine_awaits_bootstrap, Cluster, Machine};
use crate::runtime::{
    find_named, first_named, observed_node, removal_target, summaries_view, ContainerSummary,
    Node,
};

verus! {

/// Image run when neither a custom image nor a version is given, and the repository that
/// versioned images come from.
pub const DEFAULT_IMAGE: &'static str = "kindest/node";

/// Version run when the Machine names none.
pub const DEFAULT_VERSION: &'static str = "v1.27.3";

/// Network the node containers join.
pub const DEFAULT_NETWORK: &'static str = "kind";

/// The host's container-runtime socket, mounted into every node.
pub const DEFAULT_DOCKER_SOCKET: &'static str = "/var/run/docker.sock";

/// Label key of the cluster a container belongs to.
pub const CLUSTER_LABEL_KEY: &'static str = "io.x-k8s.kind.cluster";

/// Label key of the content hash of a container's specification.
pub const HASH_LABEL_KEY: &'static str = "io.x-k8s.container-hash";

/// Label key of a node container's role.
pub const NODE_ROLE_LABEL_KEY: &'static str = "io.x-k8s.kind.role";

/// Port the API server listens on inside a control-plane container.
pub const API_SERVER_PORT: u32 = 6443;

// ---------------------------------------------------------------------------------------------
// Configuration
// ---------------------------------------------------------------------------------------------

/// Settings shared by every machine the provider runs.
#[derive(Debug, Clone)]
pub struct ProviderConfig {
    pub default_image: String,
    pub default_version: String,
    pub network: String,
    pub docker_socket: String,
}

impl ProviderConfig {
    pub open spec fn is_standard(&self) -> bool {
        &&& self.default_image@ == DEFAULT_IMAGE@
        &&& self.default_version@ == DEFAULT_VERSION@
        &&& self.network@ == DEFAULT_NETWORK@
        &&& self.docker_socket@ == DEFAULT_DOCKER_SOCKET@
    }

    /// The provider's usual settings.
    pub fn standard() -> (r: ProviderConfig)
        ensures
            r.is_standard(),
    {
        ProviderConfig {
            default_image: String::from_str(DEFAULT_IMAGE),
            default_version: String::from_str(DEFAULT_VERSION),
            network: String::from_str(DEFAULT_NETWORK),
            docker_socket: String::from_str(DEFAULT_DOCKER_SOCKET),
        }
    }
}

// ---------------------------------------------------------------------------------------------
// Names, images and mounts
// ---------------------------------------------------------------------------------------------

pub open spec fn is_prefix(prefix: Seq<char>, s: Seq<char>) -> bool {
    prefix.len() <= s.len() && s.take(prefix.len() as int) == prefix
}

/// The container name of a machine: the machine's name when it already begins with the
/// cluster's, else `<cluster>-<machine>`.
pub open spec fn derived_name(cluster: Seq<char>, machine: Seq<char>) -> Seq<char> {
    if is_prefix(cluster, machine) {
        machine
    } else {
        cluster + "-"@ + machine
    }
}

pub fn starts_with(s: &str, prefix: &str) -> (r: bool)
    ensures
        r == is_prefix(prefix@, s@),
{
    let n = prefix.unicode_len();
    if n > s.unicode_len() {
        return false;
    }
    let mut i: usize = 0;
    while i < n
        invariant
            n == prefix@.len() <= s@.len(),
            i <= n,
            forall|k: int| 0 <= k < i ==> s@[k] == prefix@[k],
        decreases n - i,
    {
        if s.get_char(i) != prefix.get_char(i) {
            assert(s@.take(n as int)[i as int] != prefix@[i as int]);
            return false;
        }
        i = i + 1;
    }
    assert(s@.take(n as int) =~= prefix@);
    true
}

/// The name of the container that stands for `machine` in `cluster`.
pub fn derive_name(cluster: &str, machine: &str) -> (r: String)
    ensures
        r@ == derived_name(cluster@, machine@),
{
    if starts_with(machine, cluster) {
        String::from_str(machine)
    } else {
        let mut s = String::from_str(cluster);
        s.append("-");
        s.append(machine);
        s
    }
}

/// The image of a node: the custom image if one is set; else the default repository tagged
/// with the Machine's version, a `v` put in front when it lacks one; else the default image and
/// version.
pub open spec fn image_for(
    custom: Option<Seq<char>>,
    version: Option<Seq<char>>,
    default_image: Seq<char>,
    default_version: Seq<char>,
) -> Seq<char> {
    match custom {
        Some(image) => image,
        None => match version {
            Some(v) => if v.len() > 0 && v[0] == 'v' {
                default_image + ":"@ + v
            } else {
                default_image + ":v"@ + v
            },
            None => default_image + ":"@ + default_version,
        },
    }
}

/// The mounts of every node: the host's kernel modules read only, the runtime socket read-write,
/// and anonymous volumes for `/var`, `/tmp` and `/run`.
pub open spec fn standard_mounts(socket: Seq<char>) -> Seq<MountView> {
    seq![
        MountView { source: Some("/lib/modules"@), target: "/lib/modules"@, read_only: true },
        MountView { source: Some(socket), target: socket, read_only: false },
        MountView { source: None, target: "/var"@, read_only: false },
        MountView { source: None, target: "/tmp"@, read_only: false },
        MountView { source: None, target: "/run"@, read_only: false },
    ]
}

pub open spec fn mounts_view(ms: Seq<Mount>) -> Seq<MountView> {
    ms.map_values(|m: Mount| m@)
}

pub open spec fn ports_view(ps: Seq<PortMapping>) -> Seq<PortMappingView> {
    ps.map_values(|p: PortMapping| p@)
}

fn anonymous_mount(target: &str) -> (r: Mount)
    ensures
        r@ == (MountView { source: None, target: target@, read_only: false }),
{
    Mount { source: None, target: String::from_str(target), read_only: false }
}

fn host_mount(path: &str, read_only: bool) -> (r: Mount)
    ensures
        r@ == (MountView { source: Some(path@), target: path@, read_only }),
{
    Mount {
        source: Some(String::from_str(path)),
        target: String::from_str(path),
        read_only,
    }
}

// ---------------------------------------------------------------------------------------------
// Association
// ---------------------------------------------------------------------------------------------

/// One machine bound to its cluster, the unit that a reconciliation works on.
#[derive(Debug, Clone)]
pub struct Association {
    pub cluster: Cluster,
    pub machine: Machine,
    pub custom_image: Option<String>,
    pub config: ProviderConfig,
}

impl Association {
    pub fn new(cluster: Cluster, machine: Machine, custom_image: Option<String>) -> (r:
        Association)
        ensures
            r.cluster == cluster,
            r.machine == machine,
            r.custom_image == custom_image,
            r.config.is_standard(),
    {
        Association { cluster, machine, custom_image, config: ProviderConfig::standard() }
    }

    pub open spec fn spec_container_name(&self) -> Seq<char> {
        derived_name(self.cluster.name@, self.machine.name@)
    }

    pub open spec fn spec_image(&self) -> Seq<char> {
        image_for(
            crate::container::opt_view(self.custom_image),
            crate::container::opt_view(self.machine.version),
            self.config.default_image@,
            self.config.default_version@,
        )
    }

    pub fn container_name(&self) -> (r: String)
        ensures
            r@ == self.spec_container_name(),
    {
        derive_name(self.cluster.name.as_str(), self.machine.name.as_str())
    }

    pub fn get_image(&self) -> (r: String)
        ensures
            r@ == self.spec_image(),
    {
        proof {
            reveal_strlit("v");
            reveal_strlit(":");
            reveal_strlit(":v");
        }
        match &self.custom_image {
            Some(image) => image.clone(),
            None => {
                let mut s = self.config.default_image.clone();
                match &self.machine.version {
                    Some(v) => {
                        let has_v = starts_with(v.as_str(), "v");
                        proof {
                            if v@.len() > 0 {
                                assert(v@.take(1)[0] == v@[0]);
                                if v@[0] == 'v' {
                                    assert(v@.take(1) =~= "v"@);
                                }
                            }
                        }
                        if has_v {
                            s.append(":");
                        } else {
                            s.append(":v");
                        }
                        s.append(v.as_str());
                    },
                    None => {
                        s.append(":");
                        s.append(self.config.default_version.as_str());
                    },
                }
                assert(s@ =~= self.spec_image());
                s
            },
        }
    }

    pub fn generate_mount_info(&self) -> (r: Vec<Mount>)
        ensures
            mounts_view(r@) == standard_mounts(self.config.docker_socket@),
    {
        let mut ms: Vec<Mount> = Vec::new();
        ms.push(host_mount("/lib/modules", true));
        ms.push(
            Mount {
                source: Some(self.config.docker_socket.clone()),
                target: self.config.docker_socket.clone(),
                read_only: false,
            },
        );
        ms.push(anonymous_mount("/var"));
        ms.push(anonymous_mount("/tmp"));
        ms.push(anonymous_mount("/run"));
        assert(mounts_view(ms@) =~= standard_mounts(self.config.docker_socket@));
        ms
    }

    /// Whether this machine still waits for its bootstrap data: a worker cannot start before the
    /// bootstrap provider has written it.
    pub open spec fn awaits_bootstrap(&self) -> bool {
        machine_awaits_bootstrap(self.machine)
    }

    pub fn prepare_bootstrap(&self) -> (r: Result<(), Error>)
        ensures
            r is Ok <==> !self.awaits_bootstrap(),
            r is Err ==> r->Err_0 == Error::BootstrapSecretNotReady,
    {
        if !self.machine.has_control_plane_label() && self.machine.bootstrap_data_secret_name.is_none() {
            Err(Error::BootstrapSecretNotReady)
        } else {
            Ok(())
        }
    }

    /// Picks this machine's container out of a listing: the first that bears its name.
    pub fn get_container(&self, listed: &Vec<ContainerSummary>) -> (r: Option<Node>)
        ensures
            match r {
                None => observed_node(summaries_view(listed@), self.spec_container_name()) is None,
                Some(n) => observed_node(summaries_view(listed@), self.spec_container_name())
                    == Some(n@),
            },
    {
        let name = self.container_name();
        let ghost lv = summaries_view(listed@);
        match find_named(listed, name.as_str()) {
            None => None,
            Some(i) => {
                let c = &listed[i];
                assert(lv[i as int] == c@);
                match (&c.names, &c.image) {
                    (Some(names), Some(image)) => {
                        if names.len() > 0 {
                            assert(c@.names->0[0] == names@[0]@);
                            Some(
                                Node {
                                    name: names[0].clone(),
                                    image: image.clone(),
                                    status: c.status.clone(),
                                    address: c.address.clone(),
                                },
                            )
                        } else {
                            None
                        }
                    },
                    _ => None,
                }
            },
        }
    }
}

// ---------------------------------------------------------------------------------------------
// Roles
// ---------------------------------------------------------------------------------------------

/// What a machine is provisioned as, decided by its labels.
pub enum MachineRole {
    Worker(Association),
    ControlPlane(Association),
}

/// The specification every node shares before its role adds to it: name, network and mounts.
pub open spec fn base_view(a: Association) -> RunContainerInputView {
    RunContainerInputView {
        image: Seq::empty(),
        name: a.spec_container_name(),
        network: a.config.network@,
        user: None,
        group: None,
        mounts: standard_mounts(a.config.docker_socket@),
        environment_vars: Seq::empty(),
        command_args: None,
        entrypoint: None,
        labels: Seq::empty(),
        port_mappings: Seq::empty(),
    }
}

impl MachineRole {
    pub open spec fn association(&self) -> Association {
        match self {
            MachineRole::Worker(a) => *a,
            MachineRole::ControlPlane(a) => *a,
        }
    }

    pub open spec fn spec_role_name(&self) -> Seq<char> {
        match self {
            MachineRole::Worker(_) => "worker"@,
            MachineRole::ControlPlane(_) => "control-plane"@,
        }
    }

    pub open spec fn spec_hash_value(&self) -> Seq<char> {
        decimal(strings_hash(encode(base_view(self.association()))) as nat)
    }

    /// The labels that identify this machine's container, in key order.
    pub open spec fn spec_labels(&self) -> Seq<(Seq<char>, Seq<char>)> {
        seq![
            (HASH_LABEL_KEY@, self.spec_hash_value()),
            (CLUSTER_LABEL_KEY@, self.association().cluster.name@),
            (NODE_ROLE_LABEL_KEY@, self.spec_role_name()),
        ]
    }

    /// The labels a listing filters on to find this machine's container: cluster and role. The
    /// content hash stays out, so that a container is found even when its hash was computed by
    /// another build; the container itself is then picked by its exact name.
    pub open spec fn spec_filters(&self) -> Seq<(Seq<char>, Seq<char>)> {
        seq![
            (CLUSTER_LABEL_KEY@, self.association().cluster.name@),
            (NODE_ROLE_LABEL_KEY@, self.spec_role_name()),
        ]
    }

    /// The full specification of this machine's container; a control plane publishes the API
    /// server's port on `host_port`.
    pub open spec fn spec_create_input(&self, host_port: u32) -> RunContainerInputView {
        let base = base_view(self.association());
        RunContainerInputView {
            image: self.association().spec_image(),
            labels: self.spec_labels(),
            port_mappings: match self {
                MachineRole::Worker(_) => Seq::empty(),
                MachineRole::ControlPlane(_) => seq![
                    PortMappingView {
                        container_port: API_SERVER_PORT,
                        host_port,
                        protocol: "tcp"@,
                    },
                ],
            },
            ..base
        }
    }

    /// A machine with the control-plane label is a control plane; any other is a worker.
    pub fn from_machine(association: Association) -> (r: MachineRole)
        ensures
            r.association() == association,
            r is ControlPlane <==> association.machine.is_control_plane(),
    {
        if association.machine.has_control_plane_label() {
            MachineRole::ControlPlane(association)
        } else {
            MachineRole::Worker(association)
        }
    }

    fn assoc(&self) -> (r: &Association)
        ensures
            *r == self.association(),
    {
        match self {
            MachineRole::Worker(a) => a,
            MachineRole::ControlPlane(a) => a,
        }
    }

    pub fn role_label(&self) -> (r: (String, String))
        ensures
            r.0@ == NODE_ROLE_LABEL_KEY@,
            r.1@ == self.spec_role_name(),
    {
        match self {
            MachineRole::Worker(_) => (String::from_str(NODE_ROLE_LABEL_KEY), String::from_str("worker")),
            MachineRole::ControlPlane(_) => (
                String::from_str(NODE_ROLE_LABEL_KEY),
                String::from_str("control-plane"),
            ),
        }
    }

    pub fn cluster_label(&self) -> (r: (String, String))
        ensures
            r.0@ == CLUSTER_LABEL_KEY@,
            r.1@ == self.association().cluster.name@,
    {
        (String::from_str(CLUSTER_LABEL_KEY), self.assoc().cluster.name.clone())
    }

    pub fn hash_label(&self) -> (r: (String, String))
        ensures
            r.0@ == HASH_LABEL_KEY@,
            r.1@ == self.spec_hash_value(),
    {
        let hash = self.base_create().get_hash();
        (String::from_str(HASH_LABEL_KEY), decimal_string(hash))
    }

    /// The identifying labels: content hash, cluster and role.
    pub fn get_labels(&self) -> (r: Vec<(String, String)>)
        ensures
            r.deep_view() == self.spec_labels(),
            keys_distinct(r.deep_view()),
    {
        let mut labels: Vec<(String, String)> = Vec::new();
        labels.push(self.hash_label());
        labels.push(self.cluster_label());
        labels.push(self.role_label());
        assert(labels.deep_view() =~= self.spec_labels());
        proof {
            lemma_label_keys_distinct(*self);
        }
        labels
    }

    /// The label filters that select this machine's containers: cluster and role.
    pub fn get_filters(&self) -> (r: Vec<(String, String)>)
        ensures
            r.deep_view() == self.spec_filters(),
    {
        let mut filters: Vec<(String, String)> = Vec::new();
        filters.push(self.cluster_label());
        filters.push(self.role_label());
        assert(filters.deep_view() =~= self.spec_filters());
        filters
    }

    pub fn base_create(&self) -> (r: RunContainerInput)
        ensures
            r@ == base_view(self.association()),
    {
        let a = self.assoc();
        let r = RunContainerInput {
            image: String::new(),
            name: a.container_name(),
            network: a.config.network.clone(),
            user: None,
            group: None,
            mounts: a.generate_mount_info(),
            environment_vars: Vec::new(),
            command_args: None,
            entrypoint: None,
            labels: Vec::new(),
            port_mappings: Vec::new(),
        };
        assert(r@.environment_vars =~= Seq::empty());
        assert(r@.labels =~= Seq::empty());
        assert(r@.port_mappings =~= Seq::empty());
        assert(r@ =~= base_view(self.association()));
        r
    }

    /// Whether creating this machine's container needs a free host port.
    pub fn needs_host_port(&self) -> (r: bool)
        ensures
            r == (self is ControlPlane),
    {
        match self {
            MachineRole::Worker(_) => false,
            MachineRole::ControlPlane(_) => true,
        }
    }

    /// The full specification of this machine's container. A control plane needs the host port
    /// reserved for its API server; without one (or with port 0, which names no port) it fails
    /// with `PortLookupError`.
    pub fn create_input(&self, host_port: Option<u16>) -> (r: Result<RunContainerInput, Error>)
        ensures
            match r {
                Ok(input) => {
                    &&& input.wf()
                    &&& match self {
                        MachineRole::Worker(_) => input@ == self.spec_create_input(0),
                        MachineRole::ControlPlane(_) => host_port is Some && host_port->0 > 0
                            && input@ == self.spec_create_input(host_port->0 as u32),
                    }
                },
                Err(e) => self is ControlPlane && (host_port is None || host_port->0 == 0)
                    && e is PortLookupError,
            },
    {
        let base = self.base_create();
        let image = self.assoc().get_image();
        let labels = self.get_labels();
        let port_mappings = match self {
            MachineRole::Worker(_) => Vec::new(),
            MachineRole::ControlPlane(_) => match host_port {
                Some(p) if p > 0 => {
                    let mut ports: Vec<PortMapping> = Vec::new();
                    ports.push(
                        PortMapping {
                            container_port: API_SERVER_PORT,
                            host_port: p as u32,
                            protocol: String::from_str("tcp"),
                        },
                    );
                    ports
                },
                _ => {
                    return Err(Error::PortLookupError(String::from_str("no host port was reserved")));
                },
            },
        };
        let ghost spec_port: u32 = match host_port {
            Some(p) => p as u32,
            None => 0,
        };
        let ghost want = self.spec_create_input(spec_port);
        assert(ports_view(port_mappings@) =~= want.port_mappings);
        let r = RunContainerInput { image, labels, port_mappings, ..base };
        assert(r@.mounts == want.mounts);
        assert(r@.port_mappings == want.port_mappings);
        assert(r@ =~= self.spec_create_input(
            match host_port {
                Some(p) => p as u32,
                None => 0,
            },
        ));
        assert(r@.environment_vars =~= Seq::<(Seq<char>, Seq<char>)>::empty());
        Ok(r)
    }

    /// Whether a listing (made with this machine's filters) shows that its container still has
    /// to be created: none bears its name.
    pub fn must_create(&self, listed: &Vec<ContainerSummary>) -> (r: bool)
        ensures
            r == (first_named(
                summaries_view(listed@),
                self.association().spec_container_name(),
                0,
            ) is None),
    {
        let name = self.assoc().container_name();
        find_named(listed, name.as_str()).is_none()
    }

    /// The id of the container to remove, from a listing made with this machine's filters;
    /// `None` when there is nothing to remove.
    pub fn delete_target(&self, listed: &Vec<ContainerSummary>) -> (r: Option<String>)
        ensures
            crate::container::opt_view(r) == removal_target(
                summaries_view(listed@),
                self.association().spec_container_name(),
            ),
    {
        let name = self.assoc().container_name();
        let ghost lv = summaries_view(listed@);
        match find_named(listed, name.as_str()) {
            None => None,
            Some(i) => {
                assert(lv[i as int] == listed@[i as int]@);
                match &listed[i].id {
                    Some(id) => Some(id.clone()),
                    None => None,
                }
            },
        }
    }
}

} // verus!

verus! {

// ---------------------------------------------------------------------------------------------
// Laws
// ---------------------------------------------------------------------------------------------

/// Naming is idempotent: the derived name of a derived name is the name itself. Besides, a
/// machine name that already begins with the cluster's is kept, and any other is prefixed with
/// `<cluster>-`.
pub proof fn lemma_derived_name(cluster: Seq<char>, machine: Seq<char>)
    ensures
        derived_name(cluster, derived_name(cluster, machine)) == derived_name(cluster, machine),
        is_prefix(cluster, machine) ==> derived_name(cluster, machine) == machine,
        !is_prefix(cluster, machine) ==> derived_name(cluster, machine) == cluster + "-"@ + machine,
{
    let named = derived_name(cluster, machine);
    if !is_prefix(cluster, machine) {
        assert(named.take(cluster.len() as int) =~= cluster);
    }
}

/// The three identifying label keys differ from one another.
pub proof fn lemma_label_keys_distinct(role: MachineRole)
    ensures
        keys_distinct(role.spec_labels()),
{
    reveal_strlit("io.x-k8s.container-hash");
    reveal_strlit("io.x-k8s.kind.cluster");
    reveal_strlit("io.x-k8s.kind.role");
    let ls = role.spec_labels();
    assert(ls[0].0.len() != ls[1].0.len());
    assert(ls[0].0.len() != ls[2].0.len());
    assert(ls[1].0.len() != ls[2].0.len());
}

/// A search for a name from `from` on succeeds when a container at or after `from` bears it.
pub proof fn lemma_first_named_found(
    listed: Seq<crate::runtime::ContainerView>,
    name: Seq<char>,
    from: int,
    i: int,
)
    requires
        0 <= from <= i < listed.len(),
        crate::runtime::has_name(listed[i], name),
    ensures
        first_named(listed, name, from) is Some,
    decreases i - from,
{
    if from < i && !crate::runtime::has_name(listed[from], name) {
        lemma_first_named_found(listed, name, from + 1, i);
    }
}

/// Creating a machine twice against an unchanged specification starts one container at most.
/// The first call lists the runtime with the machine's filters and starts a container only when
/// none bears the machine's name; the second call, listing the runtime as the first call left
/// it, then always finds one and starts nothing.
pub proof fn lemma_create_is_idempotent(
    role: MachineRole,
    state: Seq<crate::runtime::ContainerView>,
    host_port: u32,
    started: crate::runtime::ContainerView,
)
    requires
        crate::runtime::started_for(started, role.spec_create_input(host_port)),
    ensures
        ({
            let filters = role.spec_filters();
            let name = role.association().spec_container_name();
            let first_creates = first_named(crate::runtime::listing(state, filters), name, 0) is None;
            let after = if first_creates {
                state.push(started)
            } else {
                state
            };
            first_named(crate::runtime::listing(after, filters), name, 0) is Some
        }),
{
    let filters = role.spec_filters();
    let name = role.association().spec_container_name();
    let input = role.spec_create_input(host_port);
    let pred = |c: crate::runtime::ContainerView| crate::runtime::carries_labels(c, filters);
    if first_named(crate::runtime::listing(state, filters), name, 0) is None {
        let after = state.push(started);
        assert(crate::runtime::carries_labels(started, filters)) by {
            assert forall|i: int| 0 <= i < filters.len() implies exists|j: int|
                0 <= j < started.labels.len() && #[trigger] started.labels[j]
                    == #[trigger] filters[i] by {
                // the filters are the last two labels of the container's specification
                assert(input.labels[i + 1] == filters[i]);
            }
        }
        assert(after[state.len() as int] == started);
        after.lemma_filter_contains(pred, state.len() as int);
        let listed = after.filter(pred);
        assert(listed.contains(started));
        let k = choose|k: int| 0 <= k < listed.len() && listed[k] == started;
        lemma_first_named_found(listed, name, 0, k);
    }
}

} // verus!

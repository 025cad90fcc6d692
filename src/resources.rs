use vstd::prelude::*;

use crate::error::Error;
use crate::ip_family::{classified, ClusterIPFamily};

verus! {

/// Label on a Machine that names its cluster.
pub const CLUSTER_NAME_LABEL: &'static str = "cluster.x-k8s.io/cluster-name";

/// Label whose presence on a Machine marks it as a control-plane node.
pub const MACHINE_CONTROL_PLANE_LABEL: &'static str = "cluster.x-k8s.io/control-plane";

/// Kind of the owner reference that ties a DockerMachine to its Machine.
pub const MACHINE_KIND: &'static str = "Machine";

// ---------------------------------------------------------------------------------------------
// Key/value lists
// ---------------------------------------------------------------------------------------------

/// The value of the first entry with key `key`.
pub open spec fn lookup(entries: Seq<(Seq<char>, Seq<char>)>, key: Seq<char>) -> Option<Seq<char>>
    decreases entries.len(),
{
    if entries.len() == 0 {
        None
    } else if entries[0].0 == key {
        Some(entries[0].1)
    } else {
        lookup(entries.drop_first(), key)
    }
}

pub fn str_eq(a: &str, b: &str) -> (r: bool)
    ensures
        r == (a@ == b@),
{
    let n = a.unicode_len();
    if n != b.unicode_len() {
        return false;
    }
    let mut i: usize = 0;
    while i < n
        invariant
            n == a@.len() == b@.len(),
            i <= n,
            forall|k: int| 0 <= k < i ==> a@[k] == b@[k],
        decreases n - i,
    {
        if a.get_char(i) != b.get_char(i) {
            return false;
        }
        i = i + 1;
    }
    assert(a@ =~= b@);
    true
}

/// The value stored under `key`, taken from the first entry that has it.
pub fn lookup_value(entries: &Vec<(String, String)>, key: &str) -> (r: Option<String>)
    ensures
        opt_string_view(r) == lookup(entries.deep_view(), key@),
{
    let ghost es = entries.deep_view();
    assert(es.skip(0) =~= es);
    let mut i: usize = 0;
    while i < entries.len()
        invariant
            i <= entries@.len(),
            es == entries.deep_view(),
            lookup(es, key@) == lookup(es.skip(i as int), key@),
        decreases entries@.len() - i,
    {
        assert(es.skip(i as int)[0] == es[i as int]);
        assert(es.skip(i as int).drop_first() =~= es.skip(i + 1));
        if str_eq(entries[i].0.as_str(), key) {
            return Some(entries[i].1.clone());
        }
        i = i + 1;
    }
    None
}

/// A copy of a list of strings.
pub fn clone_strings(v: &Vec<String>) -> (r: Vec<String>)
    ensures
        r.deep_view() == v.deep_view(),
{
    let mut out: Vec<String> = Vec::new();
    let mut i: usize = 0;
    while i < v.len()
        invariant
            i <= v@.len(),
            out.deep_view() == v.deep_view().take(i as int),
        decreases v@.len() - i,
    {
        let c = v[i].clone();
        let ghost before = out.deep_view();
        out.push(c);
        assert(out.deep_view() =~= before.push(c@));
        assert(v.deep_view().take(i + 1) =~= v.deep_view().take(i as int).push(v@[i as int]@));
        i = i + 1;
    }
    assert(v.deep_view().take(i as int) =~= v.deep_view());
    out
}

pub open spec fn opt_string_view(o: Option<String>) -> Option<Seq<char>> {
    match o {
        Some(s) => Some(s@),
        None => None,
    }
}

// ---------------------------------------------------------------------------------------------
// Resources read by the controller
// ---------------------------------------------------------------------------------------------

/// A reference from a resource to one that owns it.
#[derive(Debug, Clone, Default)]
pub struct OwnerReference {
    pub kind: String,
    pub name: String,
}

/// What the controller reads of a Cluster API Machine.
#[derive(Debug, Clone, Default)]
pub struct Machine {
    pub name: String,
    pub namespace: Option<String>,
    pub labels: Vec<(String, String)>,
    /// The Kubernetes version the node should run, such as `v1.27.3`.
    pub version: Option<String>,
    /// Set once the bootstrap provider has written the node's bootstrap data.
    pub bootstrap_data_secret_name: Option<String>,
}

/// What the controller reads of a Cluster API Cluster.
#[derive(Debug, Clone, Default)]
pub struct Cluster {
    pub name: String,
    pub namespace: Option<String>,
    pub pod_cidr_blocks: Option<Vec<String>>,
    pub service_cidr_blocks: Option<Vec<String>>,
    /// Name of the DockerCluster that provides the cluster's infrastructure.
    pub infrastructure_ref_name: Option<String>,
    pub infrastructure_ready: Option<bool>,
}

/// What the controller reads of the DockerMachine it reconciles.
#[derive(Debug, Clone, Default)]
pub struct DockerMachine {
    pub name: String,
    pub namespace: Option<String>,
    pub owner_references: Vec<OwnerReference>,
    /// Set once the machine has been provisioned.
    pub provider_id: Option<String>,
    /// An image to run instead of the one derived from the Machine's version.
    pub custom_image: Option<String>,
}

impl Machine {
    pub open spec fn spec_cluster_name(&self) -> Option<Seq<char>> {
        lookup(self.labels.deep_view(), CLUSTER_NAME_LABEL@)
    }

    pub open spec fn is_control_plane(&self) -> bool {
        lookup(self.labels.deep_view(), MACHINE_CONTROL_PLANE_LABEL@) is Some
    }

    /// The name of the cluster the Machine belongs to, from its cluster-name label.
    pub fn cluster_name(&self) -> (r: Result<String, Error>)
        ensures
            match r {
                Ok(name) => self.spec_cluster_name() == Some(name@),
                Err(e) => self.spec_cluster_name() is None && e == Error::ClusterNotFound,
            },
    {
        match lookup_value(&self.labels, CLUSTER_NAME_LABEL) {
            Some(name) => Ok(name),
            None => Err(Error::ClusterNotFound),
        }
    }

    pub fn has_control_plane_label(&self) -> (r: bool)
        ensures
            r == self.is_control_plane(),
    {
        lookup_value(&self.labels, MACHINE_CONTROL_PLANE_LABEL).is_some()
    }
}

/// A worker cannot start before the bootstrap provider has written its bootstrap data; a
/// control plane does not wait for it.
pub open spec fn machine_awaits_bootstrap(m: Machine) -> bool {
    !m.is_control_plane() && m.bootstrap_data_secret_name is None
}

impl Cluster {
    pub open spec fn infrastructure_is_ready(&self) -> bool {
        self.infrastructure_ready == Some(true)
    }

    /// The addressing of the pod network; no declared blocks count as an empty IPv4 family.
    pub fn get_pod_ip_family(&self) -> (r: Result<ClusterIPFamily, Error>)
        ensures
            blocks_classified(self.pod_cidr_blocks, r),
    {
        let blocks = match &self.pod_cidr_blocks {
            Some(blocks) => clone_strings(blocks),
            None => Vec::new(),
        };
        assert(blocks.deep_view() =~= match self.pod_cidr_blocks {
            Some(b) => b.deep_view(),
            None => Seq::empty(),
        });
        ClusterIPFamily::new(blocks)
    }

    /// The addressing of the service network; no declared blocks count as an empty IPv4 family.
    pub fn get_services_ip_family(&self) -> (r: Result<ClusterIPFamily, Error>)
        ensures
            blocks_classified(self.service_cidr_blocks, r),
    {
        let blocks = match &self.service_cidr_blocks {
            Some(blocks) => clone_strings(blocks),
            None => Vec::new(),
        };
        assert(blocks.deep_view() =~= match self.service_cidr_blocks {
            Some(b) => b.deep_view(),
            None => Seq::empty(),
        });
        ClusterIPFamily::new(blocks)
    }
}

/// `r` is what classifying `blocks` (none counting as an empty list) gives.
pub open spec fn blocks_classified(
    blocks: Option<Vec<String>>,
    r: Result<ClusterIPFamily, Error>,
) -> bool {
    classified(
        match blocks {
            Some(b) => b.deep_view(),
            None => Seq::empty(),
        },
        r,
    )
}

/// The name of the first owner of kind `Machine`.
pub open spec fn owner_machine(refs: Seq<OwnerReference>) -> Option<Seq<char>>
    decreases refs.len(),
{
    if refs.len() == 0 {
        None
    } else if refs[0].kind@ == MACHINE_KIND@ {
        Some(refs[0].name@)
    } else {
        owner_machine(refs.drop_first())
    }
}

impl DockerMachine {
    pub open spec fn spec_owner_name(&self) -> Option<Seq<char>> {
        owner_machine(self.owner_references@)
    }

    /// The name of the Machine that owns this DockerMachine; `MachineNotFound` while the Machine
    /// controller has not set the owner reference yet.
    pub fn owner_name(&self) -> (r: Result<String, Error>)
        ensures
            match r {
                Ok(name) => self.spec_owner_name() == Some(name@),
                Err(e) => self.spec_owner_name() is None && e == Error::MachineNotFound,
            },
    {
        let refs = &self.owner_references;
        assert(refs@.skip(0) =~= refs@);
        let mut i: usize = 0;
        while i < refs.len()
            invariant
                i <= refs@.len(),
                refs@ == self.owner_references@,
                owner_machine(refs@) == owner_machine(refs@.skip(i as int)),
            decreases refs@.len() - i,
        {
            assert(refs@.skip(i as int)[0] == refs@[i as int]);
            assert(refs@.skip(i as int).drop_first() =~= refs@.skip(i + 1));
            if str_eq(refs[i].kind.as_str(), MACHINE_KIND) {
                assert(owner_machine(refs@.skip(i as int)) == Some(refs@[i as int].name@));
                let name = refs[i].name.clone();
                assert(name@ == refs@[i as int].name@);
                return Ok(name);
            }
            i = i + 1;
        }
        Err(Error::MachineNotFound)
    }
}

} // verus!

verus! {

/// The DockerMachine a Machine's infrastructure reference points at, as `(name, namespace)`: only
/// when the reference names kind `want_kind` of API version `want_api_version`, and a name. A
/// missing namespace reads as the empty one.
pub open spec fn spec_infrastructure_target(
    kind: Option<Seq<char>>,
    api_version: Option<Seq<char>>,
    name: Option<Seq<char>>,
    namespace: Option<Seq<char>>,
    want_kind: Seq<char>,
    want_api_version: Seq<char>,
) -> Option<(Seq<char>, Seq<char>)> {
    if kind == Some(want_kind) && api_version == Some(want_api_version) && name is Some {
        Some(
            (
                name->0,
                match namespace {
                    Some(ns) => ns,
                    None => Seq::empty(),
                },
            ),
        )
    } else {
        None
    }
}

pub fn infrastructure_target(
    kind: &Option<String>,
    api_version: &Option<String>,
    name: &Option<String>,
    namespace: &Option<String>,
    want_kind: &str,
    want_api_version: &str,
) -> (r: Option<(String, String)>)
    ensures
        match r {
            None => spec_infrastructure_target(
                opt_string_view(*kind),
                opt_string_view(*api_version),
                opt_string_view(*name),
                opt_string_view(*namespace),
                want_kind@,
                want_api_version@,
            ) is None,
            Some(t) => spec_infrastructure_target(
                opt_string_view(*kind),
                opt_string_view(*api_version),
                opt_string_view(*name),
                opt_string_view(*namespace),
                want_kind@,
                want_api_version@,
            ) == Some((t.0@, t.1@)),
        },
{
    match (kind, api_version, name) {
        (Some(k), Some(v), Some(n)) => {
            if str_eq(k.as_str(), want_kind) && str_eq(v.as_str(), want_api_version) {
                let ns = match namespace {
                    Some(ns) => ns.clone(),
                    None => String::new(),
                };
                Some((n.clone(), ns))
            } else {
                None
            }
        },
        _ => None,
    }
}

} // verus!

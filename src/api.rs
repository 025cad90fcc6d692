use vstd::prelude::*;

verus! {

/// The desired state of a DockerCluster.
#[derive(Debug, Clone, Default)]
pub struct DockerClusterSpec {
    /// The endpoint used to reach the control plane.
    pub control_plane_endpoint: Option<DockerClusterControlPlaneEndpoint>,
    /// Failure domains by name. They mean little for local containers; the cluster controller
    /// copies them into the status for the rest of Cluster API to use.
    pub failure_domains: Option<Vec<(String, DockerClusterFailureDomains)>>,
    /// Settings of the cluster's load balancer.
    pub load_balancer: Option<DockerClusterLoadBalancer>,
}

/// The endpoint used to reach the control plane.
#[derive(Debug, Clone, Default)]
pub struct DockerClusterControlPlaneEndpoint {
    /// The host name the API server serves on.
    pub host: String,
    /// The port the API server serves on.
    pub port: i64,
}

/// A failure domain declared in the spec.
#[derive(Debug, Clone, Default)]
pub struct DockerClusterFailureDomains {
    /// Free-form attributes an infrastructure provider may use.
    pub attributes: Option<Vec<(String, String)>>,
    /// Whether the domain suits control-plane machines.
    pub control_plane: Option<bool>,
}

/// Settings of the cluster's load balancer.
#[derive(Debug, Clone, Default)]
pub struct DockerClusterLoadBalancer {
    /// A config map holding a template that replaces the default HAProxy configuration.
    pub custom_ha_proxy_config_template_ref: Option<DockerClusterLoadBalancerCustomHaProxyConfigTemplateRef>,
    /// The registry to pull the HAProxy image from.
    pub image_repository: Option<String>,
    /// The tag of the HAProxy image.
    pub image_tag: Option<String>,
}

/// Reference to the config map that holds a custom HAProxy configuration template.
#[derive(Debug, Clone, Default)]
pub struct DockerClusterLoadBalancerCustomHaProxyConfigTemplateRef {
    /// Name of the config map.
    pub name: Option<String>,
}

/// The observed state of a DockerCluster.
#[derive(Debug, Clone, Default)]
pub struct DockerClusterStatus {
    /// The conditions of the DockerCluster.
    pub conditions: Option<Vec<DockerClusterStatusConditions>>,
    /// Failure domains by name, as published to Cluster API.
    pub failure_domains: Option<Vec<(String, DockerClusterStatusFailureDomains)>>,
    /// Whether the cluster's infrastructure is ready.
    pub ready: Option<bool>,
}

/// One observation of the DockerCluster's state.
#[derive(Debug, Clone, Default)]
pub struct DockerClusterStatusConditions {
    /// When the condition last changed.
    pub last_transition_time: String,
    /// A human-readable account of the last change.
    pub message: Option<String>,
    /// The reason for the last change, in CamelCase.
    pub reason: Option<String>,
    /// How serious a false condition is.
    pub severity: Option<String>,
    /// `True`, `False` or `Unknown`.
    pub status: String,
    /// The kind of condition.
    pub condition_type: String,
}

/// A failure domain published in the status.
#[derive(Debug, Clone, Default)]
pub struct DockerClusterStatusFailureDomains {
    /// Free-form attributes an infrastructure provider may use.
    pub attributes: Option<Vec<(String, String)>>,
    /// Whether the domain suits control-plane machines.
    pub control_plane: Option<bool>,
}

} // verus!

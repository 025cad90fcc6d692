use vstd::prelude::*;

verus! {

/// Everything that can stop a reconciliation.
///
/// The wait states (`MachineNotFound`, `ClusterNotFound`, `DockerClusterNotFound`,
/// `BootstrapSecretNotReady`) are expected and resolve with time: the reconciler meets each
/// with a quiet requeue, never an error. The variants that carry a `String` wrap a failure
/// reported by a collaborator (the Kubernetes API, the container runtime) with its message.
#[derive(Debug, Clone, PartialEq, Eq)]
pub enum Error {
    SerializationError(String),
    KubeError(String),
    MachineError(String),
    MachineNotFound,
    ClusterNotFound,
    DockerClusterNotFound,
    BootstrapSecretNotReady,
    IPFamilyUnknown(String),
    ContainerError(String),
    ContainerLookupError,
    ContainerCreateError(String),
    ContainerRemoveError(String),
    PortLookupError(String),
    IllegalDocument,
    UnexpectedEvent,
}

impl Error {
    pub open spec fn spec_metric_label(&self) -> Seq<char> {
        match self {
            Error::SerializationError(_) => "serializationerror"@,
            Error::KubeError(_) => "kubeerror"@,
            Error::MachineError(_) => "machineerror"@,
            Error::MachineNotFound => "machinenotfound"@,
            Error::ClusterNotFound => "clusternotfound"@,
            Error::DockerClusterNotFound => "dockerclusternotfound"@,
            Error::BootstrapSecretNotReady => "bootstrapsecretnotready"@,
            Error::IPFamilyUnknown(_) => "ipfamilyunknown"@,
            Error::ContainerError(_) => "containererror"@,
            Error::ContainerLookupError => "containerlookuperror"@,
            Error::ContainerCreateError(_) => "containercreateerror"@,
            Error::ContainerRemoveError(_) => "containerremoveerror"@,
            Error::PortLookupError(_) => "portlookuperror"@,
            Error::IllegalDocument => "illegaldocument"@,
            Error::UnexpectedEvent => "unexpectedevent"@,
        }
    }

    /// The variant's name in lower case, for use as a metric label; the payload is left out
    /// so that the label set stays small.
    pub fn metric_label(&self) -> (r: String)
        ensures
            r@ == self.spec_metric_label(),
    {
        let s = match self {
            Error::SerializationError(_) => "serializationerror",
            Error::KubeError(_) => "kubeerror",
            Error::MachineError(_) => "machineerror",
            Error::MachineNotFound => "machinenotfound",
            Error::ClusterNotFound => "clusternotfound",
            Error::DockerClusterNotFound => "dockerclusternotfound",
            Error::BootstrapSecretNotReady => "bootstrapsecretnotready",
            Error::IPFamilyUnknown(_) => "ipfamilyunknown",
            Error::ContainerError(_) => "containererror",
            Error::ContainerLookupError => "containerlookuperror",
            Error::ContainerCreateError(_) => "containercreateerror",
            Error::ContainerRemoveError(_) => "containerremoveerror",
            Error::PortLookupError(_) => "portlookuperror",
            Error::IllegalDocument => "illegaldocument",
            Error::UnexpectedEvent => "unexpectedevent",
        };
        String::from_str(s)
    }
}

} // verus!

pub mod api;
pub mod association;
pub mod container;
pub mod controller;
pub mod error;
pub mod ip_family;
pub mod resources;
pub mod runtime;

pub use crate::association::{Association, MachineRole};
pub use crate::container::{Mount, PortMapping, RunContainerInput};
pub use crate::controller::{Action, Command, Event, Reconciliation};
pub use crate::error::Error;
pub use crate::ip_family::ClusterIPFamily;
pub use crate::runtime::Node;

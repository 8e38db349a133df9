//! On-disk storage management for isolated execution sandboxes: a validated
//! storage configuration, a per-sandbox lifecycle state machine, and a manager
//! that drives a pluggable backend through that state machine.

pub mod lifecycle;
pub mod store;
pub mod config;
pub mod manager;

pub use config::{ConfigurationError, ContainerStorageData, StorageRoots};
pub use lifecycle::{Decision, LifecycleError, LifecycleOp, SandboxState};
pub use manager::{ContainerStorageManager, StorageError};
pub use store::{BackendError, SandboxData, Store};

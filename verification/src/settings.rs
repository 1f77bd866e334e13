//! Process configuration: where the controller reaches the worker, and
//! where the worker listens. Loaded from a configuration file at the
//! process's edge and handed in as plain values.

use vstd::prelude::*;

verus! {

/// Configuration of the reconciliation controller.
pub struct ControllerSettings {
    /// The base URL under which the worker accepts dispatched instances.
    pub base_url: String,
}

/// Configuration of the worker server.
pub struct WorkerSettings {
    /// The port the worker listens on.
    pub port: u16,
    /// The host address the worker binds to.
    pub host: String,
}

/// The process-wide configuration object, constructed once and passed by
/// reference into each component.
pub struct Settings {
    pub controller: ControllerSettings,
    pub worker: WorkerSettings,
}

} // verus!

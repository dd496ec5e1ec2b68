//! What a service is configured with.

use vstd::prelude::*;
use vstd::string::StringExecFns;

verus! {

/// What a service is configured with: the names of the shared objects, which
/// host and worker must share, and the role.
#[derive(Debug)]
pub struct ServiceConfig {
    /// The name of the shared-memory object.
    pub sm_name: String,
    /// The name of the queue that carries the host's signals to the worker.
    pub q_name_host: String,
    /// The name of the queue that carries the worker's signals to the host.
    pub q_name_worker: String,
    /// The role flag: whether the process is to play the host. It says which
    /// service to make; what a service removes follows from its own role.
    pub is_host: bool,
}

/// A `ServiceConfig` as a mathematical value.
pub struct ServiceConfigView {
    pub sm_name: Seq<char>,
    pub q_name_host: Seq<char>,
    pub q_name_worker: Seq<char>,
    pub is_host: bool,
}

impl View for ServiceConfig {
    type V = ServiceConfigView;

    open spec fn view(&self) -> ServiceConfigView {
        ServiceConfigView {
            sm_name: self.sm_name@,
            q_name_host: self.q_name_host@,
            q_name_worker: self.q_name_worker@,
            is_host: self.is_host,
        }
    }
}

impl ServiceConfig {
    /// The configuration with these names and this role.
    pub fn new(sm_name: &str, q_name_host: &str, q_name_worker: &str, is_host: bool) -> (config:
        Self)
        ensures
            config@ == (ServiceConfigView {
                sm_name: sm_name@,
                q_name_host: q_name_host@,
                q_name_worker: q_name_worker@,
                is_host,
            }),
    {
        ServiceConfig {
            sm_name: String::from_str(sm_name),
            q_name_host: String::from_str(q_name_host),
            q_name_worker: String::from_str(q_name_worker),
            is_host,
        }
    }
}

} // verus!

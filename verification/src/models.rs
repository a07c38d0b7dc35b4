//! Service descriptors and their mutable runtime state.

use vstd::prelude::*;

verus! {

/// Runtime status of one service.
///
/// `Running` carries the OS process id; a provisional `Running(0)` is used
/// while a spawn is in flight. For the start-eligibility check only the tag
/// matters, never the pid payload.
#[derive(Clone, Copy, Debug, PartialEq, Eq, Structural)]
pub enum ServiceStatus {
    Stopped,
    Running(u32),
    Failed,
    Completed,
}

/// The ecosystem a service descriptor came from; informational only.
#[derive(Clone, Copy, Debug, PartialEq, Eq, Structural)]
pub enum ProjectType {
    Node,
    Rust,
    Unknown,
}

/// A start request is honored exactly when the service is not running,
/// whatever pid a running service might carry.
pub open spec fn can_start(status: ServiceStatus) -> bool {
    !(status is Running)
}

/// Mathematical model of a [`Service`].
pub struct ServiceView {
    pub name: Seq<char>,
    pub path: Seq<char>,
    pub project_type: ProjectType,
    pub command: Seq<char>,
    pub status: ServiceStatus,
    pub logs: Seq<Seq<char>>,
}

/// One discovered service: the immutable descriptor (name, working
/// directory, shell command, ecosystem tag) together with its mutable
/// runtime state (status and append-only log lines).
#[derive(Clone, Debug)]
pub struct Service {
    pub name: String,
    pub path: String,
    pub project_type: ProjectType,
    pub command: String,
    pub status: ServiceStatus,
    pub logs: Vec<String>,
}

impl View for Service {
    type V = ServiceView;

    open spec fn view(&self) -> ServiceView {
        ServiceView {
            name: self.name@,
            path: self.path@,
            project_type: self.project_type,
            command: self.command@,
            status: self.status,
            logs: self.logs.deep_view(),
        }
    }
}

impl DeepView for Service {
    type V = ServiceView;

    open spec fn deep_view(&self) -> ServiceView {
        self@
    }
}

impl Service {
    /// A freshly discovered service: stopped, with no log history.
    pub fn new(name: String, path: String, project_type: ProjectType, command: String) -> (r:
        Service)
        ensures
            r@.name == name@,
            r@.path == path@,
            r@.project_type == project_type,
            r@.command == command@,
            r@.status == ServiceStatus::Stopped,
            r@.logs == Seq::<Seq<char>>::empty(),
    {
        let r = Service { name, path, project_type, command, status: ServiceStatus::Stopped, logs: Vec::new() };
        proof {
            assert(r@.logs =~= Seq::<Seq<char>>::empty());
        }
        r
    }

    /// A field-by-field copy; the control loop hands a copy of the selected
    /// descriptor to the supervisor.
    pub fn duplicate(&self) -> (r: Service)
        ensures
            r@ == self@,
    {
        let mut logs: Vec<String> = Vec::new();
        let mut i: usize = 0;
        while i < self.logs.len()
            invariant
                i <= self.logs.len(),
                logs.deep_view() == self.logs.deep_view().take(i as int),
            decreases self.logs.len() - i,
        {
            let ghost prev = logs.deep_view();
            let line = self.logs[i].clone();
            logs.push(line);
            i = i + 1;
            proof {
                assert(logs.deep_view() =~= prev.push(line@));
                assert(logs.deep_view() =~= self.logs.deep_view().take(i as int));
            }
        }
        let r = Service {
            name: self.name.clone(),
            path: self.path.clone(),
            project_type: self.project_type,
            command: self.command.clone(),
            status: self.status,
            logs,
        };
        proof {
            assert(r@.logs =~= self@.logs);
        }
        r
    }
}

} // verus!

//! The deployment record: the one persisted fact that says which container
//! is, or is about to become, the live one.

use vstd::prelude::*;
use vstd::string::StringExecFns;

verus! {

/// What an optional string stands for.
pub open spec fn text_view(text: Option<String>) -> Option<Seq<char>> {
    match text {
        Some(t) => Some(t@),
        None => None,
    }
}

/// Whether two string slices hold the same characters.
pub(crate) fn same_text(left: &str, right: &str) -> (same: bool)
    ensures
        same == (left@ == right@),
{
    String::from_str(left) == String::from_str(right)
}

/// Where the container named by a record stands.
#[derive(Clone, Copy, Debug, PartialEq, Eq, Structural)]
pub enum ContainerStatus {
    /// The container is the live deployment and nothing is left to clean up.
    Running,
    /// The container was created to become the live deployment, and has not
    /// been confirmed as running.
    Deploying,
}

/// The mathematical value of a record.
pub struct LockfileView {
    pub container_id: Seq<char>,
    pub status: ContainerStatus,
}

/// The record held by the store: a container, named by its identifier, and
/// its status.
#[derive(Debug)]
pub struct AgentLockfile {
    container_id: String,
    status: ContainerStatus,
}

impl View for AgentLockfile {
    type V = LockfileView;

    closed spec fn view(&self) -> LockfileView {
        LockfileView { container_id: self.container_id@, status: self.status }
    }
}

impl AgentLockfile {
    /// A record that names `container_id` with the given status.
    pub fn new(container_id: String, status: ContainerStatus) -> (record: AgentLockfile)
        ensures
            record@ == (LockfileView { container_id: container_id@, status }),
    {
        AgentLockfile { container_id, status }
    }

    /// The identifier of the container that the record names.
    pub fn container_id(&self) -> (id: &str)
        ensures
            id@ == self@.container_id,
    {
        self.container_id.as_str()
    }

    /// The status that the record gives its container.
    pub fn status(&self) -> (status: ContainerStatus)
        ensures
            status == self@.status,
    {
        self.status
    }
}

impl Clone for AgentLockfile {
    fn clone(&self) -> (copy: AgentLockfile)
        ensures
            copy@ == self@,
    {
        AgentLockfile { container_id: self.container_id.clone(), status: self.status }
    }
}

impl PartialEq for AgentLockfile {
    fn eq(&self, other: &AgentLockfile) -> (same: bool) {
        self.container_id == other.container_id && self.status == other.status
    }
}

impl vstd::std_specs::cmp::PartialEqSpecImpl for AgentLockfile {
    open spec fn obeys_eq_spec() -> bool {
        true
    }

    open spec fn eq_spec(&self, other: &AgentLockfile) -> bool {
        self@ == other@
    }
}

} // verus!

//! The agent as a mathematical state machine.
//!
//! An agent is in one [`Phase`] at a time. In some phases it waits for its
//! driver to carry out one action ([`pending`]) and to report what came of it
//! ([`advance`]); in `Created` and `Locked` it waits for its caller to say
//! [`lock`] or [`deploy`]; in `Deployed` and `Failed` it is finished.
//!
//! ```text
//! Connecting -> Pulling -> Creating -> Created
//! Created  --lock-->   Reading -> Locking -> Locked
//! Locked   --deploy--> Clearing -> Removing -> Starting   (a previous container)
//! Locked   --deploy--> Verifying -> Starting              (none)
//! Starting -> Recording -> Deployed
//! ```
//!
//! Any failure ends in `Failed`, from which nothing more is asked.

use crate::error::AgentError;
use crate::naming::name_spec;
use crate::record::{ContainerStatus, LockfileView};
use crate::runtime::{ActionView, CreateRequestView, EventView, PullRequestView, RemoveRequestView};
use vstd::prelude::*;

verus! {

/// What to do with a record that says `Deploying`: the trace of an attempt
/// that never reached `Running`.
#[derive(Clone, Copy, Debug, PartialEq, Eq, Structural)]
pub enum OnConcurrentDeploy {
    /// Refuse to lock, with `AlreadyDeploying`.
    Reject,
    /// Take the container that the record names for abandoned, and retire it
    /// like any previous container.
    Reclaim,
}

/// Where an agent stands.
#[derive(Clone, Copy, Debug, PartialEq, Eq, Structural)]
pub enum Phase {
    /// Waiting to hear that the engine answers.
    Connecting,
    /// Waiting for the image.
    Pulling,
    /// Waiting for the new container.
    Creating,
    /// The new container exists. No record has been consulted.
    Created,
    /// Locking: waiting for what the store holds.
    Reading,
    /// Locking: waiting for the store to take the `Deploying` record.
    Locking,
    /// The store names the new container as `Deploying`, and the fate of the
    /// previous container is decided.
    Locked,
    /// Deploying: waiting for the store to be emptied.
    Clearing,
    /// Deploying: waiting for the previous container to be removed.
    Removing,
    /// Deploying, with no previous container: waiting for what the store
    /// holds.
    Verifying,
    /// Waiting for the new container to start.
    Starting,
    /// Waiting for the store to take the `Running` record.
    Recording,
    /// The new container is live and recorded as `Running`.
    Deployed,
    /// The agent gave up, for this reason.
    Failed(AgentError),
}

/// The mathematical value of an agent.
pub struct AgentView {
    /// The image to deploy.
    pub image: Seq<char>,
    /// The name for the new container.
    pub name: Seq<char>,
    pub policy: OnConcurrentDeploy,
    pub phase: Phase,
    /// The identifier of the new container, once it exists.
    pub container: Option<Seq<char>>,
    /// The identifier of the container to retire, once `lock` has found one.
    pub old_container: Option<Seq<char>>,
    /// Whether the container to retire was left behind by an attempt that
    /// never finished.
    pub abandoned: bool,
    /// Whether the deployment got as far as starting the new container.
    pub accepted: bool,
}

/// The tag at which images are pulled.
pub open spec fn image_tag() -> Seq<char> {
    "latest"@
}

/// The TCP port of the service, inside the container and on the host.
pub const SERVICE_PORT: u32 = 8080;

/// An agent that has done nothing yet.
pub open spec fn initial(image: Seq<char>, suffix: Seq<char>, policy: OnConcurrentDeploy) -> AgentView {
    AgentView {
        image,
        name: name_spec(image, suffix),
        policy,
        phase: Phase::Connecting,
        container: None,
        old_container: None,
        abandoned: false,
        accepted: false,
    }
}

/// Whether nothing more will come of the agent.
pub open spec fn finished(s: AgentView) -> bool {
    s.phase is Deployed || s.phase is Failed
}

/// The agent after it gave up.
pub open spec fn failed(s: AgentView, error: AgentError) -> AgentView {
    AgentView { phase: Phase::Failed(error), ..s }
}

/// The agent in another phase.
pub open spec fn moved(s: AgentView, phase: Phase) -> AgentView {
    AgentView { phase, ..s }
}

/// The record that names `container` with `status`.
pub open spec fn record_of(container: Seq<char>, status: ContainerStatus) -> LockfileView {
    LockfileView { container_id: container, status }
}

/// What the agent waits for its driver to do, if anything.
pub open spec fn pending(s: AgentView) -> Option<ActionView> {
    match s.phase {
        Phase::Connecting => Some(ActionView::Ping),
        Phase::Pulling => Some(
            ActionView::Pull(PullRequestView { image: s.image, tag: image_tag() }),
        ),
        Phase::Creating => Some(
            ActionView::Create(
                CreateRequestView {
                    name: s.name,
                    image: s.image,
                    container_port: SERVICE_PORT,
                    host_port: SERVICE_PORT,
                },
            ),
        ),
        Phase::Reading | Phase::Verifying => Some(ActionView::ReadRecord),
        Phase::Locking => match s.container {
            Some(container) => Some(
                ActionView::WriteRecord(record_of(container, ContainerStatus::Deploying)),
            ),
            None => None,
        },
        Phase::Clearing => Some(ActionView::ClearRecord),
        Phase::Removing => match s.old_container {
            Some(previous) => Some(
                ActionView::Remove(
                    RemoveRequestView { container_id: previous, force: true, keep_volumes: false },
                ),
            ),
            None => None,
        },
        Phase::Starting => match s.container {
            Some(container) => Some(ActionView::Start(container)),
            None => None,
        },
        Phase::Recording => match s.container {
            Some(container) => Some(
                ActionView::WriteRecord(record_of(container, ContainerStatus::Running)),
            ),
            None => None,
        },
        Phase::Created | Phase::Locked | Phase::Deployed | Phase::Failed(_) => None,
    }
}

/// `lock`: an agent that was just created goes to read the store. Any other
/// agent stays as it is.
pub open spec fn lock(s: AgentView) -> AgentView {
    if s.phase is Created {
        moved(s, Phase::Reading)
    } else {
        s
    }
}

/// `deploy`: an agent that holds the lock goes to retire the previous
/// container, or to check that the store is still its own. An agent that has
/// not finished and does not hold the lock gives up with `NotLocked`.
pub open spec fn deploy(s: AgentView) -> AgentView {
    if s.phase is Locked {
        if s.old_container is Some {
            moved(s, Phase::Clearing)
        } else {
            moved(s, Phase::Verifying)
        }
    } else if finished(s) {
        s
    } else {
        failed(s, AgentError::NotLocked)
    }
}

/// What locking makes of the store's content.
///
/// No record: there is nothing to retire. A `Running` record: its container
/// is the previous one. A `Deploying` record: an earlier attempt died between
/// locking and `Running`; its container is retired too, and marked as
/// abandoned, unless the policy is to reject.
pub open spec fn captured(s: AgentView, stored: Option<LockfileView>) -> AgentView {
    match stored {
        None => moved(s, Phase::Locking),
        Some(record) => match record.status {
            ContainerStatus::Running => AgentView {
                phase: Phase::Locking,
                old_container: Some(record.container_id),
                ..s
            },
            ContainerStatus::Deploying => match s.policy {
                OnConcurrentDeploy::Reject => failed(s, AgentError::AlreadyDeploying),
                OnConcurrentDeploy::Reclaim => AgentView {
                    phase: Phase::Locking,
                    old_container: Some(record.container_id),
                    abandoned: true,
                    ..s
                },
            },
        },
    }
}

/// Whether the store holds the agent's own lock: the record that names the
/// new container as `Deploying`.
pub open spec fn is_own_lock(s: AgentView, record: LockfileView) -> bool {
    s.container == Some(record.container_id) && record.status == ContainerStatus::Deploying
}

/// The agent on its way to start the new container.
pub open spec fn accepted(s: AgentView) -> AgentView {
    AgentView { phase: Phase::Starting, accepted: true, ..s }
}

/// What an agent with no previous container makes of the store's content
/// before it starts the new container. Its own lock, or nothing, lets it go
/// on. Any other record was written by someone else in the meantime, and is
/// not overwritten.
pub open spec fn verified(s: AgentView, stored: Option<LockfileView>) -> AgentView {
    match stored {
        None => accepted(s),
        Some(record) => if is_own_lock(s, record) {
            accepted(s)
        } else {
            failed(s, AgentError::InvariantViolation)
        },
    }
}

/// The agent after its driver reported `event` for the pending action. An
/// event that is no answer to that action counts as the action's failure; an
/// agent that waits for nothing ignores events.
pub open spec fn advance(s: AgentView, event: EventView) -> AgentView {
    match s.phase {
        Phase::Connecting => match event {
            EventView::Done => moved(s, Phase::Pulling),
            _ => failed(s, AgentError::RuntimeUnreachable),
        },
        Phase::Pulling => match event {
            EventView::Done => moved(s, Phase::Creating),
            _ => failed(s, AgentError::PullFailed),
        },
        Phase::Creating => match event {
            EventView::Created(container) => AgentView {
                phase: Phase::Created,
                container: Some(container),
                ..s
            },
            _ => failed(s, AgentError::CreationError),
        },
        Phase::Reading => match event {
            EventView::Record(stored) => captured(s, stored),
            EventView::Corrupt => failed(s, AgentError::RecordCorrupt),
            _ => failed(s, AgentError::StoreUnavailable),
        },
        Phase::Locking => match event {
            EventView::Done => moved(s, Phase::Locked),
            _ => failed(s, AgentError::StoreUnavailable),
        },
        Phase::Clearing => match event {
            EventView::Done | EventView::NotFound => moved(s, Phase::Removing),
            _ => failed(s, AgentError::StoreUnavailable),
        },
        Phase::Removing => match event {
            EventView::Done | EventView::NotFound => accepted(s),
            _ => failed(s, AgentError::RemovalError),
        },
        Phase::Verifying => match event {
            EventView::Record(stored) => verified(s, stored),
            EventView::Corrupt => failed(s, AgentError::RecordCorrupt),
            _ => failed(s, AgentError::StoreUnavailable),
        },
        Phase::Starting => match event {
            EventView::Done => moved(s, Phase::Recording),
            _ => failed(s, AgentError::StartError),
        },
        Phase::Recording => match event {
            EventView::Done => moved(s, Phase::Deployed),
            _ => failed(s, AgentError::StoreUnavailable),
        },
        Phase::Created | Phase::Locked | Phase::Deployed | Phase::Failed(_) => s,
    }
}

/// What holds of every agent that was made by `initial` and moved by `lock`,
/// `deploy` and `advance`: it knows its container from `Created` on, it knows
/// a previous container exactly where it is about to retire one, and it is
/// marked as accepted from `Starting` on.
pub open spec fn well_formed(s: AgentView) -> bool {
    match s.phase {
        Phase::Connecting | Phase::Pulling | Phase::Creating => {
            &&& s.container is None
            &&& s.old_container is None
            &&& !s.abandoned
            &&& !s.accepted
        },
        Phase::Created | Phase::Reading | Phase::Verifying => {
            &&& s.container is Some
            &&& s.old_container is None
            &&& !s.abandoned
            &&& !s.accepted
        },
        Phase::Locking | Phase::Locked => {
            &&& s.container is Some
            &&& s.abandoned ==> s.old_container is Some
            &&& !s.accepted
        },
        Phase::Clearing | Phase::Removing => {
            &&& s.container is Some
            &&& s.old_container is Some
            &&& !s.accepted
        },
        Phase::Starting | Phase::Recording | Phase::Deployed => {
            &&& s.container is Some
            &&& s.abandoned ==> s.old_container is Some
            &&& s.accepted
        },
        Phase::Failed(_) => true,
    }
}

} // verus!

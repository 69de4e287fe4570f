//! The agent: one per deployment attempt.
//!
//! An [`Agent`] is made for an image, and is spent when the attempt has
//! succeeded or failed; the next attempt makes a new one. It performs no I/O.
//! A driver owns the container engine and the record store, and runs the
//! agent like this:
//!
//! ```text
//! let mut agent = Agent::new(image, policy);
//! run(&mut agent);           // ping, pull, create
//! agent.lock();
//! run(&mut agent);           // read the store, write the lock
//! agent.deploy()?;
//! run(&mut agent);           // retire the previous container, start the new one
//!
//! fn run(agent) {
//!     while let Some(action) = agent.pending() {
//!         agent.advance(perform(action));
//!     }
//! }
//! ```
//!
//! Once [`Agent::accepted`] holds, what is left (starting the new container
//! and recording it as running) may be run apart from the caller that asked
//! for the deployment.

use crate::error::AgentError;
use crate::model;
use crate::model::{AgentView, OnConcurrentDeploy, Phase, SERVICE_PORT};
use crate::naming::{container_name, is_suffix, random_suffix};
use crate::record::{same_text, text_view, AgentLockfile, ContainerStatus};
use crate::runtime::{Action, CreateRequest, Event, PullRequest, RemoveRequest};
use vstd::prelude::*;
use vstd::string::StringExecFns;

verus! {

/// The state of one deployment attempt.
#[derive(Debug)]
pub struct Agent {
    image: String,
    name: String,
    policy: OnConcurrentDeploy,
    phase: Phase,
    container: Option<String>,
    old_container: Option<String>,
    abandoned: bool,
    accepted: bool,
}

impl View for Agent {
    type V = AgentView;

    closed spec fn view(&self) -> AgentView {
        AgentView {
            image: self.image@,
            name: self.name@,
            policy: self.policy,
            phase: self.phase,
            container: text_view(self.container),
            old_container: text_view(self.old_container),
            abandoned: self.abandoned,
            accepted: self.accepted,
        }
    }
}

/// What an optional action stands for.
pub open spec fn action_view(action: Option<Action>) -> Option<crate::runtime::ActionView> {
    match action {
        Some(a) => Some(a@),
        None => None,
    }
}

fn copy_of(text: &Option<String>) -> (copy: Option<String>)
    ensures
        text_view(copy) == text_view(*text),
{
    match text {
        Some(t) => Some(t.clone()),
        None => None,
    }
}

impl Agent {
    /// An agent for `image` whose container will be named with `suffix`. It
    /// starts out waiting to hear that the engine answers.
    pub fn with_suffix(image: &str, suffix: &str, policy: OnConcurrentDeploy) -> (agent: Agent)
        ensures
            agent@ == model::initial(image@, suffix@, policy),
            model::well_formed(agent@),
    {
        Agent {
            image: String::from_str(image),
            name: container_name(image, suffix),
            policy,
            phase: Phase::Connecting,
            container: None,
            old_container: None,
            abandoned: false,
            accepted: false,
        }
    }

    /// An agent for `image` whose container will be named with a fresh random
    /// suffix.
    pub fn new(image: &str, policy: OnConcurrentDeploy) -> (agent: Agent)
        ensures
            exists|suffix: Seq<char>|
                is_suffix(suffix) && agent@ == #[trigger] model::initial(image@, suffix, policy),
            model::well_formed(agent@),
    {
        let suffix = random_suffix();
        Agent::with_suffix(image, suffix.as_str(), policy)
    }

    /// What the agent waits for its driver to do, if anything.
    pub fn pending(&self) -> (action: Option<Action>)
        ensures
            action_view(action) == model::pending(self@),
    {
        proof {
            reveal_strlit("latest");
        }
        match self.phase {
            Phase::Connecting => Some(Action::Ping),
            Phase::Pulling => Some(
                Action::Pull(
                    PullRequest { image: self.image.clone(), tag: String::from_str("latest") },
                ),
            ),
            Phase::Creating => Some(
                Action::Create(
                    CreateRequest {
                        name: self.name.clone(),
                        image: self.image.clone(),
                        container_port: SERVICE_PORT,
                        host_port: SERVICE_PORT,
                    },
                ),
            ),
            Phase::Reading | Phase::Verifying => Some(Action::ReadRecord),
            Phase::Locking => match &self.container {
                Some(container) => Some(
                    Action::WriteRecord(
                        AgentLockfile::new(container.clone(), ContainerStatus::Deploying),
                    ),
                ),
                None => None,
            },
            Phase::Clearing => Some(Action::ClearRecord),
            Phase::Removing => match &self.old_container {
                Some(previous) => Some(
                    Action::Remove(
                        RemoveRequest {
                            container_id: previous.clone(),
                            force: true,
                            keep_volumes: false,
                        },
                    ),
                ),
                None => None,
            },
            Phase::Starting => match &self.container {
                Some(container) => Some(Action::Start(container.clone())),
                None => None,
            },
            Phase::Recording => match &self.container {
                Some(container) => Some(
                    Action::WriteRecord(
                        AgentLockfile::new(container.clone(), ContainerStatus::Running),
                    ),
                ),
                None => None,
            },
            Phase::Created | Phase::Locked | Phase::Deployed | Phase::Failed(_) => None,
        }
    }

    /// Begins to lock: an agent that was just created now waits for the
    /// store to be read. Asked of any other agent, `lock` changes nothing.
    /// Returns what the agent waits for afterwards.
    pub fn lock(&mut self) -> (next: Option<Action>)
        ensures
            final(self)@ == model::lock(old(self)@),
            action_view(next) == model::pending(final(self)@),
            model::well_formed(old(self)@) ==> model::well_formed(final(self)@),
    {
        match self.phase {
            Phase::Created => {
                self.phase = Phase::Reading;
            },
            _ => {},
        }
        self.pending()
    }

    /// Begins to deploy. An agent that holds the lock now waits for the
    /// first step of the deployment, which is returned. Any other agent
    /// answers `NotLocked` and asks for nothing from then on; unless it had
    /// already finished, it has now failed.
    pub fn deploy(&mut self) -> (res: Result<Action, AgentError>)
        ensures
            final(self)@ == model::deploy(old(self)@),
            match res {
                Ok(first) => old(self)@.phase is Locked && model::pending(final(self)@) == Some(first@),
                Err(e) => !(old(self)@.phase is Locked) && e == AgentError::NotLocked
                    && model::pending(final(self)@) is None,
            },
            model::well_formed(old(self)@) ==> model::well_formed(final(self)@),
    {
        match self.phase {
            Phase::Locked => {
                if self.old_container.is_some() {
                    self.phase = Phase::Clearing;
                    Ok(Action::ClearRecord)
                } else {
                    self.phase = Phase::Verifying;
                    Ok(Action::ReadRecord)
                }
            },
            Phase::Deployed | Phase::Failed(_) => Err(AgentError::NotLocked),
            _ => {
                self.phase = Phase::Failed(AgentError::NotLocked);
                Err(AgentError::NotLocked)
            },
        }
    }

    /// Takes the driver's report on the pending action, and returns what the
    /// agent waits for next.
    pub fn advance(&mut self, event: Event) -> (next: Option<Action>)
        ensures
            final(self)@ == model::advance(old(self)@, event@),
            action_view(next) == model::pending(final(self)@),
            model::well_formed(old(self)@) ==> model::well_formed(final(self)@),
    {
        match self.phase {
            Phase::Connecting => match event {
                Event::Done => {
                    self.phase = Phase::Pulling;
                },
                _ => {
                    self.phase = Phase::Failed(AgentError::RuntimeUnreachable);
                },
            },
            Phase::Pulling => match event {
                Event::Done => {
                    self.phase = Phase::Creating;
                },
                _ => {
                    self.phase = Phase::Failed(AgentError::PullFailed);
                },
            },
            Phase::Creating => match event {
                Event::Created(container) => {
                    self.container = Some(container);
                    self.phase = Phase::Created;
                },
                _ => {
                    self.phase = Phase::Failed(AgentError::CreationError);
                },
            },
            Phase::Reading => match event {
                Event::Record(stored) => {
                    self.capture(stored);
                },
                Event::Corrupt => {
                    self.phase = Phase::Failed(AgentError::RecordCorrupt);
                },
                _ => {
                    self.phase = Phase::Failed(AgentError::StoreUnavailable);
                },
            },
            Phase::Locking => match event {
                Event::Done => {
                    self.phase = Phase::Locked;
                },
                _ => {
                    self.phase = Phase::Failed(AgentError::StoreUnavailable);
                },
            },
            Phase::Clearing => match event {
                Event::Done | Event::NotFound => {
                    self.phase = Phase::Removing;
                },
                _ => {
                    self.phase = Phase::Failed(AgentError::StoreUnavailable);
                },
            },
            Phase::Removing => match event {
                Event::Done | Event::NotFound => {
                    self.phase = Phase::Starting;
                    self.accepted = true;
                },
                _ => {
                    self.phase = Phase::Failed(AgentError::RemovalError);
                },
            },
            Phase::Verifying => match event {
                Event::Record(stored) => {
                    self.verify(stored);
                },
                Event::Corrupt => {
                    self.phase = Phase::Failed(AgentError::RecordCorrupt);
                },
                _ => {
                    self.phase = Phase::Failed(AgentError::StoreUnavailable);
                },
            },
            Phase::Starting => match event {
                Event::Done => {
                    self.phase = Phase::Recording;
                },
                _ => {
                    self.phase = Phase::Failed(AgentError::StartError);
                },
            },
            Phase::Recording => match event {
                Event::Done => {
                    self.phase = Phase::Deployed;
                },
                _ => {
                    self.phase = Phase::Failed(AgentError::StoreUnavailable);
                },
            },
            Phase::Created | Phase::Locked | Phase::Deployed | Phase::Failed(_) => {},
        }
        self.pending()
    }

    /// Decides the fate of the container that the store names.
    fn capture(&mut self, stored: Option<AgentLockfile>)
        ensures
            final(self)@ == model::captured(
                old(self)@,
                match stored {
                    Some(record) => Some(record@),
                    None => None,
                },
            ),
    {
        match stored {
            None => {
                self.phase = Phase::Locking;
            },
            Some(record) => match record.status() {
                ContainerStatus::Running => {
                    self.old_container = Some(String::from_str(record.container_id()));
                    self.phase = Phase::Locking;
                },
                ContainerStatus::Deploying => match self.policy {
                    OnConcurrentDeploy::Reject => {
                        self.phase = Phase::Failed(AgentError::AlreadyDeploying);
                    },
                    OnConcurrentDeploy::Reclaim => {
                        self.old_container = Some(String::from_str(record.container_id()));
                        self.abandoned = true;
                        self.phase = Phase::Locking;
                    },
                },
            },
        }
    }

    /// Checks that the store is empty or still holds the agent's own lock.
    fn verify(&mut self, stored: Option<AgentLockfile>)
        ensures
            final(self)@ == model::verified(
                old(self)@,
                match stored {
                    Some(record) => Some(record@),
                    None => None,
                },
            ),
    {
        let own = match stored {
            None => true,
            Some(record) => match &self.container {
                Some(container) => same_text(record.container_id(), container.as_str())
                    && record.status() == ContainerStatus::Deploying,
                None => false,
            },
        };
        if own {
            self.phase = Phase::Starting;
            self.accepted = true;
        } else {
            self.phase = Phase::Failed(AgentError::InvariantViolation);
        }
    }

    /// Where the agent stands.
    pub fn phase(&self) -> (phase: Phase)
        ensures
            phase == self@.phase,
    {
        self.phase
    }

    /// The image that the agent deploys.
    pub fn image(&self) -> (image: &str)
        ensures
            image@ == self@.image,
    {
        self.image.as_str()
    }

    /// The name for the new container.
    pub fn name(&self) -> (name: &str)
        ensures
            name@ == self@.name,
    {
        self.name.as_str()
    }

    /// What the agent does with a `Deploying` record.
    pub fn policy(&self) -> (policy: OnConcurrentDeploy)
        ensures
            policy == self@.policy,
    {
        self.policy
    }

    /// The identifier of the new container, once it exists.
    pub fn container(&self) -> (container: Option<String>)
        ensures
            text_view(container) == self@.container,
    {
        copy_of(&self.container)
    }

    /// The identifier of the container to retire, once `lock` has found one.
    pub fn old_container(&self) -> (previous: Option<String>)
        ensures
            text_view(previous) == self@.old_container,
    {
        copy_of(&self.old_container)
    }

    /// Whether the container to retire was left behind by an attempt that
    /// never finished. The driver is expected to log a warning.
    pub fn abandoned(&self) -> (abandoned: bool)
        ensures
            abandoned == self@.abandoned,
    {
        self.abandoned
    }

    /// Whether the deployment has got as far as starting the new container:
    /// from then on the caller that asked for it need not wait.
    pub fn accepted(&self) -> (accepted: bool)
        ensures
            accepted == self@.accepted,
    {
        self.accepted
    }

    /// Whether the agent holds the lock and waits for `deploy`.
    pub fn is_locked(&self) -> (locked: bool)
        ensures
            locked == (self@.phase is Locked),
    {
        match self.phase {
            Phase::Locked => true,
            _ => false,
        }
    }

    /// Why the agent gave up, if it did.
    pub fn failure(&self) -> (error: Option<AgentError>)
        ensures
            error == (match self@.phase {
                Phase::Failed(e) => Some(e),
                _ => None,
            }),
    {
        match self.phase {
            Phase::Failed(e) => Some(e),
            _ => None,
        }
    }
}

} // verus!

use deploy_agent::agent::Agent;
use deploy_agent::error::AgentError;
use deploy_agent::model::{OnConcurrentDeploy, Phase};
use deploy_agent::record::{AgentLockfile, ContainerStatus};
use deploy_agent::runtime::{Action, Event};

/// A host in memory: the text in the record store, the containers that
/// exist, the containers that were started, and everything that was asked.
struct Host {
    store: Option<String>,
    containers: Vec<String>,
    started: Vec<String>,
    next_id: String,
    asked: Vec<String>,
}

impl Host {
    fn new() -> Host {
        Host {
            store: None,
            containers: Vec::new(),
            started: Vec::new(),
            next_id: String::new(),
            asked: Vec::new(),
        }
    }

    fn with_record(id: &str, status: ContainerStatus) -> Host {
        let mut host = Host::new();
        host.containers.push(id.to_string());
        host.store = Some(AgentLockfile::new(id.to_string(), status).encode().unwrap());
        host
    }

    fn record(&self) -> Option<AgentLockfile> {
        match &self.store {
            Some(text) => Some(AgentLockfile::decode(text).unwrap()),
            None => None,
        }
    }

    fn perform(&mut self, action: Action) -> Event {
        match action {
            Action::Ping => {
                self.asked.push("ping".to_string());
                Event::Done
            }
            Action::Pull(request) => {
                self.asked.push(format!("pull {}:{}", request.image, request.tag));
                Event::Done
            }
            Action::Create(request) => {
                self.asked.push(format!("create from {}", request.image));
                self.containers.push(self.next_id.clone());
                Event::Created(self.next_id.clone())
            }
            Action::ReadRecord => {
                self.asked.push("read".to_string());
                Event::stored(self.store.as_deref())
            }
            Action::WriteRecord(record) => {
                self.asked.push(format!("write {} {:?}", record.container_id(), record.status()));
                self.store = Some(record.encode().unwrap());
                Event::Done
            }
            Action::ClearRecord => {
                self.asked.push("clear".to_string());
                self.store = None;
                Event::Done
            }
            Action::Remove(request) => {
                self.asked.push(format!("remove {}", request.container_id));
                match self.containers.iter().position(|c| *c == request.container_id) {
                    Some(at) => {
                        self.containers.remove(at);
                        Event::Done
                    }
                    None => Event::NotFound,
                }
            }
            Action::Start(id) => {
                self.asked.push(format!("start {}", id));
                if self.containers.contains(&id) {
                    self.started.push(id);
                    Event::Done
                } else {
                    Event::NotFound
                }
            }
        }
    }

    fn run(&mut self, agent: &mut Agent) {
        let mut turns = 0;
        while let Some(action) = agent.pending() {
            let event = self.perform(action);
            agent.advance(event);
            turns += 1;
            assert!(turns <= 4);
        }
    }

    fn set_up(&mut self, id: &str, policy: OnConcurrentDeploy) -> Agent {
        self.next_id = id.to_string();
        let mut agent = Agent::with_suffix("app", "Ab3dE9z", policy);
        self.run(&mut agent);
        assert_eq!(agent.phase(), Phase::Created);
        agent
    }

    fn locked(&mut self, id: &str, policy: OnConcurrentDeploy) -> Agent {
        let mut agent = self.set_up(id, policy);
        agent.lock();
        self.run(&mut agent);
        agent
    }

    fn deploy(&mut self, id: &str, policy: OnConcurrentDeploy) -> Agent {
        let mut agent = self.locked(id, policy);
        let first = agent.deploy();
        assert!(first.is_ok());
        self.run(&mut agent);
        agent
    }
}

fn running(id: &str) -> Option<AgentLockfile> {
    Some(AgentLockfile::new(id.to_string(), ContainerStatus::Running))
}

fn deploying(id: &str) -> Option<AgentLockfile> {
    Some(AgentLockfile::new(id.to_string(), ContainerStatus::Deploying))
}

fn created(id: &str) -> Agent {
    let mut agent = Agent::with_suffix("app", "Ab3dE9z", OnConcurrentDeploy::Reclaim);
    agent.advance(Event::Done);
    agent.advance(Event::Done);
    agent.advance(Event::Created(id.to_string()));
    assert_eq!(agent.phase(), Phase::Created);
    agent
}

fn locked_after(id: &str, stored: Option<AgentLockfile>) -> Agent {
    let mut agent = created(id);
    agent.lock();
    agent.advance(Event::Record(stored));
    agent.advance(Event::Done);
    assert_eq!(agent.phase(), Phase::Locked);
    agent
}

#[test]
fn deploy_swap_and_recover() {
    let mut host = Host::new();

    let first = host.deploy("c1", OnConcurrentDeploy::Reclaim);
    assert_eq!(first.phase(), Phase::Deployed);
    assert_eq!(host.record(), running("c1"));
    assert_eq!(host.started, vec!["c1"]);
    assert_eq!(host.containers, vec!["c1"]);

    let mut second = host.locked("c2", OnConcurrentDeploy::Reclaim);
    assert_eq!(second.old_container(), Some("c1".to_string()));
    assert!(!second.abandoned());
    assert_eq!(host.record(), deploying("c2"));
    second.deploy().unwrap();
    host.run(&mut second);
    assert_eq!(second.phase(), Phase::Deployed);
    assert_eq!(host.record(), running("c2"));
    assert_eq!(host.started, vec!["c1", "c2"]);
    assert_eq!(host.containers, vec!["c2"]);

    let third = host.locked("c3", OnConcurrentDeploy::Reclaim);
    assert_eq!(third.phase(), Phase::Locked);
    assert_eq!(host.record(), deploying("c3"));
    drop(third);

    let mut fourth = host.locked("c4", OnConcurrentDeploy::Reclaim);
    assert_eq!(fourth.old_container(), Some("c3".to_string()));
    assert!(fourth.abandoned());
    assert_eq!(host.record(), deploying("c4"));
    fourth.deploy().unwrap();
    host.run(&mut fourth);
    assert_eq!(fourth.phase(), Phase::Deployed);
    assert_eq!(host.record(), running("c4"));
    assert_eq!(host.started, vec!["c1", "c2", "c4"]);
    assert!(!host.containers.contains(&"c3".to_string()));
}

#[test]
fn every_deployment_leaves_one_running_record() {
    let mut host = Host::new();
    let ids = ["a1", "b2", "c3", "d4", "e5"];
    for id in ids {
        let agent = host.deploy(id, OnConcurrentDeploy::Reclaim);
        assert_eq!(agent.phase(), Phase::Deployed);
        assert_eq!(host.record(), running(id));
        assert_eq!(host.started.last().map(|s| s.as_str()), Some(id));
        assert_eq!(host.containers, vec![id]);
    }
}

#[test]
fn crashed_deployment_is_reclaimed() {
    let mut host = Host::with_record("x", ContainerStatus::Deploying);
    let mut agent = host.locked("y", OnConcurrentDeploy::Reclaim);
    assert_eq!(agent.phase(), Phase::Locked);
    assert_eq!(agent.old_container(), Some("x".to_string()));
    assert!(agent.abandoned());
    assert_eq!(host.record(), deploying("y"));
    agent.deploy().unwrap();
    host.run(&mut agent);
    assert_eq!(agent.phase(), Phase::Deployed);
    assert_eq!(host.record(), running("y"));
    assert_eq!(host.containers, vec!["y"]);
    assert_eq!(host.started, vec!["y"]);
}

#[test]
fn crashed_deployment_is_rejected_on_request() {
    let mut host = Host::with_record("x", ContainerStatus::Deploying);
    let mut agent = host.locked("y", OnConcurrentDeploy::Reject);
    assert_eq!(agent.phase(), Phase::Failed(AgentError::AlreadyDeploying));
    assert_eq!(agent.failure(), Some(AgentError::AlreadyDeploying));
    assert_eq!(host.record(), deploying("x"));
    assert_eq!(agent.deploy().err(), Some(AgentError::NotLocked));
    host.run(&mut agent);
    assert_eq!(host.record(), deploying("x"));
    assert!(host.started.is_empty());
}

#[test]
fn running_record_is_replaced_under_either_policy() {
    let mut host = Host::with_record("x", ContainerStatus::Running);
    let agent = host.deploy("y", OnConcurrentDeploy::Reject);
    assert_eq!(agent.phase(), Phase::Deployed);
    assert!(!agent.abandoned());
    assert_eq!(host.record(), running("y"));
    assert_eq!(host.containers, vec!["y"]);
}

#[test]
fn deploy_without_lock_does_nothing() {
    let mut host = Host::with_record("x", ContainerStatus::Running);
    let mut agent = host.set_up("y", OnConcurrentDeploy::Reclaim);
    let asked = host.asked.len();
    assert_eq!(agent.deploy().err(), Some(AgentError::NotLocked));
    assert_eq!(agent.failure(), Some(AgentError::NotLocked));
    assert!(agent.pending().is_none());
    host.run(&mut agent);
    assert_eq!(host.asked.len(), asked);
    assert_eq!(host.record(), running("x"));
    assert!(host.started.is_empty());
    assert_eq!(host.containers, vec!["x", "y"]);
    assert!(agent.lock().is_none());
    assert!(agent.advance(Event::Done).is_none());
    assert_eq!(agent.failure(), Some(AgentError::NotLocked));
}

#[test]
fn deploy_before_the_container_exists_does_nothing() {
    let mut agent = Agent::with_suffix("app", "Ab3dE9z", OnConcurrentDeploy::Reclaim);
    assert_eq!(agent.deploy().err(), Some(AgentError::NotLocked));
    assert!(agent.pending().is_none());
    assert_eq!(agent.phase(), Phase::Failed(AgentError::NotLocked));
}

#[test]
fn deploy_while_locking_does_nothing() {
    let mut agent = created("y");
    agent.lock();
    assert_eq!(agent.deploy().err(), Some(AgentError::NotLocked));
    assert!(agent.pending().is_none());
    assert!(agent.advance(Event::Record(None)).is_none());
    assert_eq!(agent.phase(), Phase::Failed(AgentError::NotLocked));
}

#[test]
fn deploy_after_failed_lock_does_nothing() {
    let mut agent = created("y");
    agent.lock();
    agent.advance(Event::Corrupt);
    assert_eq!(agent.failure(), Some(AgentError::RecordCorrupt));
    assert_eq!(agent.deploy().err(), Some(AgentError::NotLocked));
    assert!(agent.pending().is_none());
    assert_eq!(agent.failure(), Some(AgentError::RecordCorrupt));
}

#[test]
fn deploy_twice_is_refused() {
    let mut host = Host::new();
    let mut agent = host.deploy("c1", OnConcurrentDeploy::Reclaim);
    assert_eq!(agent.deploy().err(), Some(AgentError::NotLocked));
    assert_eq!(agent.phase(), Phase::Deployed);
    assert!(agent.pending().is_none());
}

#[test]
fn first_deployment_removes_nothing() {
    let mut host = Host::new();
    let mut agent = host.locked("c1", OnConcurrentDeploy::Reclaim);
    assert_eq!(agent.phase(), Phase::Locked);
    assert!(agent.is_locked());
    assert_eq!(agent.old_container(), None);
    assert!(!agent.abandoned());
    assert_eq!(host.record(), deploying("c1"));
    host.asked.clear();
    assert!(matches!(agent.deploy(), Ok(Action::ReadRecord)));
    host.run(&mut agent);
    assert_eq!(host.asked, vec!["read", "start c1", "write c1 Running"]);
    assert_eq!(agent.phase(), Phase::Deployed);
    assert_eq!(host.record(), running("c1"));
    assert_eq!(host.containers, vec!["c1"]);
}

#[test]
fn set_up_pings_pulls_and_creates() {
    let mut host = Host::new();
    let agent = host.set_up("c1", OnConcurrentDeploy::Reclaim);
    assert_eq!(host.asked, vec!["ping", "pull app:latest", "create from app"]);
    assert_eq!(agent.container(), Some("c1".to_string()));
    assert_eq!(agent.old_container(), None);
    assert_eq!(agent.name(), "app-Ab3dE9z");
    assert_eq!(agent.image(), "app");
    assert_eq!(agent.policy(), OnConcurrentDeploy::Reclaim);
    assert!(host.store.is_none());
}

#[test]
fn requests_carry_the_fixed_settings() {
    let mut agent = Agent::with_suffix("hello-world", "0000000", OnConcurrentDeploy::Reclaim);
    assert!(matches!(agent.pending(), Some(Action::Ping)));
    match agent.advance(Event::Done) {
        Some(Action::Pull(request)) => {
            assert_eq!(request.image, "hello-world");
            assert_eq!(request.tag, "latest");
        }
        other => panic!("unexpected action {:?}", other),
    }
    match agent.advance(Event::Done) {
        Some(Action::Create(request)) => {
            assert_eq!(request.name, "hello-world-0000000");
            assert_eq!(request.image, "hello-world");
            assert_eq!(request.container_port, 8080);
            assert_eq!(request.host_port, 8080);
        }
        other => panic!("unexpected action {:?}", other),
    }
    assert!(agent.advance(Event::Created("new".to_string())).is_none());
    assert!(matches!(agent.lock(), Some(Action::ReadRecord)));
    match agent.advance(Event::Record(running("old"))) {
        Some(Action::WriteRecord(record)) => {
            assert_eq!(record.container_id(), "new");
            assert_eq!(record.status(), ContainerStatus::Deploying);
        }
        other => panic!("unexpected action {:?}", other),
    }
    assert!(agent.advance(Event::Done).is_none());
    assert!(matches!(agent.deploy(), Ok(Action::ClearRecord)));
    match agent.advance(Event::Done) {
        Some(Action::Remove(request)) => {
            assert_eq!(request.container_id, "old");
            assert!(request.force);
            assert!(!request.keep_volumes);
        }
        other => panic!("unexpected action {:?}", other),
    }
    assert!(!agent.accepted());
    match agent.advance(Event::Done) {
        Some(Action::Start(id)) => assert_eq!(id, "new"),
        other => panic!("unexpected action {:?}", other),
    }
    assert!(agent.accepted());
    match agent.advance(Event::Done) {
        Some(Action::WriteRecord(record)) => {
            assert_eq!(record.container_id(), "new");
            assert_eq!(record.status(), ContainerStatus::Running);
        }
        other => panic!("unexpected action {:?}", other),
    }
    assert!(agent.advance(Event::Done).is_none());
    assert_eq!(agent.phase(), Phase::Deployed);
    assert_eq!(agent.failure(), None);
}

#[test]
fn unreachable_engine_fails_the_agent() {
    let mut agent = Agent::with_suffix("app", "Ab3dE9z", OnConcurrentDeploy::Reclaim);
    assert!(agent.advance(Event::Failed).is_none());
    assert_eq!(agent.failure(), Some(AgentError::RuntimeUnreachable));
    assert_eq!(agent.container(), None);
}

#[test]
fn failed_pull_fails_the_agent() {
    let mut agent = Agent::with_suffix("app", "Ab3dE9z", OnConcurrentDeploy::Reclaim);
    agent.advance(Event::Done);
    assert!(agent.advance(Event::Failed).is_none());
    assert_eq!(agent.failure(), Some(AgentError::PullFailed));
    assert_eq!(agent.container(), None);
}

#[test]
fn failed_creation_fails_the_agent() {
    let mut agent = Agent::with_suffix("app", "Ab3dE9z", OnConcurrentDeploy::Reclaim);
    agent.advance(Event::Done);
    agent.advance(Event::Done);
    assert!(agent.advance(Event::Failed).is_none());
    assert_eq!(agent.failure(), Some(AgentError::CreationError));
}

#[test]
fn answer_that_is_no_identifier_fails_creation() {
    let mut agent = Agent::with_suffix("app", "Ab3dE9z", OnConcurrentDeploy::Reclaim);
    agent.advance(Event::Done);
    agent.advance(Event::Done);
    assert!(agent.advance(Event::Done).is_none());
    assert_eq!(agent.failure(), Some(AgentError::CreationError));
}

#[test]
fn corrupt_store_fails_the_lock() {
    let mut host = Host::new();
    host.store = Some("{\"container_id\":\"c1\",\"sta".to_string());
    let mut agent = host.locked("c2", OnConcurrentDeploy::Reclaim);
    assert_eq!(agent.failure(), Some(AgentError::RecordCorrupt));
    assert_eq!(agent.old_container(), None);
    assert_eq!(host.store.as_deref(), Some("{\"container_id\":\"c1\",\"sta"));
    assert_eq!(agent.deploy().err(), Some(AgentError::NotLocked));
}

#[test]
fn unreadable_store_fails_the_lock() {
    let mut agent = created("y");
    agent.lock();
    assert!(agent.advance(Event::Failed).is_none());
    assert_eq!(agent.failure(), Some(AgentError::StoreUnavailable));
}

#[test]
fn unwritable_store_fails_the_lock() {
    let mut agent = created("y");
    agent.lock();
    agent.advance(Event::Record(running("x")));
    assert!(agent.advance(Event::Failed).is_none());
    assert_eq!(agent.failure(), Some(AgentError::StoreUnavailable));
    assert!(!agent.is_locked());
    assert_eq!(agent.deploy().err(), Some(AgentError::NotLocked));
}

#[test]
fn missing_previous_container_is_tolerated() {
    let mut host = Host::with_record("x", ContainerStatus::Running);
    host.containers.clear();
    let agent = host.deploy("y", OnConcurrentDeploy::Reclaim);
    assert_eq!(agent.phase(), Phase::Deployed);
    assert_eq!(host.record(), running("y"));
    assert_eq!(host.started, vec!["y"]);
}

#[test]
fn failed_removal_is_fatal_and_leaves_the_store_empty() {
    let mut host = Host::with_record("x", ContainerStatus::Running);
    let mut agent = host.locked("y", OnConcurrentDeploy::Reclaim);
    let clear = agent.deploy().unwrap();
    let cleared = host.perform(clear);
    let remove = agent.advance(cleared);
    assert!(matches!(remove, Some(Action::Remove(_))));
    assert!(agent.advance(Event::Failed).is_none());
    assert_eq!(agent.failure(), Some(AgentError::RemovalError));
    assert!(!agent.accepted());
    assert!(host.store.is_none());
    assert!(host.started.is_empty());
}

#[test]
fn failed_clearing_is_fatal() {
    let mut agent = locked_after("y", running("x"));
    assert!(matches!(agent.deploy(), Ok(Action::ClearRecord)));
    assert!(agent.advance(Event::Failed).is_none());
    assert_eq!(agent.failure(), Some(AgentError::StoreUnavailable));
}

#[test]
fn clearing_an_empty_store_is_tolerated() {
    let mut agent = locked_after("y", running("x"));
    agent.deploy().unwrap();
    assert!(matches!(agent.advance(Event::NotFound), Some(Action::Remove(_))));
    assert_eq!(agent.phase(), Phase::Removing);
}

#[test]
fn failed_start_is_reported_after_acceptance() {
    let mut agent = locked_after("y", None);
    agent.deploy().unwrap();
    assert!(matches!(agent.advance(Event::Record(deploying("y"))), Some(Action::Start(_))));
    assert!(agent.accepted());
    assert!(agent.advance(Event::NotFound).is_none());
    assert_eq!(agent.failure(), Some(AgentError::StartError));
    assert!(agent.accepted());
}

#[test]
fn failed_final_write_is_reported_after_acceptance() {
    let mut agent = locked_after("y", None);
    agent.deploy().unwrap();
    agent.advance(Event::Record(None));
    assert!(matches!(agent.advance(Event::Done), Some(Action::WriteRecord(_))));
    assert!(agent.advance(Event::Failed).is_none());
    assert_eq!(agent.failure(), Some(AgentError::StoreUnavailable));
    assert!(agent.accepted());
}

#[test]
fn foreign_record_is_not_overwritten() {
    let mut host = Host::new();
    let mut agent = host.locked("c1", OnConcurrentDeploy::Reclaim);
    host.store = Some(
        AgentLockfile::new("intruder".to_string(), ContainerStatus::Running).encode().unwrap(),
    );
    host.asked.clear();
    agent.deploy().unwrap();
    host.run(&mut agent);
    assert_eq!(agent.failure(), Some(AgentError::InvariantViolation));
    assert_eq!(host.asked, vec!["read"]);
    assert_eq!(host.record(), running("intruder"));
    assert!(host.started.is_empty());
    assert!(!agent.accepted());
}

#[test]
fn own_record_with_another_status_is_foreign() {
    let mut agent = locked_after("y", None);
    agent.deploy().unwrap();
    assert!(agent.advance(Event::Record(running("y"))).is_none());
    assert_eq!(agent.failure(), Some(AgentError::InvariantViolation));
}

#[test]
fn emptied_store_does_not_stop_the_first_deployment() {
    let mut host = Host::new();
    let mut agent = host.locked("c1", OnConcurrentDeploy::Reclaim);
    host.store = None;
    agent.deploy().unwrap();
    host.run(&mut agent);
    assert_eq!(agent.phase(), Phase::Deployed);
    assert_eq!(host.record(), running("c1"));
}

#[test]
fn corrupt_store_stops_the_first_deployment() {
    let mut agent = locked_after("y", None);
    agent.deploy().unwrap();
    assert!(agent.advance(Event::Corrupt).is_none());
    assert_eq!(agent.failure(), Some(AgentError::RecordCorrupt));
}

#[test]
fn lock_is_for_created_agents_only() {
    let mut agent = Agent::with_suffix("app", "Ab3dE9z", OnConcurrentDeploy::Reclaim);
    assert!(matches!(agent.lock(), Some(Action::Ping)));
    assert_eq!(agent.phase(), Phase::Connecting);

    let mut agent = locked_after("y", running("x"));
    assert!(agent.lock().is_none());
    assert_eq!(agent.phase(), Phase::Locked);
    assert_eq!(agent.old_container(), Some("x".to_string()));
}

#[test]
fn waiting_agents_ignore_events() {
    let mut agent = created("y");
    assert!(agent.advance(Event::Failed).is_none());
    assert!(agent.advance(Event::Record(running("x"))).is_none());
    assert_eq!(agent.phase(), Phase::Created);
    assert_eq!(agent.old_container(), None);

    let mut agent = locked_after("y", running("x"));
    assert!(agent.advance(Event::Failed).is_none());
    assert!(agent.advance(Event::Created("z".to_string())).is_none());
    assert_eq!(agent.phase(), Phase::Locked);
    assert_eq!(agent.container(), Some("y".to_string()));
}

use deploy_agent::agent::Agent;
use deploy_agent::error::AgentError;
use deploy_agent::model::OnConcurrentDeploy;
use deploy_agent::naming::{container_name, random_suffix};
use deploy_agent::runtime::Action;

#[test]
fn container_name_joins_with_hyphen() {
    assert_eq!(container_name("hello-world", "Ab3dE9z"), "hello-world-Ab3dE9z");
    assert_eq!(container_name("app", ""), "app-");
    assert_eq!(container_name("", "x"), "-x");
}

#[test]
fn random_suffix_is_seven_letters_or_digits() {
    let mut round = 0;
    while round < 200 {
        let suffix = random_suffix();
        assert_eq!(suffix.chars().count(), 7);
        assert!(suffix.chars().all(|c| c.is_ascii_alphanumeric()));
        round += 1;
    }
}

#[test]
fn random_suffixes_differ() {
    let first = random_suffix();
    let mut other = false;
    let mut round = 0;
    while round < 20 {
        if random_suffix() != first {
            other = true;
        }
        round += 1;
    }
    assert!(other);
}

#[test]
fn new_agent_names_its_container_after_the_image() {
    let agent = Agent::new("hello-world", OnConcurrentDeploy::Reclaim);
    assert_eq!(agent.image(), "hello-world");
    let name = agent.name().to_string();
    assert!(name.starts_with("hello-world-"));
    let suffix = &name["hello-world-".len()..];
    assert_eq!(suffix.chars().count(), 7);
    assert!(suffix.chars().all(|c| c.is_ascii_alphanumeric()));
    assert!(matches!(agent.pending(), Some(Action::Ping)));
}

#[test]
fn messages_tell_the_failures_apart() {
    let all = [
        AgentError::RuntimeUnreachable,
        AgentError::PullFailed,
        AgentError::CreationError,
        AgentError::StartError,
        AgentError::RemovalError,
        AgentError::StoreUnavailable,
        AgentError::RecordCorrupt,
        AgentError::NotLocked,
        AgentError::AlreadyDeploying,
        AgentError::InvariantViolation,
    ];
    let mut i = 0;
    while i < all.len() {
        let mut j = i + 1;
        while j < all.len() {
            assert_ne!(all[i].message(), all[j].message());
            j += 1;
        }
        i += 1;
    }
    assert_eq!(AgentError::NotLocked.message(), "Agent needs to be locked before deploying");
    assert_eq!(AgentError::RecordCorrupt.message(), "deployment record is unparsable");
}

//! What passes between an agent and its driver.
//!
//! The agent never touches the container engine or the record store. It
//! names an [`Action`]; the driver performs it and answers with an [`Event`].

use crate::record::{AgentLockfile, LockfileView};
use vstd::prelude::*;

verus! {

/// Fetch `image` at `tag` from the registry.
#[derive(Debug)]
pub struct PullRequest {
    pub image: String,
    pub tag: String,
}

/// Create a container called `name` from `image`, with the container's TCP
/// port `container_port` published on the host's `host_port`.
#[derive(Debug)]
pub struct CreateRequest {
    pub name: String,
    pub image: String,
    pub container_port: u32,
    pub host_port: u32,
}

/// Remove the container `container_id`. With `force` a running container is
/// stopped first; without `keep_volumes` its anonymous volumes go with it.
#[derive(Debug)]
pub struct RemoveRequest {
    pub container_id: String,
    pub force: bool,
    pub keep_volumes: bool,
}

/// What an agent asks its driver to do.
#[derive(Debug)]
pub enum Action {
    /// Check that the container engine answers.
    Ping,
    /// Fetch an image, waiting until the transfer has ended.
    Pull(PullRequest),
    /// Create a container, and hand back its identifier.
    Create(CreateRequest),
    /// Read the record store.
    ReadRecord,
    /// Replace whatever the record store holds with this record, atomically.
    WriteRecord(AgentLockfile),
    /// Empty the record store.
    ClearRecord,
    /// Remove a container.
    Remove(RemoveRequest),
    /// Start the container with this identifier.
    Start(String),
}

/// What came of an action.
#[derive(Debug)]
pub enum Event {
    /// The action was carried out, and has nothing to hand back.
    Done,
    /// A container was created, with this identifier.
    Created(String),
    /// The record store was read; it holds this record, or none.
    Record(Option<AgentLockfile>),
    /// The record store was read, and what it holds is not a record.
    Corrupt,
    /// The engine knows no container of the identifier given.
    NotFound,
    /// The action failed for another reason.
    Failed,
}

pub struct PullRequestView {
    pub image: Seq<char>,
    pub tag: Seq<char>,
}

pub struct CreateRequestView {
    pub name: Seq<char>,
    pub image: Seq<char>,
    pub container_port: u32,
    pub host_port: u32,
}

pub struct RemoveRequestView {
    pub container_id: Seq<char>,
    pub force: bool,
    pub keep_volumes: bool,
}

pub enum ActionView {
    Ping,
    Pull(PullRequestView),
    Create(CreateRequestView),
    ReadRecord,
    WriteRecord(LockfileView),
    ClearRecord,
    Remove(RemoveRequestView),
    Start(Seq<char>),
}

pub enum EventView {
    Done,
    Created(Seq<char>),
    Record(Option<LockfileView>),
    Corrupt,
    NotFound,
    Failed,
}

impl View for PullRequest {
    type V = PullRequestView;

    open spec fn view(&self) -> PullRequestView {
        PullRequestView { image: self.image@, tag: self.tag@ }
    }
}

impl View for CreateRequest {
    type V = CreateRequestView;

    open spec fn view(&self) -> CreateRequestView {
        CreateRequestView {
            name: self.name@,
            image: self.image@,
            container_port: self.container_port,
            host_port: self.host_port,
        }
    }
}

impl View for RemoveRequest {
    type V = RemoveRequestView;

    open spec fn view(&self) -> RemoveRequestView {
        RemoveRequestView {
            container_id: self.container_id@,
            force: self.force,
            keep_volumes: self.keep_volumes,
        }
    }
}

impl View for Action {
    type V = ActionView;

    open spec fn view(&self) -> ActionView {
        match self {
            Action::Ping => ActionView::Ping,
            Action::Pull(request) => ActionView::Pull(request@),
            Action::Create(request) => ActionView::Create(request@),
            Action::ReadRecord => ActionView::ReadRecord,
            Action::WriteRecord(record) => ActionView::WriteRecord(record@),
            Action::ClearRecord => ActionView::ClearRecord,
            Action::Remove(request) => ActionView::Remove(request@),
            Action::Start(container_id) => ActionView::Start(container_id@),
        }
    }
}

impl View for Event {
    type V = EventView;

    open spec fn view(&self) -> EventView {
        match self {
            Event::Done => EventView::Done,
            Event::Created(container_id) => EventView::Created(container_id@),
            Event::Record(Some(record)) => EventView::Record(Some(record@)),
            Event::Record(None) => EventView::Record(None),
            Event::Corrupt => EventView::Corrupt,
            Event::NotFound => EventView::NotFound,
            Event::Failed => EventView::Failed,
        }
    }
}

/// What the record store holds, seen as a record: no text is no record.
pub open spec fn stored_spec(content: Option<Seq<char>>) -> EventView {
    match content {
        None => EventView::Record(None),
        Some(text) => match crate::codec::decode_spec(text) {
            Some(record) => EventView::Record(Some(record)),
            None => EventView::Corrupt,
        },
    }
}

impl Event {
    /// The answer to `ReadRecord`, from what the store holds: `None` where
    /// nothing was ever written to it or it was cleared, else its text.
    pub fn stored(content: Option<&str>) -> (event: Event)
        ensures
            event@ == stored_spec(
                match content {
                    Some(text) => Some(text@),
                    None => None,
                },
            ),
    {
        match content {
            None => Event::Record(None),
            Some(text) => match AgentLockfile::decode(text) {
                Ok(record) => Event::Record(Some(record)),
                Err(_) => Event::Corrupt,
            },
        }
    }
}

} // verus!

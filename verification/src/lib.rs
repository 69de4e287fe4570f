//! A single-host deployment agent, written so that it never performs I/O
//! itself.
//!
//! The [`agent::Agent`] decides; a driver acts. At every moment the agent
//! names at most one [`runtime::Action`] for the driver to perform, and the
//! driver answers with the [`runtime::Event`] that came of it. What the agent
//! decides is fixed by the mathematical model in [`model`], and what follows
//! from those decisions for the container engine and the record store is
//! proved in [`laws`].

pub mod agent;
pub mod codec;
pub mod error;
pub mod laws;
pub mod model;
pub mod naming;
pub mod record;
pub mod runtime;

pub use agent::Agent;
pub use error::AgentError;
pub use model::{OnConcurrentDeploy, Phase};
pub use record::{AgentLockfile, ContainerStatus};
pub use runtime::{Action, Event};

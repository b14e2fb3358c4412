//! High-level, verified orchestration of ephemeral container-runtime
//! resources (containers and virtual networks).
//!
//! A fluent [`ContainerBuilder`] accumulates a declarative specification and
//! turns it into a [`BuildPipeline`](container::BuildPipeline): a staged state
//! machine (optional pull, create, start, inspect) whose sequencing and error
//! taxonomy are verified. An unverified driver performs the runtime calls and
//! feeds each outcome back into the machine; a successful run yields a
//! [`Container`] handle whose identifier is proved non-empty.
//!
//! Handles do not clean themselves up when dropped: the backing resource
//! stays in the runtime until its removal is driven to completion.

pub mod client;
pub mod container;
pub mod error;
pub mod network;
pub mod port;
mod slug;

pub use client::Client;
pub use container::{Container, ContainerBuilder};
pub use error::Error;
pub use network::Network;
pub use port::Protocol;

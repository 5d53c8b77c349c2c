//! Rebuilds an operating-system kernel from a tree of installed source
//! versions, one verified step at a time.
//!
//! The library decides; its caller acts. [`KernelBuilder::build`] takes the
//! state of a run and the report on the last request, and answers with the
//! next request: read a link, copy a file, run a tool, ask the user. The
//! caller performs it on the real system and reports back.

pub mod builder;
pub mod catalog;
pub mod cli;
pub mod error;
pub mod laws;
pub mod layout;
pub mod model;
pub mod path;
pub mod plan;
pub mod settings;
pub mod text;
pub mod tools;

pub use builder::{KernelBuilder, Session, Step};
pub use catalog::{SourceEntry, VersionEntry};
pub use cli::{Args, Request};
pub use error::{BuilderErr, Cause};
pub use plan::{Action, Event, Place, Question, Stage, Tool};
pub use settings::KBConfig;
pub use tools::{Channel, Command};

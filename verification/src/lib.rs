//! A declarative description of an issue lifecycle: the typed state machine
//! model, the codec between its variants and their tagged wire form, schema
//! validation of raw documents, and the loader that ties them together.
//! Beside it stands what a client of the issue tracker asks for and what it
//! makes of the answer.

pub mod codec;
pub mod config;
pub mod config_loader;
pub mod error;
pub mod github;
pub mod github_client;
pub mod json;
pub mod schema;
pub mod text;
pub mod wire;

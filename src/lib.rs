//! Core of a background build/watch daemon for Apple-platform projects:
//! the message protocol streamed to the editor, platform names, the
//! project registry, filesystem event normalisation and reactor dispatch.

pub mod broadcast;
pub mod error;
pub mod event;
pub mod message;
pub mod path;
pub mod platform;
pub mod project;
pub mod registry;
pub mod text;
pub mod watch;

//! Editor-integration adapter that reports document activity to the
//! `wakatime-cli` agent.
//!
//! The crate holds the session controller, the message dispatcher and the
//! rules by which document events and workspace commands become agent
//! invocations. Transport, process spawning and network access are left to
//! the embedding program, which performs the actions this crate decides on
//! and hands the outcomes back.

pub mod command;
pub mod dispatch;
pub mod event;
pub mod guarantees;
pub mod identity;
pub mod install;
pub mod invoker;
pub mod message;
pub mod session;
pub mod text;
pub mod wire;

pub use crate::session::LanguageServer;

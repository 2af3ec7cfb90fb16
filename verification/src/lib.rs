//! Verified core of a build/run/index daemon for Xcode-style projects.
//!
//! The crate holds the data model and the decision logic of the daemon and of
//! its build-server companion: requests, filesystem events, the registries of
//! projects, clients and watchables, the dispatch of events to watchables and
//! the compile-argument cache. Everything that touches the outside world is
//! left to the program that links this library; it hands plain values in and
//! performs the actions that come back.
pub mod bsp;
pub mod client;
pub mod clock;
pub mod dispatch;
pub mod editor;
pub mod error;
pub mod event;
pub mod extensions;
pub mod glob;
pub mod identity;
pub mod keep;
pub mod laws;
pub mod path;
pub mod project;
pub mod registry;
pub mod request;
pub mod server;
pub mod state;
pub mod text;
pub mod types;
pub mod uri;
pub mod watch;
pub mod words;
pub mod xcode;

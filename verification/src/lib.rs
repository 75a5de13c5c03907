//! Connection-handling core of a small multiplayer-game front end.
//!
//! An acceptor binds a TCP port, spawns one task per accepted connection,
//! and funnels every connection's lifecycle and data events onto a single
//! bounded bus; an outer realm loop drives that bus and owns graceful
//! shutdown.  The decision logic of each loop lives here as verified step
//! functions; an unverified shell performs the socket and channel waits and
//! feeds their outcomes back in.
pub mod action_handler;
pub mod client_handler;
pub mod deserializer;
pub mod entity;
pub mod ext_specs;
pub mod in_memory_repository;
pub mod option_ext;
pub mod person;
pub mod realm;
pub mod realm_config;
pub mod realm_handle;
pub mod repository;
pub mod server;
pub mod tcp_client_action;

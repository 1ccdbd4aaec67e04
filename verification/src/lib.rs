//! A chat-room bot core that bridges a federated messaging network to
//! an issue-tracking backend: the command dispatcher, the rendering of
//! issue lists into dual-format message bodies, and the decision side
//! of the long-poll synchronization loop. The network clients, the
//! configuration file and the process wiring live in the surrounding
//! program; everything here is pure and carries a contract.

pub mod config;
pub mod dispatch;
pub mod endpoints;
pub mod issues;
pub mod sync;
pub mod text;

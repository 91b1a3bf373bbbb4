//! Decision core of a long-running command sandbox service.
//!
//! Clients talk to the service over its standard streams or a local socket. They
//! start commands in a sandbox, feed and control them, and are asked to approve
//! additional permissions and network requests. This crate decides what each
//! event leads to; reading, sending and running is left to the program around it.

pub mod approval;
pub mod capture;
pub mod command;
pub mod environment;
pub mod external;
pub mod network;
pub mod output;
pub mod permissions;
pub mod prepare;
pub mod process;
pub mod protocol;
pub mod run;
pub mod server;
pub mod startup;
pub mod table;
pub mod text;
pub mod transport;

pub use protocol::CommandExecOutcome;
pub use startup::Args;

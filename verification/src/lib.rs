//! Orchestration rules for TCP port-forwarding tunnels.
//!
//! A tunnel forwards a local port to a remote `host:port` through a forwarder
//! process. This crate holds every decision that managing tunnels takes, and
//! none of the work: the caller binds sockets, probes targets, starts and
//! stops forwarders and writes the tunnel file, and tells the crate what that
//! showed; the crate says what to do next and what the tunnel list becomes.
//!
//! - `models`, `messages`, `rejection`, `responses`: the tunnel record, the
//!   requests, and what is answered to them.
//! - `fields`, `store`: what the fields of a tunnel must look like, and
//!   searching the tunnel list.
//! - `create`, `update`, `delete`, `restore`: the four operations on the
//!   list, each as a sequence of steps.
//! - `protocol`, `laws`, `pass`: what an operation comes to as a whole, and
//!   what holds of it.
//! - `forwarder`, `probe`, `persist`: what to run and what to make of its
//!   outcome, for forwarders, for probes of a target, and for the tunnel file.
//! - `addr`, `literal`, `dotted`, `text`: recognising hosts that name this
//!   machine, reading IP addresses, and handling text.

pub mod addr;
pub mod create;
pub mod delete;
pub mod dotted;
pub mod fields;
pub mod forwarder;
mod ids;
pub mod laws;
pub mod literal;
pub mod messages;
pub mod models;
pub mod pass;
pub mod persist;
pub mod probe;
pub mod protocol;
pub mod rejection;
pub mod responses;
pub mod restore;
pub mod store;
pub mod text;
pub mod update;

//! The decisions of a relay that carries the contents of one watched file to
//! a remote endpoint over a long-lived connection: what to forward, when to
//! send a keepalive, when to reconnect and when to give up.
//!
//! Nothing here reads a file, opens a socket, sleeps or looks at a clock. The
//! program around this library does that; it tells the machines below what
//! happened and carries out what they answer.
//!
//! - [`watcher`] judges notifications and readings of the file.
//! - [`queue`] holds the payloads between the watcher and the session.
//! - [`heartbeat`] tells when a keepalive is due.
//! - [`session`] runs one connection attempt; [`status`] classifies the
//!   handshake, [`counter`] counts what went out.
//! - [`supervisor`] repeats failed attempts within a limit.
//! - [`endpoint`] puts the address together.
//! - [`delivery`], [`keepalive`] and [`retry`] state what holds of the
//!   machines over time.

pub mod counter;
pub mod delivery;
pub mod endpoint;
pub mod heartbeat;
pub mod keepalive;
pub mod queue;
pub mod retry;
pub mod session;
pub mod status;
pub mod supervisor;
pub mod text;
pub mod watcher;

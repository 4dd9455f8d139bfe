//! Decision logic for a two-way serial link.
//!
//! A serial link is served by two long-lived activities that share nothing but
//! two small data structures: a reader that polls the device and records the
//! most recent payload in a [`store::SharedData`], and a writer that takes
//! payloads off an [`queue::OutgoingQueue`] and sends each one in full.
//!
//! Nothing in this crate touches a device, a thread or a clock. Each activity
//! is a state machine that tells its driver what to do next and is told what
//! came of it; the driver owns the port handle and performs the I/O.

pub mod store;
pub mod queue;
pub mod reader;
pub mod writer;
pub mod config;
pub mod supervisor;

//! A driver core for a connection-oriented socket over three descriptor queues.
//!
//! The crate holds the packet codec, the per-connection credit accounting, the
//! receive buffer pool and the session state machine. It performs no device
//! access of its own: outgoing packets are collected in an outbox, and incoming
//! packets are written into slots of the receive pool by whoever talks to the
//! device.

pub mod connection;
pub mod endian;
pub mod error;
pub mod pool;
pub mod protocol;
pub mod socket;

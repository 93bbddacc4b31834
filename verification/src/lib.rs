//! Vsock (`AF_VSOCK`) communication between hosts and virtual machines or enclaves.
//!
//! The library holds the decisions of a vsock connection: how a payload is cut into
//! chunks and when a send is finished, how received chunks are reassembled under a size
//! cap, how connection attempts are retried with exponential backoff, and which
//! addresses and listen queue are used. Each decision is a state machine that a driver
//! feeds with what the operating system reported.

pub mod address;
pub mod connect;
pub mod error;
pub mod receive;
pub mod round_trip;
pub mod send;

pub use address::{
    backlog_from, listen_backlog, VsockAddress, ANY_CID_ADDR, CONNECT_ATTEMPTS, MAX_QUEUE_LEN, PARENT_NE_CID_ADDR,
};
pub use connect::{backoff_secs, ConnectAction, ConnectEvent, ConnectRetry};
pub use error::{single_transfer_step, TransportOutcome, VsockError};
pub use receive::{ReceiveLoop, ReceiveState, ReceiveStep, ReceiveStepModel};
pub use send::{SendLoop, SendStep};

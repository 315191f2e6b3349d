//! Message based networking, with the decisions of its connections verified.
//!
//! The library holds the logic of the connection life cycles: how a client
//! connection goes from connecting to connected to disconnected, which event a
//! poll yields, what happens to a message sent in each phase, how the errors of
//! the transport are classified, and how a disconnection is waited for.
//! The transport itself (QUIC sockets, async tasks) drives these decisions from
//! outside and hands the outcomes of its operations back as plain values.

pub mod client;
pub mod client_laws;
pub mod disconnection;
pub mod server;
pub mod sending;
pub mod runtime;
pub mod transport_errors;

pub use disconnection::DisconnectionHandle;
pub use sending::{SendingResult, SendingState, SendingStateHandle};
pub use client::{ClientDisconnectionDetails, ClientEvent};
pub use server::{ClientOnServerDisconnectionDetails, ClientOnServerEvent};

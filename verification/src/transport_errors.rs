//! The errors that the QUIC transport reports, as the library reads them.
//!
//! Each type has one variant per variant of the transport's error type; the
//! payloads that the library never reads (close reasons, transport error
//! details) are not carried, the application codes are.

use vstd::prelude::*;

verus! {

/// Why a connection was lost or could not be established.
#[derive(Debug, Clone, Copy, PartialEq, Eq, Structural)]
pub enum ConnectionError {
    /// The peer doesn't implement any supported version.
    VersionMismatch,
    /// The peer violated the QUIC specification.
    TransportError,
    /// The peer's QUIC stack aborted the connection automatically.
    ConnectionClosed,
    /// The peer closed the connection.
    ApplicationClosed,
    /// The peer is unable to continue processing this connection.
    Reset,
    /// Communication with the peer has lapsed for longer than the idle timeout.
    TimedOut,
    /// The local application closed the connection.
    LocallyClosed,
    /// Not enough of the connection id space is available.
    CidsExhausted,
}

/// Why writing to a stream failed.
#[derive(Debug, Clone, Copy, PartialEq, Eq, Structural)]
pub enum WriteError {
    /// The peer is no longer accepting data on this stream (application error code).
    Stopped(u64),
    /// The connection was lost.
    ConnectionLost(ConnectionError),
    /// The stream has already been finished or reset.
    ClosedStream,
    /// This was a 0-RTT stream and the server rejected it.
    ZeroRttRejected,
}

/// Why waiting for a stream to be stopped failed.
#[derive(Debug, Clone, Copy, PartialEq, Eq, Structural)]
pub enum StoppedError {
    /// The connection was lost.
    ConnectionLost(ConnectionError),
    /// This was a 0-RTT stream and the server rejected it.
    ZeroRttRejected,
}

/// Why reading from a stream failed.
#[derive(Debug, Clone, Copy, PartialEq, Eq, Structural)]
pub enum ReadError {
    /// The peer abandoned transmitting data on this stream (application error code).
    Reset(u64),
    /// The connection was lost.
    ConnectionLost(ConnectionError),
    /// The stream has already been stopped, finished, or reset.
    ClosedStream,
    /// Attempted an ordered read following an unordered read.
    IllegalOrderedRead,
    /// This was a 0-RTT stream and the server rejected it.
    ZeroRttRejected,
}

/// Why reading a stream to its end failed.
#[derive(Debug, Clone, Copy, PartialEq, Eq, Structural)]
pub enum ReadToEndError {
    /// An error occurred during reading.
    Read(ReadError),
    /// The stream is larger than the limit given to the read.
    TooLong,
}

/// Why sending one message failed, by the step of the sending that failed.
#[derive(Debug, Clone, Copy, PartialEq, Eq, Structural)]
pub enum SendingError {
    /// Opening the unidirectional stream failed.
    OpenUni(ConnectionError),
    /// Writing the message to the stream failed.
    WriteAll(WriteError),
    /// Waiting for the peer to have read the stream failed.
    Stopped(StoppedError),
}

} // verus!

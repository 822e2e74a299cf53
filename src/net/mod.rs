pub mod engine;
pub mod frame;
pub mod protocol;

use vstd::prelude::*;

verus! {

/// What can go wrong on a connection.
#[derive(Debug)]
pub enum Error {
    /// Reading, writing or flushing the stream failed.
    Io(String),
    /// An inbound line has no `!` separating kind and body.
    MalformedFrame,
    /// A reply came back with another kind than the one the request expects.
    KindMismatch { expected: String, actual: String },
    /// A reply's body does not parse as the expected payload.
    Json(String),
    /// The peer answered none of the heartbeat pings.
    Timeout,
    /// The peer closed the stream, or the connection engine has stopped.
    ConnectionClosed,
    /// The queue towards the connection engine is gone: the engine has exited.
    ChannelError,
}

/// The mathematical value of an [`Error`].
pub enum ErrorView {
    Io(Seq<char>),
    MalformedFrame,
    KindMismatch(Seq<char>, Seq<char>),
    Json(Seq<char>),
    Timeout,
    ConnectionClosed,
    ChannelError,
}

impl View for Error {
    type V = ErrorView;

    open spec fn view(&self) -> ErrorView {
        match self {
            Error::Io(m) => ErrorView::Io(m@),
            Error::MalformedFrame => ErrorView::MalformedFrame,
            Error::KindMismatch { expected, actual } => ErrorView::KindMismatch(expected@, actual@),
            Error::Json(m) => ErrorView::Json(m@),
            Error::Timeout => ErrorView::Timeout,
            Error::ConnectionClosed => ErrorView::ConnectionClosed,
            Error::ChannelError => ErrorView::ChannelError,
        }
    }
}

} // verus!

//! The fatal conditions of the daemon: which kind of thing went wrong, with
//! a fixed message for the operation that failed and, where one is known,
//! the underlying cause as text.

use vstd::prelude::*;

verus! {

/// Message of the tunnel error raised when a tunnel attempt cannot be started.
pub const UNABLE_TO_START_TUNNEL: &'static str = "Unable to start tunnel monitor";

/// Message of the tunnel error raised when a running tunnel cannot be closed.
pub const UNABLE_TO_KILL_TUNNEL: &'static str = "Unable to kill tunnel";

/// Message of the management interface error raised when its server cannot
/// be started.
pub const FAILED_TO_START_SERVER: &'static str = "Failed to start server";

/// Message of the management interface error raised when its server stops
/// while the daemon runs.
pub const SERVER_EXITED_UNEXPECTEDLY: &'static str = "Server exited unexpectedly";

/// What kind of fatal condition an [`Error`] reports.
#[derive(Clone, Copy, Debug, PartialEq, Eq)]
pub enum ErrorKind {
    /// The client is in the wrong state for the requested operation.
    /// Optimally the code should be written in such a way so such states
    /// can't exist.
    InvalidState,
    /// Error in the tunnel monitor.
    TunnelError(&'static str),
    /// Error in the management interface.
    ManagementInterfaceError(&'static str),
}

/// An [`ErrorKind`] with its message as a sequence of characters.
pub enum ErrorKindView {
    InvalidState,
    TunnelError(Seq<char>),
    ManagementInterfaceError(Seq<char>),
}

impl View for ErrorKind {
    type V = ErrorKindView;

    open spec fn view(&self) -> ErrorKindView {
        match *self {
            ErrorKind::InvalidState => ErrorKindView::InvalidState,
            ErrorKind::TunnelError(msg) => ErrorKindView::TunnelError(msg@),
            ErrorKind::ManagementInterfaceError(msg) => ErrorKindView::ManagementInterfaceError(
                msg@,
            ),
        }
    }
}

/// A fatal condition: its kind and, where one is known, the text of the
/// failure underneath it.
#[derive(Debug, PartialEq, Eq)]
pub struct Error {
    pub kind: ErrorKind,
    pub cause: Option<String>,
}

/// An [`Error`] with its texts as sequences of characters.
pub struct ErrorView {
    pub kind: ErrorKindView,
    pub cause: Option<Seq<char>>,
}

/// The text of an optional cause.
pub open spec fn cause_view(cause: Option<String>) -> Option<Seq<char>> {
    match cause {
        Some(text) => Some(text@),
        None => None,
    }
}

impl View for Error {
    type V = ErrorView;

    open spec fn view(&self) -> ErrorView {
        ErrorView { kind: self.kind@, cause: cause_view(self.cause) }
    }
}

impl ErrorView {
    /// The invalid-state error. It never has a cause underneath.
    pub open spec fn invalid_state() -> ErrorView {
        ErrorView { kind: ErrorKindView::InvalidState, cause: None }
    }

    /// A tunnel error with message `msg`.
    pub open spec fn tunnel(msg: Seq<char>, cause: Option<Seq<char>>) -> ErrorView {
        ErrorView { kind: ErrorKindView::TunnelError(msg), cause }
    }

    /// A management interface error with message `msg`.
    pub open spec fn management_interface(msg: Seq<char>, cause: Option<Seq<char>>) -> ErrorView {
        ErrorView { kind: ErrorKindView::ManagementInterfaceError(msg), cause }
    }
}

/// The fixed description of each kind of error.
pub open spec fn description_of(kind: ErrorKindView) -> Seq<char> {
    match kind {
        ErrorKindView::InvalidState => "Client is in an invalid state for the requested operation"@,
        ErrorKindView::TunnelError(_) => "Error in the tunnel monitor"@,
        ErrorKindView::ManagementInterfaceError(_) => "Error in the management interface"@,
    }
}

/// The line shown for each kind of error: the description for an invalid
/// state, else a prefix that names the component, followed by the message.
pub open spec fn display_of(kind: ErrorKindView) -> Seq<char> {
    match kind {
        ErrorKindView::InvalidState => description_of(kind),
        ErrorKindView::TunnelError(msg) => "Tunnel monitor error: "@ + msg,
        ErrorKindView::ManagementInterfaceError(msg) => "Management interface error: "@ + msg,
    }
}

impl ErrorKind {
    /// A short, fixed description of this kind of error.
    pub fn description(&self) -> (text: &'static str)
        ensures
            text@ == description_of(self@),
    {
        match *self {
            ErrorKind::InvalidState => "Client is in an invalid state for the requested operation",
            ErrorKind::TunnelError(_) => "Error in the tunnel monitor",
            ErrorKind::ManagementInterfaceError(_) => "Error in the management interface",
        }
    }

    /// The line shown for this kind of error.
    pub fn message(&self) -> (text: String)
        ensures
            text@ == display_of(self@),
    {
        match *self {
            ErrorKind::InvalidState => String::from_str(self.description()),
            ErrorKind::TunnelError(msg) => String::from_str("Tunnel monitor error: ").concat(msg),
            ErrorKind::ManagementInterfaceError(msg) => String::from_str(
                "Management interface error: ",
            ).concat(msg),
        }
    }
}

impl Error {
    /// The error for an operation attempted in a state that should make it
    /// unreachable.
    pub fn invalid_state() -> (error: Error)
        ensures
            error@ == ErrorView::invalid_state(),
    {
        Error { kind: ErrorKind::InvalidState, cause: None }
    }

    /// A tunnel error with message `msg` on top of `cause`.
    pub fn tunnel(msg: &'static str, cause: Option<String>) -> (error: Error)
        ensures
            error@ == ErrorView::tunnel(msg@, cause_view(cause)),
    {
        Error { kind: ErrorKind::TunnelError(msg), cause }
    }

    /// A management interface error with message `msg` on top of `cause`.
    pub fn management_interface(msg: &'static str, cause: Option<String>) -> (error: Error)
        ensures
            error@ == ErrorView::management_interface(msg@, cause_view(cause)),
    {
        Error { kind: ErrorKind::ManagementInterfaceError(msg), cause }
    }

    /// The line shown for this error: that of its kind.
    pub fn message(&self) -> (text: String)
        ensures
            text@ == display_of(self@.kind),
    {
        self.kind.message()
    }
}

} // verus!

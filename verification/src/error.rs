//! The errors that a tool call ends with.
use vstd::prelude::*;
use vstd::string::StringExecFns;

verus! {

/// The JSON-RPC class of an error.
#[derive(Debug, Clone, Copy, PartialEq, Eq, Structural)]
pub enum ErrorCode {
    /// The requested method or command does not exist.
    MethodNotFound,
    /// The request was understood and refused.
    InvalidParams,
    /// The server could not carry the request out.
    InternalError,
}

/// An error that a tool call ends with.
#[derive(Debug)]
pub struct ServerError {
    pub code: ErrorCode,
    pub message: String,
}

/// A [`ServerError`] with its message as a sequence of characters.
pub struct ErrorView {
    pub code: ErrorCode,
    pub message: Seq<char>,
}

impl View for ServerError {
    type V = ErrorView;

    open spec fn view(&self) -> ErrorView {
        ErrorView { code: self.code, message: self.message@ }
    }
}

/// An internal error that says `message`.
pub open spec fn internal(message: Seq<char>) -> ErrorView {
    ErrorView { code: ErrorCode::InternalError, message }
}

impl ServerError {
    /// An internal error that says `message`.
    pub fn internal_error(message: String) -> (error: ServerError)
        ensures
            error@ == internal(message@),
    {
        ServerError { code: ErrorCode::InternalError, message }
    }

    /// An internal error that says `what`, a colon and the `reason`.
    pub fn caused(what: &str, reason: &str) -> (error: ServerError)
        ensures
            error@ == internal(what@ + ": "@ + reason@),
    {
        ServerError::internal_error(what.to_owned().concat(": ").concat(reason))
    }
}

/// The QEMU flag that creates a socket at `path`, with its argument.
pub open spec fn socket_flag(flag: Seq<char>, path: Seq<char>) -> Seq<char> {
    flag + " unix:"@ + path + ",server,nowait"@
}

/// No connection to the socket of a `device` (`QMP` or `serial`) at `path`. The
/// message ends with the QEMU `flag` that creates the socket.
pub open spec fn connect_failure(
    device: Seq<char>,
    flag: Seq<char>,
    path: Seq<char>,
    reason: Seq<char>,
) -> ErrorView {
    internal(
        "failed to connect to "@ + device + " socket "@ + path + ": "@ + reason
            + "; launch QEMU with `"@ + socket_flag(flag, path) + "`"@,
    )
}

/// The error for a socket that could not be connected to.
pub fn connect_failed(device: &str, flag: &str, path: &str, reason: &str) -> (error: ServerError)
    ensures
        error@ == connect_failure(device@, flag@, path@, reason@),
{
    let hint = flag.to_owned().concat(" unix:").concat(path).concat(",server,nowait");
    ServerError::internal_error(
        "failed to connect to ".to_owned().concat(device).concat(" socket ").concat(path).concat(
            ": ",
        ).concat(reason).concat("; launch QEMU with `").concat(hint.as_str()).concat("`"),
    )
}

} // verus!

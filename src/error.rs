use vstd::prelude::*;
use vstd::string::*;

verus! {

/// What went wrong, by the stage at which it happened.
#[derive(Debug, Clone, Copy, PartialEq, Eq, Hash, Structural)]
pub enum ErrorKind {
    /// Caller-supplied text or path that cannot be handed to the engine
    /// (it holds a null byte).
    MalformedInput,
    /// The engine rejected the model data.
    ModelLoadFailed,
    /// The engine could not start a parsing session over the text.
    SessionCreationFailed,
    /// The engine failed while producing a sentence.
    ParseFailed,
    /// An operation was handed a missing or invalid handle or value.
    InvalidArgument,
    /// Fetching a model from its remote location failed.
    TransferFailed,
    /// An error raised by surrounding code rather than by the engine.
    Other,
}

/// `std::io::Error`, carried as an opaque value into the conversion below.
#[verifier::external_type_specification]
#[verifier::external_body]
pub struct ExIoError(std::io::Error);

/// Relies on `Display` of `std::io::Error` for the text of an I/O error.
#[verifier::external_body]
fn io_error_text(err: &std::io::Error) -> String {
    err.to_string()
}

/// The calls into the engine that can fail.
#[derive(Debug, Clone, Copy, PartialEq, Eq, Structural)]
pub enum NativeCall {
    /// Loading a model from a file path.
    LoadFile,
    /// Loading a model from bytes in memory.
    LoadMemory,
    /// Starting a parsing session over a text.
    CreateSession,
    /// Producing the next sentence of a session.
    Pull,
}

/// The kind of error that a failed call into the engine reports.
pub open spec fn call_kind(call: NativeCall) -> ErrorKind {
    match call {
        NativeCall::LoadFile => ErrorKind::ModelLoadFailed,
        NativeCall::LoadMemory => ErrorKind::ModelLoadFailed,
        NativeCall::CreateSession => ErrorKind::SessionCreationFailed,
        NativeCall::Pull => ErrorKind::ParseFailed,
    }
}

/// The message of a failed call into the engine that gave no diagnostic.
pub open spec fn call_fallback(call: NativeCall) -> Seq<char> {
    match call {
        NativeCall::LoadFile => "Failed to load model"@,
        NativeCall::LoadMemory => "Failed to load model from memory"@,
        NativeCall::CreateSession => "Failed to parse text"@,
        NativeCall::Pull => "Failed to parse text"@,
    }
}

/// Error type for UDPipe operations.
#[derive(Debug, Clone)]
pub struct UdpipeError {
    /// The stage at which the error happened.
    pub kind: ErrorKind,
    /// The error message.
    pub message: String,
}

/// The text shown for an error with message `message`.
pub open spec fn display_text(message: Seq<char>) -> Seq<char> {
    "UDPipe error: "@ + message
}

/// The message of an error reported by the engine: its own diagnostic when it
/// gave one, else `fallback`.
pub open spec fn diagnostic_or(diag: Option<Seq<char>>, fallback: Seq<char>) -> Seq<char> {
    match diag {
        Some(d) => d,
        None => fallback,
    }
}

/// The view of an optional diagnostic.
pub open spec fn diag_view(diag: Option<String>) -> Option<Seq<char>> {
    match diag {
        Some(d) => Some(d@),
        None => None,
    }
}

impl UdpipeError {
    /// Create a new error with the given message.
    pub fn new(message: &str) -> (r: Self)
        ensures
            r.kind == ErrorKind::Other,
            r.message@ == message@,
    {
        UdpipeError { kind: ErrorKind::Other, message: message.to_string() }
    }

    /// Create a new error of the given kind with the given message.
    pub fn with_kind(kind: ErrorKind, message: &str) -> (r: Self)
        ensures
            r.kind == kind,
            r.message@ == message@,
    {
        UdpipeError { kind, message: message.to_string() }
    }

    /// Copy a diagnostic of the engine into an owned error of the given kind;
    /// where the engine gave no diagnostic the message is `fallback`.
    pub fn from_diagnostic(kind: ErrorKind, diag: Option<String>, fallback: &str) -> (r: Self)
        ensures
            r.kind == kind,
            r.message@ == diagnostic_or(diag_view(diag), fallback@),
    {
        let message = match diag {
            Some(d) => d,
            None => fallback.to_string(),
        };
        UdpipeError { kind, message }
    }

    /// The error for a failed call into the engine, with the engine's
    /// diagnostic where it gave one.
    pub fn from_native(call: NativeCall, diag: Option<String>) -> (r: Self)
        ensures
            r.kind == call_kind(call),
            r.message@ == diagnostic_or(diag_view(diag), call_fallback(call)),
    {
        match call {
            NativeCall::LoadFile => Self::from_diagnostic(
                ErrorKind::ModelLoadFailed,
                diag,
                "Failed to load model",
            ),
            NativeCall::LoadMemory => Self::from_diagnostic(
                ErrorKind::ModelLoadFailed,
                diag,
                "Failed to load model from memory",
            ),
            NativeCall::CreateSession => Self::from_diagnostic(
                ErrorKind::SessionCreationFailed,
                diag,
                "Failed to parse text",
            ),
            NativeCall::Pull => Self::from_diagnostic(
                ErrorKind::ParseFailed,
                diag,
                "Failed to parse text",
            ),
        }
    }

    /// The text of this error as it is shown to a user.
    pub fn to_display_string(&self) -> (r: String)
        ensures
            r@ == display_text(self.message@),
    {
        let prefix = String::from_str("UDPipe error: ");
        prefix.concat(self.message.as_str())
    }
}

impl From<std::io::Error> for UdpipeError {
    /// An error carrying the text of an I/O error.
    fn from(err: std::io::Error) -> (r: Self)
        ensures
            r.kind == ErrorKind::Other,
    {
        UdpipeError { kind: ErrorKind::Other, message: io_error_text(&err) }
    }
}

impl vstd::std_specs::convert::FromSpecImpl<std::io::Error> for UdpipeError {
    /// The text of an I/O error is not known here, so no result is promised.
    open spec fn obeys_from_spec() -> bool {
        false
    }

    open spec fn from_spec(v: std::io::Error) -> Self {
        arbitrary()
    }
}

} // verus!

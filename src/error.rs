use vstd::prelude::*;

verus! {

/// Error kinds of the shell.
#[derive(Debug, Clone, PartialEq, Eq)]
pub enum AmiyaError {
    /// Malformed persisted settings.
    Config(String),
    /// Failure on a local command or compositor socket.
    Ipc(String),
    /// An external service is unreachable, absent or refused a call.
    Backend(String),
    /// User interface set-up failed.
    Ui(String),
    /// An input/output failure, carried as its message.
    Io(String),
    /// Anything else.
    Other(String),
}

/// The prefix that `AmiyaError::message` puts before each kind's text.
pub open spec fn error_prefix(e: AmiyaError) -> Seq<char> {
    match e {
        AmiyaError::Config(_) => "Configuration error: "@,
        AmiyaError::Ipc(_) => "IPC error: "@,
        AmiyaError::Backend(_) => "Backend error: "@,
        AmiyaError::Ui(_) => "UI error: "@,
        AmiyaError::Io(_) => "I/O error: "@,
        AmiyaError::Other(_) => "Error: "@,
    }
}

/// The text that an error carries.
pub open spec fn error_text(e: AmiyaError) -> Seq<char> {
    match e {
        AmiyaError::Config(m) => m@,
        AmiyaError::Ipc(m) => m@,
        AmiyaError::Backend(m) => m@,
        AmiyaError::Ui(m) => m@,
        AmiyaError::Io(m) => m@,
        AmiyaError::Other(m) => m@,
    }
}

impl AmiyaError {
    /// Human-readable rendering: a prefix naming the kind, then the text.
    pub fn message(&self) -> (r: String)
        ensures
            r@ == error_prefix(*self) + error_text(*self),
    {
        let (prefix, text) = match self {
            AmiyaError::Config(m) => ("Configuration error: ", m),
            AmiyaError::Ipc(m) => ("IPC error: ", m),
            AmiyaError::Backend(m) => ("Backend error: ", m),
            AmiyaError::Ui(m) => ("UI error: ", m),
            AmiyaError::Io(m) => ("I/O error: ", m),
            AmiyaError::Other(m) => ("Error: ", m),
        };
        prefix.to_owned().concat(text.as_str())
    }
}

/// Backend availability status.
#[derive(Debug, Clone, Copy, PartialEq, Eq, Structural)]
pub enum BackendStatus {
    Available,
    Unavailable,
    Error,
}

} // verus!

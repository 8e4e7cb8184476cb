use vstd::prelude::*;
use vstd::string::StringExecFns;

verus! {

/// Everything that can end an operation early.
///
/// `Io` and `JSON` carry the description that the failing layer gave; the
/// other variants say all there is to say.
#[derive(Debug, Clone, PartialEq, Eq)]
pub enum VeriflowError {
    /// The disk or the network failed.
    Io(String),
    /// A frame was cut short, or could not be put on the wire.
    Protocol,
    /// A header payload is not a well-formed command header.
    JSON(String),
    /// A file name cannot be written as text, or would leave the storage root.
    InvalidPath,
    /// The bytes that arrived do not have the digest that was announced.
    Integrity,
    /// A download asked for a name that the storage root does not hold.
    NotFound,
}

/// The kind of a failure, without its detail.
#[derive(Debug, Clone, Copy, PartialEq, Eq, Structural)]
pub enum ErrorKind {
    Io,
    Protocol,
    Serialization,
    InvalidPath,
    Integrity,
    NotFound,
}

impl View for VeriflowError {
    type V = ErrorKind;

    /// An error is seen as its kind.
    open spec fn view(&self) -> ErrorKind {
        match self {
            VeriflowError::Io(_) => ErrorKind::Io,
            VeriflowError::Protocol => ErrorKind::Protocol,
            VeriflowError::JSON(_) => ErrorKind::Serialization,
            VeriflowError::InvalidPath => ErrorKind::InvalidPath,
            VeriflowError::Integrity => ErrorKind::Integrity,
            VeriflowError::NotFound => ErrorKind::NotFound,
        }
    }
}

impl VeriflowError {
    /// The kind of this failure.
    pub fn kind(&self) -> (kind: ErrorKind)
        ensures
            kind == self@,
    {
        match self {
            VeriflowError::Io(_) => ErrorKind::Io,
            VeriflowError::Protocol => ErrorKind::Protocol,
            VeriflowError::JSON(_) => ErrorKind::Serialization,
            VeriflowError::InvalidPath => ErrorKind::InvalidPath,
            VeriflowError::Integrity => ErrorKind::Integrity,
            VeriflowError::NotFound => ErrorKind::NotFound,
        }
    }

    /// The text that `message` returns, as a sequence of characters.
    pub open spec fn message_text(self) -> Seq<char> {
        match self {
            VeriflowError::Io(detail) => "Network/Disk Error: "@ + detail@,
            VeriflowError::Protocol => "Protocol Error: the connection closed before a frame was complete"@,
            VeriflowError::JSON(detail) => "Serialisation Error: "@ + detail@,
            VeriflowError::InvalidPath => "Invalid Path: Could not extract a valid filename from the provided path"@,
            VeriflowError::Integrity => "Integrity Error: the content does not match the announced hash"@,
            VeriflowError::NotFound => "Not Found: the server holds no file of that name"@,
        }
    }

    /// A line for the user that names the kind of failure and, where there
    /// is one, the detail.
    pub fn message(&self) -> (text: String)
        ensures
            text@ == self.message_text(),
    {
        match self {
            VeriflowError::Io(detail) => String::from_str("Network/Disk Error: ").concat(
                detail.as_str(),
            ),
            VeriflowError::Protocol => String::from_str(
                "Protocol Error: the connection closed before a frame was complete",
            ),
            VeriflowError::JSON(detail) => String::from_str("Serialisation Error: ").concat(
                detail.as_str(),
            ),
            VeriflowError::InvalidPath => String::from_str(
                "Invalid Path: Could not extract a valid filename from the provided path",
            ),
            VeriflowError::Integrity => String::from_str(
                "Integrity Error: the content does not match the announced hash",
            ),
            VeriflowError::NotFound => String::from_str(
                "Not Found: the server holds no file of that name",
            ),
        }
    }
}

} // verus!

//! The error taxonomy of the orchestration layer: validation failures raised
//! by the binder, the pipelines and the dispatcher, together with wrapped
//! collaborator failures (protocol faults, storage faults, a missing home
//! directory), each rendered as a single human-readable line.
use vstd::prelude::*;

verus! {

/// One tagged result type propagates from every binder and pipeline operation
/// up to the dispatch boundary, where it is rendered and absorbed.
#[derive(Debug, PartialEq, Eq)]
pub enum Error {
    /// A failure of the protocol collaborator, keeping its original message.
    Protocol(String),
    /// A failure of the durable store, keeping its original message.
    Io(String),
    /// No valid home directory path could be retrieved from the host.
    NoHome,
    /// The submitted token stream selected no registered command.
    InvalidCommand,
    /// A command's positional arguments were malformed; carries the
    /// pre-formatted usage line for that command.
    Usage(String),
    /// The requested platform id is absent from the definition catalog.
    InvalidPlatform,
    /// No model signature of the platform matched a downloaded image.
    UnknownModel,
    /// The requested datalink index is outside the link catalog.
    InvalidDatalink,
    /// The platform/link pairing exposes no download capability.
    DownloadUnsupported,
    /// The referenced ROM id is absent from the ROM manager.
    InvalidRom,
}

impl Error {
    /// The single-line, human-readable rendering of this error. Wrapped
    /// collaborator errors retain their original message under a category
    /// label.
    pub fn message(&self) -> (r: String)
        ensures
            r@ == self.message_spec(),
    {
        match self {
            Error::Protocol(m) => String::from_str("Protocol error: ").concat(m.as_str()),
            Error::Io(m) => String::from_str("IO error: ").concat(m.as_str()),
            Error::NoHome => String::from_str(
                "No valid home directory path could be retrieved from the operating system",
            ),
            Error::InvalidCommand => String::from_str("Invalid command"),
            Error::Usage(m) => m.clone(),
            Error::InvalidPlatform => String::from_str("Invalid platform"),
            Error::UnknownModel => String::from_str("Unknown model"),
            Error::InvalidDatalink => String::from_str("Invalid datalink"),
            Error::DownloadUnsupported => String::from_str(
                "Downloading unsupported for a datalink or platform",
            ),
            Error::InvalidRom => String::from_str("Invalid ROM"),
        }
    }

    /// What `message` returns, variant by variant.
    pub open spec fn message_spec(&self) -> Seq<char> {
        match self {
            Error::Protocol(m) => "Protocol error: "@ + m@,
            Error::Io(m) => "IO error: "@ + m@,
            Error::NoHome => "No valid home directory path could be retrieved from the operating system"@,
            Error::InvalidCommand => "Invalid command"@,
            Error::Usage(m) => m@,
            Error::InvalidPlatform => "Invalid platform"@,
            Error::UnknownModel => "Unknown model"@,
            Error::InvalidDatalink => "Invalid datalink"@,
            Error::DownloadUnsupported => "Downloading unsupported for a datalink or platform"@,
            Error::InvalidRom => "Invalid ROM"@,
        }
    }
}

} // verus!

//! Error taxonomy of the lifecycle manager: runtime-API failures are kept
//! verbatim, a pinned-digest mismatch is distinguished so a caller can tell
//! a possibly tampered image from an ordinary runtime fault, and anything
//! else is opaque.

use vstd::prelude::*;
use vstd::string::*;

verus! {

#[derive(Clone, Debug, PartialEq, Eq)]
pub enum BitcoindError {
    /// A failure reported by the container runtime API, message verbatim.
    DockerError(String),
    /// A pinned digest was configured but the pulled image does not carry
    /// it; `expected` is the pinned reference, `found` the digests the
    /// image actually carries.
    ImageHashMismatch { expected: String, found: String },
    /// Anything not otherwise classified.
    Other(String),
}

impl BitcoindError {
    /// A human-readable description of the error.
    pub fn message(&self) -> (s: String)
        ensures
            self matches BitcoindError::DockerError(m) ==> s@ == "Docker error: "@ + m@,
            self matches BitcoindError::ImageHashMismatch { expected, found } ==> s@
                == "Image hash mismatch: expected "@ + expected@ + ", found "@ + found@,
            self matches BitcoindError::Other(m) ==> s@ == "Other error: "@ + m@,
    {
        match self {
            BitcoindError::DockerError(m) => {
                let mut s = String::from_str("Docker error: ");
                s.append(m.as_str());
                s
            },
            BitcoindError::ImageHashMismatch { expected, found } => {
                let mut s = String::from_str("Image hash mismatch: expected ");
                s.append(expected.as_str());
                s.append(", found ");
                s.append(found.as_str());
                s
            },
            BitcoindError::Other(m) => {
                let mut s = String::from_str("Other error: ");
                s.append(m.as_str());
                s
            },
        }
    }
}

} // verus!

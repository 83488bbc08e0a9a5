//! The error taxonomy shared by the export pipeline and the recording
//! session.

use vstd::prelude::*;

verus! {

/// Every failure of an operation in this crate is one of these kinds.
///
/// `EncodingFailure` carries the encoder's captured standard-error text
/// verbatim, so the caller can diagnose external-tool failures.
#[derive(Debug)]
pub enum EncoderError {
    /// The external encoder binary is not invocable.
    BinaryUnavailable,
    /// The request itself is illegal: an empty clip list, a clip with an
    /// empty time range, or an illegal state transition such as a double
    /// start or a stop while idle.
    InvalidRequest(String),
    /// The operating system refused to create the subprocess.
    SpawnFailure(String),
    /// The subprocess ran and exited with a non-zero status; the payload
    /// is its standard-error text, unchanged.
    EncodingFailure(String),
    /// A temporary-directory or manifest-file operation failed.
    FilesystemFailure(String),
    /// The shared session state could not be locked; fatal to the current
    /// operation only.
    LockFailure,
}

impl Clone for EncoderError {
    fn clone(&self) -> (r: Self)
        ensures
            r == *self,
    {
        match self {
            EncoderError::BinaryUnavailable => EncoderError::BinaryUnavailable,
            EncoderError::InvalidRequest(m) => EncoderError::InvalidRequest(m.clone()),
            EncoderError::SpawnFailure(m) => EncoderError::SpawnFailure(m.clone()),
            EncoderError::EncodingFailure(m) => EncoderError::EncodingFailure(m.clone()),
            EncoderError::FilesystemFailure(m) => EncoderError::FilesystemFailure(m.clone()),
            EncoderError::LockFailure => EncoderError::LockFailure,
        }
    }
}

impl EncoderError {
    /// A human-readable message for the caller. For an encoding failure
    /// the captured diagnostic text is included verbatim.
    pub fn message(&self) -> (r: String)
        ensures
            self matches EncoderError::BinaryUnavailable ==> r@
                == "FFmpeg is not installed or not in PATH. Please install FFmpeg to use this feature."@,
            self matches EncoderError::InvalidRequest(d) ==> r@ == d@,
            self matches EncoderError::SpawnFailure(d) ==> r@ == "Failed to execute FFmpeg: "@ + d@,
            self matches EncoderError::EncodingFailure(d) ==> r@ == "FFmpeg error: "@ + d@,
            self matches EncoderError::FilesystemFailure(d) ==> r@ == "Filesystem error: "@ + d@,
            self matches EncoderError::LockFailure ==> r@ == "Recorder state lock unavailable"@,
    {
        match self {
            EncoderError::BinaryUnavailable => String::from_str(
                "FFmpeg is not installed or not in PATH. Please install FFmpeg to use this feature.",
            ),
            EncoderError::InvalidRequest(m) => m.clone(),
            EncoderError::SpawnFailure(m) => String::from_str("Failed to execute FFmpeg: ").concat(
                m.as_str(),
            ),
            EncoderError::EncodingFailure(m) => String::from_str("FFmpeg error: ").concat(
                m.as_str(),
            ),
            EncoderError::FilesystemFailure(m) => String::from_str("Filesystem error: ").concat(
                m.as_str(),
            ),
            EncoderError::LockFailure => String::from_str("Recorder state lock unavailable"),
        }
    }
}

} // verus!

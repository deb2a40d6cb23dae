use vstd::prelude::*;

verus! {

/// The ways a run can fail.
#[derive(Clone, Debug, PartialEq, Eq)]
pub enum SpdxError {
    /// A malformed configuration or an ignore pattern that is not a valid regex.
    ConfigError(String),
    /// A failed or short read, a failed write or an unreadable directory.
    IoError(String),
    /// A path that cannot be represented as text.
    PathEncodingError(String),
}

impl SpdxError {
    /// The message carried by the error.
    pub fn message(&self) -> (r: String)
        ensures
            r@ == match self {
                SpdxError::ConfigError(m) => m@,
                SpdxError::IoError(m) => m@,
                SpdxError::PathEncodingError(m) => m@,
            },
    {
        match self {
            SpdxError::ConfigError(m) => m.clone(),
            SpdxError::IoError(m) => m.clone(),
            SpdxError::PathEncodingError(m) => m.clone(),
        }
    }
}

} // verus!

use vstd::prelude::*;

verus! {

/// The closed set of failures the library reports. Filesystem faults are
/// mapped to `IoError` by the caller that performs the reads and writes.
#[derive(Clone, Copy, Debug, PartialEq, Eq, Structural)]
pub enum AppError {
    /// The source name already carries the encrypted suffix.
    AlreadyEncrypted,
    /// The source name does not carry the encrypted suffix, or nothing
    /// would remain of it once the suffix is stripped.
    NotEncrypted,
    /// Wrong passphrase or altered container; the two are indistinguishable.
    AuthenticationFailed,
    /// The container's header does not parse as a passphrase-encrypted file.
    MalformedContainer,
    /// The encryption backend reported a fault while producing the container.
    EncryptionFailed,
    /// A digest string does not match the fixed-length lowercase hex pattern.
    InvalidDigestFormat,
    /// The word list is empty, so no passphrase can be drawn from it.
    ConfigurationError,
    /// A filesystem read or write failed.
    IoError,
}

pub type AppResult<T> = Result<T, AppError>;

} // verus!

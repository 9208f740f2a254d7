//! The error type of every card operation.

use vstd::prelude::*;

verus! {

/// What can go wrong when driving a motion-control card.
#[derive(Debug)]
pub enum MotionError {
    /// The card has not been initialized.
    NotInitialized,
    /// The connection to the card failed.
    ConnectionFailed(String),
    /// An axis index outside the card's axes.
    AxisOutOfRange { index: usize, max: usize },
    /// A motion command failed.
    MoveFailed(String),
    /// An I/O operation failed.
    IoFailed(String),
    /// No card is registered under the requested vendor or name.
    UnsupportedVendor(String),
    /// A vendor SDK call returned a non-zero code.
    SdkError { code: i16, message: String },
    /// The vendor library could not be loaded.
    LibraryLoadFailed(String),
    /// The configuration is invalid.
    ConfigError(String),
}

/// `r` is the error of an SDK call that returned `code` and recorded
/// `message`.
pub open spec fn is_sdk_error<T>(r: std::result::Result<T, MotionError>, code: i16, message: Seq<char>) -> bool {
    match r {
        Err(MotionError::SdkError { code: c, message: m }) => c == code && m@ == message,
        _ => false,
    }
}

/// The result of a card operation.
pub type Result<T> = std::result::Result<T, MotionError>;

} // verus!

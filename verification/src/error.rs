use vstd::prelude::*;

verus! {

/// The reason a sync operation failed.
#[derive(Debug, Clone, Copy, PartialEq, Eq, Structural)]
pub enum SyncErrorKind {
    /// The server refused, with a message for the user.
    ServerMessage,
    /// The local clock is too far from the server's.
    ClockIncorrect,
    /// The payload is larger than the server accepts.
    UploadTooLarge,
}

/// Errors produced by this library.
#[derive(Debug)]
pub enum AnkiError {
    /// A sync failed; `info` holds the message shown to the user.
    SyncError { info: String, kind: SyncErrorKind },
    /// The caller supplied something unusable.
    InvalidInput { message: String },
    /// Reading or writing bytes failed.
    IoError { info: String },
    /// Encoding or decoding JSON failed.
    JsonError { info: String },
}

impl AnkiError {
    pub fn sync_error(info: String, kind: SyncErrorKind) -> (res: AnkiError)
        ensures
            res == (AnkiError::SyncError { info, kind }),
    {
        AnkiError::SyncError { info, kind }
    }

    pub fn invalid_input(message: String) -> (res: AnkiError)
        ensures
            res == (AnkiError::InvalidInput { message }),
    {
        AnkiError::InvalidInput { message }
    }
}

} // verus!

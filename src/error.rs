use vstd::prelude::*;

verus! {

/// The kinds of failure that the library and its callers report.
#[derive(Debug, Clone, Copy, PartialEq, Eq, Structural)]
pub enum SimilariumErrorType {
    NotFound,
    SlackApiError,
    JsonParseError,
    DbError,
    EnvError,
    IOError,
    Error,
    ValidationError,
    MissingThreadTs,
    SerialisationError,
    ValueError,
    AlreadyWon,
    TransientOracleError,
    StorageConflict,
}

/// An error with an optional user-facing message.
#[derive(Debug, PartialEq, Eq)]
pub struct SimilariumError {
    pub message: Option<String>,
    pub error_type: SimilariumErrorType,
}

/// The body that an HTTP front end sends back for an error.
#[derive(Debug, PartialEq, Eq)]
pub struct SimilariumErrorResponse {
    pub error: String,
}

/// The text shown for an error that carries no message of its own.
pub open spec fn default_message() -> Seq<char> {
    "An unexpected error has occurred"@
}

impl SimilariumError {
    /// An error of the given kind carrying `message`.
    pub fn with_message(error_type: SimilariumErrorType, message: String) -> (r: SimilariumError)
        ensures
            r.error_type == error_type,
            r.message == Some(message),
    {
        SimilariumError { message: Some(message), error_type }
    }

    /// A rejected input, such as an unknown command or a malformed time.
    pub fn validation(message: String) -> (r: SimilariumError)
        ensures
            r.error_type == SimilariumErrorType::ValidationError,
            r.message == Some(message),
    {
        Self::with_message(SimilariumErrorType::ValidationError, message)
    }

    /// An argument outside the range that a function accepts.
    pub fn value_error(message: String) -> (r: SimilariumError)
        ensures
            r.error_type == SimilariumErrorType::ValueError,
            r.message == Some(message),
    {
        Self::with_message(SimilariumErrorType::ValueError, message)
    }

    /// The message to show to a user: the error's own, or a generic one.
    pub fn message(&self) -> (r: String)
        ensures
            self.message matches Some(m) ==> r@ == m@,
            self.message is None ==> r@ == default_message(),
    {
        match &self.message {
            Some(m) => m.clone(),
            None => {
                proof {
                    reveal_strlit("An unexpected error has occurred");
                }
                String::from_str("An unexpected error has occurred")
            },
        }
    }

    /// The HTTP status that a front end answers with for this error.
    pub fn status_code(&self) -> (r: u16)
        ensures
            r == status_for(self.error_type),
    {
        match self.error_type {
            SimilariumErrorType::NotFound => 404,
            SimilariumErrorType::ValidationError | SimilariumErrorType::AlreadyWon => 400,
            SimilariumErrorType::StorageConflict => 409,
            SimilariumErrorType::TransientOracleError => 503,
            _ => 500,
        }
    }

    /// The response body for this error.
    pub fn response(&self) -> (r: SimilariumErrorResponse)
        ensures
            self.message matches Some(m) ==> r.error@ == m@,
            self.message is None ==> r.error@ == default_message(),
    {
        SimilariumErrorResponse { error: self.message() }
    }
}

/// The HTTP status of each kind of error.
pub open spec fn status_for(t: SimilariumErrorType) -> u16 {
    match t {
        SimilariumErrorType::NotFound => 404,
        SimilariumErrorType::ValidationError | SimilariumErrorType::AlreadyWon => 400,
        SimilariumErrorType::StorageConflict => 409,
        SimilariumErrorType::TransientOracleError => 503,
        _ => 500,
    }
}

/// `Err` of a validation error with `message`.
pub fn validation_error<T>(message: String) -> (r: Result<T, SimilariumError>)
    ensures
        r matches Err(e) && e.error_type == SimilariumErrorType::ValidationError && e.message
            == Some(message),
{
    Err(SimilariumError::validation(message))
}

/// `Err` of a value error with `message`.
pub fn value_error<T>(message: String) -> (r: Result<T, SimilariumError>)
    ensures
        r matches Err(e) && e.error_type == SimilariumErrorType::ValueError && e.message == Some(
            message,
        ),
{
    Err(SimilariumError::value_error(message))
}

} // verus!

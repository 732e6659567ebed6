use vstd::prelude::*;

verus! {

/// The ways in which a call to the repository API can fail.
#[derive(Debug, Clone)]
pub enum GHAPIError {
    /// The HTTP client could not be built (for instance a header value was malformed).
    ClientCreationFailed,
    /// The request could not be sent or no response came back.
    RequestFailed,
    /// The server answered with a status outside 200..=299; the raw body is kept.
    ResponseUnsuccessful(String),
    /// The response body did not have the expected shape, or could not be read.
    FailedToDeserialize,
}

/// The human-readable text of an error.
pub open spec fn error_message(e: GHAPIError) -> Seq<char> {
    match e {
        GHAPIError::ClientCreationFailed => "Creating reqwest client failed"@,
        GHAPIError::RequestFailed => "Sending request failed"@,
        GHAPIError::ResponseUnsuccessful(msg) => "Request unsuccessful - "@ + msg@,
        GHAPIError::FailedToDeserialize => "Failed to deserialize"@,
    }
}

impl GHAPIError {
    /// Describes the error in words, carrying the server's body where there is one.
    pub fn message(&self) -> (r: String)
        ensures
            r@ == error_message(*self),
    {
        match self {
            GHAPIError::ClientCreationFailed => "Creating reqwest client failed".to_owned(),
            GHAPIError::RequestFailed => "Sending request failed".to_owned(),
            GHAPIError::ResponseUnsuccessful(msg) => {
                let mut r = "Request unsuccessful - ".to_owned();
                r.append(msg.as_str());
                r
            },
            GHAPIError::FailedToDeserialize => "Failed to deserialize".to_owned(),
        }
    }
}

} // verus!

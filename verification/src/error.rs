//! The ways in which generating a commit message fails.

use vstd::prelude::*;

verus! {

/// The status with which the endpoint reports that it is not available.
pub const SERVICE_UNAVAILABLE: u16 = 503;

/// The status with which the endpoint reports too many requests.
pub const TOO_MANY_REQUESTS: u16 = 429;

/// The status with which the endpoint refuses a credential.
pub const UNAUTHORIZED: u16 = 401;

/// A failure of the generation of a commit message.
#[derive(Clone, Copy, Debug, PartialEq, Eq, Structural)]
pub enum Error {
    /// The exchange failed before the endpoint gave a status.
    Transport,
    /// The endpoint answered with a status other than success.
    Api { status: u16 },
    /// The endpoint answered with success, but without a completion.
    MalformedResponse,
    /// Every attempt was spent without a valid message.
    GenerationExhausted,
}

impl Error {
    /// Another attempt is worth making after this failure: the endpoint was
    /// not available, or it limited the rate of requests.  Every other
    /// failure is final.
    pub open spec fn is_retryable(self) -> bool {
        match self {
            Error::Api { status } => status == SERVICE_UNAVAILABLE || status == TOO_MANY_REQUESTS,
            _ => false,
        }
    }

    /// The failure in words.
    pub open spec fn explanation(self) -> Seq<char> {
        match self {
            Error::Transport => "API error: Network connection error. Please check your internet connection."@,
            Error::Api { status } => if status == SERVICE_UNAVAILABLE {
                "API error: Together.ai service is temporarily unavailable. Please try again in a few moments."@
            } else if status == UNAUTHORIZED {
                "API error: Invalid API key. Please check your Together.ai API key."@
            } else if status == TOO_MANY_REQUESTS {
                "API error: Rate limit exceeded. Please wait a moment before trying again."@
            } else {
                "API error: Unexpected API error occurred."@
            },
            Error::MalformedResponse => "Failed to generate commit message: No response from API"@,
            Error::GenerationExhausted => "Failed to generate commit message: Maximum retries exceeded"@,
        }
    }

    /// Whether another attempt is worth making after this failure.
    pub fn retryable(&self) -> (b: bool)
        ensures
            b == self.is_retryable(),
    {
        match self {
            Error::Api { status } => *status == SERVICE_UNAVAILABLE || *status
                == TOO_MANY_REQUESTS,
            _ => false,
        }
    }

    /// The failure in words, for the user.
    pub fn message(&self) -> (text: String)
        ensures
            text@ == self.explanation(),
    {
        match self {
            Error::Transport => "API error: Network connection error. Please check your internet connection.".to_owned(),
            Error::Api { status } => if *status == SERVICE_UNAVAILABLE {
                "API error: Together.ai service is temporarily unavailable. Please try again in a few moments.".to_owned()
            } else if *status == UNAUTHORIZED {
                "API error: Invalid API key. Please check your Together.ai API key.".to_owned()
            } else if *status == TOO_MANY_REQUESTS {
                "API error: Rate limit exceeded. Please wait a moment before trying again.".to_owned()
            } else {
                "API error: Unexpected API error occurred.".to_owned()
            },
            Error::MalformedResponse => "Failed to generate commit message: No response from API".to_owned(),
            Error::GenerationExhausted => "Failed to generate commit message: Maximum retries exceeded".to_owned(),
        }
    }
}

} // verus!

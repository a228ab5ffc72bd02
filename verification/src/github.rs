//! Errors of the repository data provider, and the classification of raw
//! provider messages into them. The network calls themselves live in the
//! surrounding program; it hands the raw message text in and gets the
//! classified error back.

use crate::text::{contains_seq, str_contains};
use vstd::prelude::*;

verus! {

/// Mathematical value of a [`GitHubError`].
#[verifier::ext_equal]
pub ghost enum GitHubErrorView {
    AuthenticationFailed,
    RateLimitExceeded,
    NetworkError(Seq<char>),
    RepositoryNotFound(Seq<char>),
    ApiError(Seq<char>),
}

/// An error from the repository data provider.
#[derive(Debug)]
pub enum GitHubError {
    /// Authentication failed
    AuthenticationFailed,
    /// The provider's rate limit was exceeded
    RateLimitExceeded,
    /// A network error, with its message
    NetworkError(String),
    /// A repository was not found
    RepositoryNotFound(String),
    /// Any other provider error, with its message
    ApiError(String),
}

impl DeepView for GitHubError {
    type V = GitHubErrorView;

    open spec fn deep_view(&self) -> GitHubErrorView {
        match self {
            GitHubError::AuthenticationFailed => GitHubErrorView::AuthenticationFailed,
            GitHubError::RateLimitExceeded => GitHubErrorView::RateLimitExceeded,
            GitHubError::NetworkError(m) => GitHubErrorView::NetworkError(m@),
            GitHubError::RepositoryNotFound(m) => GitHubErrorView::RepositoryNotFound(m@),
            GitHubError::ApiError(m) => GitHubErrorView::ApiError(m@),
        }
    }
}

/// The error class a raw provider message falls in: rate limiting when it
/// mentions the rate limit, an authentication failure when it mentions
/// authentication or the 401 status, and a general provider error
/// otherwise.
pub open spec fn classified_api_message(m: Seq<char>) -> GitHubErrorView {
    if contains_seq(m, "rate limit"@) {
        GitHubErrorView::RateLimitExceeded
    } else if contains_seq(m, "authentication"@) || contains_seq(m, "401"@) {
        GitHubErrorView::AuthenticationFailed
    } else {
        GitHubErrorView::ApiError(m)
    }
}

impl GitHubError {
    /// Classify the message of a provider-reported error.
    pub fn from_api_message(message: String) -> (r: Self)
        ensures
            r.deep_view() == classified_api_message(message@),
    {
        if str_contains(message.as_str(), "rate limit") {
            GitHubError::RateLimitExceeded
        } else if str_contains(message.as_str(), "authentication") || str_contains(message.as_str(), "401") {
            GitHubError::AuthenticationFailed
        } else {
            GitHubError::ApiError(message)
        }
    }

    /// The characters of `message`.
    pub open spec fn message_spec(&self) -> Seq<char> {
        match self {
            GitHubError::AuthenticationFailed => "GitHub authentication failed"@,
            GitHubError::RateLimitExceeded => "GitHub API rate limit exceeded"@,
            GitHubError::NetworkError(m) => "Network error: "@ + m@,
            GitHubError::RepositoryNotFound(m) => "Repository not found: "@ + m@,
            GitHubError::ApiError(m) => "GitHub API error: "@ + m@,
        }
    }

    /// A human-readable message for the error.
    pub fn message(&self) -> (r: String)
        ensures
            r@ == self.message_spec(),
    {
        match self {
            GitHubError::AuthenticationFailed => String::from_str("GitHub authentication failed"),
            GitHubError::RateLimitExceeded => String::from_str("GitHub API rate limit exceeded"),
            GitHubError::NetworkError(m) => {
                let mut r = String::from_str("Network error: ");
                r.append(m.as_str());
                r
            },
            GitHubError::RepositoryNotFound(m) => {
                let mut r = String::from_str("Repository not found: ");
                r.append(m.as_str());
                r
            },
            GitHubError::ApiError(m) => {
                let mut r = String::from_str("GitHub API error: ");
                r.append(m.as_str());
                r
            },
        }
    }
}

} // verus!

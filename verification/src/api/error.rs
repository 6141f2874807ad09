//! The errors of the REST client and the messages they show.
use vstd::prelude::*;
use crate::text::{concat2, decimal_seq, u64_to_decimal};

verus! {

/// What went wrong in a call to the Jira REST API.
#[derive(Debug, Clone)]
pub enum ApiError {
    Network(String),
    Http { status: u16, message: String },
    Parse(String),
    Authentication(String),
    RateLimited { retry_after: Option<u64> },
    HttpClient(String),
    InvalidConfiguration(String),
}

/// The result of a call to the Jira REST API.
pub type ApiResult<T> = Result<T, ApiError>;

/// The message of an error, as its `Display` writes it.
pub open spec fn api_error_text(e: ApiError) -> Seq<char> {
    match e {
        ApiError::Network(m) => "Network error: "@ + m@,
        ApiError::Http { status, message } => "HTTP error "@ + decimal_seq(status as nat) + ": "@
            + message@,
        ApiError::Parse(m) => "Parse error: "@ + m@,
        ApiError::Authentication(m) => "Authentication error: "@ + m@,
        ApiError::RateLimited { retry_after } => match retry_after {
            Some(s) => "Rate limited. Retry after "@ + decimal_seq(s as nat) + " seconds"@,
            None => "Rate limited"@,
        },
        ApiError::HttpClient(m) => "HTTP client error: "@ + m@,
        ApiError::InvalidConfiguration(m) => "Invalid configuration: "@ + m@,
    }
}

impl ApiError {
    /// The message of this error.
    pub fn to_string(&self) -> (r: String)
        ensures
            r@ == api_error_text(*self),
    {
        match self {
            ApiError::Network(m) => concat2("Network error: ", m.as_str()),
            ApiError::Http { status, message } => {
                let mut r = String::new();
                r.append("HTTP error ");
                let d = u64_to_decimal(*status as u64);
                r.append(d.as_str());
                r.append(": ");
                r.append(message.as_str());
                r
            },
            ApiError::Parse(m) => concat2("Parse error: ", m.as_str()),
            ApiError::Authentication(m) => concat2("Authentication error: ", m.as_str()),
            ApiError::RateLimited { retry_after } => match retry_after {
                Some(s) => {
                    let mut r = String::new();
                    r.append("Rate limited. Retry after ");
                    let d = u64_to_decimal(*s);
                    r.append(d.as_str());
                    r.append(" seconds");
                    r
                },
                None => "Rate limited".to_string(),
            },
            ApiError::HttpClient(m) => concat2("HTTP client error: ", m.as_str()),
            ApiError::InvalidConfiguration(m) => concat2("Invalid configuration: ", m.as_str()),
        }
    }
}

} // verus!

//! The errors of the service client and the messages they show.
use vstd::prelude::*;
use crate::text::{concat2, decimal_seq, u64_to_decimal};

verus! {

/// What went wrong in a call to Jira.
#[derive(Debug, Clone)]
pub enum ApiError {
    Network(String),
    Http { status: u16, message: String },
    Config(String),
    Parse(String),
    HttpClient(String),
}

/// The result of a call to Jira.
pub type ApiResult<T> = Result<T, ApiError>;

/// The message of an error, as its `Display` writes it.
pub open spec fn api_error_text(e: ApiError) -> Seq<char> {
    match e {
        ApiError::Network(m) => "Network error: "@ + m@,
        ApiError::Http { status, message } => "HTTP error "@ + decimal_seq(status as nat) + ": "@
            + message@,
        ApiError::Parse(m) => "Parse error: "@ + m@,
        ApiError::HttpClient(m) => "HTTP client error: "@ + m@,
        ApiError::Config(m) => "Invalid configuration: "@ + m@,
    }
}

impl ApiError {
    /// The message of this error.
    pub fn to_string(&self) -> (r: String)
        ensures
            r@ == api_error_text(*self),
    {
        match self {
            ApiError::Network(m) => concat2("Network error: ", m.as_str()),
            ApiError::Http { status, message } => {
                let mut r = String::new();
                r.append("HTTP error ");
                let d = u64_to_decimal(*status as u64);
                r.append(d.as_str());
                r.append(": ");
                r.append(message.as_str());
                r
            },
            ApiError::Parse(m) => concat2("Parse error: ", m.as_str()),
            ApiError::HttpClient(m) => concat2("HTTP client error: ", m.as_str()),
            ApiError::Config(m) => concat2("Invalid configuration: ", m.as_str()),
        }
    }
}

} // verus!

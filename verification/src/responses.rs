use vstd::prelude::*;
use vstd::string::StringExecFns;

verus! {

/// The common shape of an answer.
#[derive(Debug)]
pub struct ApiResponse<T> {
    pub sucess: bool,
    pub data: Option<T>,
    pub message: String,
    pub error: Option<String>,
    /// When the answer was made, in RFC 3339.
    pub timestamp: String,
}

/// Where a page lies within a listing.
#[derive(Debug)]
pub struct Pagination {
    pub page: u32,
    pub limit: u32,
    pub total: u64,
    pub pages: u32,
}

/// The common shape of an answer that holds one page of a listing.
#[derive(Debug)]
pub struct PaginationResponse<T> {
    pub sucess: bool,
    pub data: Vec<T>,
    pub pagination: Pagination,
    pub message: String,
    pub timestamp: String,
}

/// Calls `chrono::Utc::now` and writes the instant with `to_rfc3339`.
/// Nothing is claimed of the text.
#[verifier::external_body]
fn rfc3339_now() -> String {
    chrono::Utc::now().to_rfc3339()
}

impl<T> ApiResponse<T> {
    /// An answer that reports success and carries data.
    pub fn sucess(data: T, message: &str) -> (response: Self)
        ensures
            response.sucess,
            response.data == Some(data),
            response.message@ == message@,
            response.error is None,
    {
        Self {
            sucess: true,
            data: Some(data),
            message: String::from_str(message),
            error: None,
            timestamp: rfc3339_now(),
        }
    }

    /// An answer that reports a failure and says which.
    pub fn error(message: &str, error: &str) -> (response: Self)
        ensures
            !response.sucess,
            response.data is None,
            response.message@ == message@,
            response.error matches Some(text) && text@ == error@,
    {
        Self {
            sucess: false,
            data: None,
            message: String::from_str(message),
            error: Some(String::from_str(error)),
            timestamp: rfc3339_now(),
        }
    }
}

impl<T> PaginationResponse<T> {
    /// An answer that carries one page of a listing.
    pub fn new(data: Vec<T>, pagination: Pagination, message: &str) -> (response: Self)
        ensures
            response.sucess,
            response.data == data,
            response.pagination == pagination,
            response.message@ == message@,
    {
        Self {
            sucess: true,
            data,
            pagination,
            message: String::from_str(message),
            timestamp: rfc3339_now(),
        }
    }
}

} // verus!

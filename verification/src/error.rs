use vstd::prelude::*;

verus! {

/// The HTTP status an API error is answered with.
#[derive(Debug, Clone, Copy, PartialEq, Eq, Structural)]
pub enum ErrorStatus {
    BadRequest,
    BadGateway,
    InternalServerError,
}

impl ErrorStatus {
    /// The numeric HTTP status code.
    #[verifier::allow_in_spec]
    pub fn code(&self) -> u16
        returns
            match self {
                ErrorStatus::BadRequest => 400u16,
                ErrorStatus::BadGateway => 502u16,
                ErrorStatus::InternalServerError => 500u16,
            },
    {
        match self {
            ErrorStatus::BadRequest => 400,
            ErrorStatus::BadGateway => 502,
            ErrorStatus::InternalServerError => 500,
        }
    }
}

/// An error answered by the HTTP API: a status and a message.
#[derive(Debug, Clone)]
pub struct ApiError {
    pub status: ErrorStatus,
    pub message: String,
}

/// The mathematical value of an [`ApiError`].
pub struct ApiErrorView {
    pub status: ErrorStatus,
    pub message: Seq<char>,
}

impl View for ApiError {
    type V = ApiErrorView;

    open spec fn view(&self) -> ApiErrorView {
        ApiErrorView { status: self.status, message: self.message@ }
    }
}

/// The view of an error with the given status and message.
pub open spec fn api_error(status: ErrorStatus, message: Seq<char>) -> ApiErrorView {
    ApiErrorView { status, message }
}

impl ApiError {
    /// An error with the given status and message.
    pub fn new(status: ErrorStatus, message: &str) -> (res: ApiError)
        ensures
            res@ == api_error(status, message@),
    {
        ApiError { status, message: message.to_owned() }
    }

    /// An error whose message is `prefix` followed by `detail`.
    pub fn with_detail(status: ErrorStatus, prefix: &str, detail: &str) -> (res: ApiError)
        ensures
            res@ == api_error(status, prefix@ + detail@),
    {
        let mut message = prefix.to_owned();
        message.append(detail);
        ApiError { status, message }
    }
}

} // verus!

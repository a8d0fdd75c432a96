//! The kinds of failure that the service knows, and how each is shown to the
//! caller.

use vstd::prelude::*;
use vstd::string::StringExecFns;

use crate::dtos::views;
use crate::text::{decimal, decimal_text};

verus! {

/// One cause in the chain behind a failure: how the cause prints for a developer,
/// and how it describes itself.
#[derive(Debug, Clone, PartialEq, Eq)]
pub struct ErrorStackItem {
    pub source: String,
    pub description: String,
}

/// The value of an [`ErrorStackItem`].
pub struct ErrorStackItemView {
    pub source: Seq<char>,
    pub description: Seq<char>,
}

impl View for ErrorStackItem {
    type V = ErrorStackItemView;

    open spec fn view(&self) -> ErrorStackItemView {
        ErrorStackItemView { source: self.source@, description: self.description@ }
    }
}

/// The body with which a failure is answered.
#[derive(Debug, Clone, PartialEq, Eq)]
pub struct ErrorResponse {
    pub error_code: String,
    pub error_description: String,
    pub error_source: String,
    pub error_stack: Vec<ErrorStackItem>,
}

/// The value of an [`ErrorResponse`].
pub struct ErrorResponseView {
    pub error_code: Seq<char>,
    pub error_description: Seq<char>,
    pub error_source: Seq<char>,
    pub error_stack: Seq<ErrorStackItemView>,
}

impl View for ErrorResponse {
    type V = ErrorResponseView;

    open spec fn view(&self) -> ErrorResponseView {
        ErrorResponseView {
            error_code: self.error_code@,
            error_description: self.error_description@,
            error_source: self.error_source@,
            error_stack: views(self.error_stack@),
        }
    }
}

/// A failure of a use case.
#[derive(Debug, Clone, PartialEq, Eq)]
pub enum AppError {
    /// The input was refused before anything was sent upstream, or the provider
    /// refused it as malformed.
    ValidationError { details: String },
    /// The provider refused the credentials of a login.
    InvalidCredentials { code: u16 },
    /// The bearer token is missing, or the provider refused it.
    InvalidToken { code: u16 },
    /// The provider denied the operation.
    Forbidden { code: u16 },
    /// The resource is absent upstream, or deleted there.
    NotFound { code: u16, resource: String, id: String },
    /// The provider found a clash with what it holds.
    Conflict { code: u16, resource: String, details: String },
    /// Any other upstream status, a failed exchange, or an answer that could not
    /// be read; `source` is the chain of causes where the exchange itself failed.
    ExternalServiceError { code: u16, details: String, source: Option<Vec<ErrorStackItem>> },
}

/// The value of an [`AppError`].
pub enum AppErrorView {
    ValidationError { details: Seq<char> },
    InvalidCredentials { code: u16 },
    InvalidToken { code: u16 },
    Forbidden { code: u16 },
    NotFound { code: u16, resource: Seq<char>, id: Seq<char> },
    Conflict { code: u16, resource: Seq<char>, details: Seq<char> },
    ExternalServiceError { code: u16, details: Seq<char>, source: Option<Seq<ErrorStackItemView>> },
}

impl View for AppError {
    type V = AppErrorView;

    open spec fn view(&self) -> AppErrorView {
        match self {
            AppError::ValidationError { details } => AppErrorView::ValidationError {
                details: details@,
            },
            AppError::InvalidCredentials { code } => AppErrorView::InvalidCredentials {
                code: *code,
            },
            AppError::InvalidToken { code } => AppErrorView::InvalidToken { code: *code },
            AppError::Forbidden { code } => AppErrorView::Forbidden { code: *code },
            AppError::NotFound { code, resource, id } => AppErrorView::NotFound {
                code: *code,
                resource: resource@,
                id: id@,
            },
            AppError::Conflict { code, resource, details } => AppErrorView::Conflict {
                code: *code,
                resource: resource@,
                details: details@,
            },
            AppError::ExternalServiceError { code, details, source } => {
                AppErrorView::ExternalServiceError {
                    code: *code,
                    details: details@,
                    source: match source {
                        Some(chain) => Some(views(chain@)),
                        None => None,
                    },
                }
            },
        }
    }
}

/// The value of the outcome of a use case.
pub open spec fn outcome_view<T: View>(r: Result<T, AppError>) -> Result<T::V, AppErrorView> {
    match r {
        Ok(value) => Ok(value@),
        Err(error) => Err(error@),
    }
}

/// The name under which this service signs its failures.
pub const ERROR_SOURCE: &'static str = "OAuthAPI";

/// The code that stands for a refused input.
pub const VALIDATION_CODE: &'static str = "OA-001";

impl AppErrorView {
    /// The status with which a failure is answered: 400 for a refused input, 401
    /// for refused credentials or a refused token, 403, 404 and 409 for the kinds
    /// of those names; for any other failure its own code where that is the
    /// status of a failure (400 to 599), else 500. No failure is answered with a
    /// status of success.
    pub open spec fn status_code(self) -> u16 {
        match self {
            AppErrorView::ValidationError { .. } => 400,
            AppErrorView::InvalidCredentials { .. } => 401,
            AppErrorView::InvalidToken { .. } => 401,
            AppErrorView::Forbidden { .. } => 403,
            AppErrorView::NotFound { .. } => 404,
            AppErrorView::Conflict { .. } => 409,
            AppErrorView::ExternalServiceError { code, .. } => if 400 <= code <= 599 {
                code
            } else {
                500
            },
        }
    }

    /// The code in the body of the answer: [`VALIDATION_CODE`] for a refused
    /// input, else the failure's own code in decimal digits.
    pub open spec fn error_code(self) -> Seq<char> {
        match self {
            AppErrorView::ValidationError { .. } => VALIDATION_CODE@,
            AppErrorView::InvalidCredentials { code } => decimal(code as nat),
            AppErrorView::InvalidToken { code } => decimal(code as nat),
            AppErrorView::Forbidden { code } => decimal(code as nat),
            AppErrorView::NotFound { code, .. } => decimal(code as nat),
            AppErrorView::Conflict { code, .. } => decimal(code as nat),
            AppErrorView::ExternalServiceError { code, .. } => decimal(code as nat),
        }
    }

    /// The sentence that describes the failure.
    pub open spec fn description(self) -> Seq<char> {
        match self {
            AppErrorView::ValidationError { details } => "Invalid input: "@ + details,
            AppErrorView::InvalidCredentials { .. } => "Invalid credentials"@,
            AppErrorView::InvalidToken { .. } => "Invalid or expired token"@,
            AppErrorView::Forbidden { .. } => "Forbidden"@,
            AppErrorView::NotFound { resource, id, .. } => resource + " with id "@ + id
                + " not found"@,
            AppErrorView::Conflict { resource, details, .. } => resource + " conflict: "@
                + details,
            AppErrorView::ExternalServiceError { details, .. } => "External service error: "@
                + details,
        }
    }

    /// The chain of causes: that of a failed exchange, else none.
    pub open spec fn stack(self) -> Seq<ErrorStackItemView> {
        match self {
            AppErrorView::ExternalServiceError { source: Some(chain), .. } => chain,
            _ => Seq::empty(),
        }
    }

    /// The body with which the failure is answered.
    pub open spec fn error_response(self) -> ErrorResponseView {
        ErrorResponseView {
            error_code: self.error_code(),
            error_description: self.description(),
            error_source: ERROR_SOURCE@,
            error_stack: self.stack(),
        }
    }
}

/// A copy of a chain of causes.
pub fn copy_stack(chain: &Vec<ErrorStackItem>) -> (r: Vec<ErrorStackItem>)
    ensures
        views(r@) == views(chain@),
{
    let mut r: Vec<ErrorStackItem> = Vec::new();
    let mut i: usize = 0;
    while i < chain.len()
        invariant
            0 <= i <= chain.len(),
            r.len() == i,
            forall|j: int| 0 <= j < i ==> (#[trigger] r[j])@ == chain[j]@,
        decreases chain.len() - i,
    {
        r.push(
            ErrorStackItem {
                source: chain[i].source.clone(),
                description: chain[i].description.clone(),
            },
        );
        i = i + 1;
    }
    assert(views(r@) =~= views(chain@));
    r
}

impl AppError {
    /// The status with which the failure is answered; it is never below 400.
    pub fn status_code(&self) -> (status: u16)
        ensures
            status == self@.status_code(),
            400 <= status <= 599,
    {
        match self {
            AppError::ValidationError { .. } => 400,
            AppError::InvalidCredentials { .. } => 401,
            AppError::InvalidToken { .. } => 401,
            AppError::Forbidden { .. } => 403,
            AppError::NotFound { .. } => 404,
            AppError::Conflict { .. } => 409,
            AppError::ExternalServiceError { code, .. } => {
                if 400 <= *code && *code <= 599 {
                    *code
                } else {
                    500
                }
            },
        }
    }

    /// The code in the body of the answer.
    pub fn error_code(&self) -> (r: String)
        ensures
            r@ == self@.error_code(),
    {
        match self {
            AppError::ValidationError { .. } => VALIDATION_CODE.to_owned(),
            AppError::InvalidCredentials { code } => decimal_text(*code),
            AppError::InvalidToken { code } => decimal_text(*code),
            AppError::Forbidden { code } => decimal_text(*code),
            AppError::NotFound { code, .. } => decimal_text(*code),
            AppError::Conflict { code, .. } => decimal_text(*code),
            AppError::ExternalServiceError { code, .. } => decimal_text(*code),
        }
    }

    /// The sentence that describes the failure.
    pub fn description(&self) -> (r: String)
        ensures
            r@ == self@.description(),
    {
        match self {
            AppError::ValidationError { details } => {
                let mut r = "Invalid input: ".to_owned();
                r.append(details.as_str());
                r
            },
            AppError::InvalidCredentials { .. } => "Invalid credentials".to_owned(),
            AppError::InvalidToken { .. } => "Invalid or expired token".to_owned(),
            AppError::Forbidden { .. } => "Forbidden".to_owned(),
            AppError::NotFound { resource, id, .. } => {
                let mut r = resource.clone();
                r.append(" with id ");
                r.append(id.as_str());
                r.append(" not found");
                r
            },
            AppError::Conflict { resource, details, .. } => {
                let mut r = resource.clone();
                r.append(" conflict: ");
                r.append(details.as_str());
                r
            },
            AppError::ExternalServiceError { details, .. } => {
                let mut r = "External service error: ".to_owned();
                r.append(details.as_str());
                r
            },
        }
    }

    /// The body with which the failure is answered: its code, its description,
    /// the name of this service and the chain of causes.
    pub fn error_response(&self) -> (r: ErrorResponse)
        ensures
            r@ == self@.error_response(),
    {
        let error_stack = match self {
            AppError::ExternalServiceError { source: Some(chain), .. } => copy_stack(chain),
            _ => {
                let none: Vec<ErrorStackItem> = Vec::new();
                assert(views(none@) =~= Seq::empty());
                none
            },
        };
        ErrorResponse {
            error_code: self.error_code(),
            error_description: self.description(),
            error_source: ERROR_SOURCE.to_owned(),
            error_stack,
        }
    }
}

} // verus!

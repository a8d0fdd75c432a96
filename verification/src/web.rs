//! The face that the service shows to its callers: which bearer token a request
//! carries, and with which status and body a use case is answered.

use vstd::prelude::*;

use crate::error::{AppError, AppErrorView, ErrorResponse, ErrorResponseView};

verus! {

/// The routes of the service.
#[derive(Debug, Clone, Copy, PartialEq, Eq)]
pub enum Endpoint {
    Login,
    CreateUser,
    GetUsers,
    GetUser,
    UpdateUser,
    UpdatePassword,
    DeleteUser,
    AddRoleToUser,
    RemoveRoleFromUser,
    CreateRole,
    GetRoles,
    GetRole,
    UpdateRole,
    PatchRole,
    DeleteRole,
}

/// The status with which a route answers a success: 201 where something was
/// created or a session opened, 204 where nothing is handed back, else 200.
pub open spec fn success_status(endpoint: Endpoint) -> u16 {
    match endpoint {
        Endpoint::Login => 201,
        Endpoint::CreateUser => 201,
        Endpoint::CreateRole => 201,
        Endpoint::DeleteUser => 204,
        Endpoint::AddRoleToUser => 204,
        Endpoint::RemoveRoleFromUser => 204,
        Endpoint::DeleteRole => 204,
        _ => 200,
    }
}

/// The token of a request: what its `Authorization` header holds. A request
/// without the header is refused as one with a token that was not taken.
pub open spec fn bearer(authorization: Option<Seq<char>>) -> Result<Seq<char>, AppErrorView> {
    match authorization {
        Some(token) => Ok(token),
        None => Err(AppErrorView::InvalidToken { code: 401 }),
    }
}

/// Reads the token of a request from its `Authorization` header.
pub fn extract_token(authorization: Option<&str>) -> (r: Result<String, AppError>)
    ensures
        match r {
            Ok(token) => bearer(authorization.deep_view()) == Ok::<Seq<char>, AppErrorView>(
                token@,
            ),
            Err(error) => bearer(authorization.deep_view()) == Err::<Seq<char>, AppErrorView>(
                error@,
            ),
        },
{
    match authorization {
        Some(token) => Ok(token.to_owned()),
        None => Err(AppError::InvalidToken { code: 401 }),
    }
}

/// The answer to a request: a status, and what the use case handed back or the
/// body that describes its failure.
#[derive(Debug, PartialEq, Eq)]
pub enum Answer<T> {
    Success { status: u16, body: T },
    Failure { status: u16, error: ErrorResponse },
}

/// The value of an [`Answer`].
pub enum AnswerView<V> {
    Success { status: u16, body: V },
    Failure { status: u16, error: ErrorResponseView },
}

impl<T: View> View for Answer<T> {
    type V = AnswerView<T::V>;

    open spec fn view(&self) -> AnswerView<T::V> {
        match self {
            Answer::Success { status, body } => AnswerView::Success {
                status: *status,
                body: body@,
            },
            Answer::Failure { status, error } => AnswerView::Failure {
                status: *status,
                error: error@,
            },
        }
    }
}

/// The answer of a route to the outcome of its use case: the status of success
/// of the route with what was handed back, or the status and the body of the
/// failure.
pub open spec fn answer_of<V>(endpoint: Endpoint, outcome: Result<V, AppErrorView>) -> AnswerView<
    V,
> {
    match outcome {
        Ok(body) => AnswerView::Success { status: success_status(endpoint), body },
        Err(error) => AnswerView::Failure {
            status: error.status_code(),
            error: error.error_response(),
        },
    }
}

/// The status with which a route answers a success.
pub fn status_of_success(endpoint: Endpoint) -> (status: u16)
    ensures
        status == success_status(endpoint),
{
    match endpoint {
        Endpoint::Login => 201,
        Endpoint::CreateUser => 201,
        Endpoint::CreateRole => 201,
        Endpoint::DeleteUser => 204,
        Endpoint::AddRoleToUser => 204,
        Endpoint::RemoveRoleFromUser => 204,
        Endpoint::DeleteRole => 204,
        _ => 200,
    }
}

/// Answers a request with the outcome of its use case.
pub fn answer<T: View>(endpoint: Endpoint, outcome: Result<T, AppError>) -> (r: Answer<T>)
    ensures
        r@ == answer_of(endpoint, crate::error::outcome_view(outcome)),
{
    match outcome {
        Ok(body) => Answer::Success { status: status_of_success(endpoint), body },
        Err(error) => Answer::Failure {
            status: error.status_code(),
            error: error.error_response(),
        },
    }
}

} // verus!

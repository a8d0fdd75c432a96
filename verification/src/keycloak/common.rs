//! What the adapters share: the details of their failures, how the statuses of
//! a refusal are told apart, and where the id of what was created is found.

use vstd::prelude::*;

use crate::error::{AppError, AppErrorView};
use crate::http::{upstream_error, HttpReply, HttpReplyView};
use crate::text::{last_path_segment, last_segment};

verus! {

/// The detail of a failure whose body could not be read.
pub const READ_FAILED: &'static str = "Could not read error body";

/// The detail of a failure of which no more is known.
pub const UNKNOWN: &'static str = "Unknown error";

/// What the provider says where a user name is taken.
pub const USERNAME_TAKEN: &'static str = "Username already exists";

/// What begins the detail of an answer that could not be read.
pub const PARSE_FAILED: &'static str = "Failed to parse Keycloak response: ";

/// What is said of a list of users that is no list.
pub const NOT_A_LIST: &'static str = "the document is not a list";

/// What begins the detail where a role could not be read.
pub const ROLE_PARSE_FAILED: &'static str = "Failed to parse role: ";

/// What is said where a deleted role is to be given to a user.
pub const ROLE_DELETED: &'static str = "Role is deleted";

/// The failure for an absent resource.
pub open spec fn not_found(resource: Seq<char>, id: Seq<char>) -> AppErrorView {
    AppErrorView::NotFound { code: 404, resource, id }
}

/// The failure for a refused answer: 401 is a token that was not taken, 403 a
/// denial; any other status is handed on with the body as detail, or with
/// `default` where the body could not be read.
pub open spec fn refusal(reply: HttpReplyView, default: Seq<char>) -> AppErrorView {
    if reply.status == 401 {
        AppErrorView::InvalidToken { code: 401 }
    } else if reply.status == 403 {
        AppErrorView::Forbidden { code: 403 }
    } else {
        upstream_error(reply, default)
    }
}

/// As [`refusal`], with 404 for a resource that is absent.
pub open spec fn missing_or_refusal(
    reply: HttpReplyView,
    resource: Seq<char>,
    id: Seq<char>,
    default: Seq<char>,
) -> AppErrorView {
    if reply.status == 404 {
        not_found(resource, id)
    } else {
        refusal(reply, default)
    }
}

/// The failure for a clash, 409.
pub open spec fn conflict(resource: Seq<char>, details: Seq<char>) -> AppErrorView {
    AppErrorView::Conflict { code: 409, resource, details }
}

/// The failure for an absent resource.
pub fn make_not_found(resource: &str, id: &str) -> (r: AppError)
    ensures
        r@ == not_found(resource@, id@),
{
    AppError::NotFound { code: 404, resource: resource.to_owned(), id: id.to_owned() }
}

/// The failure for a refused answer.
pub fn make_refusal(reply: &HttpReply, default: &str) -> (r: AppError)
    ensures
        r@ == refusal(reply@, default@),
{
    if reply.status == 401 {
        AppError::InvalidToken { code: 401 }
    } else if reply.status == 403 {
        AppError::Forbidden { code: 403 }
    } else {
        reply.to_error(default)
    }
}

/// The failure for a refused answer, with 404 for a resource that is absent.
pub fn make_missing_or_refusal(reply: &HttpReply, resource: &str, id: &str, default: &str) -> (r:
    AppError)
    ensures
        r@ == missing_or_refusal(reply@, resource@, id@, default@),
{
    if reply.status == 404 {
        make_not_found(resource, id)
    } else {
        make_refusal(reply, default)
    }
}

/// The failure for a clash.
pub fn make_conflict(resource: &str, details: String) -> (r: AppError)
    ensures
        r@ == conflict(resource@, details@),
{
    AppError::Conflict { code: 409, resource: resource.to_owned(), details }
}

/// The id of what was created: the last segment of the `Location` that the answer
/// names; empty where it names none.
pub open spec fn created_id(location: Option<Seq<char>>) -> Seq<char> {
    match location {
        Some(path) => last_segment(path),
        None => Seq::empty(),
    }
}

/// Reads the id of what was created from the `Location` of the answer.
pub fn read_created_id(reply: &HttpReply) -> (id: String)
    ensures
        id@ == created_id(reply@.location),
{
    match &reply.location {
        Some(path) => last_path_segment(path.as_str()),
        None => String::new(),
    }
}

} // verus!

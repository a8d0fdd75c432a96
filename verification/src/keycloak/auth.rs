//! The login against the provider's token endpoint.

use vstd::prelude::*;

use crate::bodies::{login_form, make_login_form};
use crate::dtos::{views, LoginReqKeycloak, LoginReqKeycloakView, LoginResKeycloak, LoginResKeycloakView};
use crate::error::{AppError, AppErrorView};
use crate::http::{
    body_or, document_of, is_success, success, transport_error, unreadable, upstream_error, Body,
    BodyView, HttpRequest, HttpRequestView, KeycloakConfig, KeycloakConfigView, Method, Step,
    StepView, Upstream, UpstreamView,
};
use crate::keycloak::common::{PARSE_FAILED, READ_FAILED};
use crate::mapping::{session_from_json, session_of};
use crate::text::followed_by;

verus! {

/// What is said of a token payload that lacks a field.
pub const SESSION_INCOMPLETE: &'static str = "a field of the token payload is missing or of another type";

/// The adapter for logins.
#[derive(Debug, Clone, PartialEq, Eq)]
pub struct KeycloakAuthAdapter {
    pub config: KeycloakConfig,
}

/// The request of a login: the form, posted to the token endpoint without a
/// token.
pub open spec fn login_request(config: KeycloakConfigView, req: LoginReqKeycloakView) -> HttpRequestView {
    HttpRequestView {
        method: Method::Post,
        url: config.token_url(),
        authorization: None,
        body: BodyView::Form(login_form(req)),
    }
}

/// The outcome of a login, given what came of its request: the session of a
/// success; for 400 the refusal of the input with the body as detail; for 401
/// the refusal of the credentials; for any other status, for a failed exchange
/// and for an answer that cannot be read, the failure of the provider.
pub open spec fn login_outcome(event: UpstreamView) -> Result<LoginResKeycloakView, AppErrorView> {
    match event {
        UpstreamView::Failure(failure) => Err(transport_error(failure)),
        UpstreamView::Reply(reply) => if success(reply.status) {
            match document_of(reply, PARSE_FAILED@) {
                Err(error) => Err(error),
                Ok(doc) => match session_of(doc) {
                    Some(session) => Ok(session),
                    None => Err(unreadable(PARSE_FAILED@, SESSION_INCOMPLETE@)),
                },
            }
        } else if reply.status == 400 {
            Err(AppErrorView::ValidationError { details: body_or(reply.body, READ_FAILED@) })
        } else if reply.status == 401 {
            Err(AppErrorView::InvalidCredentials { code: 401 })
        } else {
            Err(upstream_error(reply, READ_FAILED@))
        },
    }
}

/// The step of a login: the request while nothing came back, then the outcome
/// of the first answer.
pub open spec fn login_step(
    config: KeycloakConfigView,
    req: LoginReqKeycloakView,
    events: Seq<UpstreamView>,
) -> StepView<LoginResKeycloakView> {
    if events.len() == 0 {
        StepView::Call(login_request(config, req))
    } else {
        StepView::Done(login_outcome(events[0]))
    }
}

impl KeycloakAuthAdapter {
    /// An adapter for the provider that the configuration names.
    pub fn new(config: KeycloakConfig) -> (adapter: KeycloakAuthAdapter)
        ensures
            adapter.config == config,
    {
        KeycloakAuthAdapter { config }
    }

    /// The outcome of a login, given what came of its request.
    pub fn login_outcome(event: &Upstream) -> (r: Result<LoginResKeycloak, AppError>)
        ensures
            crate::error::outcome_view(r) == login_outcome(event@),
    {
        match event {
            Upstream::Failure(failure) => Err(failure.to_error()),
            Upstream::Reply(reply) => {
                if is_success(reply.status) {
                    match reply.document(PARSE_FAILED) {
                        Err(error) => Err(error),
                        Ok(doc) => match session_from_json(&doc) {
                            Some(session) => Ok(session),
                            None => Err(
                                AppError::ExternalServiceError {
                                    code: 500,
                                    details: followed_by(PARSE_FAILED, SESSION_INCOMPLETE),
                                    source: None,
                                },
                            ),
                        },
                    }
                } else if reply.status == 400 {
                    Err(AppError::ValidationError { details: reply.body_or(READ_FAILED) })
                } else if reply.status == 401 {
                    Err(AppError::InvalidCredentials { code: 401 })
                } else {
                    Err(reply.to_error(READ_FAILED))
                }
            },
        }
    }

    /// The next step of a login.
    pub fn login(&self, req: &LoginReqKeycloak, events: &Vec<Upstream>) -> (step: Step<
        LoginResKeycloak,
    >)
        ensures
            step@ == login_step(self.config@, req@, views(events@)),
    {
        if events.len() == 0 {
            Step::Call(
                HttpRequest {
                    method: Method::Post,
                    url: self.config.token_url(),
                    authorization: None,
                    body: Body::Form(make_login_form(req)),
                },
            )
        } else {
            Step::Done(Self::login_outcome(&events[0]))
        }
    }
}

} // verus!

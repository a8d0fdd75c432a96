//! The exchange with the identity provider as plain values: what is to be sent,
//! what came back, and the step that a use case takes between the two.

use vstd::prelude::*;
use vstd::string::StringExecFns;

use crate::dtos::views;
use crate::error::{copy_stack, AppError, AppErrorView, ErrorStackItem, ErrorStackItemView};
use crate::json::{parsed_document, Json, JsonView};
use crate::text::followed_by;

verus! {

/// The method of a request.
#[derive(Debug, Clone, Copy, PartialEq, Eq)]
pub enum Method {
    Get,
    Post,
    Put,
    Delete,
}

/// The body of a request.
#[derive(Debug, PartialEq, Eq)]
pub enum Body {
    Empty,
    /// Fields to be sent form-encoded, in their order.
    Form(Vec<(String, String)>),
    /// A document to be sent as JSON.
    Json(Json),
}

/// The value of a [`Body`].
pub enum BodyView {
    Empty,
    Form(Seq<(Seq<char>, Seq<char>)>),
    Json(JsonView),
}

impl View for Body {
    type V = BodyView;

    open spec fn view(&self) -> BodyView {
        match self {
            Body::Empty => BodyView::Empty,
            Body::Form(fields) => BodyView::Form(fields.deep_view()),
            Body::Json(json) => BodyView::Json(json@),
        }
    }
}

/// A request to the provider. `authorization` is the value of the header of that
/// name, handed on as the caller gave it.
#[derive(Debug, PartialEq, Eq)]
pub struct HttpRequest {
    pub method: Method,
    pub url: String,
    pub authorization: Option<String>,
    pub body: Body,
}

/// The value of an [`HttpRequest`].
pub struct HttpRequestView {
    pub method: Method,
    pub url: Seq<char>,
    pub authorization: Option<Seq<char>>,
    pub body: BodyView,
}

impl View for HttpRequest {
    type V = HttpRequestView;

    open spec fn view(&self) -> HttpRequestView {
        HttpRequestView {
            method: self.method,
            url: self.url@,
            authorization: self.authorization.deep_view(),
            body: self.body@,
        }
    }
}

/// An answer of the provider: its status, its `Location` header where it has one
/// that is text, and its body, or the message of the failure to read the body.
#[derive(Debug, PartialEq, Eq)]
pub struct HttpReply {
    pub status: u16,
    pub location: Option<String>,
    pub body: Result<String, String>,
}

/// The value of an [`HttpReply`].
pub struct HttpReplyView {
    pub status: u16,
    pub location: Option<Seq<char>>,
    pub body: Result<Seq<char>, Seq<char>>,
}

impl View for HttpReply {
    type V = HttpReplyView;

    open spec fn view(&self) -> HttpReplyView {
        HttpReplyView {
            status: self.status,
            location: self.location.deep_view(),
            body: match self.body {
                Ok(text) => Ok(text@),
                Err(message) => Err(message@),
            },
        }
    }
}

/// An exchange that failed before any answer came: the status that the failure
/// carries, if any, its description, and the chain of causes, the failure first.
#[derive(Debug, Clone, PartialEq, Eq)]
pub struct TransportFailure {
    pub status: Option<u16>,
    pub description: String,
    pub chain: Vec<ErrorStackItem>,
}

/// The value of a [`TransportFailure`].
pub struct TransportFailureView {
    pub status: Option<u16>,
    pub description: Seq<char>,
    pub chain: Seq<ErrorStackItemView>,
}

impl View for TransportFailure {
    type V = TransportFailureView;

    open spec fn view(&self) -> TransportFailureView {
        TransportFailureView {
            status: self.status,
            description: self.description@,
            chain: views(self.chain@),
        }
    }
}

/// What came of a request.
#[derive(Debug, PartialEq, Eq)]
pub enum Upstream {
    Reply(HttpReply),
    Failure(TransportFailure),
}

/// The value of an [`Upstream`].
pub enum UpstreamView {
    Reply(HttpReplyView),
    Failure(TransportFailureView),
}

impl View for Upstream {
    type V = UpstreamView;

    open spec fn view(&self) -> UpstreamView {
        match self {
            Upstream::Reply(reply) => UpstreamView::Reply(reply@),
            Upstream::Failure(failure) => UpstreamView::Failure(failure@),
        }
    }
}

/// The next step of a use case, given what came of its requests so far: one more
/// request to make, or the outcome.
#[derive(Debug, PartialEq, Eq)]
pub enum Step<T> {
    Call(HttpRequest),
    Done(Result<T, AppError>),
}

/// The value of a [`Step`].
pub enum StepView<V> {
    Call(HttpRequestView),
    Done(Result<V, AppErrorView>),
}

impl<T: View> View for Step<T> {
    type V = StepView<T::V>;

    open spec fn view(&self) -> StepView<T::V> {
        match self {
            Step::Call(request) => StepView::Call(request@),
            Step::Done(Ok(value)) => StepView::Done(Ok(value@)),
            Step::Done(Err(error)) => StepView::Done(Err(error@)),
        }
    }
}

/// Whether a status is one of success, 200 to 299.
pub open spec fn success(status: u16) -> bool {
    200 <= status < 300
}

/// Whether a status is one of success.
pub fn is_success(status: u16) -> (ok: bool)
    ensures
        ok == success(status),
{
    200 <= status && status < 300
}

/// The failure that stands for an exchange that failed: its status, or 500 where
/// it carries none, its description, and its chain of causes.
pub open spec fn transport_error(failure: TransportFailureView) -> AppErrorView {
    AppErrorView::ExternalServiceError {
        code: match failure.status {
            Some(status) => status,
            None => 500,
        },
        details: failure.description,
        source: Some(failure.chain),
    }
}

/// The body of an answer, or `default` where the body could not be read.
pub open spec fn body_or(body: Result<Seq<char>, Seq<char>>, default: Seq<char>) -> Seq<char> {
    match body {
        Ok(text) => text,
        Err(_) => default,
    }
}

/// The failure that stands for a status that the use case does not know: the
/// status, and the body of the answer as detail.
pub open spec fn upstream_error(reply: HttpReplyView, default: Seq<char>) -> AppErrorView {
    AppErrorView::ExternalServiceError {
        code: reply.status,
        details: body_or(reply.body, default),
        source: None,
    }
}

/// The failure that stands for an answer that could not be read as JSON.
pub open spec fn unreadable(prefix: Seq<char>, message: Seq<char>) -> AppErrorView {
    AppErrorView::ExternalServiceError { code: 500, details: prefix + message, source: None }
}

/// The document in the body of an answer; where the body could not be read, or
/// is no JSON, the failure whose detail is `prefix` and the message.
pub open spec fn document_of(reply: HttpReplyView, prefix: Seq<char>) -> Result<
    JsonView,
    AppErrorView,
> {
    match reply.body {
        Err(message) => Err(unreadable(prefix, message)),
        Ok(text) => match parsed_document(text) {
            Err(message) => Err(unreadable(prefix, message)),
            Ok(document) => Ok(document),
        },
    }
}

impl TransportFailure {
    /// The failure that stands for the failed exchange.
    pub fn to_error(&self) -> (r: AppError)
        ensures
            r@ == transport_error(self@),
    {
        AppError::ExternalServiceError {
            code: match self.status {
                Some(status) => status,
                None => 500,
            },
            details: self.description.clone(),
            source: Some(copy_stack(&self.chain)),
        }
    }
}

impl HttpReply {
    /// The body of the answer, or `default` where it could not be read.
    pub fn body_or(&self, default: &str) -> (r: String)
        ensures
            r@ == body_or(self@.body, default@),
    {
        match &self.body {
            Ok(text) => text.clone(),
            Err(_) => default.to_owned(),
        }
    }

    /// The failure for a status that the use case does not know.
    pub fn to_error(&self, default: &str) -> (r: AppError)
        ensures
            r@ == upstream_error(self@, default@),
    {
        AppError::ExternalServiceError {
            code: self.status,
            details: self.body_or(default),
            source: None,
        }
    }

    /// Reads the body of the answer as JSON.
    pub fn document(&self, prefix: &str) -> (r: Result<Json, AppError>)
        ensures
            match r {
                Ok(json) => document_of(self@, prefix@) == Ok::<JsonView, AppErrorView>(json@),
                Err(error) => document_of(self@, prefix@) == Err::<JsonView, AppErrorView>(
                    error@,
                ),
            },
    {
        match &self.body {
            Err(message) => Err(
                AppError::ExternalServiceError {
                    code: 500,
                    details: followed_by(prefix, message.as_str()),
                    source: None,
                },
            ),
            Ok(text) => match Json::parse(text.as_str()) {
                Err(message) => Err(
                    AppError::ExternalServiceError {
                        code: 500,
                        details: followed_by(prefix, message.as_str()),
                        source: None,
                    },
                ),
                Ok(json) => Ok(json),
            },
        }
    }
}

/// Where the provider is reached, and the realm that is managed.
#[derive(Debug, Clone, PartialEq, Eq)]
pub struct KeycloakConfig {
    pub protocol: String,
    pub host: String,
    pub port: String,
    pub realm: String,
}

/// The value of a [`KeycloakConfig`].
pub struct KeycloakConfigView {
    pub protocol: Seq<char>,
    pub host: Seq<char>,
    pub port: Seq<char>,
    pub realm: Seq<char>,
}

impl View for KeycloakConfig {
    type V = KeycloakConfigView;

    open spec fn view(&self) -> KeycloakConfigView {
        KeycloakConfigView {
            protocol: self.protocol@,
            host: self.host@,
            port: self.port@,
            realm: self.realm@,
        }
    }
}

impl KeycloakConfigView {
    /// `protocol://host:port`.
    pub open spec fn base(self) -> Seq<char> {
        self.protocol + "://"@ + self.host + ":"@ + self.port
    }

    /// The token endpoint of the realm.
    pub open spec fn token_url(self) -> Seq<char> {
        self.base() + "/realms/"@ + self.realm + "/protocol/openid-connect/token"@
    }

    /// The root of the realm's admin endpoints.
    pub open spec fn admin_url(self) -> Seq<char> {
        self.base() + "/admin/realms/"@ + self.realm
    }

    /// The users of the realm.
    pub open spec fn users_url(self) -> Seq<char> {
        self.admin_url() + "/users"@
    }

    /// The users of the realm that are enabled.
    pub open spec fn enabled_users_url(self) -> Seq<char> {
        self.admin_url() + "/users?enabled=true"@
    }

    /// One user.
    pub open spec fn user_url(self, id: Seq<char>) -> Seq<char> {
        self.admin_url() + "/users/"@ + id
    }

    /// Where the password of a user is set.
    pub open spec fn reset_password_url(self, id: Seq<char>) -> Seq<char> {
        self.admin_url() + "/users/"@ + id + "/reset-password"@
    }

    /// The realm roles of a user.
    pub open spec fn role_mappings_url(self, user_id: Seq<char>) -> Seq<char> {
        self.admin_url() + "/users/"@ + user_id + "/role-mappings/realm"@
    }

    /// The roles of the realm.
    pub open spec fn roles_url(self) -> Seq<char> {
        self.admin_url() + "/roles"@
    }

    /// One role, by its id.
    pub open spec fn role_url(self, id: Seq<char>) -> Seq<char> {
        self.admin_url() + "/roles-by-id/"@ + id
    }
}

impl KeycloakConfig {
    /// `protocol://host:port`.
    pub fn base(&self) -> (r: String)
        ensures
            r@ == self@.base(),
    {
        let mut r = self.protocol.clone();
        r.append("://");
        r.append(self.host.as_str());
        r.append(":");
        r.append(self.port.as_str());
        r
    }

    /// The token endpoint of the realm.
    pub fn token_url(&self) -> (r: String)
        ensures
            r@ == self@.token_url(),
    {
        let mut r = self.base();
        r.append("/realms/");
        r.append(self.realm.as_str());
        r.append("/protocol/openid-connect/token");
        r
    }

    /// The root of the realm's admin endpoints.
    pub fn admin_url(&self) -> (r: String)
        ensures
            r@ == self@.admin_url(),
    {
        let mut r = self.base();
        r.append("/admin/realms/");
        r.append(self.realm.as_str());
        r
    }

    /// The users of the realm.
    pub fn users_url(&self) -> (r: String)
        ensures
            r@ == self@.users_url(),
    {
        let mut r = self.admin_url();
        r.append("/users");
        r
    }

    /// The users of the realm that are enabled.
    pub fn enabled_users_url(&self) -> (r: String)
        ensures
            r@ == self@.enabled_users_url(),
    {
        let mut r = self.admin_url();
        r.append("/users?enabled=true");
        r
    }

    /// One user.
    pub fn user_url(&self, id: &str) -> (r: String)
        ensures
            r@ == self@.user_url(id@),
    {
        let mut r = self.admin_url();
        r.append("/users/");
        r.append(id);
        r
    }

    /// Where the password of a user is set.
    pub fn reset_password_url(&self, id: &str) -> (r: String)
        ensures
            r@ == self@.reset_password_url(id@),
    {
        let mut r = self.admin_url();
        r.append("/users/");
        r.append(id);
        r.append("/reset-password");
        r
    }

    /// The realm roles of a user.
    pub fn role_mappings_url(&self, user_id: &str) -> (r: String)
        ensures
            r@ == self@.role_mappings_url(user_id@),
    {
        let mut r = self.admin_url();
        r.append("/users/");
        r.append(user_id);
        r.append("/role-mappings/realm");
        r
    }

    /// The roles of the realm.
    pub fn roles_url(&self) -> (r: String)
        ensures
            r@ == self@.roles_url(),
    {
        let mut r = self.admin_url();
        r.append("/roles");
        r
    }

    /// One role, by its id.
    pub fn role_url(&self, id: &str) -> (r: String)
        ensures
            r@ == self@.role_url(id@),
    {
        let mut r = self.admin_url();
        r.append("/roles-by-id/");
        r.append(id);
        r
    }
}

/// A request that carries the caller's token.
pub fn authorized(method: Method, url: String, token: &str, body: Body) -> (r: HttpRequest)
    ensures
        r@ == (HttpRequestView {
            method,
            url: url@,
            authorization: Some(token@),
            body: body@,
        }),
{
    HttpRequest { method, url, authorization: Some(token.to_owned()), body }
}

/// The request with the caller's token, as a value.
pub open spec fn authorized_view(
    method: Method,
    url: Seq<char>,
    token: Seq<char>,
    body: BodyView,
) -> HttpRequestView {
    HttpRequestView { method, url, authorization: Some(token), body }
}

} // verus!

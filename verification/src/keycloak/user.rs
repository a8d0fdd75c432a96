//! The use cases on users: create, list, fetch, update, set the password,
//! disable, and give or take a role.

use vstd::prelude::*;

use crate::bodies::{
    credential_body, disable_body, make_credential_body, make_disable_body, make_role_reference,
    make_user_body, overlaid_user, overlay_user, read_updated_user, role_reference, updated_user,
    user_body,
};
use crate::dtos::{
    views, CreateUserReq, CreateUserReqView, CreateUserRes, CreateUserResView, GetUserRes,
    GetUserResView, GetUsersRes, GetUsersResView, UpdateUserReq, UpdateUserReqView,
};
use crate::error::{outcome_view, AppError, AppErrorView};
use crate::http::{
    authorized, authorized_view, document_of, is_success, success, transport_error, unreadable,
    upstream_error, Body, BodyView, KeycloakConfig, KeycloakConfigView, Method, Step,
    StepView, Upstream, UpstreamView,
};
use crate::json::{Json, JsonView};
use crate::keycloak::common::{
    conflict, make_conflict, make_missing_or_refusal, make_not_found, make_refusal,
    missing_or_refusal, not_found, read_created_id, created_id, refusal, NOT_A_LIST,
    PARSE_FAILED, READ_FAILED, ROLE_DELETED, ROLE_PARSE_FAILED, UNKNOWN, USERNAME_TAKEN,
};
use crate::mapping::{
    is_marked_deleted, marked_deleted, user_from_json, user_of, users_from_json, users_of,
};
use crate::text::followed_by;

verus! {

/// What begins the detail where the user to update could not be read.
pub const USER_PARSE_FAILED: &'static str = "Failed to parse user data: ";

/// The adapter for users.
#[derive(Debug, Clone, PartialEq, Eq)]
pub struct KeycloakUserAdapter {
    pub config: KeycloakConfig,
}

/// The outcome of a request that only has to succeed on a user: any status of
/// success; 404 for a user that is absent; 401, 403 and the rest as refusals.
pub open spec fn user_done(id: Seq<char>, event: UpstreamView) -> Result<(), AppErrorView> {
    match event {
        UpstreamView::Failure(failure) => Err(transport_error(failure)),
        UpstreamView::Reply(reply) => if success(reply.status) {
            Ok(())
        } else {
            Err(missing_or_refusal(reply, "user"@, id, READ_FAILED@))
        },
    }
}

/// The outcome of creating a user: for 201 the user with the id that the
/// `Location` names, enabled; for 409 a clash of user names; 401, 403 and the
/// rest as refusals.
pub open spec fn create_user_outcome(req: CreateUserReqView, event: UpstreamView) -> Result<
    CreateUserResView,
    AppErrorView,
> {
    match event {
        UpstreamView::Failure(failure) => Err(transport_error(failure)),
        UpstreamView::Reply(reply) => if reply.status == 201 {
            Ok(
                CreateUserResView {
                    id: created_id(reply.location),
                    username: req.username,
                    first_name: req.first_name,
                    last_name: req.last_name,
                    enabled: true,
                },
            )
        } else if reply.status == 409 {
            Err(conflict("user"@, USERNAME_TAKEN@))
        } else {
            Err(refusal(reply, UNKNOWN@))
        },
    }
}

/// The step of creating a user.
pub open spec fn create_user_step(
    config: KeycloakConfigView,
    req: CreateUserReqView,
    token: Seq<char>,
    events: Seq<UpstreamView>,
) -> StepView<CreateUserResView> {
    if events.len() == 0 {
        StepView::Call(
            authorized_view(Method::Post, config.users_url(), token, BodyView::Json(user_body(req))),
        )
    } else {
        StepView::Done(create_user_outcome(req, events[0]))
    }
}

/// The outcome of listing the users: for a success the users that the list
/// holds; 401, 403 and the rest as refusals.
pub open spec fn get_users_outcome(event: UpstreamView) -> Result<GetUsersResView, AppErrorView> {
    match event {
        UpstreamView::Failure(failure) => Err(transport_error(failure)),
        UpstreamView::Reply(reply) => if success(reply.status) {
            match document_of(reply, PARSE_FAILED@) {
                Err(error) => Err(error),
                Ok(doc) => match users_of(doc) {
                    Some(users) => Ok(GetUsersResView { users }),
                    None => Err(unreadable(PARSE_FAILED@, NOT_A_LIST@)),
                },
            }
        } else {
            Err(refusal(reply, READ_FAILED@))
        },
    }
}

/// The step of listing the users: those that are enabled are asked for.
pub open spec fn get_users_step(
    config: KeycloakConfigView,
    token: Seq<char>,
    events: Seq<UpstreamView>,
) -> StepView<GetUsersResView> {
    if events.len() == 0 {
        StepView::Call(
            authorized_view(Method::Get, config.enabled_users_url(), token, BodyView::Empty),
        )
    } else {
        StepView::Done(get_users_outcome(events[0]))
    }
}

/// The outcome of fetching a user.
pub open spec fn get_user_outcome(id: Seq<char>, event: UpstreamView) -> Result<
    GetUserResView,
    AppErrorView,
> {
    match event {
        UpstreamView::Failure(failure) => Err(transport_error(failure)),
        UpstreamView::Reply(reply) => if success(reply.status) {
            match document_of(reply, PARSE_FAILED@) {
                Err(error) => Err(error),
                Ok(doc) => Ok(user_of(doc)),
            }
        } else {
            Err(missing_or_refusal(reply, "user"@, id, READ_FAILED@))
        },
    }
}

/// The step of fetching a user.
pub open spec fn get_user_step(
    config: KeycloakConfigView,
    id: Seq<char>,
    token: Seq<char>,
    events: Seq<UpstreamView>,
) -> StepView<GetUserResView> {
    if events.len() == 0 {
        StepView::Call(authorized_view(Method::Get, config.user_url(id), token, BodyView::Empty))
    } else {
        StepView::Done(get_user_outcome(id, events[0]))
    }
}

/// The user as the provider holds it, read from the answer to the first request
/// of an update: 404 is a user that is absent; any other status but success is
/// the failure of the provider.
pub open spec fn current_user(id: Seq<char>, event: UpstreamView) -> Result<
    JsonView,
    AppErrorView,
> {
    match event {
        UpstreamView::Failure(failure) => Err(transport_error(failure)),
        UpstreamView::Reply(reply) => if reply.status == 404 {
            Err(not_found("user"@, id))
        } else if !success(reply.status) {
            Err(upstream_error(reply, Seq::empty()))
        } else {
            document_of(reply, USER_PARSE_FAILED@)
        },
    }
}

/// The outcome of an update, given the document that was sent and what came of
/// sending it: for 200 and 204 the user as it was sent; 404 for a user that is
/// absent; 409 for a clash of user names; 401, 403 and the rest as refusals.
pub open spec fn update_user_outcome(id: Seq<char>, sent: JsonView, event: UpstreamView) -> Result<
    CreateUserResView,
    AppErrorView,
> {
    match event {
        UpstreamView::Failure(failure) => Err(transport_error(failure)),
        UpstreamView::Reply(reply) => if reply.status == 200 || reply.status == 204 {
            Ok(updated_user(id, sent))
        } else if reply.status == 409 {
            Err(conflict("user"@, USERNAME_TAKEN@))
        } else {
            Err(missing_or_refusal(reply, "user"@, id, UNKNOWN@))
        },
    }
}

/// The step of an update: fetch the user, lay the update over it, send it back.
pub open spec fn update_user_step(
    config: KeycloakConfigView,
    id: Seq<char>,
    req: UpdateUserReqView,
    token: Seq<char>,
    events: Seq<UpstreamView>,
) -> StepView<CreateUserResView> {
    if events.len() == 0 {
        StepView::Call(authorized_view(Method::Get, config.user_url(id), token, BodyView::Empty))
    } else {
        match current_user(id, events[0]) {
            Err(error) => StepView::Done(Err(error)),
            Ok(doc) => if events.len() == 1 {
                StepView::Call(
                    authorized_view(
                        Method::Put,
                        config.user_url(id),
                        token,
                        BodyView::Json(overlaid_user(doc, req)),
                    ),
                )
            } else {
                StepView::Done(update_user_outcome(id, overlaid_user(doc, req), events[1]))
            },
        }
    }
}

/// The step of setting a password.
pub open spec fn update_password_step(
    config: KeycloakConfigView,
    id: Seq<char>,
    password: Seq<char>,
    token: Seq<char>,
    events: Seq<UpstreamView>,
) -> StepView<()> {
    if events.len() == 0 {
        StepView::Call(
            authorized_view(
                Method::Put,
                config.reset_password_url(id),
                token,
                BodyView::Json(credential_body(password)),
            ),
        )
    } else {
        StepView::Done(user_done(id, events[0]))
    }
}

/// The step of deleting a user: the user is disabled, not removed.
pub open spec fn delete_user_step(
    config: KeycloakConfigView,
    id: Seq<char>,
    token: Seq<char>,
    events: Seq<UpstreamView>,
) -> StepView<()> {
    if events.len() == 0 {
        StepView::Call(
            authorized_view(
                Method::Put,
                config.user_url(id),
                token,
                BodyView::Json(disable_body()),
            ),
        )
    } else {
        StepView::Done(user_done(id, events[0]))
    }
}

/// The role that is to be given or taken, read from the answer to the first
/// request: 404 is a role that is absent; any other status but success is the
/// failure of the provider.
pub open spec fn mapped_role(role_id: Seq<char>, event: UpstreamView) -> Result<
    JsonView,
    AppErrorView,
> {
    match event {
        UpstreamView::Failure(failure) => Err(transport_error(failure)),
        UpstreamView::Reply(reply) => if reply.status == 404 {
            Err(not_found("role"@, role_id))
        } else if !success(reply.status) {
            Err(upstream_error(reply, Seq::empty()))
        } else {
            document_of(reply, ROLE_PARSE_FAILED@)
        },
    }
}

/// The outcome of a change of a user's roles: 204 is success; 404 is a user
/// that is absent; 401, 403 and the rest as refusals.
pub open spec fn role_mapping_outcome(user_id: Seq<char>, event: UpstreamView) -> Result<
    (),
    AppErrorView,
> {
    match event {
        UpstreamView::Failure(failure) => Err(transport_error(failure)),
        UpstreamView::Reply(reply) => if reply.status == 204 {
            Ok(())
        } else {
            Err(missing_or_refusal(reply, "user"@, user_id, UNKNOWN@))
        },
    }
}

/// The step of a change of a user's roles: fetch the role for its name, then
/// post it to the user's roles, or delete it from them. A role that is marked as
/// deleted is not given.
pub open spec fn role_mapping_step(
    config: KeycloakConfigView,
    give: bool,
    user_id: Seq<char>,
    role_id: Seq<char>,
    token: Seq<char>,
    events: Seq<UpstreamView>,
) -> StepView<()> {
    if events.len() == 0 {
        StepView::Call(
            authorized_view(Method::Get, config.role_url(role_id), token, BodyView::Empty),
        )
    } else {
        match mapped_role(role_id, events[0]) {
            Err(error) => StepView::Done(Err(error)),
            Ok(role) => if give && marked_deleted(role) {
                StepView::Done(Err(AppErrorView::ValidationError { details: ROLE_DELETED@ }))
            } else if events.len() == 1 {
                StepView::Call(
                    authorized_view(
                        if give {
                            Method::Post
                        } else {
                            Method::Delete
                        },
                        config.role_mappings_url(user_id),
                        token,
                        BodyView::Json(role_reference(role, role_id)),
                    ),
                )
            } else {
                StepView::Done(role_mapping_outcome(user_id, events[1]))
            },
        }
    }
}

/// The step of giving a role to a user.
pub open spec fn add_role_step(
    config: KeycloakConfigView,
    user_id: Seq<char>,
    role_id: Seq<char>,
    token: Seq<char>,
    events: Seq<UpstreamView>,
) -> StepView<()> {
    role_mapping_step(config, true, user_id, role_id, token, events)
}

/// The step of taking a role from a user.
pub open spec fn remove_role_step(
    config: KeycloakConfigView,
    user_id: Seq<char>,
    role_id: Seq<char>,
    token: Seq<char>,
    events: Seq<UpstreamView>,
) -> StepView<()> {
    role_mapping_step(config, false, user_id, role_id, token, events)
}

impl KeycloakUserAdapter {
    /// An adapter for the provider that the configuration names.
    pub fn new(config: KeycloakConfig) -> (adapter: KeycloakUserAdapter)
        ensures
            adapter.config == config,
    {
        KeycloakUserAdapter { config }
    }

    /// The outcome of a request that only has to succeed on a user.
    pub fn user_done(id: &str, event: &Upstream) -> (r: Result<(), AppError>)
        ensures
            outcome_view(r) == user_done(id@, event@),
    {
        match event {
            Upstream::Failure(failure) => Err(failure.to_error()),
            Upstream::Reply(reply) => {
                if is_success(reply.status) {
                    Ok(())
                } else {
                    Err(make_missing_or_refusal(reply, "user", id, READ_FAILED))
                }
            },
        }
    }

    /// The outcome of creating a user.
    pub fn create_user_outcome(req: &CreateUserReq, event: &Upstream) -> (r: Result<
        CreateUserRes,
        AppError,
    >)
        ensures
            outcome_view(r) == create_user_outcome(req@, event@),
    {
        match event {
            Upstream::Failure(failure) => Err(failure.to_error()),
            Upstream::Reply(reply) => {
                if reply.status == 201 {
                    Ok(
                        CreateUserRes {
                            id: read_created_id(reply),
                            username: req.username.clone(),
                            first_name: req.first_name.clone(),
                            last_name: req.last_name.clone(),
                            enabled: true,
                        },
                    )
                } else if reply.status == 409 {
                    Err(make_conflict("user", USERNAME_TAKEN.to_owned()))
                } else {
                    Err(make_refusal(reply, UNKNOWN))
                }
            },
        }
    }

    /// The next step of creating a user.
    pub fn create_user(&self, req: &CreateUserReq, token: &str, events: &Vec<Upstream>) -> (step:
        Step<CreateUserRes>)
        ensures
            step@ == create_user_step(self.config@, req@, token@, views(events@)),
    {
        if events.len() == 0 {
            Step::Call(
                authorized(
                    Method::Post,
                    self.config.users_url(),
                    token,
                    Body::Json(make_user_body(req)),
                ),
            )
        } else {
            Step::Done(Self::create_user_outcome(req, &events[0]))
        }
    }

    /// The outcome of listing the users.
    pub fn get_users_outcome(event: &Upstream) -> (r: Result<GetUsersRes, AppError>)
        ensures
            outcome_view(r) == get_users_outcome(event@),
    {
        match event {
            Upstream::Failure(failure) => Err(failure.to_error()),
            Upstream::Reply(reply) => {
                if is_success(reply.status) {
                    match reply.document(PARSE_FAILED) {
                        Err(error) => Err(error),
                        Ok(doc) => match users_from_json(&doc) {
                            Some(users) => Ok(GetUsersRes { users }),
                            None => Err(
                                AppError::ExternalServiceError {
                                    code: 500,
                                    details: followed_by(PARSE_FAILED, NOT_A_LIST),
                                    source: None,
                                },
                            ),
                        },
                    }
                } else {
                    Err(make_refusal(reply, READ_FAILED))
                }
            },
        }
    }

    /// The next step of listing the users.
    pub fn get_users(&self, token: &str, events: &Vec<Upstream>) -> (step: Step<GetUsersRes>)
        ensures
            step@ == get_users_step(self.config@, token@, views(events@)),
    {
        if events.len() == 0 {
            Step::Call(
                authorized(Method::Get, self.config.enabled_users_url(), token, Body::Empty),
            )
        } else {
            Step::Done(Self::get_users_outcome(&events[0]))
        }
    }

    /// The outcome of fetching a user.
    pub fn get_user_outcome(id: &str, event: &Upstream) -> (r: Result<GetUserRes, AppError>)
        ensures
            outcome_view(r) == get_user_outcome(id@, event@),
    {
        match event {
            Upstream::Failure(failure) => Err(failure.to_error()),
            Upstream::Reply(reply) => {
                if is_success(reply.status) {
                    match reply.document(PARSE_FAILED) {
                        Err(error) => Err(error),
                        Ok(doc) => Ok(user_from_json(&doc)),
                    }
                } else {
                    Err(make_missing_or_refusal(reply, "user", id, READ_FAILED))
                }
            },
        }
    }

    /// The next step of fetching a user.
    pub fn get_user(&self, id: &str, token: &str, events: &Vec<Upstream>) -> (step: Step<
        GetUserRes,
    >)
        ensures
            step@ == get_user_step(self.config@, id@, token@, views(events@)),
    {
        if events.len() == 0 {
            Step::Call(authorized(Method::Get, self.config.user_url(id), token, Body::Empty))
        } else {
            Step::Done(Self::get_user_outcome(id, &events[0]))
        }
    }

    /// The user as the provider holds it, read from the first answer of an
    /// update.
    pub fn current_user(id: &str, event: &Upstream) -> (r: Result<Json, AppError>)
        ensures
            outcome_view(r) == current_user(id@, event@),
    {
        match event {
            Upstream::Failure(failure) => Err(failure.to_error()),
            Upstream::Reply(reply) => {
                if reply.status == 404 {
                    Err(make_not_found("user", id))
                } else if !is_success(reply.status) {
                    proof {
                        reveal_strlit("");
                        assert(""@ =~= Seq::<char>::empty());
                    }
                    Err(reply.to_error(""))
                } else {
                    reply.document(USER_PARSE_FAILED)
                }
            },
        }
    }

    /// The outcome of an update, given the document that was sent.
    pub fn update_user_outcome(id: &str, sent: &Json, event: &Upstream) -> (r: Result<
        CreateUserRes,
        AppError,
    >)
        ensures
            outcome_view(r) == update_user_outcome(id@, sent@, event@),
    {
        match event {
            Upstream::Failure(failure) => Err(failure.to_error()),
            Upstream::Reply(reply) => {
                if reply.status == 200 || reply.status == 204 {
                    Ok(read_updated_user(id, sent))
                } else if reply.status == 409 {
                    Err(make_conflict("user", USERNAME_TAKEN.to_owned()))
                } else {
                    Err(make_missing_or_refusal(reply, "user", id, UNKNOWN))
                }
            },
        }
    }

    /// The next step of an update of a user.
    pub fn update_user(
        &self,
        id: &str,
        req: &UpdateUserReq,
        token: &str,
        events: &Vec<Upstream>,
    ) -> (step: Step<CreateUserRes>)
        ensures
            step@ == update_user_step(self.config@, id@, req@, token@, views(events@)),
    {
        if events.len() == 0 {
            return Step::Call(
                authorized(Method::Get, self.config.user_url(id), token, Body::Empty),
            );
        }
        match Self::current_user(id, &events[0]) {
            Err(error) => Step::Done(Err(error)),
            Ok(doc) => {
                let mut doc = doc;
                overlay_user(&mut doc, req);
                if events.len() == 1 {
                    Step::Call(
                        authorized(Method::Put, self.config.user_url(id), token, Body::Json(doc)),
                    )
                } else {
                    Step::Done(Self::update_user_outcome(id, &doc, &events[1]))
                }
            },
        }
    }

    /// The next step of setting a password.
    pub fn update_password(&self, id: &str, password: &str, token: &str, events: &Vec<Upstream>) -> (step:
        Step<()>)
        ensures
            step@ == update_password_step(self.config@, id@, password@, token@, views(events@)),
    {
        if events.len() == 0 {
            Step::Call(
                authorized(
                    Method::Put,
                    self.config.reset_password_url(id),
                    token,
                    Body::Json(make_credential_body(password)),
                ),
            )
        } else {
            Step::Done(Self::user_done(id, &events[0]))
        }
    }

    /// The next step of deleting a user.
    pub fn delete_user(&self, id: &str, token: &str, events: &Vec<Upstream>) -> (step: Step<()>)
        ensures
            step@ == delete_user_step(self.config@, id@, token@, views(events@)),
    {
        if events.len() == 0 {
            Step::Call(
                authorized(
                    Method::Put,
                    self.config.user_url(id),
                    token,
                    Body::Json(make_disable_body()),
                ),
            )
        } else {
            Step::Done(Self::user_done(id, &events[0]))
        }
    }

    /// The role that is to be given or taken, read from the first answer.
    pub fn mapped_role(role_id: &str, event: &Upstream) -> (r: Result<Json, AppError>)
        ensures
            outcome_view(r) == mapped_role(role_id@, event@),
    {
        match event {
            Upstream::Failure(failure) => Err(failure.to_error()),
            Upstream::Reply(reply) => {
                if reply.status == 404 {
                    Err(make_not_found("role", role_id))
                } else if !is_success(reply.status) {
                    proof {
                        reveal_strlit("");
                        assert(""@ =~= Seq::<char>::empty());
                    }
                    Err(reply.to_error(""))
                } else {
                    reply.document(ROLE_PARSE_FAILED)
                }
            },
        }
    }

    /// The outcome of a change of a user's roles.
    pub fn role_mapping_outcome(user_id: &str, event: &Upstream) -> (r: Result<(), AppError>)
        ensures
            outcome_view(r) == role_mapping_outcome(user_id@, event@),
    {
        match event {
            Upstream::Failure(failure) => Err(failure.to_error()),
            Upstream::Reply(reply) => {
                if reply.status == 204 {
                    Ok(())
                } else {
                    Err(make_missing_or_refusal(reply, "user", user_id, UNKNOWN))
                }
            },
        }
    }

    fn role_mapping(
        &self,
        give: bool,
        user_id: &str,
        role_id: &str,
        token: &str,
        events: &Vec<Upstream>,
    ) -> (step: Step<()>)
        ensures
            step@ == role_mapping_step(
                self.config@,
                give,
                user_id@,
                role_id@,
                token@,
                views(events@),
            ),
    {
        if events.len() == 0 {
            return Step::Call(
                authorized(Method::Get, self.config.role_url(role_id), token, Body::Empty),
            );
        }
        match Self::mapped_role(role_id, &events[0]) {
            Err(error) => Step::Done(Err(error)),
            Ok(role) => {
                if give && is_marked_deleted(&role) {
                    Step::Done(Err(AppError::ValidationError { details: ROLE_DELETED.to_owned() }))
                } else if events.len() == 1 {
                    Step::Call(
                        authorized(
                            if give {
                                Method::Post
                            } else {
                                Method::Delete
                            },
                            self.config.role_mappings_url(user_id),
                            token,
                            Body::Json(make_role_reference(&role, role_id)),
                        ),
                    )
                } else {
                    Step::Done(Self::role_mapping_outcome(user_id, &events[1]))
                }
            },
        }
    }

    /// The next step of giving a role to a user.
    pub fn add_role(&self, user_id: &str, role_id: &str, token: &str, events: &Vec<Upstream>) -> (step:
        Step<()>)
        ensures
            step@ == add_role_step(self.config@, user_id@, role_id@, token@, views(events@)),
    {
        self.role_mapping(true, user_id, role_id, token, events)
    }

    /// The next step of taking a role from a user.
    pub fn remove_role(&self, user_id: &str, role_id: &str, token: &str, events: &Vec<Upstream>) -> (step:
        Step<()>)
        ensures
            step@ == remove_role_step(self.config@, user_id@, role_id@, token@, views(events@)),
    {
        self.role_mapping(false, user_id, role_id, token, events)
    }
}

} // verus!

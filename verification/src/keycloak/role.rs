//! The use cases on roles: create, list, fetch, update, patch and delete. A role
//! is deleted by a mark in its attributes; a role that carries the mark is
//! treated as absent.

use vstd::prelude::*;
use vstd::string::StringExecFns;

use crate::bodies::{
    deleted_role, make_partial_role_body, make_role_body, mark_deleted, merge_role,
    merged_role, partial_role_body, role_body,
};
use crate::dtos::{
    views, CreateRoleReq, CreateRoleReqView, GetAllRolesRes, GetAllRolesResView, GetRoleRes,
    GetRoleResView, UpdateRolePartialReq, UpdateRolePartialReqView,
};
use crate::error::{outcome_view, AppError, AppErrorView};
use crate::http::{
    authorized, authorized_view, document_of, transport_error, unreadable, Body, BodyView,
    KeycloakConfig, KeycloakConfigView, Method, Step, StepView, Upstream, UpstreamView,
};
use crate::json::{Json, JsonView};
use crate::keycloak::common::{
    conflict, created_id, make_conflict, make_missing_or_refusal, make_not_found, make_refusal,
    missing_or_refusal, not_found, read_created_id, refusal, NOT_A_LIST, ROLE_DELETED,
    ROLE_PARSE_FAILED, UNKNOWN,
};
use crate::mapping::{
    is_marked_deleted, marked_deleted, role_from_json, role_of, roles_from_json, roles_of,
};
use crate::text::followed_by;

verus! {

/// What begins the detail where the list of roles could not be read.
pub const ROLES_PARSE_FAILED: &'static str = "Failed to parse roles list: ";

/// The adapter for roles.
#[derive(Debug, Clone, PartialEq, Eq)]
pub struct KeycloakRoleAdapter {
    pub config: KeycloakConfig,
}

/// What is said of a role whose name is taken.
pub open spec fn name_taken(name: Seq<char>) -> Seq<char> {
    "Role with name '"@ + name + "' already exists"@
}

/// The role as the provider holds it, read from the answer to a request for it:
/// only 200 brings it; 404 is a role that is absent; 401, 403 and the rest as
/// refusals.
pub open spec fn current_role(id: Seq<char>, event: UpstreamView) -> Result<
    JsonView,
    AppErrorView,
> {
    match event {
        UpstreamView::Failure(failure) => Err(transport_error(failure)),
        UpstreamView::Reply(reply) => if reply.status == 200 {
            document_of(reply, ROLE_PARSE_FAILED@)
        } else {
            Err(missing_or_refusal(reply, "role"@, id, UNKNOWN@))
        },
    }
}

/// The outcome of fetching a role: a role that is marked as deleted is absent.
pub open spec fn get_role_outcome(id: Seq<char>, event: UpstreamView) -> Result<
    GetRoleResView,
    AppErrorView,
> {
    match current_role(id, event) {
        Err(error) => Err(error),
        Ok(doc) => if marked_deleted(doc) {
            Err(not_found("role"@, id))
        } else {
            Ok(role_of(doc))
        },
    }
}

/// The step of fetching a role.
pub open spec fn get_role_step(
    config: KeycloakConfigView,
    id: Seq<char>,
    token: Seq<char>,
    events: Seq<UpstreamView>,
) -> StepView<GetRoleResView> {
    if events.len() == 0 {
        StepView::Call(authorized_view(Method::Get, config.role_url(id), token, BodyView::Empty))
    } else {
        StepView::Done(get_role_outcome(id, events[0]))
    }
}

/// The outcome of listing the roles: for 200 the roles of the list that are not
/// marked as deleted; 401, 403 and the rest as refusals.
pub open spec fn get_roles_outcome(event: UpstreamView) -> Result<
    GetAllRolesResView,
    AppErrorView,
> {
    match event {
        UpstreamView::Failure(failure) => Err(transport_error(failure)),
        UpstreamView::Reply(reply) => if reply.status == 200 {
            match document_of(reply, ROLES_PARSE_FAILED@) {
                Err(error) => Err(error),
                Ok(doc) => match roles_of(doc) {
                    Some(roles) => Ok(GetAllRolesResView { roles }),
                    None => Err(unreadable(ROLES_PARSE_FAILED@, NOT_A_LIST@)),
                },
            }
        } else {
            Err(refusal(reply, UNKNOWN@))
        },
    }
}

/// The step of listing the roles.
pub open spec fn get_roles_step(
    config: KeycloakConfigView,
    token: Seq<char>,
    events: Seq<UpstreamView>,
) -> StepView<GetAllRolesResView> {
    if events.len() == 0 {
        StepView::Call(authorized_view(Method::Get, config.roles_url(), token, BodyView::Empty))
    } else {
        StepView::Done(get_roles_outcome(events[0]))
    }
}

/// What the answer to the creation of a role says: for 201 the id that its
/// `Location` names; 409 is a clash of names; 401, 403 and the rest as refusals.
pub open spec fn created_role(req: CreateRoleReqView, event: UpstreamView) -> Result<
    Seq<char>,
    AppErrorView,
> {
    match event {
        UpstreamView::Failure(failure) => Err(transport_error(failure)),
        UpstreamView::Reply(reply) => if reply.status == 201 {
            Ok(created_id(reply.location))
        } else if reply.status == 409 {
            Err(conflict("role"@, name_taken(req.name)))
        } else {
            Err(refusal(reply, UNKNOWN@))
        },
    }
}

/// The step of creating a role: post it, then fetch what was created.
pub open spec fn create_role_step(
    config: KeycloakConfigView,
    req: CreateRoleReqView,
    token: Seq<char>,
    events: Seq<UpstreamView>,
) -> StepView<GetRoleResView> {
    if events.len() == 0 {
        StepView::Call(
            authorized_view(Method::Post, config.roles_url(), token, BodyView::Json(role_body(req))),
        )
    } else {
        match created_role(req, events[0]) {
            Err(error) => StepView::Done(Err(error)),
            Ok(id) => if events.len() == 1 {
                StepView::Call(
                    authorized_view(Method::Get, config.role_url(id), token, BodyView::Empty),
                )
            } else {
                StepView::Done(get_role_outcome(id, events[1]))
            },
        }
    }
}

/// The outcome of sending a role back: 200 and 204 are success; 404 is a role
/// that is absent; 409 is a clash of names; 401, 403 and the rest as refusals.
pub open spec fn put_role_outcome(id: Seq<char>, name: Option<Seq<char>>, event: UpstreamView) -> Result<
    (),
    AppErrorView,
> {
    match event {
        UpstreamView::Failure(failure) => Err(transport_error(failure)),
        UpstreamView::Reply(reply) => if reply.status == 200 || reply.status == 204 {
            Ok(())
        } else if reply.status == 409 && name is Some {
            Err(conflict("role"@, name_taken(name->0)))
        } else {
            Err(missing_or_refusal(reply, "role"@, id, UNKNOWN@))
        },
    }
}

/// The step of updating a role: fetch it, refuse one that is marked as deleted,
/// lay the new state over it, send it back.
pub open spec fn update_role_step(
    config: KeycloakConfigView,
    id: Seq<char>,
    req: CreateRoleReqView,
    token: Seq<char>,
    events: Seq<UpstreamView>,
) -> StepView<()> {
    if events.len() == 0 {
        StepView::Call(authorized_view(Method::Get, config.role_url(id), token, BodyView::Empty))
    } else {
        match current_role(id, events[0]) {
            Err(error) => StepView::Done(Err(error)),
            Ok(doc) => if marked_deleted(doc) {
                StepView::Done(Err(AppErrorView::ValidationError { details: ROLE_DELETED@ }))
            } else if events.len() == 1 {
                StepView::Call(
                    authorized_view(
                        Method::Put,
                        config.role_url(id),
                        token,
                        BodyView::Json(merged_role(doc, req)),
                    ),
                )
            } else {
                StepView::Done(put_role_outcome(id, Some(req.name), events[1]))
            },
        }
    }
}

/// What the answer to a patch says: 204 is success; 404 is a role that is
/// absent; 401, 403 and the rest as refusals.
pub open spec fn patched_role(id: Seq<char>, event: UpstreamView) -> Result<(), AppErrorView> {
    match event {
        UpstreamView::Failure(failure) => Err(transport_error(failure)),
        UpstreamView::Reply(reply) => if reply.status == 204 {
            Ok(())
        } else {
            Err(missing_or_refusal(reply, "role"@, id, UNKNOWN@))
        },
    }
}

/// The step of patching a role: send the fields that are present, then fetch the
/// role as it is now.
pub open spec fn patch_role_step(
    config: KeycloakConfigView,
    id: Seq<char>,
    req: UpdateRolePartialReqView,
    token: Seq<char>,
    events: Seq<UpstreamView>,
) -> StepView<GetRoleResView> {
    if events.len() == 0 {
        StepView::Call(
            authorized_view(
                Method::Put,
                config.role_url(id),
                token,
                BodyView::Json(partial_role_body(req)),
            ),
        )
    } else {
        match patched_role(id, events[0]) {
            Err(error) => StepView::Done(Err(error)),
            Ok(_) => if events.len() == 1 {
                StepView::Call(
                    authorized_view(Method::Get, config.role_url(id), token, BodyView::Empty),
                )
            } else {
                StepView::Done(get_role_outcome(id, events[1]))
            },
        }
    }
}

/// The step of deleting a role: fetch it, set the mark of deletion in its
/// attributes, send it back.
pub open spec fn delete_role_step(
    config: KeycloakConfigView,
    id: Seq<char>,
    token: Seq<char>,
    events: Seq<UpstreamView>,
) -> StepView<()> {
    if events.len() == 0 {
        StepView::Call(authorized_view(Method::Get, config.role_url(id), token, BodyView::Empty))
    } else {
        match current_role(id, events[0]) {
            Err(error) => StepView::Done(Err(error)),
            Ok(doc) => if events.len() == 1 {
                StepView::Call(
                    authorized_view(
                        Method::Put,
                        config.role_url(id),
                        token,
                        BodyView::Json(deleted_role(doc)),
                    ),
                )
            } else {
                StepView::Done(put_role_outcome(id, None, events[1]))
            },
        }
    }
}

fn make_name_taken(name: &str) -> (r: String)
    ensures
        r@ == name_taken(name@),
{
    let mut r = "Role with name '".to_owned();
    r.append(name);
    r.append("' already exists");
    r
}

impl KeycloakRoleAdapter {
    /// An adapter for the provider that the configuration names.
    pub fn new(config: KeycloakConfig) -> (adapter: KeycloakRoleAdapter)
        ensures
            adapter.config == config,
    {
        KeycloakRoleAdapter { config }
    }

    /// The role as the provider holds it, read from the answer to a request for
    /// it.
    pub fn current_role(id: &str, event: &Upstream) -> (r: Result<Json, AppError>)
        ensures
            outcome_view(r) == current_role(id@, event@),
    {
        match event {
            Upstream::Failure(failure) => Err(failure.to_error()),
            Upstream::Reply(reply) => {
                if reply.status == 200 {
                    reply.document(ROLE_PARSE_FAILED)
                } else {
                    Err(make_missing_or_refusal(reply, "role", id, UNKNOWN))
                }
            },
        }
    }

    /// The outcome of fetching a role.
    pub fn get_role_outcome(id: &str, event: &Upstream) -> (r: Result<GetRoleRes, AppError>)
        ensures
            outcome_view(r) == get_role_outcome(id@, event@),
    {
        match Self::current_role(id, event) {
            Err(error) => Err(error),
            Ok(doc) => {
                if is_marked_deleted(&doc) {
                    Err(make_not_found("role", id))
                } else {
                    Ok(role_from_json(&doc))
                }
            },
        }
    }

    /// The next step of fetching a role.
    pub fn get_role(&self, id: &str, token: &str, events: &Vec<Upstream>) -> (step: Step<
        GetRoleRes,
    >)
        ensures
            step@ == get_role_step(self.config@, id@, token@, views(events@)),
    {
        if events.len() == 0 {
            Step::Call(authorized(Method::Get, self.config.role_url(id), token, Body::Empty))
        } else {
            Step::Done(Self::get_role_outcome(id, &events[0]))
        }
    }

    /// The outcome of listing the roles.
    pub fn get_roles_outcome(event: &Upstream) -> (r: Result<GetAllRolesRes, AppError>)
        ensures
            outcome_view(r) == get_roles_outcome(event@),
    {
        match event {
            Upstream::Failure(failure) => Err(failure.to_error()),
            Upstream::Reply(reply) => {
                if reply.status == 200 {
                    match reply.document(ROLES_PARSE_FAILED) {
                        Err(error) => Err(error),
                        Ok(doc) => match roles_from_json(&doc) {
                            Some(roles) => Ok(GetAllRolesRes { roles }),
                            None => Err(
                                AppError::ExternalServiceError {
                                    code: 500,
                                    details: followed_by(ROLES_PARSE_FAILED, NOT_A_LIST),
                                    source: None,
                                },
                            ),
                        },
                    }
                } else {
                    Err(make_refusal(reply, UNKNOWN))
                }
            },
        }
    }

    /// The next step of listing the roles.
    pub fn get_roles(&self, token: &str, events: &Vec<Upstream>) -> (step: Step<GetAllRolesRes>)
        ensures
            step@ == get_roles_step(self.config@, token@, views(events@)),
    {
        if events.len() == 0 {
            Step::Call(authorized(Method::Get, self.config.roles_url(), token, Body::Empty))
        } else {
            Step::Done(Self::get_roles_outcome(&events[0]))
        }
    }

    /// What the answer to the creation of a role says: the id of the role.
    pub fn created_role(req: &CreateRoleReq, event: &Upstream) -> (r: Result<String, AppError>)
        ensures
            match r {
                Ok(id) => created_role(req@, event@) == Ok::<Seq<char>, AppErrorView>(id@),
                Err(error) => created_role(req@, event@) == Err::<Seq<char>, AppErrorView>(
                    error@,
                ),
            },
    {
        match event {
            Upstream::Failure(failure) => Err(failure.to_error()),
            Upstream::Reply(reply) => {
                if reply.status == 201 {
                    Ok(read_created_id(reply))
                } else if reply.status == 409 {
                    Err(make_conflict("role", make_name_taken(req.name.as_str())))
                } else {
                    Err(make_refusal(reply, UNKNOWN))
                }
            },
        }
    }

    /// The next step of creating a role.
    pub fn create_role(&self, req: &CreateRoleReq, token: &str, events: &Vec<Upstream>) -> (step:
        Step<GetRoleRes>)
        ensures
            step@ == create_role_step(self.config@, req@, token@, views(events@)),
    {
        if events.len() == 0 {
            return Step::Call(
                authorized(
                    Method::Post,
                    self.config.roles_url(),
                    token,
                    Body::Json(make_role_body(req)),
                ),
            );
        }
        match Self::created_role(req, &events[0]) {
            Err(error) => Step::Done(Err(error)),
            Ok(id) => {
                if events.len() == 1 {
                    Step::Call(
                        authorized(
                            Method::Get,
                            self.config.role_url(id.as_str()),
                            token,
                            Body::Empty,
                        ),
                    )
                } else {
                    Step::Done(Self::get_role_outcome(id.as_str(), &events[1]))
                }
            },
        }
    }

    /// The outcome of sending a role back; `name` is the new name where one was
    /// sent.
    pub fn put_role_outcome(id: &str, name: Option<&str>, event: &Upstream) -> (r: Result<
        (),
        AppError,
    >)
        ensures
            outcome_view(r) == put_role_outcome(id@, name.deep_view(), event@),
    {
        match event {
            Upstream::Failure(failure) => Err(failure.to_error()),
            Upstream::Reply(reply) => {
                if reply.status == 200 || reply.status == 204 {
                    return Ok(());
                }
                if reply.status == 409 {
                    match name {
                        Some(taken) => {
                            return Err(make_conflict("role", make_name_taken(taken)));
                        },
                        None => {},
                    }
                }
                Err(make_missing_or_refusal(reply, "role", id, UNKNOWN))
            },
        }
    }

    /// The next step of updating a role.
    pub fn update_role(&self, id: &str, req: &CreateRoleReq, token: &str, events: &Vec<Upstream>) -> (step:
        Step<()>)
        ensures
            step@ == update_role_step(self.config@, id@, req@, token@, views(events@)),
    {
        if events.len() == 0 {
            return Step::Call(
                authorized(Method::Get, self.config.role_url(id), token, Body::Empty),
            );
        }
        match Self::current_role(id, &events[0]) {
            Err(error) => Step::Done(Err(error)),
            Ok(doc) => {
                if is_marked_deleted(&doc) {
                    Step::Done(Err(AppError::ValidationError { details: ROLE_DELETED.to_owned() }))
                } else if events.len() == 1 {
                    let mut doc = doc;
                    merge_role(&mut doc, req);
                    Step::Call(
                        authorized(Method::Put, self.config.role_url(id), token, Body::Json(doc)),
                    )
                } else {
                    Step::Done(
                        Self::put_role_outcome(id, Some(req.name.as_str()), &events[1]),
                    )
                }
            },
        }
    }

    /// What the answer to a patch says.
    pub fn patched_role(id: &str, event: &Upstream) -> (r: Result<(), AppError>)
        ensures
            outcome_view(r) == patched_role(id@, event@),
    {
        match event {
            Upstream::Failure(failure) => Err(failure.to_error()),
            Upstream::Reply(reply) => {
                if reply.status == 204 {
                    Ok(())
                } else {
                    Err(make_missing_or_refusal(reply, "role", id, UNKNOWN))
                }
            },
        }
    }

    /// The next step of patching a role.
    pub fn patch_role(
        &self,
        id: &str,
        req: &UpdateRolePartialReq,
        token: &str,
        events: &Vec<Upstream>,
    ) -> (step: Step<GetRoleRes>)
        ensures
            step@ == patch_role_step(self.config@, id@, req@, token@, views(events@)),
    {
        if events.len() == 0 {
            return Step::Call(
                authorized(
                    Method::Put,
                    self.config.role_url(id),
                    token,
                    Body::Json(make_partial_role_body(req)),
                ),
            );
        }
        match Self::patched_role(id, &events[0]) {
            Err(error) => Step::Done(Err(error)),
            Ok(_) => {
                if events.len() == 1 {
                    Step::Call(
                        authorized(Method::Get, self.config.role_url(id), token, Body::Empty),
                    )
                } else {
                    Step::Done(Self::get_role_outcome(id, &events[1]))
                }
            },
        }
    }

    /// The next step of deleting a role.
    pub fn delete_role(&self, id: &str, token: &str, events: &Vec<Upstream>) -> (step: Step<()>)
        ensures
            step@ == delete_role_step(self.config@, id@, token@, views(events@)),
    {
        if events.len() == 0 {
            return Step::Call(
                authorized(Method::Get, self.config.role_url(id), token, Body::Empty),
            );
        }
        match Self::current_role(id, &events[0]) {
            Err(error) => Step::Done(Err(error)),
            Ok(doc) => {
                if events.len() == 1 {
                    let mut doc = doc;
                    mark_deleted(&mut doc);
                    Step::Call(
                        authorized(Method::Put, self.config.role_url(id), token, Body::Json(doc)),
                    )
                } else {
                    Step::Done(Self::put_role_outcome(id, None, &events[1]))
                }
            },
        }
    }
}

} // verus!

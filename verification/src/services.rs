//! The use cases: each validates its input, where it has rules for it, and hands
//! the rest to a provider. A request that breaks a rule never reaches the
//! provider.

use vstd::prelude::*;

use crate::dtos::{
    CreateRoleReq, CreateUserReq, CreateUserRes, CreateUserResView, GetAllRolesRes, GetRoleRes,
    GetRoleResView, GetUserRes, GetUsersRes, LoginReq, LoginReqKeycloak, LoginReqKeycloakView,
    LoginReqView, LoginRes, LoginResKeycloak, LoginResKeycloakView, LoginResView,
    UpdateRolePartialReq, UpdateUserReq,
};
use crate::error::{outcome_view, AppError, AppErrorView};
use crate::interfaces::{AuthProvider, RoleProvider, UserProvider};
use crate::mapping::{coerce_expiry, expiry};
use crate::pattern::pattern_found;
use crate::text::{blank, is_blank, join, joined};
use crate::validators::{
    create_user_errors, login_errors, partial_role_errors, password_errors, role_errors,
    update_user_email, update_user_errors, validate_create_role, validate_create_user,
    validate_login, validate_update_password, validate_update_role,
    validate_update_role_partial, validate_update_user, verdict, verdict_view, EMAIL_PATTERN,
};

verus! {

/// What is said of a role id that is blank.
pub const ROLE_ID_REQUIRED: &'static str = "role id cannot be empty";

/// The grant by which a login is made.
pub const PASSWORD_GRANT: &'static str = "password";

/// The failure for a request that breaks rules: its detail names every broken
/// rule, the messages joined by a comma and a blank.
pub open spec fn rejected(errors: Seq<Seq<char>>) -> AppErrorView {
    AppErrorView::ValidationError { details: joined(errors, ", "@) }
}

/// What a validation lets through: nothing where a rule is broken.
pub open spec fn admitted(errors: Seq<Seq<char>>) -> Result<(), AppErrorView> {
    match verdict(errors) {
        Ok(_) => Ok(()),
        Err(broken) => Err(rejected(broken)),
    }
}

fn admit_verdict(checked: Result<(), Vec<String>>) -> (r: Result<(), AppError>)
    ensures
        outcome_view(r) == match verdict_view(checked) {
            Ok(_) => Ok::<(), AppErrorView>(()),
            Err(broken) => Err::<(), AppErrorView>(rejected(broken)),
        },
{
    match checked {
        Ok(_) => Ok(()),
        Err(errors) => Err(AppError::ValidationError { details: join(&errors, ", ") }),
    }
}

/// The form that a login hands to the provider: the credentials as they came,
/// the client's id and secret, and the password grant.
pub open spec fn keycloak_login(
    form: LoginReqView,
    client_id: Seq<char>,
    client_secret: Seq<char>,
) -> LoginReqKeycloakView {
    LoginReqKeycloakView {
        client_id,
        client_secret,
        username: form.username,
        password: form.password,
        grant_type: PASSWORD_GRANT@,
    }
}

/// What a login hands to the provider, given what the search of the user name
/// for the e-mail pattern answered: the form, or, where a rule is broken, the
/// failure, and then nothing for the provider.
pub open spec fn login_plan(
    form: LoginReqView,
    client_id: Seq<char>,
    client_secret: Seq<char>,
    email: Option<bool>,
) -> Result<LoginReqKeycloakView, AppErrorView> {
    match admitted(login_errors(form, email)) {
        Err(error) => Err(error),
        Ok(_) => Ok(keycloak_login(form, client_id, client_secret)),
    }
}

/// The session that is handed to the caller: the tokens and the token type as
/// the provider stated them, each expiry brought into 16 bits.
pub open spec fn session(answer: LoginResKeycloakView) -> LoginResView {
    LoginResView {
        token_type: answer.token_type,
        access_token: answer.access_token,
        expires_in: expiry(answer.expires_in),
        refresh_token: answer.refresh_token,
        refresh_expires_in: expiry(answer.refresh_expires_in),
    }
}

/// The outcome of a login, given the outcome that the provider gave: its
/// failure as it is, its session as [`session`] states it.
pub open spec fn session_outcome(answer: Result<LoginResKeycloakView, AppErrorView>) -> Result<
    LoginResView,
    AppErrorView,
> {
    match answer {
        Ok(stated) => Ok(session(stated)),
        Err(error) => Err(error),
    }
}

/// Decides what a login hands to the provider.
pub fn plan_login(form: &LoginReq, client_id: &str, client_secret: &str) -> (r: Result<
    LoginReqKeycloak,
    AppError,
>)
    ensures
        outcome_view(r) == login_plan(
            form@,
            client_id@,
            client_secret@,
            pattern_found(EMAIL_PATTERN@, form@.username),
        ),
        blank(form@.username) || blank(form@.password) ==> r is Err,
{
    match admit_verdict(validate_login(form)) {
        Err(error) => Err(error),
        Ok(_) => Ok(
            LoginReqKeycloak {
                client_id: client_id.to_owned(),
                client_secret: client_secret.to_owned(),
                username: form.username.clone(),
                password: form.password.clone(),
                grant_type: PASSWORD_GRANT.to_owned(),
            },
        ),
    }
}

/// Makes the session that is handed to the caller.
pub fn make_session(answer: LoginResKeycloak) -> (r: LoginRes)
    ensures
        r@ == session(answer@),
{
    LoginRes {
        token_type: answer.token_type,
        access_token: answer.access_token,
        expires_in: coerce_expiry(answer.expires_in),
        refresh_token: answer.refresh_token,
        refresh_expires_in: coerce_expiry(answer.refresh_expires_in),
    }
}

/// Whether a login that reached the provider may end with this outcome: it is
/// what [`session_outcome`] makes of an outcome that the provider may give for
/// the form.
pub open spec fn session_given<P: AuthProvider>(
    provider: P,
    request: LoginReqKeycloakView,
    outcome: Result<LoginResView, AppErrorView>,
) -> bool {
    exists|answer: Result<LoginResKeycloakView, AppErrorView>|
        #[trigger] provider.login_answer(request, answer) && outcome == session_outcome(answer)
}

/// Whether a login may end with this outcome, given what it hands to the
/// provider: the failure of the validation where a rule is broken, and else an
/// outcome that [`session_given`] admits.
pub open spec fn login_served<P: AuthProvider>(
    provider: P,
    plan: Result<LoginReqKeycloakView, AppErrorView>,
    outcome: Result<LoginResView, AppErrorView>,
) -> bool {
    match plan {
        Err(error) => outcome == Err::<LoginResView, AppErrorView>(error),
        Ok(request) => session_given(provider, request, outcome),
    }
}

/// Logs a user in: validates the credentials, hands the form to the provider,
/// and states the session that came back.
pub fn login_service<P: AuthProvider>(
    provider: &P,
    form: &LoginReq,
    client_id: &str,
    client_secret: &str,
) -> (r: Result<LoginRes, AppError>)
    ensures
        login_served(
            *provider,
            login_plan(
                form@,
                client_id@,
                client_secret@,
                pattern_found(EMAIL_PATTERN@, form@.username),
            ),
            outcome_view(r),
        ),
        blank(form@.username) || blank(form@.password) ==> r is Err,
{
    match plan_login(form, client_id, client_secret) {
        Err(error) => Err(error),
        Ok(request) => {
            let answer = provider.login(&request);
            let ghost given = outcome_view(answer);
            let r = match answer {
                Ok(stated) => Ok(make_session(stated)),
                Err(error) => Err(error),
            };
            assert(provider.login_answer(request@, given));
            assert(session_given(*provider, request@, outcome_view(r)));
            r
        },
    }
}

/// Creates a user, unless the request breaks a rule.
pub fn create_user_service<P: UserProvider>(provider: &P, req: &CreateUserReq, token: &str) -> (r:
    Result<CreateUserRes, AppError>)
    ensures
        match admitted(create_user_errors(req@, pattern_found(EMAIL_PATTERN@, req@.username))) {
            Err(error) => outcome_view(r) == Err::<CreateUserResView, AppErrorView>(error),
            Ok(_) => provider.create_user_answer(req@, token@, outcome_view(r)),
        },
{
    match admit_verdict(validate_create_user(req)) {
        Err(error) => Err(error),
        Ok(_) => provider.create_user(req, token),
    }
}

/// Lists the users.
pub fn get_users_service<P: UserProvider>(provider: &P, token: &str) -> (r: Result<
    GetUsersRes,
    AppError,
>)
    ensures
        provider.get_users_answer(token@, outcome_view(r)),
{
    provider.get_users(token)
}

/// Fetches a user.
pub fn get_user_service<P: UserProvider>(provider: &P, id: &str, token: &str) -> (r: Result<
    GetUserRes,
    AppError,
>)
    ensures
        provider.get_user_answer(id@, token@, outcome_view(r)),
{
    provider.get_user(id, token)
}

/// Updates a user, unless the request breaks a rule.
pub fn update_user_service<P: UserProvider>(
    provider: &P,
    id: &str,
    req: &UpdateUserReq,
    token: &str,
) -> (r: Result<CreateUserRes, AppError>)
    ensures
        match admitted(update_user_errors(req@, update_user_email(req@))) {
            Err(error) => outcome_view(r) == Err::<CreateUserResView, AppErrorView>(error),
            Ok(_) => provider.update_user_answer(id@, req@, token@, outcome_view(r)),
        },
{
    match admit_verdict(validate_update_user(req)) {
        Err(error) => Err(error),
        Ok(_) => provider.update_user(id, req, token),
    }
}

/// Sets the password of a user, unless it is blank.
pub fn update_password_service<P: UserProvider>(
    provider: &P,
    id: &str,
    password: &str,
    token: &str,
) -> (r: Result<(), AppError>)
    ensures
        match admitted(password_errors(password@)) {
            Err(error) => outcome_view(r) == Err::<(), AppErrorView>(error),
            Ok(_) => provider.update_password_answer(id@, password@, token@, outcome_view(r)),
        },
{
    match admit_verdict(validate_update_password(password)) {
        Err(error) => Err(error),
        Ok(_) => provider.update_password(id, password, token),
    }
}

/// Deletes a user.
pub fn delete_user_service<P: UserProvider>(provider: &P, id: &str, token: &str) -> (r: Result<
    (),
    AppError,
>)
    ensures
        provider.delete_user_answer(id@, token@, outcome_view(r)),
{
    provider.delete_user(id, token)
}

/// Gives a role to a user, unless the id of the role is blank.
pub fn add_role_to_user_service<P: UserProvider>(
    provider: &P,
    user_id: &str,
    role_id: &str,
    token: &str,
) -> (r: Result<(), AppError>)
    ensures
        if blank(role_id@) {
            outcome_view(r) == Err::<(), AppErrorView>(
                AppErrorView::ValidationError { details: ROLE_ID_REQUIRED@ },
            )
        } else {
            provider.add_role_answer(user_id@, role_id@, token@, outcome_view(r))
        },
{
    if is_blank(role_id) {
        Err(AppError::ValidationError { details: ROLE_ID_REQUIRED.to_owned() })
    } else {
        provider.add_role(user_id, role_id, token)
    }
}

/// Takes a role from a user.
pub fn remove_role_from_user_service<P: UserProvider>(
    provider: &P,
    user_id: &str,
    role_id: &str,
    token: &str,
) -> (r: Result<(), AppError>)
    ensures
        provider.remove_role_answer(user_id@, role_id@, token@, outcome_view(r)),
{
    provider.remove_role(user_id, role_id, token)
}

/// Lists the roles.
pub fn get_roles_service<P: RoleProvider>(provider: &P, token: &str) -> (r: Result<
    GetAllRolesRes,
    AppError,
>)
    ensures
        provider.get_roles_answer(token@, outcome_view(r)),
{
    provider.get_roles(token)
}

/// Fetches a role.
pub fn get_role_service<P: RoleProvider>(provider: &P, id: &str, token: &str) -> (r: Result<
    GetRoleRes,
    AppError,
>)
    ensures
        provider.get_role_answer(id@, token@, outcome_view(r)),
{
    provider.get_role(id, token)
}

/// Creates a role, unless the request breaks a rule.
pub fn create_role_service<P: RoleProvider>(provider: &P, req: &CreateRoleReq, token: &str) -> (r:
    Result<GetRoleRes, AppError>)
    ensures
        match admitted(role_errors(req@)) {
            Err(error) => outcome_view(r) == Err::<GetRoleResView, AppErrorView>(error),
            Ok(_) => provider.create_role_answer(req@, token@, outcome_view(r)),
        },
{
    match admit_verdict(validate_create_role(req)) {
        Err(error) => Err(error),
        Ok(_) => provider.create_role(req, token),
    }
}

/// Gives a role a new state, unless the request breaks a rule.
pub fn update_role_service<P: RoleProvider>(
    provider: &P,
    id: &str,
    req: &CreateRoleReq,
    token: &str,
) -> (r: Result<(), AppError>)
    ensures
        match admitted(role_errors(req@)) {
            Err(error) => outcome_view(r) == Err::<(), AppErrorView>(error),
            Ok(_) => provider.update_role_answer(id@, req@, token@, outcome_view(r)),
        },
{
    match admit_verdict(validate_update_role(req)) {
        Err(error) => Err(error),
        Ok(_) => provider.update_role(id, req, token),
    }
}

/// Updates the fields of a role that the request brings, unless it breaks a
/// rule.
pub fn patch_role_service<P: RoleProvider>(
    provider: &P,
    id: &str,
    req: &UpdateRolePartialReq,
    token: &str,
) -> (r: Result<GetRoleRes, AppError>)
    ensures
        match admitted(partial_role_errors(req@)) {
            Err(error) => outcome_view(r) == Err::<GetRoleResView, AppErrorView>(error),
            Ok(_) => provider.patch_role_answer(id@, req@, token@, outcome_view(r)),
        },
{
    match admit_verdict(validate_update_role_partial(req)) {
        Err(error) => Err(error),
        Ok(_) => provider.patch_role(id, req, token),
    }
}

/// Deletes a role.
pub fn delete_role_service<P: RoleProvider>(provider: &P, id: &str, token: &str) -> (r: Result<
    (),
    AppError,
>)
    ensures
        provider.delete_role_answer(id@, token@, outcome_view(r)),
{
    provider.delete_role(id, token)
}

} // verus!

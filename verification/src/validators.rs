//! The rules that a request has to meet before anything is sent upstream. Each
//! validator gathers every broken rule into one list of messages.

use vstd::prelude::*;

use crate::dtos::{
    CreateRoleReq, CreateRoleReqView, CreateUserReq, CreateUserReqView, LoginReq, LoginReqView,
    UpdateRolePartialReq, UpdateRolePartialReqView, UpdateUserReq, UpdateUserReqView,
};
use crate::pattern::{pattern_found, regex_is_match};
use crate::text::{blank, is_blank};

verus! {

/// The pattern that a user name has to match: `local@domain.tld`, with no white
/// space and no further `@`, capitals and small letters taken as one.
pub const EMAIL_PATTERN: &'static str = r#"(?i)^[^@\s]+@[^@\s]+\.[^@\s]+$"#;

/// What is said where the e-mail pattern could not be compiled.
pub const PATTERN_FAILED: &'static str = "Failed to compile email regex";

/// The outcome of a validation: `Ok` where no rule is broken, else the messages.
pub open spec fn verdict(errors: Seq<Seq<char>>) -> Result<(), Seq<Seq<char>>> {
    if errors.len() == 0 {
        Ok(())
    } else {
        Err(errors)
    }
}

/// The value of what a validator returns.
pub open spec fn verdict_view(r: Result<(), Vec<String>>) -> Result<(), Seq<Seq<char>>> {
    match r {
        Ok(_) => Ok(()),
        Err(errors) => Err(errors.deep_view()),
    }
}

/// One message where the rule is broken, none where it is kept.
pub open spec fn when(broken: bool, message: Seq<char>) -> Seq<Seq<char>> {
    if broken {
        seq![message]
    } else {
        seq![]
    }
}

/// What the search of a user name for [`EMAIL_PATTERN`] brings: nothing where it
/// was found, the message of the format where it was not, and the message of
/// the pattern where that could not be compiled.
pub open spec fn email_errors(email: Option<bool>) -> Seq<Seq<char>> {
    match email {
        Some(true) => seq![],
        Some(false) => seq!["Invalid email format"@],
        None => seq![PATTERN_FAILED@],
    }
}

/// Whether a present field is blank.
pub open spec fn present_blank(field: Option<Seq<char>>) -> bool {
    field matches Some(s) && blank(s)
}

fn note(errors: &mut Vec<String>, broken: bool, message: &str)
    ensures
        final(errors).deep_view() == old(errors).deep_view() + when(broken, message@),
{
    if broken {
        errors.push(message.to_owned());
    }
    assert(errors.deep_view() =~= old(errors).deep_view() + when(broken, message@));
}

fn note_email(errors: &mut Vec<String>, email: Option<bool>)
    ensures
        final(errors).deep_view() == old(errors).deep_view() + email_errors(email),
{
    match email {
        Some(true) => {},
        Some(false) => errors.push("Invalid email format".to_owned()),
        None => errors.push(PATTERN_FAILED.to_owned()),
    }
    assert(errors.deep_view() =~= old(errors).deep_view() + email_errors(email));
}

fn conclude(errors: Vec<String>) -> (r: Result<(), Vec<String>>)
    ensures
        verdict_view(r) == verdict(errors.deep_view()),
{
    if errors.len() == 0 {
        Ok(())
    } else {
        Err(errors)
    }
}

fn is_present_blank(field: &Option<String>) -> (b: bool)
    ensures
        b == present_blank(field.deep_view()),
{
    match field {
        Some(s) => is_blank(s.as_str()),
        None => false,
    }
}

/// The messages for a login, given what the search of the user name for
/// [`EMAIL_PATTERN`] answered. A blank user name is not searched.
pub open spec fn login_errors(form: LoginReqView, email: Option<bool>) -> Seq<Seq<char>> {
    (if blank(form.username) {
        seq!["Username is required"@]
    } else {
        email_errors(email)
    }) + when(blank(form.password), "Password is required"@)
}

/// Judges a login, given what the search of its user name for the e-mail pattern
/// answered.
pub fn check_login(form: &LoginReq, email: Option<bool>) -> (r: Result<(), Vec<String>>)
    ensures
        verdict_view(r) == verdict(login_errors(form@, email)),
{
    let mut errors: Vec<String> = Vec::new();
    assert(errors.deep_view() =~= Seq::<Seq<char>>::empty());
    if is_blank(form.username.as_str()) {
        note(&mut errors, true, "Username is required");
    } else {
        note_email(&mut errors, email);
    }
    note(&mut errors, is_blank(form.password.as_str()), "Password is required");
    assert(errors.deep_view() =~= login_errors(form@, email));
    conclude(errors)
}

/// Validates a login: the user name is not blank and matches [`EMAIL_PATTERN`],
/// and the password is not blank.
pub fn validate_login(form: &LoginReq) -> (r: Result<(), Vec<String>>)
    ensures
        verdict_view(r) == verdict(
            login_errors(form@, pattern_found(EMAIL_PATTERN@, form@.username)),
        ),
        blank(form@.username) ==> r is Err,
        blank(form@.password) ==> (r matches Err(errors) && errors.deep_view().contains(
            "Password is required"@,
        )),
{
    let email = if is_blank(form.username.as_str()) {
        None
    } else {
        regex_is_match(EMAIL_PATTERN, form.username.as_str())
    };
    let r = check_login(form, email);
    proof {
        let errors = login_errors(form@, pattern_found(EMAIL_PATTERN@, form@.username));
        if blank(form@.username) {
            assert(errors[0] == "Username is required"@);
        }
        if blank(form@.password) {
            assert(errors.last() == "Password is required"@);
        }
    }
    r
}

/// The messages for a user to create, given what the search of the user name for
/// [`EMAIL_PATTERN`] answered. A blank user name is not searched.
pub open spec fn create_user_errors(req: CreateUserReqView, email: Option<bool>) -> Seq<Seq<char>> {
    (if blank(req.username) {
        seq!["Username is required"@]
    } else {
        email_errors(email)
    }) + when(blank(req.password), "Password is required"@) + when(
        blank(req.first_name),
        "First name is required"@,
    ) + when(blank(req.last_name), "Last name is required"@)
}

/// Judges a user to create, given what the search of its user name for the e-mail
/// pattern answered.
pub fn check_create_user(req: &CreateUserReq, email: Option<bool>) -> (r: Result<(), Vec<String>>)
    ensures
        verdict_view(r) == verdict(create_user_errors(req@, email)),
{
    let mut errors: Vec<String> = Vec::new();
    assert(errors.deep_view() =~= Seq::<Seq<char>>::empty());
    if is_blank(req.username.as_str()) {
        note(&mut errors, true, "Username is required");
    } else {
        note_email(&mut errors, email);
    }
    note(&mut errors, is_blank(req.password.as_str()), "Password is required");
    note(&mut errors, is_blank(req.first_name.as_str()), "First name is required");
    note(&mut errors, is_blank(req.last_name.as_str()), "Last name is required");
    assert(errors.deep_view() =~= create_user_errors(req@, email));
    conclude(errors)
}

/// Validates a user to create: the user name is not blank and matches
/// [`EMAIL_PATTERN`]; password, first name and last name are not blank.
pub fn validate_create_user(req: &CreateUserReq) -> (r: Result<(), Vec<String>>)
    ensures
        verdict_view(r) == verdict(
            create_user_errors(req@, pattern_found(EMAIL_PATTERN@, req@.username)),
        ),
{
    let email = if is_blank(req.username.as_str()) {
        None
    } else {
        regex_is_match(EMAIL_PATTERN, req.username.as_str())
    };
    check_create_user(req, email)
}

/// The messages for a partial update of a user, given what the search of the new
/// user name for [`EMAIL_PATTERN`] answered. Only the fields that are present are
/// judged; a present user name is searched even where it is blank.
pub open spec fn update_user_errors(req: UpdateUserReqView, email: Option<bool>) -> Seq<Seq<char>> {
    when(present_blank(req.username), "Username cannot be empty"@) + (if req.username is Some {
        email_errors(email)
    } else {
        seq![]
    }) + when(present_blank(req.first_name), "First name cannot be empty"@) + when(
        present_blank(req.last_name),
        "Last name cannot be empty"@,
    )
}

/// What the search of the new user name for [`EMAIL_PATTERN`] answers; `None`
/// also where the update brings no user name.
pub open spec fn update_user_email(req: UpdateUserReqView) -> Option<bool> {
    match req.username {
        Some(username) => pattern_found(EMAIL_PATTERN@, username),
        None => None,
    }
}

/// Judges a partial update of a user, given what the search of its user name for
/// the e-mail pattern answered.
pub fn check_update_user(req: &UpdateUserReq, email: Option<bool>) -> (r: Result<(), Vec<String>>)
    ensures
        verdict_view(r) == verdict(update_user_errors(req@, email)),
{
    let mut errors: Vec<String> = Vec::new();
    assert(errors.deep_view() =~= Seq::<Seq<char>>::empty());
    note(&mut errors, is_present_blank(&req.username), "Username cannot be empty");
    if req.username.is_some() {
        note_email(&mut errors, email);
    }
    note(&mut errors, is_present_blank(&req.first_name), "First name cannot be empty");
    note(&mut errors, is_present_blank(&req.last_name), "Last name cannot be empty");
    assert(errors.deep_view() =~= update_user_errors(req@, email));
    conclude(errors)
}

/// Validates a partial update of a user: a user name that is present is not blank
/// and matches [`EMAIL_PATTERN`]; a first or last name that is present is not
/// blank.
pub fn validate_update_user(req: &UpdateUserReq) -> (r: Result<(), Vec<String>>)
    ensures
        verdict_view(r) == verdict(update_user_errors(req@, update_user_email(req@))),
{
    let email = match &req.username {
        Some(username) => regex_is_match(EMAIL_PATTERN, username.as_str()),
        None => None,
    };
    check_update_user(req, email)
}

/// The messages for a role: its name and its container are not blank.
pub open spec fn role_errors(req: CreateRoleReqView) -> Seq<Seq<char>> {
    when(blank(req.name), "Role name is required"@) + when(
        blank(req.container_id),
        "Container ID is required"@,
    )
}

/// Validates a role to create.
pub fn validate_create_role(req: &CreateRoleReq) -> (r: Result<(), Vec<String>>)
    ensures
        verdict_view(r) == verdict(role_errors(req@)),
{
    validate_update_role(req)
}

/// Validates the new state of a role.
pub fn validate_update_role(req: &CreateRoleReq) -> (r: Result<(), Vec<String>>)
    ensures
        verdict_view(r) == verdict(role_errors(req@)),
{
    let mut errors: Vec<String> = Vec::new();
    assert(errors.deep_view() =~= Seq::<Seq<char>>::empty());
    note(&mut errors, is_blank(req.name.as_str()), "Role name is required");
    note(&mut errors, is_blank(req.container_id.as_str()), "Container ID is required");
    assert(errors.deep_view() =~= role_errors(req@));
    conclude(errors)
}

/// Whether a partial update of a role brings no field at all.
pub open spec fn brings_nothing(req: UpdateRolePartialReqView) -> bool {
    &&& req.name is None
    &&& req.description is None
    &&& req.composite is None
    &&& req.client_role is None
    &&& req.container_id is None
}

/// The messages for a partial update of a role: a name or a container that is
/// present is not blank, and at least one field is present.
pub open spec fn partial_role_errors(req: UpdateRolePartialReqView) -> Seq<Seq<char>> {
    when(present_blank(req.name), "name cannot be empty"@) + when(
        present_blank(req.container_id),
        "container_id cannot be empty"@,
    ) + when(brings_nothing(req), "at least one field must be provided"@)
}

/// Validates a partial update of a role.
pub fn validate_update_role_partial(req: &UpdateRolePartialReq) -> (r: Result<(), Vec<String>>)
    ensures
        verdict_view(r) == verdict(partial_role_errors(req@)),
{
    let mut errors: Vec<String> = Vec::new();
    assert(errors.deep_view() =~= Seq::<Seq<char>>::empty());
    note(&mut errors, is_present_blank(&req.name), "name cannot be empty");
    note(&mut errors, is_present_blank(&req.container_id), "container_id cannot be empty");
    let nothing = req.name.is_none() && req.description.is_none() && req.composite.is_none()
        && req.client_role.is_none() && req.container_id.is_none();
    note(&mut errors, nothing, "at least one field must be provided");
    assert(errors.deep_view() =~= partial_role_errors(req@));
    conclude(errors)
}

/// The messages for a new password: it is not blank.
pub open spec fn password_errors(password: Seq<char>) -> Seq<Seq<char>> {
    when(blank(password), "Password is required"@)
}

/// Validates a new password.
pub fn validate_update_password(password: &str) -> (r: Result<(), Vec<String>>)
    ensures
        verdict_view(r) == verdict(password_errors(password@)),
{
    let mut errors: Vec<String> = Vec::new();
    assert(errors.deep_view() =~= Seq::<Seq<char>>::empty());
    note(&mut errors, is_blank(password), "Password is required");
    assert(errors.deep_view() =~= password_errors(password@));
    conclude(errors)
}

} // verus!

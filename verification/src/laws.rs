//! What holds of the use cases whatever the input: the laws that relate the
//! rules, the steps and the readings of the provider's documents.

use vstd::prelude::*;

use crate::bodies::{deleted_mark, deleted_role, disable_body, marked_attributes};
use crate::dtos::{
    CreateUserReqView, LoginReqKeycloakView, LoginReqView, LoginResKeycloakView,
    UpdateRolePartialReqView, UpdateUserReqView,
};
use crate::error::AppErrorView;
use crate::http::{
    authorized_view, body_or, success, BodyView, HttpReplyView, KeycloakConfigView, Method,
    StepView, UpstreamView,
};
use crate::json::{lemma_lookup_put, lookup, parsed_document, JsonView};
use crate::keycloak::auth::{login_outcome, login_step};
use crate::keycloak::common::{not_found, READ_FAILED, ROLE_DELETED};
use crate::keycloak::role::{
    create_role_step, delete_role_step, get_role_outcome, get_role_step, get_roles_step,
    patch_role_step, update_role_step,
};
use crate::keycloak::user::{
    add_role_step, create_user_step, delete_user_step, get_user_step, get_users_step,
    remove_role_step, update_password_step, update_user_step,
};
use crate::mapping::{
    first_name_names, first_present, last_name_names, marked_deleted, session_of, truthy,
    user_of, users_of, visible_roles,
};
use crate::services::{login_plan, rejected, session};
use crate::text::{ascii, ascii_white_space, blank, white_space};
use crate::validators::{
    brings_nothing, create_user_errors, login_errors, partial_role_errors, update_user_errors,
    verdict,
};
use crate::web::{answer_of, AnswerView, Endpoint};

verus! {

/// The empty text is blank, and so is every text made of spaces, tabulators and
/// the other white space of ASCII; a text that holds an ASCII character of
/// another kind is not.
pub proof fn law_ascii_decides_blank(s: Seq<char>, i: int)
    ensures
        blank(Seq::<char>::empty()),
        blank(""@),
        (forall|j: int| 0 <= j < s.len() ==> ascii_white_space(#[trigger] s[j])) ==> blank(s),
        0 <= i < s.len() && ascii(s[i]) && !ascii_white_space(s[i]) ==> !blank(s),
{
    reveal_strlit("");
    if forall|j: int| 0 <= j < s.len() ==> ascii_white_space(#[trigger] s[j]) {
        assert forall|j: int| 0 <= j < s.len() implies white_space(#[trigger] s[j]) by {
            assert(ascii_white_space(s[j]));
        }
    }
    if 0 <= i < s.len() && ascii(s[i]) && !ascii_white_space(s[i]) {
        assert(!white_space(s[i]));
    }
}

/// A login whose user name or password is blank breaks a rule, and hands
/// nothing to the provider: its plan is the failure of the validation, whatever
/// the search for the e-mail pattern answered. A blank user name and a blank
/// password are each named in the messages.
pub proof fn law_blank_login_stays_home(
    form: LoginReqView,
    client_id: Seq<char>,
    client_secret: Seq<char>,
    email: Option<bool>,
)
    requires
        blank(form.username) || blank(form.password),
    ensures
        verdict(login_errors(form, email)) is Err,
        login_plan(form, client_id, client_secret, email) == Err::<
            LoginReqKeycloakView,
            AppErrorView,
        >(rejected(login_errors(form, email))),
        blank(form.username) ==> login_errors(form, email).contains("Username is required"@),
        blank(form.password) ==> login_errors(form, email).contains("Password is required"@),
{
    let errors = login_errors(form, email);
    if blank(form.username) {
        assert(errors[0] == "Username is required"@);
    }
    if blank(form.password) {
        assert(errors.last() == "Password is required"@);
    }
}

/// No failure is answered as a success: the status of every failure lies
/// between 400 and 599, and a route answers the failure of its use case with
/// that status and a success with a status between 200 and 299.
pub proof fn law_failure_is_no_success<V>(
    endpoint: Endpoint,
    error: AppErrorView,
    outcome: Result<V, AppErrorView>,
)
    ensures
        400 <= error.status_code() <= 599,
        outcome is Err ==> (answer_of(endpoint, outcome) matches AnswerView::Failure {
            status,
            ..
        } && 400 <= status <= 599),
        outcome is Ok ==> (answer_of(endpoint, outcome) matches AnswerView::Success {
            status,
            ..
        } && 200 <= status <= 299),
{
    if let Err(failure) = outcome {
        assert(400 <= failure.status_code() <= 599);
    }
}

/// A user name that is not blank and does not match the e-mail pattern brings
/// the message of the e-mail format: in a login, in a user to create, and in an
/// update that brings a user name.
pub proof fn law_misshapen_email_is_named(
    login: LoginReqView,
    create: CreateUserReqView,
    update: UpdateUserReqView,
)
    ensures
        !blank(login.username) ==> login_errors(login, Some(false)).contains(
            "Invalid email format"@,
        ),
        !blank(create.username) ==> create_user_errors(create, Some(false)).contains(
            "Invalid email format"@,
        ),
        update.username is Some ==> update_user_errors(update, Some(false)).contains(
            "Invalid email format"@,
        ),
{
    if !blank(login.username) {
        assert(login_errors(login, Some(false))[0] == "Invalid email format"@);
    }
    if !blank(create.username) {
        assert(create_user_errors(create, Some(false))[0] == "Invalid email format"@);
    }
    if update.username is Some {
        let errors = update_user_errors(update, Some(false));
        if blank(update.username->0) {
            assert(errors[1] == "Invalid email format"@);
        } else {
            assert(errors[0] == "Invalid email format"@);
        }
    }
}

/// A login that is answered with success and a token payload that states all it
/// has to ends with that session; and the session that is handed to the caller
/// passes the tokens and the token type on as they are, each expiry as it is
/// where it fits in 16 bits, and as 0 where it does not.
pub proof fn law_login_passes_session_on(
    config: KeycloakConfigView,
    req: LoginReqKeycloakView,
    reply: HttpReplyView,
    text: Seq<char>,
    doc: JsonView,
    stated: LoginResKeycloakView,
)
    requires
        success(reply.status),
        reply.body == Ok::<Seq<char>, Seq<char>>(text),
        parsed_document(text) == Ok::<JsonView, Seq<char>>(doc),
        session_of(doc) == Some(stated),
    ensures
        login_step(config, req, seq![UpstreamView::Reply(reply)]) == StepView::Done(
            Ok::<LoginResKeycloakView, AppErrorView>(stated),
        ),
        session(stated).token_type == stated.token_type,
        session(stated).access_token == stated.access_token,
        session(stated).refresh_token == stated.refresh_token,
        0 <= stated.expires_in <= u16::MAX ==> session(stated).expires_in == stated.expires_in,
        !(0 <= stated.expires_in <= u16::MAX) ==> session(stated).expires_in == 0,
        0 <= stated.refresh_expires_in <= u16::MAX ==> session(stated).refresh_expires_in
            == stated.refresh_expires_in,
        !(0 <= stated.refresh_expires_in <= u16::MAX) ==> session(stated).refresh_expires_in
            == 0,
{
}

/// How a login that the provider refuses ends: 401 is a refusal of the
/// credentials; 400 is a refusal of the input, with the body as detail; any
/// other status but success is the failure of the provider, with that status.
pub proof fn law_login_refusals(reply: HttpReplyView)
    requires
        !success(reply.status),
    ensures
        reply.status == 401 ==> login_outcome(UpstreamView::Reply(reply)) == Err::<
            LoginResKeycloakView,
            AppErrorView,
        >(AppErrorView::InvalidCredentials { code: 401 }),
        reply.status == 400 ==> login_outcome(UpstreamView::Reply(reply)) == Err::<
            LoginResKeycloakView,
            AppErrorView,
        >(AppErrorView::ValidationError { details: body_or(reply.body, READ_FAILED@) }),
        reply.status != 400 && reply.status != 401 ==> login_outcome(UpstreamView::Reply(reply))
            == Err::<LoginResKeycloakView, AppErrorView>(
            AppErrorView::ExternalServiceError {
                code: reply.status,
                details: body_or(reply.body, READ_FAILED@),
                source: None,
            },
        ),
{
}

/// A user whose document has the first name under none of its spellings has
/// the empty first name, alone and in a list; the same holds of the last name.
pub proof fn law_missing_name_is_empty(doc: JsonView, items: Seq<JsonView>, i: int)
    ensures
        doc.field("firstName"@) is None && doc.field("first-name"@) is None && doc.field(
            "first_name"@,
        ) is None ==> user_of(doc).first_name == Seq::<char>::empty(),
        doc.field("lastName"@) is None && doc.field("last-name"@) is None && doc.field(
            "last_name"@,
        ) is None ==> user_of(doc).last_name == Seq::<char>::empty(),
        0 <= i < items.len() ==> users_of(JsonView::Array(items)) is Some && users_of(
            JsonView::Array(items),
        )->0.len() == items.len() && users_of(JsonView::Array(items))->0[i] == user_of(items[i]),
{
    reveal_with_fuel(first_present, 4);
    let first = first_name_names();
    assert(first.drop_first() =~= seq!["first-name"@, "first_name"@]);
    assert(first.drop_first().drop_first() =~= seq!["first_name"@]);
    assert(first.drop_first().drop_first().drop_first().len() == 0);
    let last = last_name_names();
    assert(last.drop_first() =~= seq!["last-name"@, "last_name"@]);
    assert(last.drop_first().drop_first() =~= seq!["last_name"@]);
    assert(last.drop_first().drop_first().drop_first().len() == 0);
}

/// A role whose attributes hold, under `deleted`, a list with the text `true`
/// in it is marked as deleted.
pub proof fn law_true_marks_deleted(
    doc: JsonView,
    attributes: JsonView,
    marks: Seq<JsonView>,
    i: int,
)
    requires
        doc.field("attributes"@) == Some(attributes),
        attributes.field("deleted"@) == Some(JsonView::Array(marks)),
        0 <= i < marks.len(),
        marks[i] == JsonView::Text("true"@),
    ensures
        marked_deleted(doc),
{
    assert(truthy(marks[i]));
}

/// A role that is marked as deleted adds nothing to the list of roles: the list
/// is what it would be without the entry.
pub proof fn law_deleted_role_is_not_listed(items: Seq<JsonView>, i: int)
    requires
        0 <= i < items.len(),
        marked_deleted(items[i]),
    ensures
        visible_roles(items) == visible_roles(items.remove(i)),
    decreases items.len(),
{
    let rest = items.drop_last();
    if i == items.len() - 1 {
        assert(items.remove(i) == rest);
    } else {
        law_deleted_role_is_not_listed(rest, i);
        let without = items.remove(i);
        assert(without.drop_last() == rest.remove(i));
        assert(without.last() == items.last());
    }
}

/// A role that is marked as deleted is absent where it is fetched: the answer
/// 200 with its document ends in the failure for a role that is not found.
pub proof fn law_deleted_role_is_not_found(
    id: Seq<char>,
    reply: HttpReplyView,
    text: Seq<char>,
    doc: JsonView,
)
    requires
        reply.status == 200,
        reply.body == Ok::<Seq<char>, Seq<char>>(text),
        parsed_document(text) == Ok::<JsonView, Seq<char>>(doc),
        marked_deleted(doc),
    ensures
        get_role_outcome(id, UpstreamView::Reply(reply)) == Err::<
            crate::dtos::GetRoleResView,
            AppErrorView,
        >(not_found("role"@, id)),
{
}

/// A role that was deleted is marked as deleted, whatever its document held.
pub proof fn law_delete_marks(doc: JsonView)
    requires
        doc is Object,
    ensures
        marked_deleted(deleted_role(doc)),
{
    let attributes = marked_attributes(doc);
    lemma_lookup_put(doc->Object_0, "attributes"@, attributes, "attributes"@);
    assert(deleted_role(doc).field("attributes"@) == Some(attributes));
    match doc.field("attributes"@) {
        Some(JsonView::Object(fields)) => {
            lemma_lookup_put(fields, "deleted"@, deleted_mark(), "deleted"@);
        },
        _ => {
            assert(lookup(seq![("deleted"@, deleted_mark())], "deleted"@) == Some(deleted_mark()));
        },
    }
    assert(attributes.field("deleted"@) == Some(deleted_mark()));
    assert(truthy(deleted_mark()->Array_0[0]));
}

/// A partial update of a role that brings no field has the one message that a
/// field must be provided; one that brings a field has no such message.
pub proof fn law_partial_role_needs_a_field(req: UpdateRolePartialReqView)
    ensures
        brings_nothing(req) ==> partial_role_errors(req) == seq![
            "at least one field must be provided"@,
        ],
        !brings_nothing(req) ==> !partial_role_errors(req).contains(
            "at least one field must be provided"@,
        ),
{
    reveal_strlit("at least one field must be provided");
    reveal_strlit("name cannot be empty");
    reveal_strlit("container_id cannot be empty");
    let errors = partial_role_errors(req);
    let aggregate = "at least one field must be provided"@;
    if brings_nothing(req) {
        assert(errors =~= seq![aggregate]);
    } else {
        assert("name cannot be empty"@.len() != aggregate.len());
        assert("container_id cannot be empty"@.len() != aggregate.len());
        assert forall|i: int| 0 <= i < errors.len() implies errors[i] != aggregate by {
            assert(errors[i] == "name cannot be empty"@ || errors[i]
                == "container_id cannot be empty"@);
        }
    }
}

/// Giving a role begins with the request for the role, and a role that is
/// marked as deleted is not given: after the one answer with its document the
/// use case ends in a failure of the validation, and no second request is made.
pub proof fn law_deleted_role_is_not_given(
    config: KeycloakConfigView,
    user_id: Seq<char>,
    role_id: Seq<char>,
    token: Seq<char>,
    reply: HttpReplyView,
    text: Seq<char>,
    role: JsonView,
)
    requires
        success(reply.status),
        reply.body == Ok::<Seq<char>, Seq<char>>(text),
        parsed_document(text) == Ok::<JsonView, Seq<char>>(role),
        marked_deleted(role),
    ensures
        add_role_step(config, user_id, role_id, token, Seq::empty()) == StepView::<()>::Call(
            authorized_view(Method::Get, config.role_url(role_id), token, BodyView::Empty),
        ),
        add_role_step(config, user_id, role_id, token, seq![UpstreamView::Reply(reply)])
            == StepView::Done(
            Err::<(), AppErrorView>(AppErrorView::ValidationError { details: ROLE_DELETED@ }),
        ),
{
}

/// Deleting a user is the same request each time, and every answer of success
/// ends it in success: a user that is disabled already is deleted again without
/// a failure.
pub proof fn law_delete_user_repeats(
    config: KeycloakConfigView,
    id: Seq<char>,
    token: Seq<char>,
    reply: HttpReplyView,
)
    requires
        success(reply.status),
    ensures
        delete_user_step(config, id, token, Seq::empty()) == StepView::<()>::Call(
            authorized_view(
                Method::Put,
                config.user_url(id),
                token,
                BodyView::Json(disable_body()),
            ),
        ),
        delete_user_step(config, id, token, seq![UpstreamView::Reply(reply)]) == StepView::Done(
            Ok::<(), AppErrorView>(()),
        ),
{
}

/// No use case on users makes more than two requests: with what came of two
/// requests in hand, each is done; those of one request are done after it.
pub proof fn law_users_need_two_requests_at_most(
    config: KeycloakConfigView,
    create: CreateUserReqView,
    update: UpdateUserReqView,
    id: Seq<char>,
    other: Seq<char>,
    token: Seq<char>,
    events: Seq<UpstreamView>,
)
    ensures
        events.len() >= 1 ==> create_user_step(config, create, token, events) is Done,
        events.len() >= 1 ==> get_users_step(config, token, events) is Done,
        events.len() >= 1 ==> get_user_step(config, id, token, events) is Done,
        events.len() >= 1 ==> update_password_step(config, id, other, token, events) is Done,
        events.len() >= 1 ==> delete_user_step(config, id, token, events) is Done,
        events.len() >= 2 ==> update_user_step(config, id, update, token, events) is Done,
        events.len() >= 2 ==> add_role_step(config, id, other, token, events) is Done,
        events.len() >= 2 ==> remove_role_step(config, id, other, token, events) is Done,
{
}

/// No use case on roles makes more than two requests.
pub proof fn law_roles_need_two_requests_at_most(
    config: KeycloakConfigView,
    create: crate::dtos::CreateRoleReqView,
    patch: UpdateRolePartialReqView,
    id: Seq<char>,
    token: Seq<char>,
    events: Seq<UpstreamView>,
)
    ensures
        events.len() >= 1 ==> get_roles_step(config, token, events) is Done,
        events.len() >= 1 ==> get_role_step(config, id, token, events) is Done,
        events.len() >= 2 ==> create_role_step(config, create, token, events) is Done,
        events.len() >= 2 ==> update_role_step(config, id, create, token, events) is Done,
        events.len() >= 2 ==> patch_role_step(config, id, patch, token, events) is Done,
        events.len() >= 2 ==> delete_role_step(config, id, token, events) is Done,
{
}

} // verus!
